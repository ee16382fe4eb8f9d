//! The page that shows a session: it owns the session, the countdown and
//! the pause switch, and turns each message into the next state and at most
//! one event for the presentation.

use vstd::prelude::*;
use vstd::string::*;

use crate::decimal::{decimal, decimal_text};
use crate::session::{Session, SessionView};
use crate::timer::TimerState;

verus! {

/// A change the presentation applies to the picture on display.
#[derive(Clone, Copy, Debug, PartialEq, Eq, Structural)]
pub enum ImageTransform {
    Flip,
    RotateLeft,
    RotateRight,
}

/// What the page can be told.
#[derive(Debug)]
pub enum SessionPageMsg {
    /// A session was built and replaces the one on the page.
    NewSession(Session),
    /// The user asks for the next image.
    NextImage,
    /// The user switches the pause on or off.
    PauseImage,
    /// The user asks for the previous image.
    PrevImage,
    /// The user mirrors the picture.
    Flip,
    /// The user turns the picture a quarter to the left.
    RotateLeft,
    /// The user turns the picture a quarter to the right.
    RotateRight,
    /// One second has passed on the clock that was started for the session
    /// with this number.
    UpdateTimer(u64),
    /// The picture of the image on display could not be decoded.
    ImageFailed,
}

/// What the page reports to the presentation.
#[derive(Debug, PartialEq, Eq)]
pub enum SessionPageEvent {
    /// The image at this path came on display.
    ImageChanged(String),
    /// There is no image after the last one.
    SessionComplete,
    /// There is no image before the first one: back to the settings.
    ReturnToSettings,
    /// Something went wrong; the text says what.
    ErrorOccurred(String),
    /// The picture on display is to be transformed.
    TransformImage(ImageTransform),
}

/// An event as contracts see it.
pub enum SessionPageEventView {
    ImageChanged(Seq<char>),
    SessionComplete,
    ReturnToSettings,
    ErrorOccurred(Seq<char>),
    TransformImage(ImageTransform),
}

impl DeepView for SessionPageEvent {
    type V = SessionPageEventView;

    open spec fn deep_view(&self) -> SessionPageEventView {
        match self {
            SessionPageEvent::ImageChanged(path) => SessionPageEventView::ImageChanged(path@),
            SessionPageEvent::SessionComplete => SessionPageEventView::SessionComplete,
            SessionPageEvent::ReturnToSettings => SessionPageEventView::ReturnToSettings,
            SessionPageEvent::ErrorOccurred(text) => SessionPageEventView::ErrorOccurred(text@),
            SessionPageEvent::TransformImage(transform) => SessionPageEventView::TransformImage(
                *transform,
            ),
        }
    }
}

/// The text reported when a session has no image to show.
pub open spec fn no_images_text() -> Seq<char> {
    "No images found"@
}

/// The text reported when a picture could not be decoded.
pub open spec fn failed_image_text() -> Seq<char> {
    "Failed to load image"@
}

/// The position in a session as text: the number of the image on display,
/// counted from one, and the number of images.
pub open spec fn position_text(session: SessionView) -> Seq<char> {
    decimal(session.current_image + 1) + " / "@ + decimal(session.images.len())
}

/// The page as contracts see it.
pub struct SessionPageView {
    pub session: SessionView,
    pub timer: TimerState,
    /// While set, ticks pass without effect.
    pub stopped: bool,
    /// Set once the viewer has been told that no image is left.
    pub complete: bool,
    /// The number of the session on the page: each new session gets the
    /// next one, and a tick counts only if it carries it.
    pub generation: u64,
}

/// The outcome of one message: the state after it and the event it raised.
pub struct SessionPageStep {
    pub state: SessionPageView,
    pub event: Option<SessionPageEventView>,
}

impl SessionPageView {
    /// The session has a valid position and an active countdown has time
    /// left.
    pub open spec fn wf(self) -> bool {
        self.session.wf() && self.timer.valid()
    }

    /// The page before any session: nothing to show, nothing counting.
    pub open spec fn initial() -> SessionPageView {
        SessionPageView {
            session: SessionView {
                images: Seq::empty(),
                current_image: 0,
                session_time: 0,
                pause_time: 0,
            },
            timer: TimerState::Idle,
            stopped: false,
            complete: false,
            generation: 0,
        }
    }

    /// The number of the session after the one with number `generation`.
    pub open spec fn next_generation(generation: u64) -> u64 {
        if generation == u64::MAX {
            0
        } else {
            (generation + 1) as u64
        }
    }

    /// The page right after the current image of `session` came on display:
    /// the countdown starts afresh.
    pub open spec fn showing(self, session: SessionView) -> SessionPageView {
        SessionPageView {
            session,
            timer: TimerState::started(session.session_time),
            stopped: self.stopped,
            complete: false,
            generation: self.generation,
        }
    }

    /// A new session replaces the old one together with its countdown, and
    /// gets the next number, so that ticks still under way for the old one
    /// no longer count. With an image to show, the image comes on display;
    /// without, the error is reported and nothing counts down.
    pub open spec fn new_session(self, session: SessionView) -> SessionPageStep {
        let renewed = SessionPageView {
            generation: Self::next_generation(self.generation),
            ..self
        };
        match session.current_path() {
            Some(path) => SessionPageStep {
                state: renewed.showing(session),
                event: Some(SessionPageEventView::ImageChanged(path)),
            },
            None => SessionPageStep {
                state: SessionPageView {
                    session,
                    timer: TimerState::Idle,
                    complete: false,
                    ..renewed
                },
                event: Some(SessionPageEventView::ErrorOccurred(no_images_text())),
            },
        }
    }

    /// Moves on to the next image, or, on the last one, reports that the
    /// session is complete and leaves session and countdown as they are.
    pub open spec fn next_image(self) -> SessionPageStep {
        if self.session.has_next() {
            let session = self.session.next();
            SessionPageStep {
                state: self.showing(session),
                event: Some(
                    SessionPageEventView::ImageChanged(
                        session.images[session.current_image as int],
                    ),
                ),
            }
        } else {
            SessionPageStep {
                state: SessionPageView { complete: true, ..self },
                event: Some(SessionPageEventView::SessionComplete),
            }
        }
    }

    /// Moves back to the previous image, or, on the first one, asks for the
    /// settings and leaves everything as it is.
    pub open spec fn previous_image(self) -> SessionPageStep {
        if self.session.has_previous() {
            let session = self.session.previous();
            SessionPageStep {
                state: self.showing(session),
                event: Some(
                    SessionPageEventView::ImageChanged(
                        session.images[session.current_image as int],
                    ),
                ),
            }
        } else {
            SessionPageStep { state: self, event: Some(SessionPageEventView::ReturnToSettings) }
        }
    }

    /// One second passes on the clock of the session numbered
    /// `generation`. Nothing happens if that is not the session on the
    /// page, while the pause is on, or once the session is complete.
    /// Otherwise the countdown ticks, and where the tick asks to advance,
    /// the page moves on to the next image.
    pub open spec fn tick(self, generation: u64) -> SessionPageStep {
        if generation != self.generation || self.stopped || self.complete {
            SessionPageStep { state: self, event: None }
        } else {
            let tick = self.timer.ticked(self.session.session_time, self.session.pause_time);
            let ticked = SessionPageView { timer: tick.state, ..self };
            if tick.advance {
                ticked.next_image()
            } else {
                SessionPageStep { state: ticked, event: None }
            }
        }
    }

    /// State and event after one message.
    pub open spec fn step(self, msg: SessionPageMsg) -> SessionPageStep {
        match msg {
            SessionPageMsg::NewSession(session) => self.new_session(session@),
            SessionPageMsg::NextImage => self.next_image(),
            SessionPageMsg::PauseImage => SessionPageStep {
                state: SessionPageView { stopped: !self.stopped, ..self },
                event: None,
            },
            SessionPageMsg::PrevImage => self.previous_image(),
            SessionPageMsg::Flip => SessionPageStep {
                state: self,
                event: Some(SessionPageEventView::TransformImage(ImageTransform::Flip)),
            },
            SessionPageMsg::RotateLeft => SessionPageStep {
                state: self,
                event: Some(SessionPageEventView::TransformImage(ImageTransform::RotateLeft)),
            },
            SessionPageMsg::RotateRight => SessionPageStep {
                state: self,
                event: Some(SessionPageEventView::TransformImage(ImageTransform::RotateRight)),
            },
            SessionPageMsg::UpdateTimer(generation) => self.tick(generation),
            SessionPageMsg::ImageFailed => SessionPageStep {
                state: self,
                event: Some(SessionPageEventView::ErrorOccurred(failed_image_text())),
            },
        }
    }
}

/// The session on display with its countdown and pause switch.
#[derive(Debug)]
pub struct SessionPage {
    session: Session,
    timer: TimerState,
    stopped: bool,
    complete: bool,
    generation: u64,
}

impl View for SessionPage {
    type V = SessionPageView;

    closed spec fn view(&self) -> SessionPageView {
        SessionPageView {
            session: self.session@,
            timer: self.timer,
            stopped: self.stopped,
            complete: self.complete,
            generation: self.generation,
        }
    }
}

impl SessionPage {
    /// The page before any session has started.
    pub fn init_model() -> (page: SessionPage)
        ensures
            page@ == SessionPageView::initial(),
            page@.wf(),
    {
        let page = SessionPage {
            session: Session::new(),
            timer: TimerState::Idle,
            stopped: false,
            complete: false,
            generation: 0,
        };
        assert(page.session@.images =~= Seq::empty());
        page
    }

    /// Applies one message to the page and returns the event it raises.
    pub fn update(&mut self, msg: SessionPageMsg) -> (event: Option<SessionPageEvent>)
        ensures
            final(self)@ == old(self)@.step(msg).state,
            event.deep_view() == old(self)@.step(msg).event,
            old(self)@.wf() ==> final(self)@.wf(),
    {
        match msg {
            SessionPageMsg::NewSession(session) => {
                proof {
                    use_type_invariant(&session);
                }
                self.session = session;
                self.complete = false;
                self.generation = if self.generation == u64::MAX {
                    0
                } else {
                    self.generation + 1
                };
                match self.session.current_image() {
                    Some(path) => {
                        self.timer = TimerState::start(self.session.session_time());
                        Some(SessionPageEvent::ImageChanged(path))
                    },
                    None => {
                        self.timer = TimerState::Idle;
                        Some(SessionPageEvent::ErrorOccurred("No images found".to_owned()))
                    },
                }
            },
            SessionPageMsg::NextImage => Some(self.show_next_image()),
            SessionPageMsg::PauseImage => {
                self.stopped = !self.stopped;
                None
            },
            SessionPageMsg::PrevImage => {
                match self.session.previous_image() {
                    Some(path) => {
                        self.timer = TimerState::start(self.session.session_time());
                        self.complete = false;
                        Some(SessionPageEvent::ImageChanged(path))
                    },
                    None => Some(SessionPageEvent::ReturnToSettings),
                }
            },
            SessionPageMsg::Flip => Some(SessionPageEvent::TransformImage(ImageTransform::Flip)),
            SessionPageMsg::RotateLeft => Some(
                SessionPageEvent::TransformImage(ImageTransform::RotateLeft),
            ),
            SessionPageMsg::RotateRight => Some(
                SessionPageEvent::TransformImage(ImageTransform::RotateRight),
            ),
            SessionPageMsg::UpdateTimer(generation) => {
                if generation != self.generation || self.stopped || self.complete {
                    return None;
                }
                let tick = self.timer.tick(self.session.session_time(), self.session.pause_time());
                self.timer = tick.state;
                if tick.advance {
                    Some(self.show_next_image())
                } else {
                    None
                }
            },
            SessionPageMsg::ImageFailed => Some(
                SessionPageEvent::ErrorOccurred("Failed to load image".to_owned()),
            ),
        }
    }

    /// The session on the page.
    pub fn session(&self) -> (session: &Session)
        ensures
            session@ == self@.session,
    {
        &self.session
    }

    /// The countdown of the page.
    pub fn timer(&self) -> (timer: TimerState)
        ensures
            timer == self@.timer,
    {
        self.timer
    }

    /// The number of the session on the page, for the clock that ticks for
    /// it.
    pub fn generation(&self) -> (generation: u64)
        ensures
            generation == self@.generation,
    {
        self.generation
    }

    /// Whether the pause is on.
    pub fn is_stopped(&self) -> (stopped: bool)
        ensures
            stopped == self@.stopped,
    {
        self.stopped
    }

    /// Whether the viewer has been told that no image is left.
    pub fn is_complete(&self) -> (complete: bool)
        ensures
            complete == self@.complete,
    {
        self.complete
    }

    /// The position as the page shows it: the number of the image on
    /// display, counted from one, and the number of images, as in `2 / 10`.
    pub fn get_current_image_position(&self) -> (text: String)
        ensures
            text@ == position_text(self@.session),
    {
        let position = self.session.position();
        let mut text = decimal_text(position.0);
        text.append(" / ");
        text.append(decimal_text(position.1).as_str());
        text
    }

    /// The seconds left in the countdown as text; empty while nothing
    /// counts.
    pub fn get_timer_countdown(&self) -> (text: String)
        ensures
            text@ == self@.timer.countdown_text(),
    {
        self.timer.countdown()
    }

    /// Whether the page is in a rest between two images.
    pub fn intermission(&self) -> (resting: bool)
        ensures
            resting == (self@.timer is Resting),
    {
        self.timer.is_resting()
    }

    /// Moves on to the next image if there is one, and says what happened.
    fn show_next_image(&mut self) -> (event: SessionPageEvent)
        ensures
            final(self)@ == old(self)@.next_image().state,
            Some(event.deep_view()) == old(self)@.next_image().event,
            old(self)@.wf() ==> final(self)@.wf(),
    {
        match self.session.next_image() {
            Some(path) => {
                self.timer = TimerState::start(self.session.session_time());
                self.complete = false;
                SessionPageEvent::ImageChanged(path)
            },
            None => {
                self.complete = true;
                SessionPageEvent::SessionComplete
            },
        }
    }
}

/// While the pause is on, a tick changes nothing and raises no event.
pub proof fn lemma_stopped_tick_is_absorbed(page: SessionPageView, generation: u64)
    requires
        page.stopped,
    ensures
        page.step(SessionPageMsg::UpdateTimer(generation)) == (SessionPageStep {
            state: page,
            event: None,
        }),
{
}

/// A tick of the clock of an earlier session, arriving after a new session
/// has started, changes nothing and raises no event.
pub proof fn lemma_stale_tick_is_dropped(page: SessionPageView, session: Session, generation: u64)
    requires
        generation == page.generation,
    ensures
        ({
            let renewed = page.step(SessionPageMsg::NewSession(session)).state;
            renewed.step(SessionPageMsg::UpdateTimer(generation)) == (SessionPageStep {
                state: renewed,
                event: None,
            })
        }),
{
}

/// Switching the pause on and off again leaves the page as it was: the
/// countdown resumes where it stood.
pub proof fn lemma_pause_twice_is_identity(page: SessionPageView)
    ensures
        page.step(SessionPageMsg::PauseImage).state.step(SessionPageMsg::PauseImage).state
            == page,
        page.step(SessionPageMsg::PauseImage).state.timer == page.timer,
{
}

/// Every message leads from a well-formed page to a well-formed page,
/// provided a session that arrives is well-formed itself.
pub proof fn lemma_step_keeps_wf(page: SessionPageView, msg: SessionPageMsg)
    requires
        page.wf(),
        msg matches SessionPageMsg::NewSession(session) ==> session@.wf(),
    ensures
        page.step(msg).state.wf(),
{
}

/// No message but a new session changes the images or the timing of the
/// session on the page.
pub proof fn lemma_step_keeps_images(page: SessionPageView, msg: SessionPageMsg)
    requires
        !(msg is NewSession),
    ensures
        page.step(msg).state.session.images == page.session.images,
        page.step(msg).state.session.session_time == page.session.session_time,
        page.step(msg).state.session.pause_time == page.session.pause_time,
{
}

/// When an image comes on display, by whichever message, the countdown
/// starts afresh: a full display time, or none for an untimed session.
pub proof fn lemma_image_change_restarts_countdown(page: SessionPageView, msg: SessionPageMsg)
    requires
        page.step(msg).event matches Some(SessionPageEventView::ImageChanged(_)),
    ensures
        page.step(msg).state.timer == TimerState::started(
            page.step(msg).state.session.session_time,
        ),
        page.step(msg).event == Some(
            SessionPageEventView::ImageChanged(
                page.step(msg).state.session.current_path().unwrap(),
            ),
        ),
        !page.step(msg).state.complete,
{
}

} // verus!
