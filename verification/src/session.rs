//! The images of one session and the position of the viewer among them.

use rand::rngs::StdRng;
use vstd::prelude::*;

use crate::folder::{
    candidates, distinct_names, lemma_candidates_distinct, read_images_in_folder, FolderEntry,
};
use crate::selection::{
    is_selection, lemma_selection_drawn_and_distinct, select_images, selection_size,
};
use crate::settings::Settings;

verus! {

/// Why no session could be built.
#[derive(Clone, Copy, Debug, PartialEq, Eq, Structural)]
pub enum SessionError {
    /// The folder is missing or could not be listed.
    FolderUnreadable,
}

/// A session as contracts see it: the paths of the selected images in the
/// order they are shown, the index of the one on display, and the timing.
pub struct SessionView {
    pub images: Seq<Seq<char>>,
    pub current_image: nat,
    pub session_time: usize,
    pub pause_time: usize,
}

impl SessionView {
    /// The position is an index into the images, or `0` when there are none.
    pub open spec fn wf(self) -> bool {
        self.current_image == 0 || self.current_image < self.images.len()
    }

    /// The path on display; none when the session has no images.
    pub open spec fn current_path(self) -> Option<Seq<char>> {
        if self.current_image < self.images.len() {
            Some(self.images[self.current_image as int])
        } else {
            None
        }
    }

    /// Whether an image follows the one on display.
    pub open spec fn has_next(self) -> bool {
        self.current_image + 1 < self.images.len()
    }

    /// Whether an image precedes the one on display.
    pub open spec fn has_previous(self) -> bool {
        0 < self.current_image < self.images.len()
    }

    /// The session one image further, or unchanged at the last image.
    pub open spec fn next(self) -> SessionView {
        if self.has_next() {
            SessionView { current_image: self.current_image + 1, ..self }
        } else {
            self
        }
    }

    /// The session one image back, or unchanged at the first image.
    pub open spec fn previous(self) -> SessionView {
        if self.has_previous() {
            SessionView { current_image: (self.current_image - 1) as nat, ..self }
        } else {
            self
        }
    }
}

/// A duration of the settings as the seconds a session counts; an absent
/// duration counts as none.
pub open spec fn seconds(duration: Option<u64>) -> usize {
    match duration {
        Some(value) => value as usize,
        None => 0,
    }
}

/// `session` is a session that `settings` allow for a folder with the given
/// entries: a selection of the requested size among the folder's
/// candidates, positioned on its first image, with the timing of the
/// settings.
pub open spec fn built_from(
    session: SessionView,
    settings: Settings,
    entries: Seq<FolderEntry>,
) -> bool {
    &&& is_selection(
        session.images,
        candidates(settings.folder@, entries),
        settings.images_number as nat,
    )
    &&& session.current_image == 0
    &&& session.session_time == seconds(settings.duration)
    &&& session.pause_time == seconds(settings.pause)
}

/// The selected images of one run and the viewer's position among them.
/// The images are fixed once the session exists; only the position moves.
#[derive(Debug)]
pub struct Session {
    images: Vec<String>,
    current_image: usize,
    session_time: usize,
    pause_time: usize,
}

impl View for Session {
    type V = SessionView;

    closed spec fn view(&self) -> SessionView {
        SessionView {
            images: self.images.deep_view(),
            current_image: self.current_image as nat,
            session_time: self.session_time,
            pause_time: self.pause_time,
        }
    }
}

impl Clone for Session {
    fn clone(&self) -> (copy: Session)
        ensures
            copy@ == self@,
    {
        proof {
            use_type_invariant(self);
        }
        let images = self.images.clone();
        assert(images.deep_view() =~= self.images.deep_view());
        Session {
            images,
            current_image: self.current_image,
            session_time: self.session_time,
            pause_time: self.pause_time,
        }
    }
}

impl Session {
    /// The position never leaves the images.
    #[verifier::type_invariant]
    pub open spec fn well_formed(self) -> bool {
        self@.wf()
    }

    /// A session without images and without timing.
    pub fn new() -> (session: Session)
        ensures
            session@.images.len() == 0,
            session@.current_image == 0,
            session@.session_time == 0,
            session@.pause_time == 0,
    {
        Session { images: Vec::new(), current_image: 0, session_time: 0, pause_time: 0 }
    }

    /// A session that shows `images` in the given order, starting at the
    /// first.
    pub fn with_images(images: Vec<String>, session_time: usize, pause_time: usize) -> (session:
        Session)
        ensures
            session@.images == images.deep_view(),
            session@.current_image == 0,
            session@.session_time == session_time,
            session@.pause_time == pause_time,
    {
        Session { images, current_image: 0, session_time, pause_time }
    }

    /// Builds the session that `settings` ask for from the listing of their
    /// folder: `None` for a folder that could not be listed, else its
    /// entries. The images are a random selection of the requested size
    /// among the folder's candidates, drawn from `rng`.
    pub fn from(settings: &Settings, listing: Option<Vec<FolderEntry>>, rng: &mut StdRng) -> (built:
        Result<Session, SessionError>)
        ensures
            match listing {
                Some(entries) => {
                    &&& built matches Ok(session)
                    &&& built_from(session@, *settings, entries@)
                    &&& session@.images.len() == selection_size(
                        settings.images_number as nat,
                        candidates(settings.folder@, entries@).len(),
                    )
                    &&& forall|i: int|
                        0 <= i < session@.images.len() ==> candidates(
                            settings.folder@,
                            entries@,
                        ).contains(#[trigger] session@.images[i])
                    &&& distinct_names(entries@) ==> session@.images.no_duplicates()
                },
                None => built == Err::<Session, SessionError>(SessionError::FolderUnreadable),
            },
    {
        let entries = match listing {
            Some(entries) => entries,
            None => return Err(SessionError::FolderUnreadable),
        };
        let images = read_images_in_folder(settings.folder.as_str(), &entries);
        let images = select_images(images, settings.images_number, rng);
        proof {
            let offered = candidates(settings.folder@, entries@);
            lemma_selection_drawn_and_distinct(
                images.deep_view(),
                offered,
                settings.images_number as nat,
            );
            if distinct_names(entries@) {
                lemma_candidates_distinct(settings.folder@, entries@);
            }
        }
        let duration = match settings.duration {
            Some(value) => value as usize,
            None => 0,
        };
        let pause = match settings.pause {
            Some(value) => value as usize,
            None => 0,
        };
        Ok(Session::with_images(images, duration, pause))
    }

    /// Seconds each image is shown before the next one comes; `0` for an
    /// untimed session.
    pub fn session_time(&self) -> (seconds: usize)
        ensures
            seconds == self@.session_time,
    {
        self.session_time
    }

    /// Seconds of rest between two images; `0` for none.
    pub fn pause_time(&self) -> (seconds: usize)
        ensures
            seconds == self@.pause_time,
    {
        self.pause_time
    }

    /// The selected images in the order they are shown.
    pub fn images(&self) -> (images: &Vec<String>)
        ensures
            images.deep_view() == self@.images,
    {
        &self.images
    }

    /// Where the viewer is: the number of the image on display, counted
    /// from one, and the number of images.
    pub fn position(&self) -> (position: (usize, usize))
        ensures
            position.0 == self@.current_image + 1,
            position.1 == self@.images.len(),
    {
        proof {
            use_type_invariant(self);
            assert(self.images.deep_view().len() == self.images.len());
        }
        (self.current_image + 1, self.images.len())
    }

    /// The path of the image on display.
    pub fn current_image(&self) -> (path: Option<String>)
        ensures
            path.deep_view() == self@.current_path(),
    {
        if self.current_image < self.images.len() {
            Some(self.images[self.current_image].clone())
        } else {
            None
        }
    }

    /// Steps back to the image before the one on display and returns its
    /// path. On the first image nothing changes and nothing is returned.
    pub fn previous_image(&mut self) -> (path: Option<String>)
        ensures
            final(self)@ == old(self)@.previous(),
            final(self)@.wf(),
            old(self)@.current_image == 0 ==> path is None && final(self)@ == old(self)@,
            path.deep_view() == if old(self)@.has_previous() {
                final(self)@.current_path()
            } else {
                None
            },
    {
        proof {
            use_type_invariant(&*self);
        }
        if self.current_image == 0 {
            return None;
        }
        self.current_image -= 1;
        Some(self.images[self.current_image].clone())
    }

    /// Steps on to the image after the one on display and returns its path.
    /// On the last image nothing changes and nothing is returned.
    pub fn next_image(&mut self) -> (path: Option<String>)
        ensures
            final(self)@ == old(self)@.next(),
            final(self)@.wf(),
            old(self)@.current_image + 1 == old(self)@.images.len() ==> path is None
                && final(self)@ == old(self)@,
            path.deep_view() == if old(self)@.has_next() {
                final(self)@.current_path()
            } else {
                None
            },
    {
        proof {
            use_type_invariant(&*self);
            assert(self.images.deep_view().len() == self.images.len());
        }
        if self.current_image + 1 >= self.images.len() {
            return None;
        }
        self.current_image += 1;
        Some(self.images[self.current_image].clone())
    }
}


/// From any image that has a successor, so from every interior one, going
/// on to the next image and back again restores the position and the path
/// on display.
pub proof fn lemma_next_then_previous(session: SessionView)
    requires
        session.wf(),
        session.has_next(),
    ensures
        session.next().previous() == session,
        session.next().previous().current_path() == session.current_path(),
{
}

/// From any image that has a predecessor, going back and on again restores
/// the position and the path on display.
pub proof fn lemma_previous_then_next(session: SessionView)
    requires
        session.wf(),
        session.has_previous(),
    ensures
        session.previous().next() == session,
        session.previous().next().current_path() == session.current_path(),
{
}

/// Moving among the images never changes them nor the timing, and keeps
/// the position among them.
pub proof fn lemma_navigation_keeps_wf(session: SessionView)
    requires
        session.wf(),
    ensures
        session.next().wf(),
        session.previous().wf(),
        session.next().images == session.images,
        session.previous().images == session.images,
{
}

} // verus!
