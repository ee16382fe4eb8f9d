//! What the user chooses before a session starts.

use vstd::prelude::*;
use vstd::string::*;

verus! {

/// The choices behind one session: where the images are, how many to show,
/// and the optional timing, in whole seconds.
#[derive(Debug, PartialEq, Eq)]
pub struct Settings {
    /// The folder the images are taken from.
    pub folder: String,
    /// How many images the session should show at most.
    pub images_number: usize,
    /// Seconds each image is shown before the next one comes; `None` for an
    /// untimed session.
    pub duration: Option<u64>,
    /// Seconds of rest between two images; `None` for no rest.
    pub pause: Option<u64>,
}

/// The folder proposed before the user has picked one.
pub open spec fn default_folder() -> Seq<char> {
    "~/Pictures"@
}

/// Whether a path begins with the `~/` that stands for the home folder.
pub open spec fn starts_at_home(path: Seq<char>) -> bool {
    path.len() >= 2 && path[0] == '~' && path[1] == '/'
}

/// A path with its leading `~` replaced by the home folder. A path that
/// does not begin with `~/` is left as it is, and so is every path when the
/// home folder is not known.
pub open spec fn resolved_folder(path: Seq<char>, home: Option<Seq<char>>) -> Seq<char> {
    match home {
        Some(home) if starts_at_home(path) => home + seq!['/'] + path.skip(2),
        _ => path,
    }
}

/// Replaces a leading `~/` of `path` by the home folder `home`, when there
/// is one.
pub fn resolve_home_folder(path: &str, home: Option<&str>) -> (folder: String)
    ensures
        folder@ == resolved_folder(path@, home.deep_view()),
{
    let length = path.unicode_len();
    if length < 2 || path.get_char(0) != '~' || path.get_char(1) != '/' {
        return path.to_owned();
    }
    match home {
        Some(home) => {
            let mut folder = home.to_owned();
            folder.append("/");
            folder.append(path.substring_char(2, length));
            proof {
                reveal_strlit("/");
                assert("/"@ =~= seq!['/']);
                assert(path@.subrange(2, length as int) =~= path@.skip(2));
            }
            folder
        },
        None => path.to_owned(),
    }
}

impl Settings {
    /// The settings a fresh form starts with: ten untimed images from the
    /// pictures folder under `home`.
    pub fn default(home: Option<&str>) -> (settings: Settings)
        ensures
            settings.folder@ == resolved_folder(default_folder(), home.deep_view()),
            settings.images_number == 10,
            settings.duration is None,
            settings.pause is None,
    {
        Settings {
            folder: resolve_home_folder("~/Pictures", home),
            images_number: 10,
            duration: None,
            pause: None,
        }
    }

    /// The chosen folder with a leading `~/` replaced by the home folder.
    pub fn resolve_folder(&self, home: Option<&str>) -> (folder: String)
        ensures
            folder@ == resolved_folder(self.folder@, home.deep_view()),
    {
        resolve_home_folder(self.folder.as_str(), home)
    }
}

impl Clone for Settings {
    fn clone(&self) -> (copy: Settings)
        ensures
            copy == *self,
    {
        Settings {
            folder: self.folder.clone(),
            images_number: self.images_number,
            duration: self.duration,
            pause: self.pause,
        }
    }
}

} // verus!
