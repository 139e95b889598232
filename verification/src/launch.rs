//! What a new browser session is started with: a window size and a profile directory.

use rand::distributions::Alphanumeric;
use rand::seq::SliceRandom;
use rand::Rng;
use vstd::prelude::*;
use vstd::string::*;

verus! {

/// The width of the window where no resolution is configured.
pub const DEFAULT_WIDTH: u32 = 1920;

/// The height of the window where no resolution is configured.
pub const DEFAULT_HEIGHT: u32 = 1080;

/// The directory below the home directory that holds the profile.
pub const HOME_PROFILE_DIR: &'static str = "/.browser-for-remote/";

/// The directory that holds the profile where there is no home directory; a random
/// name is put behind it.
pub const TEMP_PROFILE_DIR: &'static str = "/tmp/browser-for-remote/";

/// How many characters the random name of a temporary profile has.
pub const SUFFIX_LEN: usize = 10;

/// Whether a character is an ASCII letter or digit.
pub open spec fn is_alphanumeric(c: char) -> bool {
    ('a' <= c && c <= 'z') || ('A' <= c && c <= 'Z') || ('0' <= c && c <= '9')
}

/// Calls `rand::seq::SliceRandom::choose` on the list with the thread's generator.
///
/// Claimed: an empty list gives `None`; any other list gives one of its elements.
/// Which one is left open.
#[verifier::external_body]
pub(crate) fn choose_resolution(resolutions: &Vec<(u32, u32)>) -> (r: Option<(u32, u32)>)
    ensures
        resolutions@.len() == 0 ==> r is None,
        resolutions@.len() > 0 ==> r is Some && resolutions@.contains(r->0),
{
    resolutions.choose(&mut rand::thread_rng()).copied()
}

/// Draws `len` characters from `rand::distributions::Alphanumeric` with the thread's
/// generator, through `rand::Rng::sample_iter`.
///
/// Claimed: the text has `len` characters, each an ASCII letter or digit. Which ones is
/// left open.
#[verifier::external_body]
pub(crate) fn random_name(len: usize) -> (r: String)
    ensures
        r@.len() == len,
        forall|i: int| 0 <= i < r@.len() ==> is_alphanumeric(#[trigger] r@[i]),
{
    rand::thread_rng().sample_iter(&Alphanumeric).take(len).map(char::from).collect()
}

/// The window size to use, given what was drawn from the configured list: the drawn
/// size, or 1920 by 1080 where nothing was drawn.
pub fn window_size_or_default(drawn: Option<(u32, u32)>) -> (size: (u32, u32))
    ensures
        size == match drawn {
            Some(s) => s,
            None => (DEFAULT_WIDTH, DEFAULT_HEIGHT),
        },
{
    match drawn {
        Some(s) => s,
        None => (DEFAULT_WIDTH, DEFAULT_HEIGHT),
    }
}

/// A window size for a new session: one of the configured resolutions, drawn at random,
/// or 1920 by 1080 where none is configured.
pub fn pick_window_size(resolutions: &Vec<(u32, u32)>) -> (size: (u32, u32))
    ensures
        resolutions@.len() == 0 ==> size == (DEFAULT_WIDTH, DEFAULT_HEIGHT),
        resolutions@.len() > 0 ==> resolutions@.contains(size),
{
    window_size_or_default(choose_resolution(resolutions))
}

/// The profile directory, given the home directory if there is one and a name to use
/// if there is none.
pub open spec fn profile_path_of(home: Option<Seq<char>>, name: Seq<char>) -> Seq<char> {
    match home {
        Some(h) => h + HOME_PROFILE_DIR@,
        None => TEMP_PROFILE_DIR@ + name,
    }
}

/// The profile directory: `.browser-for-remote/` below the home directory, or
/// `/tmp/browser-for-remote/` followed by `name` where there is no home directory.
pub fn profile_path(home: Option<&str>, name: &str) -> (path: String)
    ensures
        path@ == profile_path_of(
            match home {
                Some(h) => Some(h@),
                None => None,
            },
            name@,
        ),
{
    match home {
        Some(h) => String::from_str(h).concat(HOME_PROFILE_DIR),
        None => String::from_str(TEMP_PROFILE_DIR).concat(name),
    }
}

/// The profile directory of a new session: the configured one if there is one; else
/// the one below the home directory; else a temporary one with a random name of ten
/// letters and digits.
pub fn resolve_profile_path(configured: Option<&str>, home: Option<&str>) -> (path: String)
    ensures
        configured matches Some(c) ==> path@ == c@,
        configured is None ==> (home matches Some(h) ==> path@ == profile_path_of(
            Some(h@),
            Seq::empty(),
        )),
        configured is None && home is None ==> exists|name: Seq<char>|
            #![trigger profile_path_of(None, name)]
            name.len() == SUFFIX_LEN && (forall|i: int|
                0 <= i < name.len() ==> is_alphanumeric(#[trigger] name[i])) && path@
                == profile_path_of(None, name),
{
    match configured {
        Some(c) => String::from_str(c),
        None => match home {
            Some(h) => profile_path(Some(h), ""),
            None => {
                let name = random_name(SUFFIX_LEN);
                let path = profile_path(None, name.as_str());
                assert(path@ == profile_path_of(None, name@));
                path
            },
        },
    }
}

} // verus!
