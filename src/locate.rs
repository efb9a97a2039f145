//! Finding the `lms` model-management executable.
use vstd::prelude::*;
use crate::error::LmStudioError;

verus! {

/// The name under which the executable is looked up on the search path.
pub const LMS_NAME: &'static str = "lms";

/// The fallback install location under `home`; Windows adds `.exe`.
pub open spec fn fallback_path_of(home: Seq<char>, windows: bool) -> Seq<char> {
    if windows {
        home + "/.lmstudio/bin/lms.exe"@
    } else {
        home + "/.lmstudio/bin/lms"@
    }
}

/// The home directory used for the fallback: the explicit one, else the
/// environment's value, else the empty string.
pub open spec fn home_of(home_dir: Option<&str>, home_var: Option<&str>) -> Seq<char> {
    match home_dir {
        Some(d) => d@,
        None => match home_var {
            Some(v) => v@,
            None => Seq::empty(),
        },
    }
}

/// The fallback install location of the executable under `home`.
pub fn fallback_lms_path(home: &str, windows: bool) -> (r: String)
    ensures
        r@ == fallback_path_of(home@, windows),
{
    let mut path = home.to_owned();
    if windows {
        path.append("/.lmstudio/bin/lms.exe");
    } else {
        path.append("/.lmstudio/bin/lms");
    }
    path
}

/// The decision of the locator, given what the search path and the disk said:
/// the bare name when the search path has it, else the fallback when it exists.
pub fn locate_lms(on_path: bool, fallback: String, fallback_exists: bool) -> (r: Result<
    String,
    LmStudioError,
>)
    ensures
        on_path ==> r is Ok && r->Ok_0@ == LMS_NAME@,
        !on_path && fallback_exists ==> r is Ok && r->Ok_0@ == fallback@,
        !on_path && !fallback_exists ==> r matches Err(LmStudioError::BinaryNotInstalled),
{
    if on_path {
        Ok(LMS_NAME.to_owned())
    } else if fallback_exists {
        Ok(fallback)
    } else {
        Err(LmStudioError::BinaryNotInstalled)
    }
}

/// Relies on which::which: whether an executable of this name is found on the
/// search path. The answer depends on the machine, so nothing is promised of it.
#[verifier::external_body]
fn on_search_path(name: &str) -> bool {
    which::which(name).is_ok()
}

/// Relies on std::path::Path::exists: whether something is at `path` on disk.
/// The answer depends on the machine, so nothing is promised of it.
#[verifier::external_body]
fn path_exists(path: &str) -> bool {
    std::path::Path::new(path).exists()
}

/// Finds the executable: on the search path, else at the fallback location
/// under `home_dir`, or, without one, under `home_var`, the value of the
/// platform's home variable (`HOME`, or `USERPROFILE` on Windows).
pub fn find_lms_binary_with_home_dir(
    home_dir: Option<&str>,
    home_var: Option<&str>,
    windows: bool,
) -> (r: Result<String, LmStudioError>)
    ensures
        r is Ok ==> r->Ok_0@ == LMS_NAME@ || r->Ok_0@ == fallback_path_of(
            home_of(home_dir, home_var),
            windows,
        ),
        r is Err ==> r matches Err(LmStudioError::BinaryNotInstalled),
{
    if on_search_path(LMS_NAME) {
        return locate_lms(true, String::new(), false);
    }
    let home: &str = match home_dir {
        Some(dir) => dir,
        None => match home_var {
            Some(var) => var,
            None => "",
        },
    };
    proof {
        reveal_strlit("");
    }
    let fallback = fallback_lms_path(home, windows);
    let exists = path_exists(fallback.as_str());
    locate_lms(false, fallback, exists)
}

/// Finds the executable, with the fallback under `home_var`, the value of the
/// platform's home variable as the caller read it.
pub fn find_lms_binary(home_var: Option<&str>, windows: bool) -> (r: Result<String, LmStudioError>)
    ensures
        r is Ok ==> r->Ok_0@ == LMS_NAME@ || r->Ok_0@ == fallback_path_of(
            home_of(None, home_var),
            windows,
        ),
        r is Err ==> r matches Err(LmStudioError::BinaryNotInstalled),
{
    find_lms_binary_with_home_dir(None, home_var, windows)
}

} // verus!
