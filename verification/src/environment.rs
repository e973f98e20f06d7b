//! What the installer asks of the machine it runs on.

use vstd::prelude::*;

verus! {

/// The home directory of the current user, as `home::home_dir` reports it.
///
/// Nothing is claimed about the answer: it depends on the environment of
/// the process and on the user database, and may differ from one call to
/// the next. A home directory whose path is not valid Unicode cannot be
/// written into a profile or a command and is reported as absent.
#[verifier::external_body]
pub(crate) fn home_directory() -> (home: Option<String>)
{
    match home::home_dir() {
        Some(path) => path.into_os_string().into_string().ok(),
        None => None,
    }
}

} // verus!
