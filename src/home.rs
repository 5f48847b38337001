use vstd::prelude::*;
use vstd::string::*;

verus! {

pub open spec fn home_error_message() -> Seq<char> {
    "Could not determine home directory"@
}

/// The answer to a home-directory lookup: the directory found, or an error where
/// the platform gave none.
pub open spec fn home_outcome(found: Option<Seq<char>>) -> Result<Seq<char>, Seq<char>> {
    match found {
        Some(h) => Ok(h),
        None => Err(home_error_message()),
    }
}

/// Relies on dirs::home_dir: the current user's home directory as the platform
/// reports it (the environment or the user database), decoded to text. What it
/// returns depends on the machine and the process, so nothing is stated of it.
#[verifier::external_body]
fn lookup_home_dir() -> (r: Option<String>) {
    match dirs::home_dir() {
        Some(p) => Some(p.to_string_lossy().into_owned()),
        None => None,
    }
}

/// Turns the result of a home-directory lookup into the answer given to callers.
pub fn home_dir_result(found: Option<String>) -> (r: Result<String, String>)
    ensures
        crate::text_result(r) == home_outcome(crate::text_option(found)),
{
    match found {
        Some(h) => Ok(h),
        None => Err(String::from_str("Could not determine home directory")),
    }
}

/// The current user's home directory, or an error where the platform cannot tell.
pub fn get_home_dir() -> (r: Result<String, String>)
    ensures
        r matches Err(e) ==> e@ == home_error_message(),
{
    home_dir_result(lookup_home_dir())
}

} // verus!
