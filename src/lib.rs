//! Native filesystem capabilities for a host application's UI layer: what kind of
//! entry a path names, where the user's home directory is, and which file-browser
//! process to start to reveal a path.
use vstd::prelude::*;

pub mod explorer;
pub mod home;
pub mod status;

pub use explorer::{LaunchCommand, Platform, plan_reveal, resolve_target, reveal_target};
pub use home::{get_home_dir, home_dir_result};
pub use status::PathExistsResult;

verus! {

/// Text of a result whose value and error are both strings.
pub open spec fn text_result(r: Result<String, String>) -> Result<Seq<char>, Seq<char>> {
    match r {
        Ok(s) => Ok(s@),
        Err(e) => Err(e@),
    }
}

/// Text of an optional string.
pub open spec fn text_option(o: Option<String>) -> Option<Seq<char>> {
    match o {
        Some(s) => Some(s@),
        None => None,
    }
}

} // verus!
