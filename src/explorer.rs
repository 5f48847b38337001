use vstd::prelude::*;
use vstd::string::*;

use crate::{text_option, text_result};

verus! {

/// The operating-system family a build targets; it decides which file browser
/// is started.
#[derive(Clone, Copy, Debug, PartialEq, Eq, Structural)]
pub enum Platform {
    Windows,
    MacOs,
    Linux,
    /// A target with no known file browser: nothing is started there.
    Other,
}

/// The file-browser program of a platform, if it has one.
pub open spec fn launcher_of(platform: Platform) -> Option<Seq<char>> {
    match platform {
        Platform::Windows => Some("explorer"@),
        Platform::MacOs => Some("open"@),
        Platform::Linux => Some("xdg-open"@),
        Platform::Other => None,
    }
}

/// How a failure to start a platform's file browser is introduced.
pub open spec fn failure_prefix(platform: Platform) -> Seq<char> {
    match platform {
        Platform::Windows => "Failed to open explorer: "@,
        Platform::MacOs => "Failed to open finder: "@,
        _ => "Failed to open file manager: "@,
    }
}

pub open spec fn not_found_message(path: Seq<char>) -> Seq<char> {
    "Path does not exist: "@ + path
}

pub open spec fn no_parent_message() -> Seq<char> {
    "Could not get parent directory"@
}

/// The directory to show for `path`: a missing path is an error, a file is shown
/// through its parent directory, anything else is shown itself.
pub open spec fn target_of(path: Seq<char>, exists: bool, is_file: bool, parent: Option<Seq<char>>) -> Result<Seq<char>, Seq<char>> {
    if !exists {
        Err(not_found_message(path))
    } else if is_file {
        match parent {
            Some(q) => Ok(q),
            None => Err(no_parent_message()),
        }
    } else {
        Ok(path)
    }
}

/// The parent of a path, as the platform's path rules cut it.
pub uninterp spec fn parent_of(path: Seq<char>) -> Option<Seq<char>>;

/// Relies on std::path::Path::parent: the path without its final component, or
/// nothing where it ends in a root or prefix or is empty. The parent of a path
/// given as text is a prefix of it, so it converts back to text unchanged.
#[verifier::external_body]
fn parent_dir(path: &str) -> (r: Option<String>)
    ensures
        text_option(r) == parent_of(path@),
        path@.len() == 0 ==> r is None,
{
    match std::path::Path::new(path).parent() {
        Some(q) => Some(q.to_string_lossy().into_owned()),
        None => None,
    }
}

/// The program of a platform's file browser.
pub fn launcher_program(platform: Platform) -> (r: Option<&'static str>)
    ensures
        r is Some == launcher_of(platform) is Some,
        r matches Some(s) ==> s@ == launcher_of(platform)->0,
{
    match platform {
        Platform::Windows => Some("explorer"),
        Platform::MacOs => Some("open"),
        Platform::Linux => Some("xdg-open"),
        Platform::Other => None,
    }
}

/// Chooses the directory to show for `path`, given what the filesystem says of it
/// and the parent that the path's text gives, if any.
pub fn resolve_target(path: &str, exists: bool, is_file: bool, parent: Option<String>) -> (r: Result<String, String>)
    ensures
        text_result(r) == target_of(path@, exists, is_file, text_option(parent)),
{
    if !exists {
        Err(String::from_str("Path does not exist: ").concat(path))
    } else if is_file {
        match parent {
            Some(q) => Ok(q),
            None => Err(String::from_str("Could not get parent directory")),
        }
    } else {
        Ok(String::from_str(path))
    }
}

/// Chooses the directory to show for `path`, given what the filesystem says of it.
pub fn reveal_target(path: &str, exists: bool, is_file: bool) -> (r: Result<String, String>)
    ensures
        text_result(r) == target_of(path@, exists, is_file, parent_of(path@)),
{
    let parent = if exists && is_file {
        parent_dir(path)
    } else {
        None
    };
    resolve_target(path, exists, is_file, parent)
}

/// A file-browser process to start: the program, with the directory to show as
/// its one argument.
#[derive(Debug, PartialEq, Eq)]
pub struct LaunchCommand {
    platform: Platform,
    program: String,
    target: String,
}

impl LaunchCommand {
    /// The program is the file browser of the platform the command was made for.
    pub open spec fn wf(&self) -> bool {
        launcher_of(self.spec_platform()) == Some(self.spec_program())
    }

    pub closed spec fn spec_platform(&self) -> Platform {
        self.platform
    }

    pub closed spec fn spec_program(&self) -> Seq<char> {
        self.program@
    }

    pub closed spec fn spec_target(&self) -> Seq<char> {
        self.target@
    }

    pub fn platform(&self) -> (r: Platform)
        ensures
            r == self.spec_platform(),
    {
        self.platform
    }

    pub fn program(&self) -> (r: &str)
        ensures
            r@ == self.spec_program(),
    {
        self.program.as_str()
    }

    pub fn target(&self) -> (r: &str)
        ensures
            r@ == self.spec_target(),
    {
        self.target.as_str()
    }

    /// The error reported when the program could not be started, with the
    /// operating system's own words at its end.
    pub fn failure_message(&self, os_error: &str) -> (r: String)
        ensures
            r@ == failure_prefix(self.spec_platform()) + os_error@,
    {
        let prefix = match self.platform {
            Platform::Windows => "Failed to open explorer: ",
            Platform::MacOs => "Failed to open finder: ",
            _ => "Failed to open file manager: ",
        };
        String::from_str(prefix).concat(os_error)
    }
}

/// What revealing `path` comes to: an error, nothing to start on a platform
/// without a file browser, or the browser and the directory to show in it.
pub open spec fn reveal_plan(
    path: Seq<char>,
    exists: bool,
    is_file: bool,
    parent: Option<Seq<char>>,
    platform: Platform,
) -> Result<Option<(Seq<char>, Seq<char>)>, Seq<char>> {
    match target_of(path, exists, is_file, parent) {
        Err(e) => Err(e),
        Ok(t) => match launcher_of(platform) {
            Some(program) => Ok(Some((program, t))),
            None => Ok(None),
        },
    }
}

pub open spec fn plan_view(r: Result<Option<LaunchCommand>, String>) -> Result<Option<(Seq<char>, Seq<char>)>, Seq<char>> {
    match r {
        Ok(Some(c)) => Ok(Some((c.spec_program(), c.spec_target()))),
        Ok(None) => Ok(None),
        Err(e) => Err(e@),
    }
}

/// Decides how to reveal `path` in the file browser of `platform`, given whether
/// the path exists and whether it is a regular file. An error means that no
/// process is to be started.
pub fn plan_reveal(path: &str, exists: bool, is_file: bool, platform: Platform) -> (r: Result<Option<LaunchCommand>, String>)
    ensures
        plan_view(r) == reveal_plan(path@, exists, is_file, parent_of(path@), platform),
        r matches Ok(Some(c)) ==> c.wf() && c.spec_platform() == platform,
        !exists ==> (r matches Err(e) && e@ == not_found_message(path@)),
        exists && is_file ==> (r matches Ok(Some(c)) ==> Some(c.spec_target()) == parent_of(path@)),
        exists && is_file && parent_of(path@) is Some && platform != Platform::Other ==> (r matches Ok(Some(c)) && c.spec_target() == parent_of(path@)->0),
        exists && !is_file && platform != Platform::Other ==> (r matches Ok(Some(c)) && c.spec_target() == path@),
{
    let target = match reveal_target(path, exists, is_file) {
        Ok(t) => t,
        Err(e) => {
            return Err(e);
        },
    };
    match launcher_program(platform) {
        Some(program) => Ok(Some(LaunchCommand { platform, program: String::from_str(program), target })),
        None => Ok(None),
    }
}

} // verus!
