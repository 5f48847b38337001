use vstd::prelude::*;

verus! {

/// What a path names on the filesystem: whether it exists, and whether it is a
/// regular file or a directory.
#[derive(Clone, Copy, Debug, PartialEq, Eq, Structural)]
pub struct PathExistsResult {
    pub exists: bool,
    pub is_file: bool,
    pub is_directory: bool,
}

impl PathExistsResult {
    /// A missing path is neither a file nor a directory.
    pub open spec fn wf(self) -> bool {
        !self.exists ==> !self.is_file && !self.is_directory
    }

    /// Describes a path from the filesystem's three answers about it. The kind
    /// answers count only for a path that exists.
    pub fn from_probes(exists: bool, is_file: bool, is_directory: bool) -> (r: Self)
        ensures
            r.wf(),
            r.exists == exists,
            r.is_file == (exists && is_file),
            r.is_directory == (exists && is_directory),
            exists && is_file && !is_directory ==> r == (PathExistsResult {
                exists: true,
                is_file: true,
                is_directory: false,
            }),
            exists && is_directory && !is_file ==> r == (PathExistsResult {
                exists: true,
                is_file: false,
                is_directory: true,
            }),
            !exists ==> r == (PathExistsResult { exists: false, is_file: false, is_directory: false }),
    {
        if exists {
            PathExistsResult { exists: true, is_file, is_directory }
        } else {
            PathExistsResult { exists: false, is_file: false, is_directory: false }
        }
    }
}

} // verus!
