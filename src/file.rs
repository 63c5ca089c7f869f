use std::path::PathBuf;
use vstd::prelude::*;

verus! {

#[verifier::external_type_specification]
#[verifier::external_body]
pub struct ExPathBuf(PathBuf);

/// A handle on a file whose whole content is stored as one gzip stream. It
/// holds the file's path and nothing else: no content, no open descriptor.
pub struct CompressedFile {
    path: PathBuf,
}

impl CompressedFile {
    /// The path this handle refers to.
    pub closed spec fn spec_path(&self) -> PathBuf {
        self.path
    }

    /// A handle on `path`, made without touching the filesystem.
    pub fn new(path: PathBuf) -> (r: Self)
        ensures
            r.spec_path() == path,
    {
        CompressedFile { path }
    }

    /// The path this handle refers to.
    pub fn path(&self) -> (r: &PathBuf)
        ensures
            *r == self.spec_path(),
    {
        &self.path
    }
}

} // verus!
