//! The contents of a directory as the probing logic sees them.
use vstd::prelude::*;

use crate::text::{vec_contains_str, views};

verus! {

/// What a directory holds: the names of its regular files and of its
/// subdirectories. A missing or unreadable directory is the empty listing.
#[derive(Debug)]
pub struct DirListing {
    pub files: Vec<String>,
    pub dirs: Vec<String>,
}

impl DirListing {
    pub open spec fn file_names(&self) -> Seq<Seq<char>> {
        views(self.files@)
    }

    pub open spec fn dir_names(&self) -> Seq<Seq<char>> {
        views(self.dirs@)
    }

    /// The empty listing (a missing directory).
    pub fn empty() -> (r: DirListing)
        ensures
            r.file_names().len() == 0,
            r.dir_names().len() == 0,
    {
        DirListing { files: Vec::new(), dirs: Vec::new() }
    }

    /// Whether the directory holds a regular file of this name.
    pub fn has_file(&self, name: &str) -> (r: bool)
        ensures
            r == self.file_names().contains(name@),
    {
        vec_contains_str(&self.files, name)
    }

    /// Whether the directory holds a subdirectory of this name.
    pub fn has_dir(&self, name: &str) -> (r: bool)
        ensures
            r == self.dir_names().contains(name@),
    {
        vec_contains_str(&self.dirs, name)
    }
}

} // verus!
