//! Where the World Model is persisted. Reading and writing the file happen
//! outside; this records the path and derives the temporary file used for
//! atomic writes.

use vstd::prelude::*;

use crate::text::owned;

verus! {

/// Manages World Model persistence to one file.
#[derive(Debug)]
pub struct PersistenceManager {
    wm_path: String,
}

impl PersistenceManager {
    pub closed spec fn path_view(self) -> Seq<char> {
        self.wm_path@
    }

    /// A manager for the World Model file at `wm_path`.
    pub fn new(wm_path: &str) -> (m: Self)
        ensures
            m.path_view() == wm_path@,
    {
        PersistenceManager { wm_path: owned(wm_path) }
    }

    /// The path this manager writes to.
    pub fn path(&self) -> (p: &str)
        ensures
            p@ == self.path_view(),
    {
        self.wm_path.as_str()
    }
}

} // verus!
