//! The entry descriptor produced for one directory child.

use vstd::prelude::*;

verus! {

/// Mathematical description of one listed entry: the decoded name and full
/// path as character sequences, and whether the child is a directory.
pub struct EntryModel {
    pub name: Seq<char>,
    pub path: Seq<char>,
    pub is_dir: bool,
}

/// One filesystem child, as returned by a listing request.
///
/// `children` is a placeholder for lazy loading by a front end: it is
/// present (and empty) exactly when the child is a directory, and absent
/// for a plain file.  No listing ever populates it.
#[derive(Debug, PartialEq, Eq)]
pub struct Entry {
    pub path: String,
    pub name: String,
    pub is_dir: bool,
    pub children: Option<Vec<Entry>>,
}

impl Entry {
    /// The `children` placeholder agrees with `is_dir`: an empty sequence
    /// for a directory, absent for a file.
    pub open spec fn wf(self) -> bool {
        &&& self.is_dir <==> self.children is Some
        &&& self.children matches Some(c) ==> c@.len() == 0
    }
}

impl View for Entry {
    type V = EntryModel;

    open spec fn view(&self) -> EntryModel {
        EntryModel { name: self.name@, path: self.path@, is_dir: self.is_dir }
    }
}

} // verus!
