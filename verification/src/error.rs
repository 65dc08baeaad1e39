//! The two ways a listing request can fail.

use vstd::prelude::*;

verus! {

/// Mathematical description of a listing failure.
pub enum ListErrorModel {
    /// The host filesystem layer failed; carries the host's description.
    IoFailure(Seq<char>),
    /// A child's raw name or path was not valid text.
    InvalidEncoding,
}

/// A failed listing request.  Every failure aborts the whole operation:
/// no partial entries accompany it.
#[derive(Debug, PartialEq, Eq)]
pub enum ListError {
    /// The host filesystem layer failed; carries the host's description.
    IoFailure(String),
    /// A child's raw name or path was not valid text.
    InvalidEncoding,
}

impl View for ListError {
    type V = ListErrorModel;

    open spec fn view(&self) -> ListErrorModel {
        match self {
            ListError::IoFailure(m) => ListErrorModel::IoFailure(m@),
            ListError::InvalidEncoding => ListErrorModel::InvalidEncoding,
        }
    }
}

} // verus!
