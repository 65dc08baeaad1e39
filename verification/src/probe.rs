//! What the host filesystem hands over for one listing request.
//!
//! The enumeration itself is unverified I/O performed outside this crate.
//! Its observations arrive here as plain values: for each child the raw
//! bytes of its name and full path and the outcome of the file-type query,
//! plus the places where the host reported a failure instead.

use vstd::prelude::*;

verus! {

/// Mathematical description of a file-type query's outcome.
pub enum TypeProbeModel {
    Directory,
    NotDirectory,
    Failed(Seq<char>),
}

/// What the host's file-type query said of one child.
#[derive(Debug, PartialEq, Eq)]
pub enum TypeProbe {
    /// The child is a directory.
    Directory,
    /// The child is not a directory.
    NotDirectory,
    /// The query failed; carries the host's description.
    Failed(String),
}

impl View for TypeProbe {
    type V = TypeProbeModel;

    open spec fn view(&self) -> TypeProbeModel {
        match self {
            TypeProbe::Directory => TypeProbeModel::Directory,
            TypeProbe::NotDirectory => TypeProbeModel::NotDirectory,
            TypeProbe::Failed(m) => TypeProbeModel::Failed(m@),
        }
    }
}

/// Mathematical description of one child read.
pub struct RawChildModel {
    pub name: Seq<u8>,
    pub path: Seq<u8>,
    pub kind: TypeProbeModel,
}

/// Everything the host reports about one child it enumerated.
///
/// `name` and `path` are the raw bytes of the final path segment and of the
/// full path, in the host's encoding; nothing guarantees they are valid
/// text.
#[derive(Debug, PartialEq, Eq)]
pub struct RawChild {
    pub name: Vec<u8>,
    pub path: Vec<u8>,
    pub kind: TypeProbe,
}

impl View for RawChild {
    type V = RawChildModel;

    open spec fn view(&self) -> RawChildModel {
        RawChildModel { name: self.name@, path: self.path@, kind: self.kind@ }
    }
}

/// Mathematical description of one step of the enumeration.
pub enum ChildProbeModel {
    Found(RawChildModel),
    Fault(Seq<char>),
}

/// One step of the host's enumeration: a child, or a failure in its place.
#[derive(Debug, PartialEq, Eq)]
pub enum ChildProbe {
    /// The enumeration yielded a child.
    Found(RawChild),
    /// The enumeration failed at this point; carries the host's description.
    Fault(String),
}

impl View for ChildProbe {
    type V = ChildProbeModel;

    open spec fn view(&self) -> ChildProbeModel {
        match self {
            ChildProbe::Found(raw) => ChildProbeModel::Found(raw@),
            ChildProbe::Fault(m) => ChildProbeModel::Fault(m@),
        }
    }
}

/// The models of a sequence of enumeration steps, in enumeration order.
pub open spec fn children_model(items: Seq<ChildProbe>) -> Seq<ChildProbeModel> {
    items.map_values(|c: ChildProbe| c@)
}

/// Mathematical description of one whole enumeration attempt.
pub enum DirProbeModel {
    Opened(Seq<ChildProbeModel>),
    OpenFailed(Seq<char>),
}

/// The host's whole enumeration attempt for one directory, in the order
/// the host yielded its steps.
#[derive(Debug, PartialEq, Eq)]
pub enum DirProbe {
    /// The directory could be opened; its children follow in host order.
    Opened(Vec<ChildProbe>),
    /// The directory could not be opened; carries the host's description.
    OpenFailed(String),
}

impl View for DirProbe {
    type V = DirProbeModel;

    open spec fn view(&self) -> DirProbeModel {
        match self {
            DirProbe::Opened(items) => DirProbeModel::Opened(children_model(items@)),
            DirProbe::OpenFailed(m) => DirProbeModel::OpenFailed(m@),
        }
    }
}

} // verus!
