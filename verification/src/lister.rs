//! The directory lister: the one functional operation of the backend.
//!
//! [`read_dir`] turns the host's enumeration of one directory into the
//! sequence of entries handed to the front end.  Its whole behaviour is
//! pinned by [`read_dir_model`]: for each child in host order, the raw name
//! is decoded, hidden names are filtered out on request, the file-type
//! query's outcome is inspected, and the full path is decoded; the first
//! failure aborts the operation with the corresponding error and no partial
//! result.

use vstd::prelude::*;
use vstd::utf8::{decode_utf8, valid_utf8};

use crate::entry::{Entry, EntryModel};
use crate::error::{ListError, ListErrorModel};
use crate::probe::{children_model, ChildProbe, ChildProbeModel, DirProbe, DirProbeModel,
    RawChild, RawChildModel, TypeProbe, TypeProbeModel};
use crate::text::{decode_text, is_hidden, is_hidden_name};

verus! {

/// The entry produced for one child whose reads all succeeded.
pub open spec fn entry_model(r: RawChildModel) -> EntryModel {
    EntryModel {
        name: decode_utf8(r.name),
        path: decode_utf8(r.path),
        is_dir: r.kind is Directory,
    }
}

/// What one enumeration step contributes to the listing: a failure, nothing
/// (the child is filtered out), or one entry.
///
/// The order of the checks is the order in which the host is consulted:
/// the raw name is decoded first, so an undecodable name aborts the
/// operation even for a child that the filter would have dropped; the
/// file-type outcome and the path are only inspected for children that are
/// kept.
pub open spec fn child_outcome(c: ChildProbeModel, show_hidden: bool) -> Result<
    Option<EntryModel>,
    ListErrorModel,
> {
    match c {
        ChildProbeModel::Fault(m) => Err(ListErrorModel::IoFailure(m)),
        ChildProbeModel::Found(r) => if !valid_utf8(r.name) {
            Err(ListErrorModel::InvalidEncoding)
        } else if !show_hidden && is_hidden(decode_utf8(r.name)) {
            Ok(None)
        } else {
            match r.kind {
                TypeProbeModel::Failed(m) => Err(ListErrorModel::IoFailure(m)),
                _ => if !valid_utf8(r.path) {
                    Err(ListErrorModel::InvalidEncoding)
                } else {
                    Ok(Some(entry_model(r)))
                },
            }
        },
    }
}

/// The listing produced from the enumeration steps, in host order, or the
/// first failure among them.
pub open spec fn listing_model(items: Seq<ChildProbeModel>, show_hidden: bool) -> Result<
    Seq<EntryModel>,
    ListErrorModel,
>
    decreases items.len(),
{
    if items.len() == 0 {
        Ok(Seq::empty())
    } else {
        match child_outcome(items[0], show_hidden) {
            Err(e) => Err(e),
            Ok(head) => match listing_model(items.drop_first(), show_hidden) {
                Err(e) => Err(e),
                Ok(rest) => Ok(
                    match head {
                        None => rest,
                        Some(en) => seq![en] + rest,
                    },
                ),
            },
        }
    }
}

/// The result owed for one whole enumeration attempt.
pub open spec fn read_dir_model(probe: DirProbeModel, show_hidden: bool) -> Result<
    Seq<EntryModel>,
    ListErrorModel,
> {
    match probe {
        DirProbeModel::OpenFailed(m) => Err(ListErrorModel::IoFailure(m)),
        DirProbeModel::Opened(items) => listing_model(items, show_hidden),
    }
}

/// The models of the produced entries, in order.
pub open spec fn entries_model(entries: Seq<Entry>) -> Seq<EntryModel> {
    entries.map_values(|e: Entry| e@)
}

/// List the immediate children of one directory, as observed by the host.
///
/// On success the result holds exactly the entries of `read_dir_model`, in
/// host order, each with its `children` placeholder agreeing with `is_dir`;
/// on failure it holds exactly the first failure the model selects, and no
/// entries at all.
#[verifier::loop_isolation(false)]
pub fn read_dir(probe: DirProbe, show_hidden: bool) -> (res: Result<Vec<Entry>, ListError>)
    ensures
        match res {
            Ok(entries) => {
                &&& read_dir_model(probe@, show_hidden) == Ok::<Seq<EntryModel>, ListErrorModel>(
                    entries_model(entries@),
                )
                &&& forall|i: int| 0 <= i < entries@.len() ==> (#[trigger] entries@[i]).wf()
            },
            Err(e) => read_dir_model(probe@, show_hidden) == Err::<
                Seq<EntryModel>,
                ListErrorModel,
            >(e@),
        },
{
    let ghost pmodel = probe@;
    let mut items = match probe {
        DirProbe::OpenFailed(msg) => {
            return Err(ListError::IoFailure(msg));
        },
        DirProbe::Opened(items) => items,
    };
    let ghost full = children_model(items@);
    proof {
        assert(pmodel == DirProbeModel::Opened(full));
    }
    let mut out: Vec<Entry> = Vec::new();
    while items.len() > 0
        invariant
            match listing_model(children_model(items@), show_hidden) {
                Ok(rest) => listing_model(full, show_hidden) == Ok::<
                    Seq<EntryModel>,
                    ListErrorModel,
                >(entries_model(out@) + rest),
                Err(e) => listing_model(full, show_hidden) == Err::<
                    Seq<EntryModel>,
                    ListErrorModel,
                >(e),
            },
            forall|i: int| 0 <= i < out@.len() ==> (#[trigger] out@[i]).wf(),
        decreases items.len(),
    {
        let ghost pre = children_model(items@);
        let c = items.remove(0);
        proof {
            assert(children_model(items@) =~= pre.drop_first());
            assert(c@ == pre[0]);
        }
        match c {
            ChildProbe::Fault(msg) => {
                proof {
                    assert(listing_model(pre, show_hidden) == Err::<
                        Seq<EntryModel>,
                        ListErrorModel,
                    >(ListErrorModel::IoFailure(msg@)));
                }
                return Err(ListError::IoFailure(msg));
            },
            ChildProbe::Found(raw) => {
                let RawChild { name, path, kind } = raw;
                let ghost rm = RawChildModel { name: name@, path: path@, kind: kind@ };
                proof {
                    assert(pre[0] == ChildProbeModel::Found(rm));
                }
                let decoded_name = match decode_text(name) {
                    None => {
                        proof {
                            assert(listing_model(pre, show_hidden) == Err::<
                                Seq<EntryModel>,
                                ListErrorModel,
                            >(ListErrorModel::InvalidEncoding));
                        }
                        return Err(ListError::InvalidEncoding);
                    },
                    Some(n) => n,
                };
                if !show_hidden && is_hidden_name(&decoded_name) {
                    proof {
                        assert(child_outcome(pre[0], show_hidden) == Ok::<
                            Option<EntryModel>,
                            ListErrorModel,
                        >(None));
                        assert(listing_model(pre, show_hidden) == listing_model(
                            pre.drop_first(),
                            show_hidden,
                        ));
                    }
                } else {
                    let is_dir = match kind {
                        TypeProbe::Failed(msg) => {
                            proof {
                                assert(listing_model(pre, show_hidden) == Err::<
                                    Seq<EntryModel>,
                                    ListErrorModel,
                                >(ListErrorModel::IoFailure(msg@)));
                            }
                            return Err(ListError::IoFailure(msg));
                        },
                        TypeProbe::Directory => true,
                        TypeProbe::NotDirectory => false,
                    };
                    let decoded_path = match decode_text(path) {
                        None => {
                            proof {
                                assert(listing_model(pre, show_hidden) == Err::<
                                    Seq<EntryModel>,
                                    ListErrorModel,
                                >(ListErrorModel::InvalidEncoding));
                            }
                            return Err(ListError::InvalidEncoding);
                        },
                        Some(p) => p,
                    };
                    let children = if is_dir {
                        Some(Vec::<Entry>::new())
                    } else {
                        None
                    };
                    let e = Entry { path: decoded_path, name: decoded_name, is_dir, children };
                    proof {
                        assert(e.wf());
                        assert(e@ == entry_model(rm));
                        assert(child_outcome(pre[0], show_hidden) == Ok::<
                            Option<EntryModel>,
                            ListErrorModel,
                        >(Some(entry_model(rm))));
                        assert(entries_model(out@.push(e)) =~= entries_model(out@) + seq![e@]);
                        assert forall|rest: Seq<EntryModel>|
                            (entries_model(out@) + seq![e@]) + rest =~= entries_model(out@) + (
                            seq![e@] + rest) by {};
                    }
                    out.push(e);
                }
            },
        }
    }
    proof {
        assert(children_model(items@) =~= Seq::<ChildProbeModel>::empty());
        assert(listing_model(children_model(items@), show_hidden) == Ok::<
            Seq<EntryModel>,
            ListErrorModel,
        >(Seq::empty()));
        assert(entries_model(out@) + Seq::<EntryModel>::empty() =~= entries_model(out@));
    }
    Ok(out)
}

} // verus!
