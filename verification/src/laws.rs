//! Laws of the directory lister, stated over the listing model.
//!
//! Every law is about successful listings; the error cases are pinned
//! directly by [`crate::lister::listing_model`].

use vstd::prelude::*;
use vstd::seq_lib::group_to_multiset_ensures;
use vstd::utf8::{decode_utf8, valid_utf8};

use crate::entry::EntryModel;
use crate::error::ListErrorModel;
use crate::lister::{child_outcome, entry_model, listing_model};
use crate::probe::ChildProbeModel;
use crate::text::is_hidden;

verus! {

/// True when the listing keeps this enumeration step: a child was read, its
/// name decodes, and the name passes the hidden filter.
pub open spec fn keeps(c: ChildProbeModel, show_hidden: bool) -> bool {
    c matches ChildProbeModel::Found(r) && valid_utf8(r.name) && (show_hidden || !is_hidden(
        decode_utf8(r.name),
    ))
}

/// The entries of the kept children, in enumeration order.
pub open spec fn selected_entries(items: Seq<ChildProbeModel>, show_hidden: bool) -> Seq<
    EntryModel,
>
    decreases items.len(),
{
    if items.len() == 0 {
        Seq::empty()
    } else {
        let rest = selected_entries(items.drop_first(), show_hidden);
        if keeps(items[0], show_hidden) {
            seq![entry_model(items[0]->Found_0)] + rest
        } else {
            rest
        }
    }
}

/// A successful listing holds exactly the entries of the kept children, in
/// enumeration order.
pub proof fn lemma_success_is_selected(items: Seq<ChildProbeModel>, show_hidden: bool)
    requires
        listing_model(items, show_hidden) is Ok,
    ensures
        listing_model(items, show_hidden) == Ok::<Seq<EntryModel>, ListErrorModel>(
            selected_entries(items, show_hidden),
        ),
    decreases items.len(),
{
    if items.len() > 0 {
        lemma_success_is_selected(items.drop_first(), show_hidden);
    }
}

/// Law: with `show_hidden` false, a successful listing excludes every child
/// whose name starts with the hidden marker, and includes an entry for
/// every other child the host yielded.
pub proof fn lemma_hidden_filtered(items: Seq<ChildProbeModel>, out: Seq<EntryModel>)
    requires
        listing_model(items, false) == Ok::<Seq<EntryModel>, ListErrorModel>(out),
    ensures
        forall|i: int| 0 <= i < out.len() ==> !is_hidden((#[trigger] out[i]).name),
        forall|k: int|
            0 <= k < items.len() && keeps(#[trigger] items[k], false) ==> out.contains(
                entry_model(items[k]->Found_0),
            ),
{
    lemma_success_is_selected(items, false);
    lemma_selected_not_hidden(items);
    assert forall|k: int| 0 <= k < items.len() && keeps(#[trigger] items[k], false) implies out
        .contains(entry_model(items[k]->Found_0)) by {
        lemma_selected_contains(items, false, k);
    }
}

/// No entry selected with the filter on has a hidden name.
proof fn lemma_selected_not_hidden(items: Seq<ChildProbeModel>)
    ensures
        forall|i: int|
            0 <= i < selected_entries(items, false).len() ==> !is_hidden(
                (#[trigger] selected_entries(items, false)[i]).name,
            ),
    decreases items.len(),
{
    if items.len() > 0 {
        lemma_selected_not_hidden(items.drop_first());
        let sel = selected_entries(items, false);
        let rest = selected_entries(items.drop_first(), false);
        assert forall|i: int| 0 <= i < sel.len() implies !is_hidden((#[trigger] sel[i]).name) by {
            if keeps(items[0], false) {
                if i > 0 {
                    assert(sel[i] == rest[i - 1]);
                }
            } else {
                assert(sel[i] == rest[i]);
            }
        }
    }
}

/// Every kept child contributes its entry to the selection.
proof fn lemma_selected_contains(items: Seq<ChildProbeModel>, show_hidden: bool, k: int)
    requires
        0 <= k < items.len(),
        keeps(items[k], show_hidden),
    ensures
        selected_entries(items, show_hidden).contains(entry_model(items[k]->Found_0)),
    decreases k,
{
    let sel = selected_entries(items, show_hidden);
    let rest = selected_entries(items.drop_first(), show_hidden);
    if k == 0 {
        assert(sel[0] == entry_model(items[0]->Found_0));
    } else {
        lemma_selected_contains(items.drop_first(), show_hidden, k - 1);
        let target = entry_model(items.drop_first()[k - 1]->Found_0);
        let j = choose|j: int| 0 <= j < rest.len() && rest[j] == target;
        if keeps(items[0], show_hidden) {
            assert(sel[j + 1] == target);
        }
    }
}

/// Law: with `show_hidden` true, a successful listing has one entry per
/// child the host yielded, in host order, with no name-based filtering.
pub proof fn lemma_show_hidden_keeps_all(items: Seq<ChildProbeModel>, out: Seq<EntryModel>)
    requires
        listing_model(items, true) == Ok::<Seq<EntryModel>, ListErrorModel>(out),
    ensures
        out.len() == items.len(),
        forall|k: int| 0 <= k < items.len() ==> (#[trigger] items[k]) is Found,
        forall|k: int|
            0 <= k < items.len() ==> out[k] == entry_model((#[trigger] items[k])->Found_0),
    decreases items.len(),
{
    if items.len() > 0 {
        let rest = listing_model(items.drop_first(), true)->Ok_0;
        lemma_show_hidden_keeps_all(items.drop_first(), rest);
        assert(child_outcome(items[0], true) is Ok);
        assert forall|k: int| 0 <= k < items.len() implies (#[trigger] items[k]) is Found by {
            if k > 0 {
                assert(items.drop_first()[k - 1] == items[k]);
            }
        }
        assert forall|k: int|
            0 <= k < items.len() implies out[k] == entry_model((#[trigger] items[k])->Found_0) by {
            if k > 0 {
                assert(items.drop_first()[k - 1] == items[k]);
                assert(out[k] == rest[k - 1]);
            }
        }
    }
}

/// Inserting one element at the front inserts it into the multiset.
proof fn lemma_cons_to_multiset<A>(x: A, s: Seq<A>)
    ensures
        (seq![x] + s).to_multiset() == s.to_multiset().insert(x),
{
    broadcast use group_to_multiset_ensures;
    broadcast use vstd::multiset::group_multiset_axioms;

    let t = seq![x] + s;
    assert(t.remove(0) =~= s);
    assert(t[0] == x);
    assert(t.contains(x));
    assert(t.to_multiset().count(x) > 0);
    assert(t.to_multiset() =~= s.to_multiset().insert(x));
}

/// Removing the child at one position removes exactly its contribution from
/// the selection's multiset.
proof fn lemma_selected_remove(items: Seq<ChildProbeModel>, show_hidden: bool, j: int)
    requires
        0 <= j < items.len(),
    ensures
        selected_entries(items, show_hidden).to_multiset() == if keeps(items[j], show_hidden) {
            selected_entries(items.remove(j), show_hidden).to_multiset().insert(
                entry_model(items[j]->Found_0),
            )
        } else {
            selected_entries(items.remove(j), show_hidden).to_multiset()
        },
    decreases j,
{
    broadcast use group_to_multiset_ensures;
    broadcast use vstd::multiset::group_multiset_axioms;

    let tail = items.drop_first();
    if j == 0 {
        assert(items.remove(0) =~= tail);
        if keeps(items[0], show_hidden) {
            lemma_cons_to_multiset(entry_model(items[0]->Found_0), selected_entries(tail, show_hidden));
        }
    } else {
        assert(items.remove(j).drop_first() =~= tail.remove(j - 1));
        assert(tail[j - 1] == items[j]);
        lemma_selected_remove(tail, show_hidden, j - 1);
        if keeps(items[0], show_hidden) {
            let head = entry_model(items[0]->Found_0);
            lemma_cons_to_multiset(head, selected_entries(tail, show_hidden));
            lemma_cons_to_multiset(head, selected_entries(items.remove(j).drop_first(), show_hidden));
            if keeps(items[j], show_hidden) {
                let moved = entry_model(items[j]->Found_0);
                let base = selected_entries(tail.remove(j - 1), show_hidden).to_multiset();
                assert(base.insert(moved).insert(head) =~= base.insert(head).insert(moved));
            }
        }
    }
}

/// The selection's multiset is a function of the children's multiset: the
/// order in which the host enumerates them does not matter.
proof fn lemma_selected_permutes(
    items1: Seq<ChildProbeModel>,
    items2: Seq<ChildProbeModel>,
    show_hidden: bool,
)
    requires
        items1.to_multiset() == items2.to_multiset(),
    ensures
        selected_entries(items1, show_hidden).to_multiset() == selected_entries(
            items2,
            show_hidden,
        ).to_multiset(),
    decreases items1.len(),
{
    broadcast use group_to_multiset_ensures;
    broadcast use vstd::multiset::group_multiset_axioms;

    assert(items1.to_multiset().len() == items1.len());
    assert(items2.to_multiset().len() == items2.len());
    if items1.len() == 0 {
        assert(items2.len() == 0);
    } else {
        let h = items1[0];
        assert(items1.contains(h));
        assert(items2.to_multiset().count(h) > 0);
        assert(items2.contains(h));
        let j = choose|j: int| 0 <= j < items2.len() && items2[j] == h;
        assert(items1.remove(0) =~= items1.drop_first());
        assert(items1.drop_first().to_multiset() == items2.remove(j).to_multiset());
        lemma_selected_permutes(items1.drop_first(), items2.remove(j), show_hidden);
        lemma_selected_remove(items2, show_hidden, j);
        if keeps(h, show_hidden) {
            lemma_cons_to_multiset(
                entry_model(h->Found_0),
                selected_entries(items1.drop_first(), show_hidden),
            );
        }
    }
}

/// Law: listing an unmodified directory twice yields the same entries as a
/// set, whatever order the host enumerates the children in each time.
pub proof fn lemma_order_irrelevant(
    items1: Seq<ChildProbeModel>,
    items2: Seq<ChildProbeModel>,
    show_hidden: bool,
    out1: Seq<EntryModel>,
    out2: Seq<EntryModel>,
)
    requires
        items1.to_multiset() == items2.to_multiset(),
        listing_model(items1, show_hidden) == Ok::<Seq<EntryModel>, ListErrorModel>(out1),
        listing_model(items2, show_hidden) == Ok::<Seq<EntryModel>, ListErrorModel>(out2),
    ensures
        out1.to_multiset() == out2.to_multiset(),
{
    lemma_success_is_selected(items1, show_hidden);
    lemma_success_is_selected(items2, show_hidden);
    lemma_selected_permutes(items1, items2, show_hidden);
}

} // verus!
