//! Putting one item set of this application into the player's collection.
//!
//! The collection is read, changed and written back whole. Item sets of this
//! application are told by the first characters of their title; every such
//! set is taken out before the new one is added, so that one at most is in
//! the collection that is written back.

use crate::lcu::{ItemSetPayload, ItemSetsResponse};
use crate::text::starts_with;
use vstd::prelude::*;

verus! {

/// What the title of an item set of this application begins with.
pub const FOCUS_ITEM_SET_PREFIX: &'static str = "Focus: ";

/// Whether an item set bears the mark of this application.
pub open spec fn is_focus_set(set: ItemSetPayload) -> bool {
    FOCUS_ITEM_SET_PREFIX@.is_prefix_of(set.title@)
}

/// The item sets of `sets` that do not bear the mark, in their order.
pub open spec fn foreign_sets(sets: Seq<ItemSetPayload>) -> Seq<ItemSetPayload> {
    sets.filter(|set: ItemSetPayload| !is_focus_set(set))
}

/// How many item sets of `sets` bear the mark.
pub open spec fn focus_sets(sets: Seq<ItemSetPayload>) -> nat {
    sets.filter(|set: ItemSetPayload| is_focus_set(set)).len()
}

/// Whether an item set bears the mark of this application.
pub fn set_is_focus(set: &ItemSetPayload) -> (yes: bool)
    ensures
        yes == is_focus_set(*set),
{
    starts_with(set.title.as_str(), FOCUS_ITEM_SET_PREFIX)
}

/// The collection to write back: `sets` without the item sets that bear the
/// mark, with `item_set` added at the end and `now_millis` as the time of
/// the change.
pub fn add_item_set(sets: ItemSetsResponse, item_set: ItemSetPayload, now_millis: i64) -> (out:
    ItemSetsResponse)
    ensures
        out.account_id == sets.account_id,
        out.timestamp == now_millis,
        out.item_sets@ == foreign_sets(sets.item_sets@).push(item_set),
{
    let account_id = sets.account_id;
    let before = sets.item_sets;
    let ghost all = before@;
    let mut kept: Vec<ItemSetPayload> = Vec::new();
    proof {
        reveal(Seq::filter);
        assert(all.take(0) =~= Seq::<ItemSetPayload>::empty());
    }
    for set in it: before
        invariant
            it.seq() == all,
            kept@ == foreign_sets(all.take(it.index() as int)),
    {
        proof {
            reveal(Seq::filter);
            let upto = all.take(it.index() + 1);
            assert(upto.drop_last() =~= all.take(it.index() as int));
            assert(upto.last() == set);
        }
        if !set_is_focus(&set) {
            kept.push(set);
        }
    }
    proof {
        assert(all.take(all.len() as int) =~= all);
    }
    kept.push(item_set);
    ItemSetsResponse { account_id, item_sets: kept, timestamp: now_millis }
}

/// One item set of this application at most is in the collection that
/// `add_item_set` gives, however many there were before: the one that was
/// added, where it bears the mark.
pub proof fn lemma_singleton_item_set(before: Seq<ItemSetPayload>, item_set: ItemSetPayload)
    ensures
        focus_sets(foreign_sets(before).push(item_set)) <= 1,
        focus_sets(foreign_sets(before).push(item_set)) == 1 <==> is_focus_set(item_set),
{
    let marked = |set: ItemSetPayload| is_focus_set(set);
    let foreign = |set: ItemSetPayload| !is_focus_set(set);
    let kept = before.filter(foreign);
    if kept.filter(marked).len() > 0 {
        let found = kept.filter(marked)[0];
        kept.lemma_filter_pred(marked, 0);
        kept.lemma_filter_contains_rev(marked, found);
        let at = choose|at: int| 0 <= at < kept.len() && kept[at] == found;
        before.lemma_filter_pred(foreign, at);
    }
    reveal(Seq::filter);
    assert(kept.push(item_set).drop_last() =~= kept);
}

} // verus!
