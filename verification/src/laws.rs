//! What holds of the selection set whatever the items and the clicks are.

use crate::selection::{
    distinct, first_match, has_room, holds, is_first_match, lemma_first_match,
    lemma_first_match_exists, offered, reconciled, same_item, toggled, within,
};
use std::rc::Rc;
use vstd::prelude::*;

verus! {

/// The items' `==` is an equivalence: every item equals itself, equality does
/// not depend on the side an item stands on, and it carries over a common
/// equal.
pub open spec fn equality_is_equivalence<T: PartialEq>() -> bool {
    &&& forall|a: Rc<T>| #[trigger] same_item(a, a)
    &&& forall|a: Rc<T>, b: Rc<T>| #[trigger] same_item(a, b) ==> same_item(b, a)
    &&& forall|a: Rc<T>, b: Rc<T>, c: Rc<T>|
        #[trigger] same_item(a, b) && #[trigger] same_item(b, c) ==> same_item(a, c)
}

/// The selection after each item of `clicks` was toggled in turn.
pub open spec fn toggled_all<T: PartialEq>(
    items: Seq<Rc<T>>,
    clicks: Seq<Rc<T>>,
    ceiling: Option<usize>,
) -> Seq<Rc<T>>
    decreases clicks.len(),
{
    if clicks.len() == 0 {
        items
    } else {
        toggled(toggled_all(items, clicks.drop_last(), ceiling), clicks.last(), ceiling)
    }
}

/// Toggling the same item twice selects no item that was not selected and
/// deselects none that was, and leaves the number of selected items as it
/// was. Where the item was not selected before, the selection is restored
/// exactly; where it was, it has moved to the end of the selection order.
pub proof fn toggle_twice_restores<T: PartialEq>(
    items: Seq<Rc<T>>,
    item: Rc<T>,
    ceiling: Option<usize>,
)
    requires
        equality_is_equivalence::<T>(),
        distinct(items),
        within(items.len(), ceiling),
    ensures
        forall|other: Rc<T>|
            holds(toggled(toggled(items, item, ceiling), item, ceiling), other) == holds(
                items,
                other,
            ),
        toggled(toggled(items, item, ceiling), item, ceiling).len() == items.len(),
        !holds(items, item) ==> toggled(toggled(items, item, ceiling), item, ceiling) == items,
        holds(items, item) ==> toggled(toggled(items, item, ceiling), item, ceiling)
            == items.remove(first_match(items, item)).push(item),
{
    let once = toggled(items, item, ceiling);
    let twice = toggled(once, item, ceiling);
    if holds(items, item) {
        lemma_first_match_exists(items, item);
        let i = first_match(items, item);
        assert(once == items.remove(i));
        assert(!holds(once, item)) by {
            if holds(once, item) {
                let k = choose|k: int| 0 <= k < once.len() && same_item(#[trigger] once[k], item);
                let k0 = if k < i { k } else { k + 1 };
                assert(once[k] == items[k0]);
                assert(same_item(item, items[i]));
                assert(same_item(items[k0], items[i]));
                assert(same_item(items[i], items[k0]));
            }
        }
        assert(twice == once.push(item));
        assert forall|other: Rc<T>| holds(twice, other) == holds(items, other) by {
            if holds(twice, other) {
                let k = choose|k: int| 0 <= k < twice.len() && same_item(#[trigger] twice[k], other);
                if k == once.len() {
                    assert(same_item(items[i], other));
                } else {
                    let k0 = if k < i { k } else { k + 1 };
                    assert(twice[k] == items[k0]);
                    assert(same_item(items[k0], other));
                }
            }
            if holds(items, other) {
                let k = choose|k: int| 0 <= k < items.len() && same_item(#[trigger] items[k], other);
                if k == i {
                    assert(same_item(item, items[i]));
                    assert(twice[once.len() as int] == item);
                    assert(same_item(twice[once.len() as int], other));
                } else {
                    let k1 = if k < i { k } else { k - 1 };
                    assert(twice[k1] == items[k]);
                    assert(same_item(twice[k1], other));
                }
            }
        }
    } else if has_room(items.len(), ceiling) {
        assert(once == items.push(item));
        let last = items.len() as int;
        assert(same_item(once[last], item));
        assert(is_first_match(once, item, last)) by {
            assert forall|j: int| 0 <= j < last implies !same_item(#[trigger] once[j], item) by {
                assert(once[j] == items[j]);
            }
        }
        lemma_first_match(once, item, last);
        assert(twice == once.remove(last));
        assert(twice =~= items);
    } else {
        assert(once == items);
    }
}

/// A selection that respects the ceiling respects it after any sequence of
/// toggles.
pub proof fn toggles_respect_ceiling<T: PartialEq>(
    items: Seq<Rc<T>>,
    clicks: Seq<Rc<T>>,
    ceiling: Option<usize>,
)
    requires
        within(items.len(), ceiling),
    ensures
        within(toggled_all(items, clicks, ceiling).len(), ceiling),
    decreases clicks.len(),
{
    if clicks.len() > 0 {
        toggles_respect_ceiling(items, clicks.drop_last(), ceiling);
        let before = toggled_all(items, clicks.drop_last(), ceiling);
        toggle_respects_ceiling(before, clicks.last(), ceiling);
    }
}

/// Starting from nothing selected, no sequence of toggles selects more items
/// than the ceiling allows.
pub proof fn selection_never_exceeds_ceiling<T: PartialEq>(
    clicks: Seq<Rc<T>>,
    ceiling: Option<usize>,
)
    ensures
        within(toggled_all(Seq::<Rc<T>>::empty(), clicks, ceiling).len(), ceiling),
{
    toggles_respect_ceiling(Seq::<Rc<T>>::empty(), clicks, ceiling);
}

/// One toggle keeps a selection under the ceiling, and where the ceiling is
/// reached, toggling an item that is not selected changes nothing.
pub proof fn toggle_respects_ceiling<T: PartialEq>(
    items: Seq<Rc<T>>,
    item: Rc<T>,
    ceiling: Option<usize>,
)
    ensures
        within(items.len(), ceiling) ==> within(toggled(items, item, ceiling).len(), ceiling),
        !holds(items, item) && !has_room(items.len(), ceiling) ==> toggled(items, item, ceiling)
            == items,
{
    if holds(items, item) {
        lemma_first_match_exists(items, item);
        let i = first_match(items, item);
    }
}

/// Toggles keep the selection free of equal items.
pub proof fn toggle_keeps_distinct<T: PartialEq>(
    items: Seq<Rc<T>>,
    item: Rc<T>,
    ceiling: Option<usize>,
)
    requires
        distinct(items),
    ensures
        distinct(toggled(items, item, ceiling)),
{
    if holds(items, item) {
        lemma_first_match_exists(items, item);
        let i = first_match(items, item);
    }
}

/// After the option list is replaced, no item that equals none of the new
/// options is selected any more.
pub proof fn reconcile_prunes_stale<T: PartialEq>(
    items: Seq<Rc<T>>,
    options: Seq<Rc<T>>,
    stale: Rc<T>,
)
    requires
        equality_is_equivalence::<T>(),
        !offered(options, stale),
    ensures
        !holds(reconciled(items, options), stale),
{
    let keep = |selected: Rc<T>| offered(options, selected);
    let kept = items.filter(keep);
    if holds(kept, stale) {
        let k = choose|k: int| 0 <= k < kept.len() && same_item(#[trigger] kept[k], stale);
        items.lemma_filter_pred(keep, k);
        assert(offered(options, kept[k]));
        let j = choose|j: int| 0 <= j < options.len() && same_item(#[trigger] options[j], kept[k]);
        assert(same_item(options[j], stale));
    }
}

/// After the option list is replaced, a selected item that equals one of the
/// new options is still selected, and nothing is selected that was not.
pub proof fn reconcile_keeps_offered<T: PartialEq>(
    items: Seq<Rc<T>>,
    options: Seq<Rc<T>>,
    item: Rc<T>,
)
    requires
        equality_is_equivalence::<T>(),
    ensures
        holds(items, item) && offered(options, item) ==> holds(reconciled(items, options), item),
        holds(reconciled(items, options), item) ==> holds(items, item),
{
    let keep = |selected: Rc<T>| offered(options, selected);
    let kept = items.filter(keep);
    if holds(items, item) && offered(options, item) {
        let k = choose|k: int| 0 <= k < items.len() && same_item(#[trigger] items[k], item);
        let j = choose|j: int| 0 <= j < options.len() && same_item(#[trigger] options[j], item);
        assert(same_item(item, items[k]));
        assert(same_item(options[j], items[k]));
        assert(keep(items[k]));
        items.lemma_filter_contains(keep, k);
        let m = choose|m: int| 0 <= m < kept.len() && kept[m] == items[k];
        assert(same_item(kept[m], item));
    }
    if holds(kept, item) {
        let m = choose|m: int| 0 <= m < kept.len() && same_item(#[trigger] kept[m], item);
        assert(kept.contains(kept[m]));
        items.lemma_filter_contains_rev(keep, kept[m]);
        let k = choose|k: int| 0 <= k < items.len() && items[k] == kept[m];
        assert(same_item(items[k], item));
    }
}

} // verus!
