//! The selection set: the items currently selected, oldest selection first.

use std::rc::Rc;
use vstd::prelude::*;
use vstd::std_specs::cmp::PartialEqSpec;

verus! {

/// Value equality of two items, as the item type's `==` decides it.
pub open spec fn same_item<T: PartialEq>(a: Rc<T>, b: Rc<T>) -> bool {
    (*a).eq_spec(&*b)
}

/// Some item of `items` equals `item`.
pub open spec fn holds<T: PartialEq>(items: Seq<Rc<T>>, item: Rc<T>) -> bool {
    exists|i: int| 0 <= i < items.len() && same_item(#[trigger] items[i], item)
}

/// `i` is the first position of `items` whose item equals `item`.
pub open spec fn is_first_match<T: PartialEq>(items: Seq<Rc<T>>, item: Rc<T>, i: int) -> bool {
    &&& 0 <= i < items.len()
    &&& same_item(items[i], item)
    &&& forall|j: int| 0 <= j < i ==> !same_item(#[trigger] items[j], item)
}

/// The first position of `items` whose item equals `item`, where there is one.
pub open spec fn first_match<T: PartialEq>(items: Seq<Rc<T>>, item: Rc<T>) -> int {
    choose|i: int| is_first_match(items, item, i)
}

/// A set of `len` items may grow under `ceiling`.
pub open spec fn has_room(len: nat, ceiling: Option<usize>) -> bool {
    match ceiling {
        Some(max) => len < max,
        None => true,
    }
}

/// A set of `len` items respects `ceiling`.
pub open spec fn within(len: nat, ceiling: Option<usize>) -> bool {
    match ceiling {
        Some(max) => len <= max,
        None => true,
    }
}

/// The selection after `item` is toggled: an equal item that is selected
/// leaves (the oldest such), otherwise `item` joins at the end if the ceiling
/// leaves room, otherwise nothing changes.
pub open spec fn toggled<T: PartialEq>(
    items: Seq<Rc<T>>,
    item: Rc<T>,
    ceiling: Option<usize>,
) -> Seq<Rc<T>> {
    if holds(items, item) {
        items.remove(first_match(items, item))
    } else if has_room(items.len(), ceiling) {
        items.push(item)
    } else {
        items
    }
}

/// The selection after the option list became `options`: the selected items
/// that still equal some option, in their old order.
pub open spec fn reconciled<T: PartialEq>(items: Seq<Rc<T>>, options: Seq<Rc<T>>) -> Seq<Rc<T>> {
    items.filter(|selected: Rc<T>| offered(options, selected))
}

/// Some option of `options` equals `selected`.
pub open spec fn offered<T: PartialEq>(options: Seq<Rc<T>>, selected: Rc<T>) -> bool {
    exists|j: int| 0 <= j < options.len() && same_item(#[trigger] options[j], selected)
}

/// No item of `items` equals an item selected after it.
pub open spec fn distinct<T: PartialEq>(items: Seq<Rc<T>>) -> bool {
    forall|i: int, j: int|
        0 <= i < j < items.len() ==> !same_item(#[trigger] items[i], #[trigger] items[j])
}

/// Handles to the same items, in the same order.
pub fn share_all<T>(items: &Vec<Rc<T>>) -> (handles: Vec<Rc<T>>)
    ensures
        handles@ == items@,
{
    let mut handles: Vec<Rc<T>> = Vec::new();
    let mut i: usize = 0;
    while i < items.len()
        invariant
            i <= items.len(),
            handles@ == items@.take(i as int),
        decreases items.len() - i,
    {
        handles.push(Rc::clone(&items[i]));
        i += 1;
    }
    handles
}

/// The first position of `items` whose item equals `item`.
pub fn position<T: PartialEq>(items: &Vec<Rc<T>>, item: &Rc<T>) -> (found: Option<usize>)
    ensures
        found matches Some(i) ==> i < items@.len(),
        T::obeys_eq_spec() ==> match found {
            Some(i) => is_first_match(items@, *item, i as int),
            None => !holds(items@, *item),
        },
{
    let mut i: usize = 0;
    while i < items.len()
        invariant
            i <= items.len(),
            T::obeys_eq_spec() ==> forall|j: int|
                0 <= j < i ==> !same_item(#[trigger] items@[j], *item),
        decreases items.len() - i,
    {
        if *items[i] == **item {
            return Some(i);
        }
        i += 1;
    }
    None
}

/// The items currently selected, in the order in which they were selected.
pub struct SelectionSet<T> {
    items: Vec<Rc<T>>,
}

impl<T> View for SelectionSet<T> {
    type V = Seq<Rc<T>>;

    closed spec fn view(&self) -> Seq<Rc<T>> {
        self.items@
    }
}

impl<T: PartialEq> SelectionSet<T> {
    /// No two selected items are equal.
    pub open spec fn wf(&self) -> bool {
        distinct(self@)
    }

    /// The empty selection.
    pub fn new() -> (set: Self)
        ensures
            set@ == Seq::<Rc<T>>::empty(),
            set.wf(),
    {
        SelectionSet { items: Vec::new() }
    }

    /// The number of selected items.
    pub fn len(&self) -> (n: usize)
        ensures
            n == self@.len(),
    {
        self.items.len()
    }

    /// Handles to the selected items, oldest selection first.
    pub fn items(&self) -> (handles: Vec<Rc<T>>)
        ensures
            handles@ == self@,
    {
        share_all(&self.items)
    }

    /// Whether an item equal to `item` is selected.
    pub fn contains(&self, item: &Rc<T>) -> (found: bool)
        ensures
            T::obeys_eq_spec() ==> found == holds(self@, *item),
    {
        position(&self.items, item).is_some()
    }

    /// Deselects the item equal to `item` if one is selected; otherwise
    /// selects `item`, unless `ceiling` is reached, in which case nothing
    /// changes.
    pub fn toggle(&mut self, item: Rc<T>, ceiling: Option<usize>)
        ensures
            T::obeys_eq_spec() ==> final(self)@ == toggled(old(self)@, item, ceiling),
            T::obeys_eq_spec() && old(self).wf() ==> final(self).wf(),
            within(old(self)@.len(), ceiling) ==> within(final(self)@.len(), ceiling),
    {
        match position(&self.items, &item) {
            Some(index) => {
                proof {
                    if T::obeys_eq_spec() {
                        lemma_first_match(self.items@, item, index as int);
                    }
                }
                self.items.remove(index);
            },
            None => {
                let room = match ceiling {
                    Some(max) => self.items.len() < max,
                    None => true,
                };
                if room {
                    self.items.push(item);
                }
            },
        }
    }

    /// Drops every selected item that equals no item of `options`; the items
    /// that stay keep their order.
    pub fn reconcile(&mut self, options: &Vec<Rc<T>>)
        ensures
            T::obeys_eq_spec() ==> final(self)@ == reconciled(old(self)@, options@),
            T::obeys_eq_spec() && old(self).wf() ==> final(self).wf(),
            final(self)@.len() <= old(self)@.len(),
    {
        let ghost before = self.items@;
        let ghost keep = |selected: Rc<T>| offered(options@, selected);
        let mut kept: Vec<Rc<T>> = Vec::new();
        let mut i: usize = 0;
        while i < self.items.len()
            invariant
                self.items@ == before,
                keep == |selected: Rc<T>| offered(options@, selected),
                i <= before.len(),
                kept@.len() <= i,
                T::obeys_eq_spec() ==> kept@ == before.take(i as int).filter(keep),
            decreases before.len() - i,
        {
            proof {
                assert(before.take(i as int + 1) == before.take(i as int).push(before[i as int]));
                before.take(i as int).lemma_filter_push(before[i as int], keep);
            }
            if offers(options, &self.items[i]) {
                kept.push(Rc::clone(&self.items[i]));
            }
            i += 1;
        }
        proof {
            assert(before.take(i as int) == before);
            if distinct(before) {
                lemma_filter_keeps_distinct(before, keep);
            }
            before.lemma_filter_len(keep);
        }
        self.items = kept;
    }
}

/// Whether some item of `options` equals `selected`.
pub fn offers<T: PartialEq>(options: &Vec<Rc<T>>, selected: &Rc<T>) -> (found: bool)
    ensures
        T::obeys_eq_spec() ==> found == offered(options@, *selected),
{
    let mut j: usize = 0;
    while j < options.len()
        invariant
            j <= options.len(),
            T::obeys_eq_spec() ==> forall|k: int|
                0 <= k < j ==> !same_item(#[trigger] options@[k], *selected),
        decreases options.len() - j,
    {
        if *options[j] == **selected {
            return true;
        }
        j += 1;
    }
    false
}

/// The first match is the only position that `is_first_match` accepts.
pub proof fn lemma_first_match<T: PartialEq>(items: Seq<Rc<T>>, item: Rc<T>, i: int)
    requires
        is_first_match(items, item, i),
    ensures
        holds(items, item),
        first_match(items, item) == i,
{
    let k = first_match(items, item);
    assert(is_first_match(items, item, k));
    if k < i {
        assert(!same_item(items[k], item));
    }
    if i < k {
        assert(!same_item(items[i], item));
    }
}

/// Where some item equals `item`, there is a first one.
pub proof fn lemma_first_match_exists<T: PartialEq>(items: Seq<Rc<T>>, item: Rc<T>)
    requires
        holds(items, item),
    ensures
        is_first_match(items, item, first_match(items, item)),
{
    let k = choose|k: int| 0 <= k < items.len() && same_item(#[trigger] items[k], item);
    lemma_match_has_first(items, item, k);
}

proof fn lemma_match_has_first<T: PartialEq>(items: Seq<Rc<T>>, item: Rc<T>, k: int)
    requires
        0 <= k < items.len(),
        same_item(items[k], item),
    ensures
        exists|i: int| is_first_match(items, item, i),
    decreases k,
{
    if exists|j: int| 0 <= j < k && same_item(#[trigger] items[j], item) {
        let j = choose|j: int| 0 <= j < k && same_item(#[trigger] items[j], item);
        lemma_match_has_first(items, item, j);
    } else {
        assert(is_first_match(items, item, k));
    }
}

/// Filtering keeps the order of what stays, so a selection without equal
/// items stays one.
pub proof fn lemma_filter_keeps_distinct<T: PartialEq>(items: Seq<Rc<T>>, keep: spec_fn(Rc<T>) -> bool)
    requires
        distinct(items),
    ensures
        distinct(items.filter(keep)),
    decreases items.len(),
{
    reveal(Seq::filter);
    if items.len() > 0 {
        let front = items.drop_last();
        lemma_filter_keeps_distinct(front, keep);
        let kept = front.filter(keep);
        if keep(items.last()) {
            assert forall|i: int, j: int| 0 <= i < j < kept.push(items.last()).len() implies !same_item(
                #[trigger] kept.push(items.last())[i],
                #[trigger] kept.push(items.last())[j],
            ) by {
                if j == kept.len() {
                    front.lemma_filter_contains_rev(keep, kept[i]);
                    let k = choose|k: int| 0 <= k < front.len() && front[k] == kept[i];
                    assert(!same_item(items[k], items[items.len() - 1]));
                }
            }
        }
    }
}

} // verus!
