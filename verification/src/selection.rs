//! An ordered list with an optional cursor.

use vstd::prelude::*;
use crate::ring::{rotate, turned};
use crate::cursor::{
    lemma_wrap_next_full_cycle, lemma_wrap_prev_full_cycle, step_next, step_prev, wrap_next,
    wrap_next_n, wrap_prev, wrap_prev_n,
};

verus! {

/// The position a selection counts from: the selected index, or 0 while
/// nothing is selected.
pub open spec fn cursor_of(selection: Option<int>) -> int {
    match selection {
        Some(i) => i,
        None => 0,
    }
}

/// A selection is valid for a list of `len` items when it is absent or
/// points at one of the items.
pub open spec fn selection_fits(selection: Option<int>, len: int) -> bool {
    match selection {
        Some(i) => 0 <= i < len,
        None => true,
    }
}

/// The selection after moving down once in a list of `len` items.
pub open spec fn moved_down(selection: Option<int>, len: int) -> Option<int> {
    if len <= 0 {
        selection
    } else {
        Some(wrap_next(cursor_of(selection), len))
    }
}

/// The selection after moving up once in a list of `len` items.
pub open spec fn moved_up(selection: Option<int>, len: int) -> Option<int> {
    if len <= 0 {
        selection
    } else {
        Some(wrap_prev(cursor_of(selection), len))
    }
}

/// `moved_down` applied `times` times.
pub open spec fn moved_down_n(selection: Option<int>, len: int, times: nat) -> Option<int>
    decreases times,
{
    if times == 0 {
        selection
    } else {
        moved_down(moved_down_n(selection, len, (times - 1) as nat), len)
    }
}

/// `moved_up` applied `times` times.
pub open spec fn moved_up_n(selection: Option<int>, len: int, times: nat) -> Option<int>
    decreases times,
{
    if times == 0 {
        selection
    } else {
        moved_up(moved_up_n(selection, len, (times - 1) as nat), len)
    }
}

/// Items in listing order, and at most one of them selected.
pub struct StatefulList<T> {
    items: Vec<T>,
    selected: Option<usize>,
}

impl<T> StatefulList<T> {
    #[verifier::type_invariant]
    spec fn cursor_on_item(self) -> bool {
        match self.selected {
            Some(i) => i < self.items.len(),
            None => true,
        }
    }

    /// The items, in listing order.
    pub closed spec fn entries(&self) -> Seq<T> {
        self.items@
    }

    /// The selected index, if any.
    pub closed spec fn selection(&self) -> Option<int> {
        match self.selected {
            Some(i) => Some(i as int),
            None => None,
        }
    }

    /// A list of the given items with nothing selected.
    pub fn with_items(items: Vec<T>) -> (list: Self)
        ensures
            list.entries() == items@,
            list.selection() == None::<int>,
    {
        StatefulList { items, selected: None }
    }

    /// The items, in listing order.
    pub fn items(&self) -> (items: &Vec<T>)
        ensures
            items@ == self.entries(),
    {
        &self.items
    }

    /// The selected index, if any; it always points at an item.
    pub fn selected(&self) -> (selected: Option<usize>)
        ensures
            self.selection() == match selected {
                Some(i) => Some(i as int),
                None => None,
            },
            selection_fits(self.selection(), self.entries().len() as int),
    {
        proof {
            use_type_invariant(self);
        }
        self.selected
    }

    /// The list after one turn of its items: the last item has moved to the
    /// front. The selected index stays as it is.
    pub fn rotated(self) -> (list: Self)
        ensures
            list.entries() == turned(self.entries()),
            list.selection() == self.selection(),
    {
        proof {
            use_type_invariant(&self);
        }
        let StatefulList { items, selected } = self;
        let mut items = items;
        rotate(&mut items);
        StatefulList { items, selected }
    }

    /// Moves the cursor one item down, from the last item to the first. An
    /// empty list is left as it is.
    pub fn next(&mut self)
        ensures
            final(self).entries() == old(self).entries(),
            final(self).selection() == moved_down(
                old(self).selection(),
                old(self).entries().len() as int,
            ),
    {
        proof {
            use_type_invariant(&*self);
        }
        let len: usize = self.items.len();
        if len > 0 {
            let at: usize = match self.selected {
                Some(i) => i,
                None => 0,
            };
            self.selected = Some(step_next(at, len));
        }
    }

    /// Moves the cursor one item up, from the first item to the last. An
    /// empty list is left as it is.
    pub fn previous(&mut self)
        ensures
            final(self).entries() == old(self).entries(),
            final(self).selection() == moved_up(
                old(self).selection(),
                old(self).entries().len() as int,
            ),
    {
        proof {
            use_type_invariant(&*self);
        }
        let len: usize = self.items.len();
        if len > 0 {
            let at: usize = match self.selected {
                Some(i) => i,
                None => 0,
            };
            self.selected = Some(step_prev(at, len));
        }
    }
}

/// Moving down keeps a valid selection valid, and selects an item whenever
/// there is one.
pub proof fn lemma_moved_down_fits(selection: Option<int>, len: int)
    requires
        selection_fits(selection, len),
    ensures
        selection_fits(moved_down(selection, len), len),
        len > 0 ==> moved_down(selection, len) is Some,
{
    if len > 0 {
        vstd::arithmetic::div_mod::lemma_mod_pos_bound(cursor_of(selection) + 1, len);
    }
}

/// Moving up keeps a valid selection valid, and selects an item whenever
/// there is one.
pub proof fn lemma_moved_up_fits(selection: Option<int>, len: int)
    requires
        selection_fits(selection, len),
    ensures
        selection_fits(moved_up(selection, len), len),
        len > 0 ==> moved_up(selection, len) is Some,
{
    if len > 0 {
        vstd::arithmetic::div_mod::lemma_mod_pos_bound(cursor_of(selection) + len - 1, len);
    }
}

/// On a list of `len > 0` items, moving down `len` times brings the cursor
/// back to the position it started from.
pub proof fn lemma_down_full_cycle(selection: Option<int>, len: int)
    requires
        len > 0,
        selection_fits(selection, len),
    ensures
        moved_down_n(selection, len, len as nat) == Some(cursor_of(selection)),
{
    lemma_down_follows_ring(selection, len, len as nat);
    lemma_wrap_next_full_cycle(cursor_of(selection), len);
}

/// On a list of `len > 0` items, moving up `len` times brings the cursor
/// back to the position it started from.
pub proof fn lemma_up_full_cycle(selection: Option<int>, len: int)
    requires
        len > 0,
        selection_fits(selection, len),
    ensures
        moved_up_n(selection, len, len as nat) == Some(cursor_of(selection)),
{
    lemma_up_follows_ring(selection, len, len as nat);
    lemma_wrap_prev_full_cycle(cursor_of(selection), len);
}

/// On a list without items no number of moves changes the selection.
pub proof fn lemma_empty_list_stays(selection: Option<int>, times: nat)
    ensures
        moved_down_n(selection, 0, times) == selection,
        moved_up_n(selection, 0, times) == selection,
    decreases times,
{
    if times > 0 {
        lemma_empty_list_stays(selection, (times - 1) as nat);
    }
}

proof fn lemma_down_follows_ring(selection: Option<int>, len: int, times: nat)
    requires
        len > 0,
        times > 0,
    ensures
        moved_down_n(selection, len, times) == Some(
            wrap_next_n(cursor_of(selection), len, times),
        ),
    decreases times,
{
    if times > 1 {
        lemma_down_follows_ring(selection, len, (times - 1) as nat);
    } else {
        assert(moved_down_n(selection, len, 0) == selection);
        assert(wrap_next_n(cursor_of(selection), len, 0) == cursor_of(selection));
    }
}

proof fn lemma_up_follows_ring(selection: Option<int>, len: int, times: nat)
    requires
        len > 0,
        times > 0,
    ensures
        moved_up_n(selection, len, times) == Some(wrap_prev_n(cursor_of(selection), len, times)),
    decreases times,
{
    if times > 1 {
        lemma_up_follows_ring(selection, len, (times - 1) as nat);
    } else {
        assert(moved_up_n(selection, len, 0) == selection);
        assert(wrap_prev_n(cursor_of(selection), len, 0) == cursor_of(selection));
    }
}

} // verus!
