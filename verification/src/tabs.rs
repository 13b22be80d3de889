//! A cyclic index over a fixed row of named views.

use vstd::prelude::*;
use crate::cursor::{step_next, step_prev, wrap_next, wrap_prev};

verus! {

/// The labels of the views and the index of the active one. The index
/// always names one of the labels; with no labels at all it is 0.
pub struct TabsState {
    titles: Vec<String>,
    index: usize,
}

impl TabsState {
    #[verifier::type_invariant]
    spec fn index_on_tab(self) -> bool {
        if self.titles.len() == 0 {
            self.index == 0
        } else {
            self.index < self.titles.len()
        }
    }

    /// The labels, left to right.
    pub closed spec fn labels(&self) -> Seq<String> {
        self.titles@
    }

    /// The index of the active view.
    pub closed spec fn active(&self) -> int {
        self.index as int
    }

    /// A tab bar over the given labels with the first one active.
    pub fn new(titles: Vec<String>) -> (tabs: Self)
        ensures
            tabs.labels() == titles@,
            tabs.active() == 0,
    {
        TabsState { titles, index: 0 }
    }

    /// The labels, left to right.
    pub fn titles(&self) -> (titles: &Vec<String>)
        ensures
            titles@ == self.labels(),
    {
        &self.titles
    }

    /// The index of the active view; it names a label whenever there is one.
    pub fn index(&self) -> (index: usize)
        ensures
            index == self.active(),
            self.labels().len() > 0 ==> index < self.labels().len(),
            self.labels().len() == 0 ==> index == 0,
    {
        proof {
            use_type_invariant(self);
        }
        self.index
    }

    /// Activates the view to the right, going from the last to the first.
    pub fn next(&mut self)
        ensures
            final(self).labels() == old(self).labels(),
            final(self).active() == wrap_next(old(self).active(), old(self).labels().len() as int),
    {
        proof {
            use_type_invariant(&*self);
        }
        let len: usize = self.titles.len();
        if len > 0 {
            self.index = step_next(self.index, len);
        }
    }

    /// Activates the view to the left, going from the first to the last.
    pub fn previous(&mut self)
        ensures
            final(self).labels() == old(self).labels(),
            final(self).active() == wrap_prev(old(self).active(), old(self).labels().len() as int),
    {
        proof {
            use_type_invariant(&*self);
        }
        let len: usize = self.titles.len();
        if len > 0 {
            self.index = step_prev(self.index, len);
        }
    }
}

} // verus!
