//! Cyclic list selector: an ordered collection of opaque items plus an
//! optional selected index that advances and retreats with wraparound.
//! Advancing or retreating over an empty collection is a no-op.

use vstd::prelude::*;

verus! {

/// The selection state of a list: either no selection, or the index of the
/// selected item.
pub struct ListState {
    /// The index of the selected item, `None` when nothing is selected.
    pub selected: Option<usize>,
}

impl ListState {
    /// The current selection, `None` when nothing is selected.
    pub open spec fn spec_selected(self) -> Option<usize> {
        self.selected
    }

    /// Returns the current selection.
    pub fn selected(&self) -> (r: Option<usize>)
        ensures
            r == self.spec_selected(),
    {
        self.selected
    }

    /// Replaces the current selection.
    pub fn select(&mut self, index: Option<usize>)
        ensures
            final(self).spec_selected() == index,
    {
        self.selected = index;
    }
}

impl Default for ListState {
    /// A fresh state has no selection.
    fn default() -> (r: ListState)
        ensures
            r.spec_selected() == None::<usize>,
    {
        ListState { selected: None }
    }
}

/// The selection one step forward of `sel` over `len` items: from nothing to
/// the first item, from the last item back to the first, otherwise to the
/// following item. Over an empty collection the selection is unchanged.
pub open spec fn next_selection(sel: Option<usize>, len: nat) -> Option<usize> {
    if len == 0 {
        sel
    } else {
        match sel {
            None => Some(0usize),
            Some(i) => if i + 1 >= len {
                Some(0usize)
            } else {
                Some((i + 1) as usize)
            },
        }
    }
}

/// The selection one step backward of `sel` over `len` items: from nothing to
/// the first item, from the first item to the last, otherwise to the
/// preceding item. Over an empty collection the selection is unchanged.
pub open spec fn prev_selection(sel: Option<usize>, len: nat) -> Option<usize> {
    if len == 0 {
        sel
    } else {
        match sel {
            None => Some(0usize),
            Some(i) => if i == 0 {
                Some((len - 1) as usize)
            } else {
                Some((i - 1) as usize)
            },
        }
    }
}

/// An ordered collection of items together with a cyclic selection over it.
pub struct StatefulList<T> {
    /// The selection; `None` means no item is selected.
    pub state: ListState,
    /// The items; the collection may be empty.
    pub items: Vec<T>,
}

impl<T> StatefulList<T> {
    /// Structural invariant: a selection, when present, points inside `items`.
    pub open spec fn wf(self) -> bool {
        match self.state.spec_selected() {
            Some(i) => i < self.items@.len(),
            None => true,
        }
    }

    /// Builds a selector over no items, with no selection.
    pub fn new() -> (r: StatefulList<T>)
        ensures
            r.wf(),
            r.items@.len() == 0,
            r.state.spec_selected() == None::<usize>,
    {
        StatefulList { state: ListState::default(), items: Vec::new() }
    }

    /// Builds a selector over the given items, with no selection.
    pub fn with_items(items: Vec<T>) -> (r: StatefulList<T>)
        ensures
            r.wf(),
            r.items == items,
            r.state.spec_selected() == None::<usize>,
    {
        StatefulList { state: ListState::default(), items }
    }

    /// Moves the selection one step forward, wrapping past the last item;
    /// with no prior selection the first item becomes selected. Over an empty
    /// collection this is a no-op and the selection stays `None`.
    pub fn next(&mut self)
        requires
            old(self).wf(),
        ensures
            final(self).wf(),
            final(self).items == old(self).items,
            final(self).state.spec_selected() == next_selection(
                old(self).state.spec_selected(),
                old(self).items@.len(),
            ),
    {
        if self.items.len() == 0 {
            return;
        }
        let i: usize = match self.state.selected() {
            Some(i) => {
                if i >= self.items.len() - 1 {
                    0
                } else {
                    i + 1
                }
            },
            None => 0,
        };
        self.state.select(Some(i));
    }

    /// Moves the selection one step backward, wrapping below the first item;
    /// with no prior selection the first item becomes selected. Over an empty
    /// collection this is a no-op and the selection stays `None`.
    pub fn previous(&mut self)
        requires
            old(self).wf(),
        ensures
            final(self).wf(),
            final(self).items == old(self).items,
            final(self).state.spec_selected() == prev_selection(
                old(self).state.spec_selected(),
                old(self).items@.len(),
            ),
    {
        if self.items.len() == 0 {
            return;
        }
        let i: usize = match self.state.selected() {
            Some(i) => {
                if i == 0 {
                    self.items.len() - 1
                } else {
                    i - 1
                }
            },
            None => 0,
        };
        self.state.select(Some(i));
    }

    /// Clears the selection. Whatever the prior state, afterwards nothing is
    /// selected.
    pub fn unselect(&mut self)
        ensures
            final(self).wf(),
            final(self).items == old(self).items,
            final(self).state.spec_selected() == None::<usize>,
    {
        self.state.select(None);
    }
}

} // verus!
