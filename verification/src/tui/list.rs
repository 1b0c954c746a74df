//! Which row of a list is selected, and from which row the list is drawn.

use vstd::prelude::*;

verus! {

/// The selection of a list and its scroll offset.
#[derive(Clone, Copy, PartialEq, Eq, Structural)]
pub struct ListState {
    pub selected: Option<usize>,
    pub offset: usize,
}

/// The selection after `select(index)`: the offset returns to the top when
/// nothing is selected.
pub open spec fn after_select(s: ListState, index: Option<usize>) -> ListState {
    ListState {
        selected: index,
        offset: if index is None {
            0
        } else {
            s.offset
        },
    }
}

impl ListState {
    /// Nothing selected, drawn from the top.
    pub fn new() -> (r: ListState)
        ensures
            r.selected is None,
            r.offset == 0,
    {
        ListState { selected: None, offset: 0 }
    }

    /// Selects a row, or none.
    pub fn select(&mut self, index: Option<usize>)
        ensures
            *final(self) == after_select(*old(self), index),
    {
        self.selected = index;
        if index.is_none() {
            self.offset = 0;
        }
    }

    /// The selected row.
    pub fn selected(&self) -> (r: Option<usize>)
        ensures
            r == self.selected,
    {
        self.selected
    }
}

/// The selection after moving up in a list of `n` rows: from the first row to
/// the last, otherwise one row up; the first row when none was selected.
pub open spec fn move_up_selection(sel: Option<usize>, n: nat) -> Option<usize> {
    if n == 0 {
        sel
    } else {
        match sel {
            Some(i) => if i == 0 {
                Some((n - 1) as usize)
            } else {
                Some((i - 1) as usize)
            },
            None => Some(0),
        }
    }
}

/// The selection after moving down in a list of `n` rows: from the last row
/// to the first, otherwise one row down; the first row when none was selected.
pub open spec fn move_down_selection(sel: Option<usize>, n: nat) -> Option<usize> {
    if n == 0 {
        sel
    } else {
        match sel {
            Some(i) => if i + 1 >= n {
                Some(0)
            } else {
                Some((i + 1) as usize)
            },
            None => Some(0),
        }
    }
}

/// Moves the selection of a list of `n` rows up, wrapping around.
pub fn move_up(state: &mut ListState, n: usize)
    ensures
        n == 0 ==> *final(state) == *old(state),
        n > 0 ==> *final(state) == after_select(
            *old(state),
            move_up_selection(old(state).selected, n as nat),
        ),
{
    if n == 0 {
        return;
    }
    let next = match state.selected() {
        Some(0) => n - 1,
        Some(index) => index - 1,
        None => 0,
    };
    state.select(Some(next));
}

/// Moves the selection of a list of `n` rows down, wrapping around.
pub fn move_down(state: &mut ListState, n: usize)
    ensures
        n == 0 ==> *final(state) == *old(state),
        n > 0 ==> *final(state) == after_select(
            *old(state),
            move_down_selection(old(state).selected, n as nat),
        ),
{
    if n == 0 {
        return;
    }
    let next = match state.selected() {
        Some(index) => if index >= n - 1 {
            0
        } else {
            index + 1
        },
        None => 0,
    };
    state.select(Some(next));
}

/// Moving up and then down, or down and then up, returns to the same row of
/// a non-empty list when a row within it was selected.
pub proof fn law_move_up_down_inverse(sel: usize, n: nat)
    requires
        sel < n <= usize::MAX,
    ensures
        move_down_selection(move_up_selection(Some(sel), n), n) == Some(sel),
        move_up_selection(move_down_selection(Some(sel), n), n) == Some(sel),
{
}

/// Moving keeps a selection within a non-empty list.
pub proof fn law_move_stays_in_list(sel: Option<usize>, n: nat)
    requires
        0 < n <= usize::MAX,
        sel matches Some(i) ==> i < n,
    ensures
        move_up_selection(sel, n) matches Some(i) && i < n,
        move_down_selection(sel, n) matches Some(i) && i < n,
{
}

} // verus!
