//! A checklist: items that can each be ticked, submitted together.

use vstd::prelude::*;
use crate::text::owned;
use crate::tui::key::{is_ctrl_c, KeyCode, KeyEvent};
use crate::tui::list::{
    after_select, law_move_stays_in_list, move_down, move_down_selection, move_up,
    move_up_selection, ListState,
};

verus! {

/// A checklist screen.
pub struct ChecklistState {
    pub title: String,
    pub subtitle: String,
    pub items: Vec<String>,
    pub details: Vec<Vec<String>>,
    pub list_state: ListState,
    pub selected: Vec<bool>,
    pub error: Option<String>,
    pub help_lines: Vec<String>,
    pub help_visible: bool,
}

/// What a key press on a checklist asks for.
pub enum ChecklistAction {
    /// The indices of the ticked items, in order; never empty.
    Submit(Vec<usize>),
    Back,
    Quit,
}

/// The indices of the ticked items among the first `n`, in order.
pub open spec fn checked_indices(ticks: Seq<bool>, n: nat) -> Seq<usize>
    decreases n,
{
    if n == 0 {
        seq![]
    } else if ticks[n - 1] {
        checked_indices(ticks, (n - 1) as nat).push((n - 1) as usize)
    } else {
        checked_indices(ticks, (n - 1) as nat)
    }
}

/// A checklist is consistent: one tick per item, the selection on an item.
pub open spec fn checklist_wf(s: ChecklistState) -> bool {
    &&& s.selected@.len() == s.items@.len()
    &&& s.list_state.selected matches Some(i) ==> i < s.items@.len()
    &&& s.items@.len() > 0 ==> s.list_state.selected is Some
}

/// The checklist after moving its selection to `sel`; an empty list stays.
pub open spec fn moved(o: ChecklistState, f: ChecklistState, sel: Option<usize>) -> bool {
    if o.items@.len() == 0 {
        f == o
    } else {
        f == ChecklistState { list_state: after_select(o.list_state, sel), ..o }
    }
}

/// The checklist after Space: the selected item's tick flipped and the error
/// cleared; nothing changes when no item is selected.
pub open spec fn toggled(o: ChecklistState, f: ChecklistState) -> bool {
    match o.list_state.selected {
        Some(i) => if i < o.selected@.len() {
            f.selected@ == o.selected@.update(i as int, !o.selected@[i as int]) && f.error is None
                && f == ChecklistState { selected: f.selected, error: f.error, ..o }
        } else {
            f == o
        },
        None => f == o,
    }
}

/// Space flips the tick of the selected item and no other, and pressing it
/// twice restores the ticks: toggling is its own inverse.
pub proof fn law_toggle_twice_restores(a: ChecklistState, b: ChecklistState, c: ChecklistState)
    requires
        toggled(a, b),
        toggled(b, c),
    ensures
        c.selected@ == a.selected@,
        c.list_state == a.list_state,
        c.items == a.items,
        match a.list_state.selected {
            Some(i) => i < a.selected@.len() ==> b.selected@[i as int] == !a.selected@[i as int]
                && forall|j: int|
                0 <= j < a.selected@.len() && j != i ==> #[trigger] b.selected@[j] == a.selected@[j],
            None => b.selected@ == a.selected@,
        },
{
    if let Some(i) = a.list_state.selected {
        if i < a.selected@.len() {
            assert(c.selected@ =~= a.selected@);
        }
    }
}

/// What a key press does to a checklist whose help is not shown.
pub open spec fn list_effect(o: ChecklistState, f: ChecklistState, k: KeyEvent, r: Option<ChecklistAction>) -> bool {
    let c = k.code;
    let n = o.items@.len();
    if c == KeyCode::Up || c == KeyCode::Char('k') {
        r is None && moved(o, f, move_up_selection(o.list_state.selected, n))
    } else if c == KeyCode::Down || c == KeyCode::Char('j') {
        r is None && moved(o, f, move_down_selection(o.list_state.selected, n))
    } else if c == KeyCode::Char(' ') {
        r is None && toggled(o, f)
    } else if c == KeyCode::Char('?') {
        r is None && f == ChecklistState { help_visible: true, ..o }
    } else if c == KeyCode::Enter {
        if checked_indices(o.selected@, o.selected@.len()).len() == 0 {
            r is None && (f.error matches Some(e) && e@ == "至少选择一个目标分支"@) && f
                == ChecklistState { error: f.error, ..o }
        } else {
            (r matches Some(ChecklistAction::Submit(idx)) && idx@ == checked_indices(
                o.selected@,
                o.selected@.len(),
            )) && f == o
        }
    } else if c == KeyCode::Esc || c == KeyCode::Char('b') {
        r matches Some(ChecklistAction::Back) && f == o
    } else if c == KeyCode::Char('q') || is_ctrl_c(k) {
        r matches Some(ChecklistAction::Quit) && f == o
    } else {
        r is None && f == o
    }
}

/// What a key press does to a checklist whose help is shown.
pub open spec fn help_effect(o: ChecklistState, f: ChecklistState, k: KeyEvent, r: Option<ChecklistAction>) -> bool {
    let c = k.code;
    if c == KeyCode::Char('?') || c == KeyCode::Esc || c == KeyCode::Char('b') {
        r is None && f == ChecklistState { help_visible: false, ..o }
    } else if is_ctrl_c(k) {
        r matches Some(ChecklistAction::Quit) && f == o
    } else {
        r is None && f == o
    }
}

proof fn lemma_checked_indices(ticks: Seq<bool>, n: nat)
    requires
        n <= ticks.len(),
        n <= usize::MAX,
    ensures
        forall|k: int|
            0 <= k < checked_indices(ticks, n).len() ==> #[trigger] checked_indices(ticks, n)[k]
                < n && ticks[checked_indices(ticks, n)[k] as int],
        forall|a: int, b: int|
            0 <= a < b < checked_indices(ticks, n).len() ==> #[trigger] checked_indices(ticks, n)[a]
                < #[trigger] checked_indices(ticks, n)[b],
        forall|i: int| 0 <= i < n && ticks[i] ==> #[trigger] checked_indices(ticks, n).contains(i as usize),
    decreases n,
{
    if n > 0 {
        lemma_checked_indices(ticks, (n - 1) as nat);
        let prev = checked_indices(ticks, (n - 1) as nat);
        let cur = checked_indices(ticks, n);
        assert forall|i: int| 0 <= i < n && ticks[i] implies #[trigger] cur.contains(i as usize) by {
            if i < n - 1 {
                assert(prev.contains(i as usize));
                let k = choose|k: int| 0 <= k < prev.len() && prev[k] == i as usize;
                assert(cur[k] == prev[k]);
            } else {
                assert(cur[cur.len() - 1] == i as usize);
            }
        }
    }
}

/// A submitted checklist names exactly the ticked items, each once, in list
/// order, and at least one.
pub proof fn law_submit_names_ticked_items(ticks: Seq<bool>)
    requires
        ticks.len() <= usize::MAX,
        checked_indices(ticks, ticks.len()).len() > 0,
    ensures
        forall|k: int|
            0 <= k < checked_indices(ticks, ticks.len()).len() ==> #[trigger] checked_indices(
                ticks,
                ticks.len(),
            )[k] < ticks.len() && ticks[checked_indices(ticks, ticks.len())[k] as int],
        forall|a: int, b: int|
            0 <= a < b < checked_indices(ticks, ticks.len()).len() ==> #[trigger] checked_indices(
                ticks,
                ticks.len(),
            )[a] < #[trigger] checked_indices(ticks, ticks.len())[b],
        forall|i: int|
            0 <= i < ticks.len() && ticks[i] ==> #[trigger] checked_indices(
                ticks,
                ticks.len(),
            ).contains(i as usize),
{
    lemma_checked_indices(ticks, ticks.len());
}

impl ChecklistState {
    /// A checklist over `items`, nothing ticked, the first item selected.
    pub fn new(title: &str, subtitle: &str, items: Vec<String>) -> (r: ChecklistState)
        ensures
            r.title@ == title@,
            r.subtitle@ == subtitle@,
            r.items == items,
            r.details@.len() == 0,
            r.list_state.selected == (if items@.len() > 0 {
                Some(0usize)
            } else {
                None
            }),
            r.selected@ == Seq::new(items@.len(), |i: int| false),
            r.error is None,
            r.help_lines@.len() == 0,
            !r.help_visible,
            checklist_wf(r),
    {
        let mut list_state = ListState::new();
        if items.len() > 0 {
            list_state.select(Some(0));
        }
        let mut selected: Vec<bool> = Vec::new();
        let mut i: usize = 0;
        while i < items.len()
            invariant
                i <= items@.len(),
                selected@ == Seq::new(i as nat, |k: int| false),
            decreases items@.len() - i,
        {
            selected.push(false);
            i = i + 1;
            assert(selected@ =~= Seq::new(i as nat, |k: int| false));
        }
        ChecklistState {
            title: owned(title),
            subtitle: owned(subtitle),
            items,
            details: Vec::new(),
            list_state,
            selected,
            error: None,
            help_lines: Vec::new(),
            help_visible: false,
        }
    }

    /// The checklist with detail lines for its items.
    pub fn with_details(self, details: Vec<Vec<String>>) -> (r: ChecklistState)
        ensures
            r == (ChecklistState { details, ..self }),
    {
        let mut c = self;
        c.details = details;
        c
    }

    /// The checklist with the lines of its help page.
    pub fn with_help(self, lines: Vec<String>) -> (r: ChecklistState)
        ensures
            r == (ChecklistState { help_lines: lines, ..self }),
    {
        let mut c = self;
        c.help_lines = lines;
        c
    }

    /// Flips the tick of the selected item and clears the error; nothing
    /// changes when no item is selected.
    pub fn toggle_selected(&mut self)
        ensures
            toggled(*old(self), *final(self)),
    {
        if let Some(index) = self.list_state.selected() {
            if index < self.selected.len() {
                let v = self.selected[index];
                self.selected.set(index, !v);
                self.error = None;
            }
        }
    }

    /// The indices of the ticked items, in order.
    pub fn checked(&self) -> (r: Vec<usize>)
        ensures
            r@ == checked_indices(self.selected@, self.selected@.len()),
    {
        let mut r: Vec<usize> = Vec::new();
        let mut i: usize = 0;
        while i < self.selected.len()
            invariant
                i <= self.selected@.len(),
                r@ == checked_indices(self.selected@, i as nat),
            decreases self.selected@.len() - i,
        {
            if self.selected[i] {
                r.push(i);
            }
            i = i + 1;
        }
        r
    }

    /// Handles a key. With the help shown, `?`, Esc or `b` hide it and
    /// Control-C quits. Otherwise Up and Down (or `k` and `j`) move with
    /// wrap-around, Space ticks or unticks the selected item, `?` shows the
    /// help, Enter submits the ticked items (or reports that none is), Esc or
    /// `b` go back, `q` or Control-C quit.
    pub fn handle_key_event(&mut self, key: KeyEvent) -> (r: Option<ChecklistAction>)
        requires
            checklist_wf(*old(self)),
        ensures
            checklist_wf(*final(self)),
            !key.press ==> r is None && *final(self) == *old(self),
            key.press && old(self).help_visible ==> help_effect(*old(self), *final(self), key, r),
            key.press && !old(self).help_visible ==> list_effect(*old(self), *final(self), key, r),
    {
        if !key.press {
            return None;
        }
        let c = key.code;
        if self.help_visible {
            if c == KeyCode::Char('?') || c == KeyCode::Esc || c == KeyCode::Char('b') {
                self.help_visible = false;
                return None;
            } else if key.ctrl_c() {
                return Some(ChecklistAction::Quit);
            } else {
                return None;
            }
        }
        let n = self.items.len();
        proof {
            if n > 0 {
                law_move_stays_in_list(self.list_state.selected, n as nat);
            }
        }
        if c == KeyCode::Up || c == KeyCode::Char('k') {
            move_up(&mut self.list_state, n);
            None
        } else if c == KeyCode::Down || c == KeyCode::Char('j') {
            move_down(&mut self.list_state, n);
            None
        } else if c == KeyCode::Char(' ') {
            self.toggle_selected();
            None
        } else if c == KeyCode::Char('?') {
            self.help_visible = true;
            None
        } else if c == KeyCode::Enter {
            let indexes = self.checked();
            if indexes.len() == 0 {
                self.error = Some(owned("至少选择一个目标分支"));
                None
            } else {
                Some(ChecklistAction::Submit(indexes))
            }
        } else if c == KeyCode::Esc || c == KeyCode::Char('b') {
            Some(ChecklistAction::Back)
        } else if c == KeyCode::Char('q') || key.ctrl_c() {
            Some(ChecklistAction::Quit)
        } else {
            None
        }
    }
}

} // verus!
