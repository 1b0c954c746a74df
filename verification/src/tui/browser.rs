//! The directory browser of the setup wizard: which entries it lists, which
//! rows fit on screen, and what each key does.

use vstd::prelude::*;
use crate::order::{lemma_string_lt_order, sort_by_lt, sorted_by, str_lt, string_lt};
use crate::text::{chars_of, owned, str_eq};
use crate::tui::key::{KeyCode, KeyEvent};

verus! {

/// A directory name that is shown: one not starting with `.`.
pub open spec fn shown_name(name: String) -> bool {
    !(name@.len() > 0 && name@[0] == '.')
}

/// The entries the browser lists: `..` first when the directory has a
/// parent, then the shown subdirectory names in order.
pub fn browse_entries(has_parent: bool, subdirs: Vec<String>) -> (r: Vec<String>)
    ensures
        has_parent ==> r@.len() > 0 && r@[0]@ == ".."@,
        ({
            let rest = if has_parent {
                r@.skip(1)
            } else {
                r@
            };
            &&& sorted_by(rest, |a: String, b: String| string_lt(a, b))
            &&& rest.to_multiset() == subdirs@.filter(|n: String| shown_name(n)).to_multiset()
        }),
{
    let ghost p = |n: String| shown_name(n);
    let mut shown: Vec<String> = Vec::new();
    let mut i: usize = 0;
    while i < subdirs.len()
        invariant
            i <= subdirs@.len(),
            p == (|n: String| shown_name(n)),
            shown@ == subdirs@.subrange(0, i as int).filter(p),
        decreases subdirs@.len() - i,
    {
        let name = &subdirs[i];
        let v = chars_of(name.as_str());
        let hidden = v.len() > 0 && v[0] == '.';
        proof {
            subdirs@.subrange(0, i as int).lemma_filter_push(subdirs@[i as int], p);
            assert(subdirs@.subrange(0, i + 1) =~= subdirs@.subrange(0, i as int).push(
                subdirs@[i as int],
            ));
        }
        if !hidden {
            shown.push(name.clone());
        }
        i = i + 1;
    }
    assert(subdirs@.subrange(0, subdirs@.len() as int) =~= subdirs@);
    proof {
        lemma_string_lt_order();
    }
    let lt = |a: &String, b: &String| -> (x: bool)
        ensures
            x == string_lt(*a, *b),
        { str_lt(a.as_str(), b.as_str()) };
    let sorted = sort_by_lt(shown, &lt, Ghost(|a: String, b: String| string_lt(a, b)));
    if has_parent {
        let mut r: Vec<String> = Vec::new();
        r.push(owned(".."));
        let mut j: usize = 0;
        while j < sorted.len()
            invariant
                j <= sorted@.len(),
                r@.len() == j + 1,
                r@[0]@ == ".."@,
                r@.skip(1) == sorted@.subrange(0, j as int),
            decreases sorted@.len() - j,
        {
            r.push(sorted[j].clone());
            j = j + 1;
            assert(r@.skip(1) =~= sorted@.subrange(0, j as int));
        }
        assert(sorted@.subrange(0, sorted@.len() as int) =~= sorted@);
        r
    } else {
        sorted
    }
}

/// The selection brought back into a list of `total` entries: the last entry
/// when it fell past the end (the first when the list is empty).
pub open spec fn clamped(selected: nat, total: nat) -> nat {
    if selected >= total {
        if total == 0 {
            0
        } else {
            (total - 1) as nat
        }
    } else {
        selected
    }
}

/// Brings the selection back into a list of `total` entries.
pub fn clamp_selection(selected: usize, total: usize) -> (r: usize)
    ensures
        r == clamped(selected as nat, total as nat),
{
    if selected >= total {
        total.saturating_sub(1)
    } else {
        selected
    }
}

/// The rows of a terminal of `height` rows left for entries: all but twelve.
pub fn visible_rows(height: usize) -> (r: usize)
    ensures
        r == if height >= 12 {
            height - 12
        } else {
            0
        },
{
    height.saturating_sub(12)
}

/// The first row shown of `total` entries with `max_visible` rows on screen:
/// from the top while the selection is in the upper half of a screen, the last
/// screenful once it is within half a screen of the end, otherwise the
/// selection half a screen down.
pub open spec fn window_start(selected: nat, total: nat, max_visible: nat) -> nat {
    if total <= max_visible {
        0
    } else if selected < max_visible / 2 {
        0
    } else if selected + max_visible / 2 >= total {
        (total - max_visible) as nat
    } else {
        (selected - max_visible / 2) as nat
    }
}

/// The rows `[start, end)` of `total` entries that are drawn.
pub fn scroll_window(selected: usize, total: usize, max_visible: usize) -> (r: (usize, usize))
    ensures
        r.0 == window_start(selected as nat, total as nat, max_visible as nat),
        r.1 == if r.0 + max_visible <= total {
            r.0 + max_visible
        } else {
            total as int
        },
{
    let half = max_visible / 2;
    let start = if total <= max_visible {
        0
    } else if selected < half {
        0
    } else if selected >= total - half {
        total - max_visible
    } else {
        selected - half
    };
    let end = if total - start >= max_visible {
        start + max_visible
    } else {
        total
    };
    (start, end)
}

/// Whenever there is room for a row, the selected entry is drawn, and no more
/// rows than fit.
pub proof fn law_selection_on_screen(selected: nat, total: nat, max_visible: nat)
    requires
        selected < total,
        max_visible >= 1,
    ensures
        ({
            let start = window_start(selected, total, max_visible);
            let end: int = if start + max_visible <= total {
                (start + max_visible) as int
            } else {
                total as int
            };
            start <= selected < end && end - start <= max_visible
        }),
{
}

/// What a key does in the directory browser.
pub enum BrowseAction {
    /// Select this entry.
    Move(usize),
    /// Go to the parent directory.
    GoParent,
    /// Go into the subdirectory of this name.
    Enter(String),
    /// Choose the current directory.
    Confirm,
    /// Give up choosing.
    Cancel,
}

/// Handles a key on entry `selected` of `entries`: Up and Down (or `k`, `j`)
/// move with wrap-around; Enter, Right or `l` open the selected entry (`..`
/// being the parent); Left, Backspace or `h` go to the parent; Space chooses
/// the current directory; `q` or Esc give up. Other keys, and releases, keep
/// the selection.
pub fn browse_key(selected: usize, entries: &Vec<String>, key: KeyEvent) -> (r: BrowseAction)
    ensures
        !key.press ==> r == BrowseAction::Move(selected),
        key.press && (key.code == KeyCode::Up || key.code == KeyCode::Char('k')) ==> r
            == BrowseAction::Move(
            if selected > 0 {
                (selected - 1) as usize
            } else if entries@.len() > 0 {
                (entries@.len() - 1) as usize
            } else {
                0
            },
        ),
        key.press && (key.code == KeyCode::Down || key.code == KeyCode::Char('j')) ==> r
            == BrowseAction::Move(
            if selected + 1 < entries@.len() {
                (selected + 1) as usize
            } else {
                0
            },
        ),
        key.press && (key.code == KeyCode::Enter || key.code == KeyCode::Right || key.code
            == KeyCode::Char('l')) ==> if selected < entries@.len() {
            if entries@[selected as int]@ == ".."@ {
                r == BrowseAction::GoParent
            } else {
                r matches BrowseAction::Enter(name) && name == entries@[selected as int]
            }
        } else {
            r == BrowseAction::Move(selected)
        },
        key.press && (key.code == KeyCode::Left || key.code == KeyCode::Backspace || key.code
            == KeyCode::Char('h')) ==> r == BrowseAction::GoParent,
        key.press && key.code == KeyCode::Char(' ') ==> r == BrowseAction::Confirm,
        key.press && (key.code == KeyCode::Char('q') || key.code == KeyCode::Esc) ==> r
            == BrowseAction::Cancel,
        key.press && !(key.code == KeyCode::Up || key.code == KeyCode::Char('k') || key.code
            == KeyCode::Down || key.code == KeyCode::Char('j') || key.code == KeyCode::Enter
            || key.code == KeyCode::Right || key.code == KeyCode::Char('l') || key.code
            == KeyCode::Left || key.code == KeyCode::Backspace || key.code == KeyCode::Char('h')
            || key.code == KeyCode::Char(' ') || key.code == KeyCode::Char('q') || key.code
            == KeyCode::Esc) ==> r == BrowseAction::Move(selected),
{
    if !key.press {
        return BrowseAction::Move(selected);
    }
    let total = entries.len();
    let c = key.code;
    if c == KeyCode::Up || c == KeyCode::Char('k') {
        if selected > 0 {
            BrowseAction::Move(selected - 1)
        } else {
            BrowseAction::Move(total.saturating_sub(1))
        }
    } else if c == KeyCode::Down || c == KeyCode::Char('j') {
        if total > 0 && selected < total - 1 {
            BrowseAction::Move(selected + 1)
        } else {
            BrowseAction::Move(0)
        }
    } else if c == KeyCode::Enter || c == KeyCode::Right || c == KeyCode::Char('l') {
        if selected < total {
            if str_eq(entries[selected].as_str(), "..") {
                BrowseAction::GoParent
            } else {
                BrowseAction::Enter(entries[selected].clone())
            }
        } else {
            BrowseAction::Move(selected)
        }
    } else if c == KeyCode::Left || c == KeyCode::Backspace || c == KeyCode::Char('h') {
        BrowseAction::GoParent
    } else if c == KeyCode::Char(' ') {
        BrowseAction::Confirm
    } else if c == KeyCode::Char('q') || c == KeyCode::Esc {
        BrowseAction::Cancel
    } else {
        BrowseAction::Move(selected)
    }
}

} // verus!
