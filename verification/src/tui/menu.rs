//! A menu: a list of items with optional detail lines, filtered by a search
//! query that the user can type.

use vstd::prelude::*;
use crate::config::views;
use crate::text::{
    contains_seq, join, join_strings, lowercase, owned, pop_char, push_char, to_lowercase, trim,
    trim_str,
};
use crate::tui::key::{is_ctrl_c, KeyCode, KeyEvent};
use crate::tui::list::{
    after_select, law_move_stays_in_list, move_down, move_down_selection, move_up,
    move_up_selection, ListState,
};

verus! {

/// A menu screen.
pub struct MenuState {
    pub title: String,
    pub subtitle: String,
    pub items: Vec<String>,
    pub details: Vec<Vec<String>>,
    pub list_state: ListState,
    pub search_enabled: bool,
    pub search_mode: bool,
    pub search_query: String,
    pub search_hint: String,
    /// The indices of the items that the search leaves, in order; kept in
    /// step with the query by the menu's own methods.
    pub filtered_indices: Vec<usize>,
}

/// What a key press on a menu asks for.
pub enum MenuAction {
    /// The item with this index in the full list.
    Select(usize),
    Back,
    Quit,
}

/// Where a key on a menu goes, once its help has been looked at.
#[derive(Clone, Copy, PartialEq, Eq, Structural)]
pub enum HelpKey {
    /// The key is used up by the help.
    Used,
    /// The program is to end.
    Quit,
    /// The key is for the menu itself.
    ToMenu,
}

/// A key on a menu with help lines, given whether the help is shown and
/// whether the menu is searching: whether the help is shown afterwards, and
/// where the key goes. With the help shown, Control-C quits, `?`, `b` or Esc
/// hide it and other keys are used up; with it hidden, `?` outside a search
/// shows it and other keys go to the menu. Anything but a press is used up.
pub open spec fn help_key_result(help: bool, searching: bool, k: KeyEvent) -> (bool, HelpKey) {
    let c = k.code;
    if !k.press {
        (help, HelpKey::Used)
    } else if help {
        if is_ctrl_c(k) {
            (help, HelpKey::Quit)
        } else if c == KeyCode::Char('?') || c == KeyCode::Esc || c == KeyCode::Char('b') {
            (false, HelpKey::Used)
        } else {
            (true, HelpKey::Used)
        }
    } else if c == KeyCode::Char('?') && !searching {
        (true, HelpKey::Used)
    } else {
        (false, HelpKey::ToMenu)
    }
}

/// A key on a menu with help lines: whether the help is shown afterwards,
/// and where the key goes.
pub fn help_key(help_visible: bool, searching: bool, key: KeyEvent) -> (r: (bool, HelpKey))
    ensures
        r == help_key_result(help_visible, searching, key),
{
    if !key.press {
        return (help_visible, HelpKey::Used);
    }
    if help_visible {
        if key.ctrl_c() {
            (help_visible, HelpKey::Quit)
        } else {
            match key.code {
                KeyCode::Char('?') | KeyCode::Esc | KeyCode::Char('b') => (false, HelpKey::Used),
                _ => (true, HelpKey::Used),
            }
        }
    } else {
        match key.code {
            KeyCode::Char('?') if !searching => (true, HelpKey::Used),
            _ => (false, HelpKey::ToMenu),
        }
    }
}

/// The text an item is searched in: its lower-cased label, and, when it has
/// detail lines, a newline and the lower-cased lines joined by newlines.
pub open spec fn haystack(items: Seq<String>, details: Seq<Vec<String>>, i: int) -> Seq<char> {
    lowercase(items[i]@) + if i < details.len() {
        "\n"@ + lowercase(join(views(details[i]@), "\n"@))
    } else {
        Seq::<char>::empty()
    }
}

/// The query a search text stands for: trimmed and lower-cased.
pub open spec fn search_key(query: Seq<char>) -> Seq<char> {
    lowercase(trim(query))
}

/// Whether an item matches a query: every item matches the empty query.
pub open spec fn item_matches(items: Seq<String>, details: Seq<Vec<String>>, key: Seq<char>, i: int) -> bool {
    key.len() == 0 || contains_seq(haystack(items, details, i), key)
}

/// The indices of the first `n` texts that contain `key`, in order; every
/// text contains the empty key.
pub open spec fn hits(hays: Seq<Seq<char>>, key: Seq<char>, n: nat) -> Seq<usize>
    decreases n,
{
    if n == 0 {
        seq![]
    } else if key.len() == 0 || contains_seq(hays[n - 1], key) {
        hits(hays, key, (n - 1) as nat).push((n - 1) as usize)
    } else {
        hits(hays, key, (n - 1) as nat)
    }
}

/// The indices of the texts that contain `key` (all of them when `key` is
/// empty), in order. A menu searches its items' lower-cased texts with its
/// lower-cased query this way.
pub fn filter_indices(hays: &Vec<String>, key: &str) -> (r: Vec<usize>)
    ensures
        r@ == hits(views(hays@), key@, hays@.len()),
{
    let mut r: Vec<usize> = Vec::new();
    let mut i: usize = 0;
    while i < hays.len()
        invariant
            i <= hays@.len(),
            r@ == hits(views(hays@), key@, i as nat),
        decreases hays@.len() - i,
    {
        assert(views(hays@)[i as int] == hays@[i as int]@);
        if crate::text::is_empty_str(key) || crate::text::str_contains(hays[i].as_str(), key) {
            r.push(i);
        }
        i = i + 1;
    }
    r
}

proof fn lemma_hits_match(
    hays: Seq<Seq<char>>,
    items: Seq<String>,
    details: Seq<Vec<String>>,
    key: Seq<char>,
    n: nat,
)
    requires
        n <= hays.len(),
        forall|j: int| 0 <= j < n ==> hays[j] == haystack(items, details, j),
    ensures
        hits(hays, key, n) == matching_indices(items, details, key, n),
    decreases n,
{
    if n > 0 {
        lemma_hits_match(hays, items, details, key, (n - 1) as nat);
        assert(hays[n - 1] == haystack(items, details, n - 1));
    }
}

/// The indices of the first `n` items that match, in order.
pub open spec fn matching_indices(
    items: Seq<String>,
    details: Seq<Vec<String>>,
    key: Seq<char>,
    n: nat,
) -> Seq<usize>
    decreases n,
{
    if n == 0 {
        seq![]
    } else if item_matches(items, details, key, n - 1) {
        matching_indices(items, details, key, (n - 1) as nat).push((n - 1) as usize)
    } else {
        matching_indices(items, details, key, (n - 1) as nat)
    }
}

/// The selection after the list of matches changed to `n` rows: none for no
/// match, the same row when still in range, the first row otherwise.
pub open spec fn refreshed_selection(sel: Option<usize>, n: nat) -> Option<usize> {
    if n == 0 {
        None
    } else {
        match sel {
            Some(i) => if i < n {
                Some(i)
            } else {
                Some(0)
            },
            None => Some(0),
        }
    }
}

/// The matching indices are ordered indices of items, and a row is selected
/// exactly when something matches, within the matches.
pub open spec fn filter_wf(filtered: Seq<usize>, n_items: nat, sel: Option<usize>) -> bool {
    &&& forall|k: int| 0 <= k < filtered.len() ==> #[trigger] filtered[k] < n_items
    &&& forall|a: int, b: int| 0 <= a < b < filtered.len() ==> #[trigger] filtered[a] < #[trigger] filtered[b]
    &&& (sel is None <==> filtered.len() == 0)
    &&& sel matches Some(i) ==> i < filtered.len()
}

proof fn lemma_matching_indices(items: Seq<String>, details: Seq<Vec<String>>, key: Seq<char>, n: nat)
    requires
        n <= items.len(),
        n <= usize::MAX,
    ensures
        forall|k: int|
            0 <= k < matching_indices(items, details, key, n).len() ==> #[trigger] matching_indices(
                items,
                details,
                key,
                n,
            )[k] < n,
        forall|a: int, b: int|
            0 <= a < b < matching_indices(items, details, key, n).len() ==> #[trigger] matching_indices(
                items,
                details,
                key,
                n,
            )[a] < #[trigger] matching_indices(items, details, key, n)[b],
        forall|i: int|
            0 <= i < n && item_matches(items, details, key, i) ==> #[trigger] matching_indices(
                items,
                details,
                key,
                n,
            ).contains(i as usize),
        forall|k: int|
            0 <= k < matching_indices(items, details, key, n).len() ==> item_matches(
                items,
                details,
                key,
                #[trigger] matching_indices(items, details, key, n)[k] as int,
            ),
    decreases n,
{
    if n > 0 {
        lemma_matching_indices(items, details, key, (n - 1) as nat);
        let prev = matching_indices(items, details, key, (n - 1) as nat);
        let cur = matching_indices(items, details, key, n);
        assert forall|i: int| 0 <= i < n && item_matches(items, details, key, i) implies #[trigger] cur.contains(
            i as usize,
        ) by {
            if i < n - 1 {
                assert(prev.contains(i as usize));
                let k = choose|k: int| 0 <= k < prev.len() && prev[k] == i as usize;
                assert(cur[k] == prev[k]);
            } else {
                assert(cur[cur.len() - 1] == i as usize);
            }
        }
    }
}

/// The menu after moving its selection to `sel`; a menu with nothing to
/// select stays as it is.
pub open spec fn moved(o: MenuState, f: MenuState, sel: Option<usize>) -> bool {
    if o.filtered().len() == 0 {
        f == o
    } else {
        f == MenuState { list_state: after_select(o.list_state, sel), ..o }
    }
}

/// Enter on a menu: the selected item, or nothing when none is selected.
pub open spec fn select_action(o: MenuState, r: Option<MenuAction>) -> bool {
    match o.list_state.selected {
        Some(i) => r == Some(MenuAction::Select(o.filtered()[i as int])),
        None => r is None,
    }
}

/// The menu after its search text became `q`: the matches recomputed, the
/// selection kept within them, everything else unchanged.
pub open spec fn refreshed(o: MenuState, f: MenuState, q: Seq<char>) -> bool {
    &&& f.search_query@ == q
    &&& f.title == o.title
    &&& f.subtitle == o.subtitle
    &&& f.items == o.items
    &&& f.details == o.details
    &&& f.search_enabled == o.search_enabled
    &&& f.search_mode == o.search_mode
    &&& f.search_hint == o.search_hint
    &&& f.filtered() == matching_indices(o.items@, o.details@, search_key(q), o.items@.len())
    &&& f.list_state == after_select(
        o.list_state,
        refreshed_selection(o.list_state.selected, f.filtered().len()),
    )
}

/// What a key press does to a menu that is not taking search input.
pub open spec fn browse_effect(o: MenuState, f: MenuState, k: KeyEvent, r: Option<MenuAction>) -> bool {
    let c = k.code;
    if c == KeyCode::Up || c == KeyCode::Char('k') {
        r is None && moved(o, f, move_up_selection(o.list_state.selected, o.filtered().len()))
    } else if c == KeyCode::Down || c == KeyCode::Char('j') {
        r is None && moved(o, f, move_down_selection(o.list_state.selected, o.filtered().len()))
    } else if c == KeyCode::Char('/') && o.search_enabled {
        r is None && f == MenuState { search_mode: true, ..o }
    } else if c == KeyCode::Enter {
        select_action(o, r) && f == o
    } else if c == KeyCode::Esc || c == KeyCode::Char('b') {
        r == Some(MenuAction::Back) && f == o
    } else if c == KeyCode::Char('q') || is_ctrl_c(k) {
        r == Some(MenuAction::Quit) && f == o
    } else {
        r is None && f == o
    }
}

/// What a key press does to a menu that is taking search input.
pub open spec fn search_effect(o: MenuState, f: MenuState, k: KeyEvent, r: Option<MenuAction>) -> bool {
    let c = k.code;
    let q = o.search_query@;
    if c == KeyCode::Up || c == KeyCode::Char('k') {
        r is None && moved(o, f, move_up_selection(o.list_state.selected, o.filtered().len()))
    } else if c == KeyCode::Down || c == KeyCode::Char('j') {
        r is None && moved(o, f, move_down_selection(o.list_state.selected, o.filtered().len()))
    } else if c == KeyCode::Enter {
        select_action(o, r) && f == o
    } else if c == KeyCode::Backspace {
        r is None && if q.len() == 0 {
            f == MenuState { search_mode: false, ..o }
        } else {
            refreshed(o, f, q.drop_last())
        }
    } else if c == KeyCode::Esc {
        if q.len() == 0 {
            r == Some(MenuAction::Back) && f == o
        } else {
            r is None && refreshed(o, f, Seq::<char>::empty())
        }
    } else if c == KeyCode::Char('b') && q.len() == 0 {
        r == Some(MenuAction::Back) && f == o
    } else if is_ctrl_c(k) {
        r == Some(MenuAction::Quit) && f == o
    } else if c is Char {
        r is None && refreshed(o, f, q.push(c->Char_0))
    } else {
        r is None && f == o
    }
}

impl MenuState {
    /// The indices of the items the search leaves, in order.
    pub open spec fn filtered(&self) -> Seq<usize> {
        self.filtered_indices@
    }

    /// The menu is consistent: see [`filter_wf`].
    pub open spec fn wf(&self) -> bool {
        filter_wf(self.filtered_indices@, self.items@.len(), self.list_state.selected)
    }

    /// The indices of the items the search leaves, in order.
    pub fn filtered_indices(&self) -> (r: &Vec<usize>)
        ensures
            r@ == self.filtered(),
    {
        &self.filtered_indices
    }

    /// Recomputes which items match the search query and keeps the selection
    /// within them.
    fn refresh_filter(&mut self)
        ensures
            final(self).title == old(self).title,
            final(self).subtitle == old(self).subtitle,
            final(self).items == old(self).items,
            final(self).details == old(self).details,
            final(self).search_enabled == old(self).search_enabled,
            final(self).search_mode == old(self).search_mode,
            final(self).search_query == old(self).search_query,
            final(self).search_hint == old(self).search_hint,
            final(self).filtered() == matching_indices(
                old(self).items@,
                old(self).details@,
                search_key(old(self).search_query@),
                old(self).items@.len(),
            ),
            final(self).list_state == after_select(
                old(self).list_state,
                refreshed_selection(old(self).list_state.selected, final(self).filtered().len()),
            ),
            final(self).wf(),
    {
        let trimmed = trim_str(self.search_query.as_str());
        let query = to_lowercase(trimmed.as_str());
        let ghost key = search_key(self.search_query@);
        let mut hays: Vec<String> = Vec::new();
        let mut i: usize = 0;
        while i < self.items.len()
            invariant
                i <= self.items@.len(),
                hays@.len() == i,
                forall|j: int| 0 <= j < i ==> #[trigger] hays@[j]@ == haystack(self.items@, self.details@, j),
            decreases self.items@.len() - i,
        {
            let mut hay = to_lowercase(self.items[i].as_str());
            if i < self.details.len() {
                push_char(&mut hay, '\n');
                let joined = join_strings(&self.details[i], "\n");
                let low = to_lowercase(joined.as_str());
                hay.append(low.as_str());
                proof {
                    reveal_strlit("\n");
                    assert(hay@ =~= haystack(self.items@, self.details@, i as int));
                }
            } else {
                assert(hay@ =~= haystack(self.items@, self.details@, i as int));
            }
            hays.push(hay);
            i = i + 1;
        }
        let filtered = filter_indices(&hays, query.as_str());
        proof {
            lemma_hits_match(views(hays@), self.items@, self.details@, key, self.items@.len());
            lemma_matching_indices(self.items@, self.details@, key, self.items@.len());
        }
        self.filtered_indices = filtered;
        if self.filtered_indices.len() == 0 {
            self.list_state.select(None);
        } else {
            let next = match self.list_state.selected() {
                Some(index) => if index < self.filtered_indices.len() {
                    index
                } else {
                    0
                },
                None => 0,
            };
            self.list_state.select(Some(next));
        }
    }

    /// A menu over `items`, the first one selected, no search.
    pub fn new(title: &str, subtitle: &str, items: Vec<String>) -> (r: MenuState)
        ensures
            r.title@ == title@,
            r.subtitle@ == subtitle@,
            r.items == items,
            r.details@.len() == 0,
            !r.search_enabled,
            !r.search_mode,
            r.search_query@.len() == 0,
            r.search_hint@ == "输入关键词过滤列表"@,
            r.filtered() == matching_indices(items@, seq![], search_key(seq![]), items@.len()),
            r.list_state.selected == refreshed_selection(
                if items@.len() > 0 {
                    Some(0usize)
                } else {
                    None
                },
                r.filtered().len(),
            ),
            r.wf(),
    {
        let mut list_state = ListState::new();
        if items.len() > 0 {
            list_state.select(Some(0));
        }
        let mut m = MenuState {
            title: owned(title),
            subtitle: owned(subtitle),
            items,
            details: Vec::new(),
            list_state,
            search_enabled: false,
            search_mode: false,
            search_query: String::new(),
            search_hint: owned("输入关键词过滤列表"),
            filtered_indices: Vec::new(),
        };
        m.refresh_filter();
        m
    }

    /// The menu with detail lines for its items.
    pub fn with_details(self, details: Vec<Vec<String>>) -> (r: MenuState)
        ensures
            r.details == details,
            r.title == self.title,
            r.subtitle == self.subtitle,
            r.items == self.items,
            r.list_state == self.list_state,
            r.search_enabled == self.search_enabled,
            r.search_mode == self.search_mode,
            r.search_query == self.search_query,
            r.search_hint == self.search_hint,
            r.filtered() == self.filtered(),
            self.wf() ==> r.wf(),
    {
        let mut m = self;
        m.details = details;
        m
    }

    /// The menu with searching enabled and its hint.
    pub fn with_search(self, hint: &str) -> (r: MenuState)
        ensures
            r.search_enabled,
            r.search_hint@ == hint@,
            r.details == self.details,
            r.title == self.title,
            r.subtitle == self.subtitle,
            r.items == self.items,
            r.list_state == self.list_state,
            r.search_mode == self.search_mode,
            r.search_query == self.search_query,
            r.filtered() == self.filtered(),
            self.wf() ==> r.wf(),
    {
        let mut m = self;
        m.search_enabled = true;
        m.search_hint = owned(hint);
        m
    }

    /// Handles a key. While taking search input, characters edit the query
    /// (`k`, `j` and, with an empty query, `b` still move and go back) and the
    /// matches follow it; otherwise `/` starts searching when the menu allows
    /// it. Up and Down (or `k` and `j`) move the selection with wrap-around,
    /// Enter selects, Esc or `b` go back, `q` or Control-C quit.
    pub fn handle_key_event(&mut self, key: KeyEvent) -> (r: Option<MenuAction>)
        requires
            old(self).wf(),
        ensures
            final(self).wf(),
            !key.press ==> r is None && *final(self) == *old(self),
            key.press && old(self).search_enabled && old(self).search_mode ==> search_effect(
                *old(self),
                *final(self),
                key,
                r,
            ),
            key.press && !(old(self).search_enabled && old(self).search_mode) ==> browse_effect(
                *old(self),
                *final(self),
                key,
                r,
            ),
    {
        if !key.press {
            return None;
        }
        let n = self.filtered_indices.len();
        proof {
            if n > 0 {
                law_move_stays_in_list(self.list_state.selected, n as nat);
            }
        }
        if self.search_enabled && self.search_mode {
            match key.code {
                KeyCode::Up | KeyCode::Char('k') => {
                    move_up(&mut self.list_state, n);
                    return None;
                },
                KeyCode::Down | KeyCode::Char('j') => {
                    move_down(&mut self.list_state, n);
                    return None;
                },
                KeyCode::Enter => {
                    return match self.selected() {
                        Some(index) => Some(MenuAction::Select(index)),
                        None => None,
                    };
                },
                KeyCode::Backspace => {
                    if crate::text::is_empty_str(self.search_query.as_str()) {
                        self.search_mode = false;
                    } else {
                        let _ = pop_char(&mut self.search_query);
                        self.refresh_filter();
                    }
                    return None;
                },
                KeyCode::Esc => {
                    if crate::text::is_empty_str(self.search_query.as_str()) {
                        return Some(MenuAction::Back);
                    } else {
                        self.search_query = String::new();
                        self.refresh_filter();
                        return None;
                    }
                },
                _ => {},
            }
            if key.code == KeyCode::Char('b') && crate::text::is_empty_str(
                self.search_query.as_str(),
            ) {
                return Some(MenuAction::Back);
            }
            if key.ctrl_c() {
                return Some(MenuAction::Quit);
            }
            if let KeyCode::Char(c) = key.code {
                push_char(&mut self.search_query, c);
                self.refresh_filter();
            }
            return None;
        }
        let c = key.code;
        if c == KeyCode::Up || c == KeyCode::Char('k') {
            move_up(&mut self.list_state, n);
            None
        } else if c == KeyCode::Down || c == KeyCode::Char('j') {
            move_down(&mut self.list_state, n);
            None
        } else if c == KeyCode::Char('/') && self.search_enabled {
            self.search_mode = true;
            None
        } else if c == KeyCode::Enter {
            match self.selected() {
                Some(index) => Some(MenuAction::Select(index)),
                None => None,
            }
        } else if c == KeyCode::Esc || c == KeyCode::Char('b') {
            Some(MenuAction::Back)
        } else if c == KeyCode::Char('q') || key.ctrl_c() {
            Some(MenuAction::Quit)
        } else {
            None
        }
    }

    /// The index, in the full list, of the selected item.
    pub fn selected(&self) -> (r: Option<usize>)
        requires
            self.wf(),
        ensures
            r == match self.list_state.selected {
                Some(i) => Some(self.filtered()[i as int]),
                None => None,
            },
            r matches Some(i) ==> i < self.items@.len(),
    {
        match self.list_state.selected() {
            Some(index) => Some(self.filtered_indices[index]),
            None => None,
        }
    }
}

} // verus!
