use gmux::tui::browser::{
    browse_entries, browse_key, clamp_selection, scroll_window, visible_rows, BrowseAction,
};
use gmux::tui::checklist::{ChecklistAction, ChecklistState};
use gmux::tui::input::{InputAction, InputState};
use gmux::tui::key::{KeyCode, KeyEvent};
use gmux::tui::list::{move_down, move_up, ListState};
use gmux::tui::menu::{filter_indices, help_key, HelpKey, MenuAction, MenuState};

fn strings(v: &[&str]) -> Vec<String> {
    v.iter().map(|s| s.to_string()).collect()
}

fn press(code: KeyCode) -> KeyEvent {
    KeyEvent { code, ctrl: false, press: true }
}

fn ctrl_c() -> KeyEvent {
    KeyEvent { code: KeyCode::Char('c'), ctrl: true, press: true }
}

fn input() -> InputState {
    InputState::new("t", "s", "l", "p")
}

fn type_text(s: &mut InputState, text: &str) {
    for c in text.chars() {
        let k = press(KeyCode::Char(c));
        assert!(s.accepts(&k));
        assert!(s.handle_key_event(k).is_none());
    }
}

#[test]
fn input_state_new_is_empty() {
    let s = InputState::new("标题", "副标题", "标签", "提示");
    assert_eq!(s.title, "标题");
    assert_eq!(s.placeholder, "提示");
    assert_eq!(s.value, "");
    assert_eq!(s.cursor_pos, 0);
    assert!(s.error.is_none());
}

#[test]
fn input_typing_and_editing() {
    let mut s = input();
    type_text(&mut s, "abc");
    assert_eq!(s.value, "abc");
    assert_eq!(s.cursor_pos, 3);
    s.handle_key_event(press(KeyCode::Left));
    type_text(&mut s, "X");
    assert_eq!(s.value, "abXc");
    s.handle_key_event(press(KeyCode::Backspace));
    assert_eq!(s.value, "abc");
    assert_eq!(s.cursor_pos, 2);
    s.handle_key_event(press(KeyCode::Home));
    assert_eq!(s.cursor_pos, 0);
    s.handle_key_event(press(KeyCode::Backspace));
    assert_eq!(s.value, "abc");
    s.handle_key_event(press(KeyCode::End));
    assert_eq!(s.cursor_pos, 3);
    s.handle_key_event(press(KeyCode::Right));
    assert_eq!(s.cursor_pos, 3);
}

#[test]
fn input_backspace_keeps_a_wide_character_before_the_cursor() {
    let mut s = InputState::prefilled("t", "s", "l", "p", "界a".to_string());
    assert_eq!(s.cursor_pos, 4);
    assert!(s.accepts(&press(KeyCode::Backspace)));
    assert!(s.handle_key_event(press(KeyCode::Backspace)).is_none());
    assert_eq!(s.value, "界");
    assert_eq!(s.cursor_pos, 3);
    assert!(!s.accepts(&press(KeyCode::Backspace)));
}

#[test]
fn input_enter_refuses_an_empty_value() {
    let mut s = input();
    assert!(s.handle_key_event(press(KeyCode::Enter)).is_none());
    assert_eq!(s.error, Some("输入不能为空".to_string()));
    type_text(&mut s, "x");
    assert!(s.error.is_none());
    match s.handle_key_event(press(KeyCode::Enter)) {
        Some(InputAction::Submit(v)) => assert_eq!(v, "x"),
        _ => panic!("expected a submit"),
    }
}

#[test]
fn input_escape_and_quit() {
    let mut s = input();
    assert!(matches!(s.handle_key_event(press(KeyCode::Esc)), Some(InputAction::Back)));
    assert!(matches!(s.handle_key_event(ctrl_c()), Some(InputAction::Quit)));
    let release = KeyEvent { code: KeyCode::Char('z'), ctrl: false, press: false };
    assert!(s.handle_key_event(release).is_none());
    assert_eq!(s.value, "");
}

#[test]
fn input_refuses_a_cursor_inside_a_character() {
    let mut s = input();
    type_text(&mut s, "é");
    assert_eq!(s.value, "é");
    assert_eq!(s.cursor_pos, 1);
    assert!(!s.accepts(&press(KeyCode::Char('a'))));
    assert!(s.accepts(&press(KeyCode::Left)));
}

#[test]
fn list_moves_wrap_around() {
    let mut l = ListState::new();
    move_down(&mut l, 3);
    assert_eq!(l.selected(), Some(0));
    move_up(&mut l, 3);
    assert_eq!(l.selected(), Some(2));
    move_down(&mut l, 3);
    assert_eq!(l.selected(), Some(0));
    move_up(&mut l, 0);
    assert_eq!(l.selected(), Some(0));
    l.offset = 4;
    l.select(None);
    assert_eq!(l.offset, 0);
}

#[test]
fn menu_selects_with_enter_after_moving() {
    let mut m = MenuState::new("t", "s", strings(&["a", "b", "c"]));
    assert_eq!(m.selected(), Some(0));
    m.handle_key_event(press(KeyCode::Char('j')));
    m.handle_key_event(press(KeyCode::Down));
    assert!(matches!(m.handle_key_event(press(KeyCode::Enter)), Some(MenuAction::Select(2))));
    m.handle_key_event(press(KeyCode::Down));
    assert_eq!(m.selected(), Some(0));
    assert!(matches!(m.handle_key_event(press(KeyCode::Char('b'))), Some(MenuAction::Back)));
    assert!(matches!(m.handle_key_event(press(KeyCode::Char('q'))), Some(MenuAction::Quit)));
}

#[test]
fn empty_menu_selects_nothing() {
    let mut m = MenuState::new("t", "s", Vec::new());
    assert_eq!(m.selected(), None);
    assert!(m.handle_key_event(press(KeyCode::Enter)).is_none());
}

#[test]
fn menu_search_filters_by_label_and_details() {
    let mut m = MenuState::new("t", "s", strings(&["Alpha", "beta", "gamma"]))
        .with_details(vec![strings(&["x"]), strings(&["owner: Zed"]), Vec::new()])
        .with_search("filter");
    assert!(m.search_enabled);
    assert_eq!(m.search_hint, "filter");
    m.handle_key_event(press(KeyCode::Char('/')));
    assert!(m.search_mode);
    m.handle_key_event(press(KeyCode::Char('Z')));
    assert_eq!(m.filtered_indices(), &vec![1usize]);
    assert!(matches!(m.handle_key_event(press(KeyCode::Enter)), Some(MenuAction::Select(1))));
    m.handle_key_event(press(KeyCode::Backspace));
    assert_eq!(m.filtered_indices(), &vec![0usize, 1, 2]);
    m.handle_key_event(press(KeyCode::Char('A')));
    m.handle_key_event(press(KeyCode::Char('L')));
    assert_eq!(m.search_query, "AL");
    assert_eq!(m.filtered_indices(), &vec![0usize]);
    assert!(m.handle_key_event(press(KeyCode::Esc)).is_none());
    assert_eq!(m.search_query, "");
    assert_eq!(m.filtered_indices().len(), 3);
    assert!(matches!(m.handle_key_event(press(KeyCode::Esc)), Some(MenuAction::Back)));
}

#[test]
fn menu_search_without_matches_selects_nothing() {
    let mut m = MenuState::new("t", "s", strings(&["a", "b"])).with_search("f");
    m.handle_key_event(press(KeyCode::Char('/')));
    m.handle_key_event(press(KeyCode::Char('x')));
    assert_eq!(m.selected(), None);
    assert!(m.handle_key_event(press(KeyCode::Enter)).is_none());
    m.handle_key_event(press(KeyCode::Backspace));
    assert_eq!(m.selected(), Some(0));
}

#[test]
fn menu_slash_without_search_does_nothing() {
    let mut m = MenuState::new("t", "s", strings(&["a"]));
    assert!(m.handle_key_event(press(KeyCode::Char('/'))).is_none());
    assert!(!m.search_mode);
}

#[test]
fn checklist_submits_ticked_items_in_order() {
    let mut c = ChecklistState::new("t", "s", strings(&["a", "b", "c"]));
    assert!(c.handle_key_event(press(KeyCode::Enter)).is_none());
    assert_eq!(c.error, Some("至少选择一个目标分支".to_string()));
    c.handle_key_event(press(KeyCode::Up));
    c.handle_key_event(press(KeyCode::Char(' ')));
    assert!(c.error.is_none());
    c.handle_key_event(press(KeyCode::Down));
    c.handle_key_event(press(KeyCode::Char(' ')));
    assert_eq!(c.checked(), vec![0, 2]);
    match c.handle_key_event(press(KeyCode::Enter)) {
        Some(ChecklistAction::Submit(idx)) => assert_eq!(idx, vec![0, 2]),
        _ => panic!("expected a submit"),
    }
    c.handle_key_event(press(KeyCode::Char(' ')));
    assert_eq!(c.checked(), vec![2]);
}

#[test]
fn checklist_help_page() {
    let mut c = ChecklistState::new("t", "s", strings(&["a"])).with_help(strings(&["help"]));
    assert_eq!(c.help_lines, strings(&["help"]));
    c.handle_key_event(press(KeyCode::Char('?')));
    assert!(c.help_visible);
    assert!(c.handle_key_event(press(KeyCode::Char('q'))).is_none());
    c.handle_key_event(press(KeyCode::Esc));
    assert!(!c.help_visible);
    assert!(matches!(c.handle_key_event(press(KeyCode::Char('b'))), Some(ChecklistAction::Back)));
    assert!(matches!(c.handle_key_event(ctrl_c()), Some(ChecklistAction::Quit)));
}

#[test]
fn browser_entries_hide_dot_directories_and_sort() {
    assert_eq!(
        browse_entries(true, strings(&["zeta", ".git", "alpha"])),
        strings(&["..", "alpha", "zeta"])
    );
    assert_eq!(browse_entries(false, strings(&["b", "a"])), strings(&["a", "b"]));
    assert!(browse_entries(false, strings(&[".hidden"])).is_empty());
}

#[test]
fn browser_keys() {
    let entries = strings(&["..", "alpha"]);
    assert!(matches!(browse_key(0, &entries, press(KeyCode::Up)), BrowseAction::Move(1)));
    assert!(matches!(browse_key(1, &entries, press(KeyCode::Char('j'))), BrowseAction::Move(0)));
    assert!(matches!(browse_key(0, &entries, press(KeyCode::Enter)), BrowseAction::GoParent));
    assert!(matches!(browse_key(1, &entries, press(KeyCode::Right)), BrowseAction::Enter(n) if n == "alpha"));
    assert!(matches!(browse_key(1, &entries, press(KeyCode::Backspace)), BrowseAction::GoParent));
    assert!(matches!(browse_key(1, &entries, press(KeyCode::Char(' '))), BrowseAction::Confirm));
    assert!(matches!(browse_key(1, &entries, press(KeyCode::Esc)), BrowseAction::Cancel));
    assert!(matches!(browse_key(1, &entries, press(KeyCode::Char('x'))), BrowseAction::Move(1)));
    assert!(matches!(browse_key(0, &Vec::new(), press(KeyCode::Up)), BrowseAction::Move(0)));
}

#[test]
fn browser_window_keeps_the_selection_on_screen() {
    assert_eq!(visible_rows(30), 18);
    assert_eq!(visible_rows(5), 0);
    assert_eq!(clamp_selection(7, 3), 2);
    assert_eq!(clamp_selection(7, 0), 0);
    assert_eq!(clamp_selection(1, 3), 1);
    assert_eq!(scroll_window(0, 5, 10), (0, 5));
    assert_eq!(scroll_window(2, 100, 10), (0, 10));
    assert_eq!(scroll_window(50, 100, 10), (45, 55));
    assert_eq!(scroll_window(97, 100, 10), (90, 100));
}

#[test]
fn space_twice_restores_the_ticks() {
    let mut c = ChecklistState::new("t", "s", strings(&["a", "b"]));
    let before = c.selected.clone();
    c.handle_key_event(press(KeyCode::Char(' ')));
    assert_ne!(c.selected, before);
    assert_eq!(c.selected[1], before[1]);
    c.handle_key_event(press(KeyCode::Char(' ')));
    assert_eq!(c.selected, before);
}

#[test]
fn ascii_typing_keeps_the_cursor_within_the_value() {
    let mut s = InputState::prefilled("t", "s", "l", "p", "ab".to_string());
    for k in [KeyCode::Char('x'), KeyCode::Left, KeyCode::Backspace, KeyCode::End, KeyCode::Right] {
        assert!(s.accepts(&press(k)));
        s.handle_key_event(press(k));
        assert!(s.value.is_ascii());
        assert!(s.cursor_pos <= s.value.len());
    }
    assert_eq!(s.value, "ax");
}

#[test]
fn filter_indices_keeps_matching_texts_in_order() {
    let hays = strings(&["alpha\nowner: zed", "beta", "zeta"]);
    assert_eq!(filter_indices(&hays, "ze"), vec![0, 2]);
    assert_eq!(filter_indices(&hays, ""), vec![0, 1, 2]);
    assert!(filter_indices(&hays, "q").is_empty());
}

#[test]
fn menu_help_keys() {
    assert!(matches!(help_key(false, false, press(KeyCode::Char('?'))), (true, HelpKey::Used)));
    assert!(matches!(help_key(false, true, press(KeyCode::Char('?'))), (false, HelpKey::ToMenu)));
    assert!(matches!(help_key(false, false, press(KeyCode::Down)), (false, HelpKey::ToMenu)));
    assert!(matches!(help_key(true, false, press(KeyCode::Esc)), (false, HelpKey::Used)));
    assert!(matches!(help_key(true, false, press(KeyCode::Down)), (true, HelpKey::Used)));
    let ctrl_c = KeyEvent { code: KeyCode::Char('c'), ctrl: true, press: true };
    assert!(matches!(help_key(true, false, ctrl_c), (true, HelpKey::Quit)));
}

#[test]
fn toggle_selected_flips_the_selected_tick() {
    let mut c = ChecklistState::new("t", "s", strings(&["a", "b"]));
    let before = c.selected.clone();
    c.toggle_selected();
    assert_eq!(c.selected[0], !before[0]);
    assert_eq!(c.selected[1], before[1]);
    c.toggle_selected();
    assert_eq!(c.selected, before);
}
