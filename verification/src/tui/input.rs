//! A single-line text input. The cursor is a byte offset into the value.

use vstd::prelude::*;
use vstd::utf8::{
    decode_utf8, encode_utf8, encode_utf8_decode_utf8, encode_utf8_valid_utf8, is_ascii_chars,
    is_ascii_chars_encode_utf8, is_char_boundary, is_char_boundary_iff_not_is_continuation_byte,
    is_char_boundary_start_end_of_seq,
};
use crate::text::owned;
use crate::tui::key::{is_ctrl_c, KeyCode, KeyEvent};

verus! {

/// The UTF-8 bytes of a string.
pub open spec fn bytes(s: Seq<char>) -> Seq<u8> {
    encode_utf8(s)
}

/// The characters whose encoding lies before byte offset `i`.
pub open spec fn chars_before(v: Seq<char>, i: int) -> Seq<char> {
    decode_utf8(bytes(v).subrange(0, i))
}

/// The characters whose encoding starts at byte offset `i` or later.
pub open spec fn chars_from(v: Seq<char>, i: int) -> Seq<char> {
    decode_utf8(bytes(v).subrange(i, bytes(v).len() as int))
}

/// Calls `String::insert`, which inserts `c` at byte offset `idx`; as its
/// documentation states, `idx` must lie on a character boundary and not past
/// the end.
#[verifier::external_body]
fn string_insert(s: &mut String, idx: usize, c: char)
    requires
        idx <= bytes(old(s)@).len(),
        is_char_boundary(bytes(old(s)@), idx as int),
    ensures
        bytes(final(s)@) == bytes(old(s)@).subrange(0, idx as int) + bytes(seq![c]) + bytes(
            old(s)@,
        ).subrange(idx as int, bytes(old(s)@).len() as int),
{
    s.insert(idx, c);
}

/// Calls `String::remove`, which removes and returns the character that
/// starts at byte offset `idx`, keeping the characters before and after it;
/// as its documentation states, `idx` must be before the end and on a
/// character boundary.
#[verifier::external_body]
fn string_remove(s: &mut String, idx: usize) -> (r: char)
    requires
        idx < bytes(old(s)@).len(),
        is_char_boundary(bytes(old(s)@), idx as int),
    ensures
        r == chars_from(old(s)@, idx as int)[0],
        final(s)@ == chars_before(old(s)@, idx as int) + chars_from(old(s)@, idx as int).drop_first(),
{
    s.remove(idx)
}

/// Calls `String::len`, the length of the string in bytes.
#[verifier::external_body]
fn byte_len(s: &String) -> (r: usize)
    ensures
        r == bytes(s@).len(),
{
    s.len()
}

/// Whether byte offset `idx` is the start of a character of the string or
/// its end.
fn char_boundary(s: &String, idx: usize) -> (r: bool)
    ensures
        r == (idx <= bytes(s@).len() && is_char_boundary(bytes(s@), idx as int)),
{
    proof {
        vstd::utf8::encode_utf8_valid_utf8(s@);
    }
    s.as_str().is_char_boundary(idx)
}

/// A text input screen.
pub struct InputState {
    pub title: String,
    pub subtitle: String,
    pub label: String,
    pub placeholder: String,
    pub value: String,
    pub error: Option<String>,
    pub cursor_pos: usize,
}

/// What a key press on a text input asks for.
pub enum InputAction {
    /// Confirm the (non-empty) value.
    Submit(String),
    Back,
    Quit,
}

/// The keys for which `String` would panic: typing at a cursor inside a
/// character, or erasing the character before such a cursor.
pub open spec fn input_key_safe(s: InputState, k: KeyEvent) -> bool {
    k.press && !is_ctrl_c(k) ==> match k.code {
        KeyCode::Char(_) => s.cursor_pos <= bytes(s.value@).len() && is_char_boundary(
            bytes(s.value@),
            s.cursor_pos as int,
        ),
        KeyCode::Backspace => s.cursor_pos > 0 ==> (s.cursor_pos - 1 < bytes(s.value@).len()
            && is_char_boundary(bytes(s.value@), s.cursor_pos - 1)),
        _ => true,
    }
}

/// The state is the same but for value, error and cursor.
pub open spec fn same_texts(a: InputState, b: InputState) -> bool {
    a.title == b.title && a.subtitle == b.subtitle && a.label == b.label && a.placeholder
        == b.placeholder
}

/// What a key press does to an input, `r` being what it asks for: Enter
/// submits a non-empty value or shows `输入不能为空`, Esc goes back, Control-C
/// quits, a character is inserted at the cursor, Backspace removes the
/// character before it, and the arrows, Home and End move it.
pub open spec fn key_handled(o: InputState, f: InputState, key: KeyEvent, r: Option<InputAction>) -> bool {
    let c = key.code;
    let b = bytes(o.value@);
    &&& same_texts(f, o)
    &&& !key.press ==> r is None && f == o
    &&& key.press && c == KeyCode::Enter && o.value@.len() == 0 ==> r is None && (f.error matches Some(
        e,
    ) && e@ == "输入不能为空"@) && f.value == o.value && f.cursor_pos == o.cursor_pos
    &&& key.press && c == KeyCode::Enter && o.value@.len() > 0 ==> (r matches Some(
        InputAction::Submit(v),
    ) && v@ == o.value@) && f == o
    &&& key.press && c == KeyCode::Esc ==> (r matches Some(InputAction::Back)) && f == o
    &&& key.press && is_ctrl_c(key) ==> (r matches Some(InputAction::Quit)) && f == o
    &&& key.press && !is_ctrl_c(key) && c is Char ==> r is None && bytes(f.value@) == b.subrange(
        0,
        o.cursor_pos as int,
    ) + bytes(seq![c->Char_0]) + b.subrange(o.cursor_pos as int, b.len() as int) && f.cursor_pos
        == o.cursor_pos + 1 && f.error is None
    &&& key.press && c == KeyCode::Backspace && o.cursor_pos > 0 ==> r is None && f.cursor_pos
        == o.cursor_pos - 1 && f.error is None && f.value@ == chars_before(o.value@, o.cursor_pos - 1)
        + chars_from(o.value@, o.cursor_pos - 1).drop_first()
    &&& key.press && c == KeyCode::Backspace && o.cursor_pos == 0 ==> r is None && f == o
    &&& key.press && c == KeyCode::Left ==> r is None && f.value == o.value && f.error == o.error
        && f.cursor_pos == (if o.cursor_pos > 0 {
        o.cursor_pos - 1
    } else {
        0
    })
    &&& key.press && c == KeyCode::Right ==> r is None && f.value == o.value && f.error == o.error
        && f.cursor_pos == (if o.cursor_pos < b.len() {
        o.cursor_pos + 1
    } else {
        o.cursor_pos as int
    })
    &&& key.press && c == KeyCode::Home ==> r is None && f.value == o.value && f.error == o.error
        && f.cursor_pos == 0
    &&& key.press && c == KeyCode::End ==> r is None && f.value == o.value && f.error == o.error
        && f.cursor_pos == b.len()
    &&& key.press && (c == KeyCode::Up || c == KeyCode::Down || c == KeyCode::Other) ==> r is None
        && f == o
}

/// In an ASCII value there are as many bytes as characters, each byte is its
/// character, and every offset up to the end is a character boundary.
proof fn lemma_ascii_bytes(v: Seq<char>)
    requires
        is_ascii_chars(v),
    ensures
        bytes(v).len() == v.len(),
        forall|i: int| 0 <= i < v.len() ==> #[trigger] bytes(v)[i] == v[i] as u8,
        forall|i: int| 0 <= i <= v.len() ==> #[trigger] is_char_boundary(bytes(v), i),
{
    is_ascii_chars_encode_utf8(v);
    encode_utf8_valid_utf8(v);
    is_char_boundary_start_end_of_seq(bytes(v));
    assert forall|i: int| 0 <= i <= v.len() implies #[trigger] is_char_boundary(bytes(v), i) by {
        if i < v.len() {
            is_char_boundary_iff_not_is_continuation_byte(bytes(v), i);
            assert('\0' <= v[i] <= '\u{7f}');
            assert(bytes(v)[i] == v[i] as u8);
        }
    }
}

/// Two ASCII values whose bytes agree one by one are the same.
proof fn lemma_ascii_same_bytes(v: Seq<char>, b: Seq<u8>)
    requires
        is_ascii_chars(v),
        b.len() == v.len(),
        forall|i: int| 0 <= i < v.len() ==> b[i] == v[i] as u8,
    ensures
        b == bytes(v),
        decode_utf8(b) == v,
{
    lemma_ascii_bytes(v);
    assert(b =~= bytes(v));
    encode_utf8_decode_utf8(v);
}

/// On an input whose value is ASCII and whose cursor lies within it, no key
/// makes `String` panic.
pub proof fn law_ascii_input_is_safe(s: InputState, k: KeyEvent)
    requires
        is_ascii_chars(s.value@),
        s.cursor_pos <= s.value@.len(),
    ensures
        input_key_safe(s, k),
{
    lemma_ascii_bytes(s.value@);
}

/// Typing ASCII characters keeps an ASCII value ASCII and the cursor within
/// it; Left, Right, Home and End change only the cursor.
pub proof fn law_ascii_input_stays_ascii(o: InputState, f: InputState, key: KeyEvent, r: Option<InputAction>)
    requires
        key_handled(o, f, key, r),
        is_ascii_chars(o.value@),
        o.cursor_pos <= o.value@.len(),
        key.code is Char ==> '\0' <= key.code->Char_0 <= '\u{7f}',
    ensures
        is_ascii_chars(f.value@),
        f.cursor_pos <= f.value@.len(),
        key.code == KeyCode::Left || key.code == KeyCode::Right || key.code == KeyCode::Home || key.code
            == KeyCode::End ==> f.value == o.value && f.error == o.error,
{
    let v = o.value@;
    let k = o.cursor_pos as int;
    lemma_ascii_bytes(v);
    if key.press && !is_ctrl_c(key) && key.code is Char {
        let ch = key.code->Char_0;
        let x = v.take(k) + seq![ch] + v.skip(k);
        assert(is_ascii_chars(x));
        lemma_ascii_bytes(seq![ch]);
        let fb = bytes(f.value@);
        assert(fb.len() == x.len());
        assert forall|i: int| 0 <= i < x.len() implies fb[i] == x[i] as u8 by {
            if i < k {
                assert(fb[i] == bytes(v)[i]);
            } else if i == k {
                assert(fb[i] == bytes(seq![ch])[0]);
            } else {
                assert(fb[i] == bytes(v)[i - 1]);
            }
        }
        lemma_ascii_same_bytes(x, fb);
        encode_utf8_decode_utf8(f.value@);
    } else if key.press && key.code == KeyCode::Backspace && o.cursor_pos > 0 {
        let j = k - 1;
        let b = bytes(v);
        lemma_ascii_same_bytes(v.take(j), b.subrange(0, j));
        lemma_ascii_same_bytes(v.skip(j), b.subrange(j, b.len() as int));
        assert(f.value@ == v.take(j) + v.skip(j).drop_first());
        assert(is_ascii_chars(f.value@)) by {
            assert forall|i: int| 0 <= i < f.value@.len() implies '\0' <= #[trigger] f.value@[i] <= '\u{7f}' by {
                if i < j {
                    assert(f.value@[i] == v[i]);
                } else {
                    assert(f.value@[i] == v[i + 1]);
                }
            }
        }
    }
}

impl InputState {
    /// An empty input with its texts.
    pub fn new(title: &str, subtitle: &str, label: &str, placeholder: &str) -> (r: InputState)
        ensures
            r.title@ == title@,
            r.subtitle@ == subtitle@,
            r.label@ == label@,
            r.placeholder@ == placeholder@,
            r.value@.len() == 0,
            r.error is None,
            r.cursor_pos == 0,
    {
        InputState {
            title: owned(title),
            subtitle: owned(subtitle),
            label: owned(label),
            placeholder: owned(placeholder),
            value: String::new(),
            error: None,
            cursor_pos: 0,
        }
    }

    /// An input that starts with `value`, the cursor at its end.
    pub fn prefilled(title: &str, subtitle: &str, label: &str, placeholder: &str, value: String) -> (r:
        InputState)
        ensures
            r.title@ == title@,
            r.subtitle@ == subtitle@,
            r.label@ == label@,
            r.placeholder@ == placeholder@,
            r.value == value,
            r.error is None,
            r.cursor_pos == bytes(value@).len(),
    {
        let cursor_pos = byte_len(&value);
        InputState {
            title: owned(title),
            subtitle: owned(subtitle),
            label: owned(label),
            placeholder: owned(placeholder),
            value,
            error: None,
            cursor_pos,
        }
    }

    /// Whether the key can be handled without a panic of `String`.
    pub fn accepts(&self, key: &KeyEvent) -> (r: bool)
        ensures
            r == input_key_safe(*self, *key),
    {
        if !key.press || key.ctrl_c() {
            return true;
        }
        match key.code {
            KeyCode::Char(_) => char_boundary(&self.value, self.cursor_pos),
            KeyCode::Backspace => self.cursor_pos == 0 || (self.cursor_pos - 1 < byte_len(
                &self.value,
            ) && char_boundary(&self.value, self.cursor_pos - 1)),
            _ => true,
        }
    }

    /// Handles a key: Enter submits a non-empty value (or reports the empty
    /// one), Esc goes back, Control-C quits, a character is typed at the
    /// cursor, Backspace erases before it, and the arrows, Home and End move it
    /// by bytes.
    pub fn handle_key_event(&mut self, key: KeyEvent) -> (r: Option<InputAction>)
        requires
            input_key_safe(*old(self), key),
        ensures
            key_handled(*old(self), *final(self), key, r),
    {
        if !key.press {
            return None;
        }
        match key.code {
            KeyCode::Enter => {
                if self.value.as_str().is_empty() {
                    self.error = Some(owned("输入不能为空"));
                    None
                } else {
                    Some(InputAction::Submit(self.value.clone()))
                }
            },
            KeyCode::Esc => Some(InputAction::Back),
            KeyCode::Char(c) => {
                if key.ctrl && c == 'c' {
                    return Some(InputAction::Quit);
                }
                string_insert(&mut self.value, self.cursor_pos, c);
                let n = byte_len(&self.value);
                assert(bytes(seq![c]).len() > 0) by {
                    reveal_with_fuel(encode_utf8, 2);
                    assert(seq![c].drop_first() =~= Seq::<char>::empty());
                }
                self.cursor_pos = self.cursor_pos + 1;
                self.error = None;
                None
            },
            KeyCode::Backspace => {
                if self.cursor_pos > 0 {
                    self.cursor_pos = self.cursor_pos - 1;
                    let _ = string_remove(&mut self.value, self.cursor_pos);
                    self.error = None;
                }
                None
            },
            KeyCode::Left => {
                if self.cursor_pos > 0 {
                    self.cursor_pos = self.cursor_pos - 1;
                }
                None
            },
            KeyCode::Right => {
                if self.cursor_pos < byte_len(&self.value) {
                    self.cursor_pos = self.cursor_pos + 1;
                }
                None
            },
            KeyCode::Home => {
                self.cursor_pos = 0;
                None
            },
            KeyCode::End => {
                self.cursor_pos = byte_len(&self.value);
                None
            },
            _ => None,
        }
    }
}

} // verus!
