//! Keyboard input as the library sees it, independent of the terminal
//! library that reads it, and the bytes a terminal expects for a key.
use vstd::prelude::*;
use crate::text::{ascii_lower, char_ascii_lower, push_char};

verus! {

/// The key of a key press.
#[derive(Clone, Copy, Debug, PartialEq, Eq, Structural)]
pub enum KeyCode {
    Backspace,
    Enter,
    Left,
    Right,
    Up,
    Down,
    Home,
    End,
    PageUp,
    PageDown,
    Tab,
    Delete,
    Insert,
    Esc,
    /// A function key `F1`, `F2`, ...
    F(u8),
    /// A character key.
    Char(char),
    /// Any other key.
    Other,
}

/// Whether a key went down, repeats, or went up.
#[derive(Clone, Copy, Debug, PartialEq, Eq, Structural)]
pub enum KeyKind {
    Press,
    Repeat,
    Release,
}

/// A key event with its modifiers.
#[derive(Clone, Copy, Debug, PartialEq, Eq, Structural)]
pub struct KeyInput {
    pub code: KeyCode,
    pub ctrl: bool,
    pub alt: bool,
    pub shift: bool,
    pub kind: KeyKind,
}

impl KeyInput {
    /// A press of `code` without modifiers.
    pub fn plain(code: KeyCode) -> (k: KeyInput)
        ensures
            k == (KeyInput { code, ctrl: false, alt: false, shift: false, kind: KeyKind::Press }),
    {
        KeyInput { code, ctrl: false, alt: false, shift: false, kind: KeyKind::Press }
    }

    /// A press of `code` with Control held.
    pub fn with_ctrl(code: KeyCode) -> (k: KeyInput)
        ensures
            k == (KeyInput { code, ctrl: true, alt: false, shift: false, kind: KeyKind::Press }),
    {
        KeyInput { code, ctrl: true, alt: false, shift: false, kind: KeyKind::Press }
    }
}

/// Whether `c` is an ASCII letter.
pub open spec fn is_ascii_letter(c: char) -> bool {
    ('a' <= c && c <= 'z') || ('A' <= c && c <= 'Z')
}

/// The control byte of a letter: Ctrl+A is 1, Ctrl+B is 2, ...
pub open spec fn ctrl_byte(c: char) -> u8 {
    (ascii_lower(c) as int - 'a' as int + 1) as u8
}

/// The UTF-8 encoding of one character.
pub open spec fn utf8_char(c: char) -> Seq<u8> {
    vstd::utf8::encode_utf8(seq![c])
}

/// The escape sequence of function key `n` (F1 to F12), empty for others.
pub open spec fn function_key_bytes(n: u8) -> Seq<u8> {
    if n == 1 {
        seq![27u8, 79, 80]
    } else if n == 2 {
        seq![27u8, 79, 81]
    } else if n == 3 {
        seq![27u8, 79, 82]
    } else if n == 4 {
        seq![27u8, 79, 83]
    } else if n == 5 {
        seq![27u8, 91, 49, 53, 126]
    } else if n == 6 {
        seq![27u8, 91, 49, 55, 126]
    } else if n == 7 {
        seq![27u8, 91, 49, 56, 126]
    } else if n == 8 {
        seq![27u8, 91, 49, 57, 126]
    } else if n == 9 {
        seq![27u8, 91, 50, 48, 126]
    } else if n == 10 {
        seq![27u8, 91, 50, 49, 126]
    } else if n == 11 {
        seq![27u8, 91, 50, 51, 126]
    } else if n == 12 {
        seq![27u8, 91, 50, 52, 126]
    } else {
        Seq::empty()
    }
}

/// The bytes a terminal expects for a key: characters as UTF-8, Ctrl+letter
/// as its control byte, Alt+character as ESC and the character, and the
/// usual escape sequences for the special keys; nothing for other keys.
pub open spec fn key_bytes(k: KeyInput) -> Seq<u8> {
    match k.code {
        KeyCode::Char(c) => if k.ctrl {
            if is_ascii_letter(c) {
                seq![ctrl_byte(c)]
            } else {
                utf8_char(c)
            }
        } else if k.alt {
            seq![27u8] + utf8_char(c)
        } else {
            utf8_char(c)
        },
        KeyCode::Enter => seq![13u8],
        KeyCode::Backspace => seq![127u8],
        KeyCode::Tab => seq![9u8],
        KeyCode::Esc => seq![27u8],
        KeyCode::Up => seq![27u8, 91, 65],
        KeyCode::Down => seq![27u8, 91, 66],
        KeyCode::Right => seq![27u8, 91, 67],
        KeyCode::Left => seq![27u8, 91, 68],
        KeyCode::Home => seq![27u8, 91, 72],
        KeyCode::End => seq![27u8, 91, 70],
        KeyCode::PageUp => seq![27u8, 91, 53, 126],
        KeyCode::PageDown => seq![27u8, 91, 54, 126],
        KeyCode::Delete => seq![27u8, 91, 51, 126],
        KeyCode::Insert => seq![27u8, 91, 50, 126],
        KeyCode::F(n) => function_key_bytes(n),
        KeyCode::Other => Seq::empty(),
    }
}

/// The UTF-8 bytes of one character.
pub fn char_utf8(c: char) -> (b: Vec<u8>)
    ensures
        b@ == utf8_char(c),
{
    let mut s = String::new();
    push_char(&mut s, c);
    assert(s@ =~= seq![c]);
    vstd::slice::slice_to_vec(s.as_str().as_bytes())
}

fn function_key_vec(n: u8) -> (b: Vec<u8>)
    ensures
        b@ == function_key_bytes(n),
{
    let v: Vec<u8> = if n == 1 {
        vec![27u8, 79, 80]
    } else if n == 2 {
        vec![27u8, 79, 81]
    } else if n == 3 {
        vec![27u8, 79, 82]
    } else if n == 4 {
        vec![27u8, 79, 83]
    } else if n == 5 {
        vec![27u8, 91, 49, 53, 126]
    } else if n == 6 {
        vec![27u8, 91, 49, 55, 126]
    } else if n == 7 {
        vec![27u8, 91, 49, 56, 126]
    } else if n == 8 {
        vec![27u8, 91, 49, 57, 126]
    } else if n == 9 {
        vec![27u8, 91, 50, 48, 126]
    } else if n == 10 {
        vec![27u8, 91, 50, 49, 126]
    } else if n == 11 {
        vec![27u8, 91, 50, 51, 126]
    } else if n == 12 {
        vec![27u8, 91, 50, 52, 126]
    } else {
        Vec::new()
    };
    assert(v@ =~= function_key_bytes(n));
    v
}

/// The raw terminal bytes of a key, as sent to a remote shell.
pub fn key_event_to_bytes(k: KeyInput) -> (b: Vec<u8>)
    ensures
        b@ == key_bytes(k),
{
    let v: Vec<u8> = match k.code {
        KeyCode::Char(c) => {
            if k.ctrl {
                if ('a' <= c && c <= 'z') || ('A' <= c && c <= 'Z') {
                    let lower = char_ascii_lower(c);
                    let code: u32 = lower as u32;
                    vec![(code - 96) as u8]
                } else {
                    char_utf8(c)
                }
            } else if k.alt {
                let mut v: Vec<u8> = vec![27u8];
                let mut u = char_utf8(c);
                v.append(&mut u);
                v
            } else {
                char_utf8(c)
            }
        },
        KeyCode::Enter => vec![13u8],
        KeyCode::Backspace => vec![127u8],
        KeyCode::Tab => vec![9u8],
        KeyCode::Esc => vec![27u8],
        KeyCode::Up => vec![27u8, 91, 65],
        KeyCode::Down => vec![27u8, 91, 66],
        KeyCode::Right => vec![27u8, 91, 67],
        KeyCode::Left => vec![27u8, 91, 68],
        KeyCode::Home => vec![27u8, 91, 72],
        KeyCode::End => vec![27u8, 91, 70],
        KeyCode::PageUp => vec![27u8, 91, 53, 126],
        KeyCode::PageDown => vec![27u8, 91, 54, 126],
        KeyCode::Delete => vec![27u8, 91, 51, 126],
        KeyCode::Insert => vec![27u8, 91, 50, 126],
        KeyCode::F(n) => function_key_vec(n),
        KeyCode::Other => Vec::new(),
    };
    assert(v@ =~= key_bytes(k));
    v
}

/// The special keys: those that send an escape sequence or a control
/// character of their own (everything but characters, unknown keys and
/// function keys beyond F12).
pub open spec fn is_special_key(code: KeyCode) -> bool {
    match code {
        KeyCode::Char(_) => false,
        KeyCode::Other => false,
        KeyCode::F(n) => 1 <= n <= 12,
        _ => true,
    }
}

/// The arrow keys send the cursor sequences ESC [ A, ESC [ B, ESC [ C and
/// ESC [ D (Up, Down, Right, Left), whatever modifiers are held.
pub proof fn law_arrow_keys(k: KeyInput)
    ensures
        k.code == KeyCode::Up ==> key_bytes(k) == seq![27u8, 91u8, 65u8],
        k.code == KeyCode::Down ==> key_bytes(k) == seq![27u8, 91u8, 66u8],
        k.code == KeyCode::Right ==> key_bytes(k) == seq![27u8, 91u8, 67u8],
        k.code == KeyCode::Left ==> key_bytes(k) == seq![27u8, 91u8, 68u8],
{
}

/// Enter sends a carriage return, Backspace DEL (127), Tab a tab, Esc a
/// lone ESC; every other special key sends a sequence starting with ESC.
pub proof fn law_control_keys(k: KeyInput)
    ensures
        k.code == KeyCode::Enter ==> key_bytes(k) == seq![13u8],
        k.code == KeyCode::Backspace ==> key_bytes(k) == seq![127u8],
        k.code == KeyCode::Tab ==> key_bytes(k) == seq![9u8],
        k.code == KeyCode::Esc ==> key_bytes(k) == seq![27u8],
        is_special_key(k.code) ==> key_bytes(k).len() > 0,
        is_special_key(k.code) && k.code != KeyCode::Enter && k.code != KeyCode::Backspace
            && k.code != KeyCode::Tab ==> key_bytes(k)[0] == 27,
        k.code == KeyCode::Other ==> key_bytes(k).len() == 0,
{
}

/// Different special keys send different bytes, so the remote shell can
/// tell every one of them apart.
pub proof fn law_special_keys_distinct(a: KeyInput, b: KeyInput)
    requires
        is_special_key(a.code),
        is_special_key(b.code),
        a.code != b.code,
    ensures
        key_bytes(a) != key_bytes(b),
{
    let x = key_bytes(a);
    let y = key_bytes(b);
    if x == y {
        assert(x.len() == y.len());
        assert(x[0] == y[0]);
        if x.len() > 1 {
            assert(x[1] == y[1]);
        }
        if x.len() > 2 {
            assert(x[2] == y[2]);
        }
        if x.len() > 3 {
            assert(x[3] == y[3]);
        }
    }
}

/// A character key sends the character's UTF-8 bytes, which decode back to
/// it; with Alt they come after an ESC; Ctrl with a letter sends the
/// letter's place in the alphabet (Ctrl+A and Ctrl+a are 1, Ctrl+Z 26).
pub proof fn law_char_keys(k: KeyInput, c: char)
    requires
        k.code == KeyCode::Char(c),
    ensures
        !k.ctrl && !k.alt ==> vstd::utf8::decode_utf8(key_bytes(k)) == seq![c],
        !k.ctrl && k.alt ==> key_bytes(k)[0] == 27
            && vstd::utf8::decode_utf8(key_bytes(k).drop_first()) == seq![c],
        k.ctrl && 'a' <= c <= 'z' ==> key_bytes(k) == seq![(c as int - 96) as u8],
        k.ctrl && 'A' <= c <= 'Z' ==> key_bytes(k) == seq![(c as int - 64) as u8],
        k.ctrl && !('a' <= c <= 'z') && !('A' <= c <= 'Z') ==> vstd::utf8::decode_utf8(key_bytes(k)) == seq![c],
{
    broadcast use vstd::utf8::encode_utf8_decode_utf8;
    if !k.ctrl && k.alt {
        assert((seq![27u8] + utf8_char(c)).drop_first() =~= utf8_char(c));
    }
}

} // verus!
