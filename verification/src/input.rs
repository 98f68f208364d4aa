//! The bytes a terminal sends for a key press, written to an agent's input.

use vstd::prelude::*;
use crate::keybinds::{KeyCode, KeyPress};

verus! {

/// The UTF-8 encoding of a character.
pub open spec fn utf8_spec(c: char) -> Seq<u8> {
    let n = c as nat;
    if n < 0x80 {
        seq![n as u8]
    } else if n < 0x800 {
        seq![(0xC0 + n / 64) as u8, (0x80 + n % 64) as u8]
    } else if n < 0x10000 {
        seq![(0xE0 + n / 4096) as u8, (0x80 + (n / 64) % 64) as u8, (0x80 + n % 64) as u8]
    } else {
        seq![(0xF0 + n / 262144) as u8, (0x80 + (n / 4096) % 64) as u8, (0x80 + (n / 64) % 64) as u8, (0x80 + n % 64) as u8]
    }
}

/// An ASCII letter.
pub open spec fn is_ascii_letter(c: char) -> bool {
    ('a' <= c && c <= 'z') || ('A' <= c && c <= 'Z')
}

/// The control byte of a letter: Ctrl+A (or a) is 1, …, Ctrl+Z is 26.
pub open spec fn ctrl_byte(c: char) -> u8 {
    if 'a' <= c && c <= 'z' { ((c as u32) - ('a' as u32) + 1) as u8 } else { ((c as u32) - ('A' as u32) + 1) as u8 }
}

/// The bytes of a key without its Alt prefix.
pub open spec fn key_body(k: KeyPress) -> Seq<u8> {
    match k.code {
        KeyCode::Char(c) => if k.ctrl && is_ascii_letter(c) { seq![ctrl_byte(c)] } else { utf8_spec(c) },
        KeyCode::Enter => seq![13u8],
        KeyCode::Esc => seq![27u8],
        KeyCode::Backspace => seq![127u8],
        KeyCode::Tab => seq![9u8],
        KeyCode::BackTab => seq![27u8, 91u8, 90u8],
        KeyCode::Up => seq![27u8, 91u8, 65u8],
        KeyCode::Down => seq![27u8, 91u8, 66u8],
        KeyCode::Right => seq![27u8, 91u8, 67u8],
        KeyCode::Left => seq![27u8, 91u8, 68u8],
        KeyCode::Home => seq![27u8, 91u8, 72u8],
        KeyCode::End => seq![27u8, 91u8, 70u8],
        KeyCode::PageUp => seq![27u8, 91u8, 53u8, 126u8],
        KeyCode::PageDown => seq![27u8, 91u8, 54u8, 126u8],
        KeyCode::Delete => seq![27u8, 91u8, 51u8, 126u8],
        KeyCode::F(_) | KeyCode::Other => Seq::empty(),
    }
}

/// The bytes of a key press: ESC first when Alt is held, then the key's own
/// bytes (a control byte for Ctrl+letter, the character's UTF-8 encoding,
/// or the key's escape sequence).
pub open spec fn key_bytes_spec(k: KeyPress) -> Seq<u8> {
    (if k.alt { seq![27u8] } else { Seq::empty() }) + key_body(k)
}

/// The UTF-8 encoding of a character.
pub fn utf8_bytes(c: char) -> (r: Vec<u8>)
    ensures
        r@ == utf8_spec(c),
{
    let n = c as u32;
    assert(n <= 0x10FFFF);
    if n < 0x80 {
        vec![n as u8]
    } else if n < 0x800 {
        vec![(0xC0 + n / 64) as u8, (0x80 + n % 64) as u8]
    } else if n < 0x10000 {
        vec![(0xE0 + n / 4096) as u8, (0x80 + (n / 64) % 64) as u8, (0x80 + n % 64) as u8]
    } else {
        vec![(0xF0 + n / 262144) as u8, (0x80 + (n / 4096) % 64) as u8, (0x80 + (n / 64) % 64) as u8, (0x80 + n % 64) as u8]
    }
}

/// The bytes a terminal sends for a key press (see `key_bytes_spec`).
pub fn key_to_bytes(k: &KeyPress) -> (r: Vec<u8>)
    ensures
        r@ == key_bytes_spec(*k),
{
    let mut out: Vec<u8> = Vec::new();
    if k.alt {
        out.push(27u8);
    }
    let body: Vec<u8> = match k.code {
        KeyCode::Char(c) => {
            if k.ctrl && ('a' <= c && c <= 'z') {
                let b = ((c as u32) - ('a' as u32) + 1) as u8;
                vec![b]
            } else if k.ctrl && ('A' <= c && c <= 'Z') {
                let b = ((c as u32) - ('A' as u32) + 1) as u8;
                vec![b]
            } else {
                utf8_bytes(c)
            }
        },
        KeyCode::Enter => vec![13u8],
        KeyCode::Esc => vec![27u8],
        KeyCode::Backspace => vec![127u8],
        KeyCode::Tab => vec![9u8],
        KeyCode::BackTab => vec![27u8, 91u8, 90u8],
        KeyCode::Up => vec![27u8, 91u8, 65u8],
        KeyCode::Down => vec![27u8, 91u8, 66u8],
        KeyCode::Right => vec![27u8, 91u8, 67u8],
        KeyCode::Left => vec![27u8, 91u8, 68u8],
        KeyCode::Home => vec![27u8, 91u8, 72u8],
        KeyCode::End => vec![27u8, 91u8, 70u8],
        KeyCode::PageUp => vec![27u8, 91u8, 53u8, 126u8],
        KeyCode::PageDown => vec![27u8, 91u8, 54u8, 126u8],
        KeyCode::Delete => vec![27u8, 91u8, 51u8, 126u8],
        KeyCode::F(_) | KeyCode::Other => Vec::new(),
    };
    let ghost head = out@;
    let mut i: usize = 0;
    while i < body.len()
        invariant
            i <= body.len(),
            out@ == head + body@.take(i as int),
        decreases body.len() - i,
    {
        out.push(body[i]);
        i = i + 1;
        assert(out@ =~= head + body@.take(i as int));
    }
    assert(body@.take(body.len() as int) =~= body@);
    assert(head == (if k.alt { seq![27u8] } else { Seq::<u8>::empty() }));
    out
}

} // verus!
