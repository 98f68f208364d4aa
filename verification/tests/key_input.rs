use amux::input::{key_to_bytes, utf8_bytes};
use amux::keybinds::{KeyCode, KeyPress};

fn press(code: KeyCode, ctrl: bool, alt: bool) -> KeyPress {
    KeyPress { code, ctrl, alt, shift: false }
}

#[test]
fn utf8_matches_std_encoding() {
    for c in ['a', '\u{7f}', '\u{80}', 'é', '\u{7ff}', '\u{800}', '€', '\u{ffff}', '\u{10000}', '😀', '\u{10ffff}'] {
        let mut buf = [0u8; 4];
        assert_eq!(utf8_bytes(c), c.encode_utf8(&mut buf).as_bytes().to_vec(), "char {c:?}");
    }
}

#[test]
fn control_letters_and_alt_prefix() {
    assert_eq!(key_to_bytes(&press(KeyCode::Char('c'), true, false)), vec![3]);
    assert_eq!(key_to_bytes(&press(KeyCode::Char('A'), true, false)), vec![1]);
    assert_eq!(key_to_bytes(&press(KeyCode::Char('x'), false, true)), vec![27, b'x']);
    assert_eq!(key_to_bytes(&press(KeyCode::Char('1'), true, false)), vec![b'1']);
}

#[test]
fn special_keys_send_their_sequences() {
    assert_eq!(key_to_bytes(&KeyPress::plain(KeyCode::Enter)), vec![13]);
    assert_eq!(key_to_bytes(&KeyPress::plain(KeyCode::Backspace)), vec![127]);
    assert_eq!(key_to_bytes(&KeyPress::plain(KeyCode::Up)), b"\x1b[A".to_vec());
    assert_eq!(key_to_bytes(&KeyPress::plain(KeyCode::PageDown)), b"\x1b[6~".to_vec());
    assert_eq!(key_to_bytes(&KeyPress::plain(KeyCode::F(5))), Vec::<u8>::new());
}
