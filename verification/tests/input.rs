use king_os::input::{keyboard_handler, Console, KeyEffect, LineBuffer};

const KEY_A: u8 = 0x1E;
const KEY_L: u8 = 0x26;
const KEY_S: u8 = 0x1F;
const KEY_ENTER: u8 = 0x1C;
const KEY_BACKSPACE: u8 = 0x0E;

fn quiet() -> KeyEffect {
    KeyEffect { echo: None, raised: false }
}

#[test]
fn typed_characters_are_appended_and_echoed() {
    let mut console = Console::new();
    assert_eq!(keyboard_handler(&mut console, KEY_L), KeyEffect { echo: Some(b'L'), raised: false });
    assert_eq!(keyboard_handler(&mut console, KEY_S), KeyEffect { echo: Some(b'S'), raised: false });
    assert!(!console.is_ready());
    assert_eq!(console.poll(), None);
    assert_eq!(keyboard_handler(&mut console, KEY_ENTER), KeyEffect { echo: Some(b'\n'), raised: true });
    assert!(console.is_ready());
    assert_eq!(console.poll(), Some(b"LS".to_vec()));
}

#[test]
fn return_does_not_clear_the_line() {
    let mut console = Console::new();
    keyboard_handler(&mut console, KEY_A);
    keyboard_handler(&mut console, KEY_ENTER);
    assert_eq!(console.poll(), Some(b"A".to_vec()));
    assert_eq!(console.poll(), Some(b"A".to_vec()));
    console.consume();
    assert!(!console.is_ready());
    assert_eq!(console.poll(), None);
    keyboard_handler(&mut console, KEY_ENTER);
    assert_eq!(console.poll(), Some(Vec::new()));
}

#[test]
fn backspace_removes_the_last_character() {
    let mut console = Console::new();
    assert_eq!(keyboard_handler(&mut console, KEY_BACKSPACE), quiet());
    keyboard_handler(&mut console, KEY_A);
    keyboard_handler(&mut console, KEY_L);
    assert_eq!(
        keyboard_handler(&mut console, KEY_BACKSPACE),
        KeyEffect { echo: Some(0x08), raised: false }
    );
    keyboard_handler(&mut console, KEY_ENTER);
    assert_eq!(console.poll(), Some(b"A".to_vec()));
}

#[test]
fn releases_and_unmapped_keys_do_nothing() {
    let mut console = Console::new();
    for scancode in [0x80u8, 0x9C, 0x9E, 0xFF, 0x00, 0x01, 0x3B, 0x7F] {
        assert_eq!(keyboard_handler(&mut console, scancode), quiet());
    }
    assert!(!console.is_ready());
    keyboard_handler(&mut console, KEY_ENTER);
    assert_eq!(console.poll(), Some(Vec::new()));
}

#[test]
fn the_sixty_fifth_character_is_dropped() {
    let mut console = Console::new();
    for _ in 0..64 {
        assert_eq!(keyboard_handler(&mut console, KEY_A).echo, Some(b'A'));
    }
    assert_eq!(keyboard_handler(&mut console, KEY_L), quiet());
    keyboard_handler(&mut console, KEY_ENTER);
    assert_eq!(console.poll(), Some(vec![b'A'; 64]));
}

#[test]
fn every_return_raises_one_signal() {
    let keys = [
        KEY_A, KEY_BACKSPACE, KEY_BACKSPACE, KEY_ENTER, 0x9C, KEY_L, KEY_ENTER, KEY_BACKSPACE,
        KEY_BACKSPACE, KEY_BACKSPACE, KEY_ENTER, KEY_S,
    ];
    let mut console = Console::new();
    let mut raised = 0;
    for &key in keys.iter() {
        if keyboard_handler(&mut console, key).raised {
            raised += 1;
        }
    }
    assert_eq!(raised, 3);
    assert!(console.is_ready());
}

#[test]
fn keys_after_a_return_leave_the_signal_up() {
    let mut console = Console::new();
    keyboard_handler(&mut console, KEY_ENTER);
    for key in [KEY_A, KEY_BACKSPACE, 0x9E, KEY_L] {
        keyboard_handler(&mut console, key);
        assert!(console.is_ready());
    }
}

#[test]
fn line_buffer_holds_sixty_four_bytes() {
    let mut line = LineBuffer::new();
    assert_eq!(line.len(), 0);
    assert!(!line.pop());
    for i in 0..64u8 {
        assert!(line.push(i));
    }
    assert!(!line.push(99));
    assert_eq!(line.len(), 64);
    assert_eq!(line.contents(), (0..64u8).collect::<Vec<u8>>());
    assert!(line.pop());
    assert_eq!(line.len(), 63);
    line.clear();
    assert_eq!(line.contents(), Vec::<u8>::new());
}
