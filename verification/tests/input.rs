use chippy::{KeyEvent, Keypad};

#[test]
fn mapped_keys_update_the_latch() {
    let mut k = Keypad::new();
    assert!(k.key_event(KeyEvent::KeyDown, 'q'));
    assert!(k.keys[4]);
    assert_eq!(k.last_pressed, 4);

    assert!(k.key_event(KeyEvent::KeyUp, 'q'));
    assert!(!k.keys[4]);
    assert_eq!(k.last_pressed, 4);
}

#[test]
fn full_layout_mapping() {
    let layout = [
        ('1', 0x1), ('2', 0x2), ('3', 0x3), ('4', 0xC),
        ('q', 0x4), ('w', 0x5), ('e', 0x6), ('r', 0xD),
        ('a', 0x7), ('s', 0x8), ('d', 0x9), ('f', 0xE),
        ('z', 0xA), ('x', 0x0), ('c', 0xB), ('v', 0xF),
    ];
    for (ch, idx) in layout {
        let mut k = Keypad::new();
        assert!(k.key_event(KeyEvent::KeyDown, ch));
        assert!(k.keys[idx as usize]);
        assert_eq!(k.last_pressed, idx);
    }
}

#[test]
fn unmapped_keys_are_rejected_without_change() {
    let mut k = Keypad::new();
    k.key_event(KeyEvent::KeyDown, 's');
    let keys_before = k.keys.clone();
    let last_before = k.last_pressed;

    assert!(!k.key_event(KeyEvent::KeyDown, 'p'));
    assert!(!k.key_event(KeyEvent::KeyUp, '!'));
    assert_eq!(k.keys, keys_before);
    assert_eq!(k.last_pressed, last_before);
}

#[test]
fn key_event_pressed_state() {
    assert!(KeyEvent::KeyDown.pressed());
    assert!(!KeyEvent::KeyUp.pressed());
}
