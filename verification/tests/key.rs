use wireman::key::{BufferKey, KeyCode, KeyEvent, KeyModifiers};

#[test]
fn key_events_carry_code_and_modifiers() {
    let plain = KeyEvent::plain(KeyCode::Enter);
    assert_eq!(plain.code, KeyCode::Enter);
    assert_eq!(plain.modifiers, KeyModifiers::Unmodified);
    assert!(!plain.is_control());
    let ctrl = KeyEvent::ctrl('y');
    assert_eq!(ctrl.code, KeyCode::Char('y'));
    assert!(ctrl.is_control());
    let other = KeyEvent::new(KeyCode::Char('H'), KeyModifiers::Other);
    assert!(!other.is_control());
    assert_eq!(other, KeyEvent { code: KeyCode::Char('H'), modifiers: KeyModifiers::Other });
}

#[test]
fn buffer_keys_follow_the_modifiers() {
    assert_eq!(KeyEvent::plain(KeyCode::Char('a')).buffer_key(), BufferKey::Char('a'));
    assert_eq!(KeyEvent::ctrl('a').buffer_key(), BufferKey::Ctrl('a'));
    assert_eq!(KeyEvent::new(KeyCode::Enter, KeyModifiers::Control).buffer_key(), BufferKey::Unbound);
    assert_eq!(KeyEvent::new(KeyCode::Char('A'), KeyModifiers::Other).buffer_key(), BufferKey::Char('A'));
    assert_eq!(KeyEvent::plain(KeyCode::Enter).buffer_key(), BufferKey::Enter);
    assert_eq!(KeyEvent::plain(KeyCode::Esc).buffer_key(), BufferKey::Esc);
    assert_eq!(KeyEvent::plain(KeyCode::Backspace).buffer_key(), BufferKey::Backspace);
    assert_eq!(KeyEvent::plain(KeyCode::Up).buffer_key(), BufferKey::Up);
    assert_eq!(KeyEvent::plain(KeyCode::Down).buffer_key(), BufferKey::Down);
    assert_eq!(KeyEvent::plain(KeyCode::Left).buffer_key(), BufferKey::Left);
    assert_eq!(KeyEvent::plain(KeyCode::Right).buffer_key(), BufferKey::Right);
    assert_eq!(KeyEvent::plain(KeyCode::Tab).buffer_key(), BufferKey::Unbound);
    assert_eq!(KeyEvent::plain(KeyCode::BackTab).buffer_key(), BufferKey::Unbound);
    assert_eq!(KeyEvent::plain(KeyCode::Other).buffer_key(), BufferKey::Unbound);
}
