use wireman::editor::{pretty_format_json, EditorMode, ErrorKind, TextEditor};
use wireman::key::{KeyCode, KeyEvent};

#[test]
fn new_editor_is_empty_and_normal() {
    let editor = TextEditor::new();
    assert!(editor.is_empty());
    assert!(!editor.insert_mode());
    assert!(editor.get_error().is_none());
    assert_eq!(editor.get_text_raw(), "");
}

#[test]
fn set_then_get_text_keeps_interior_content() {
    let mut editor = TextEditor::new();
    editor.set_text_raw("first\n\nthird");
    assert_eq!(editor.get_text_raw(), "first\n\nthird");
}

#[test]
fn set_then_get_text_drops_one_final_line_feed() {
    let mut editor = TextEditor::new();
    editor.set_text_raw("a\nb\n");
    assert_eq!(editor.get_text_raw(), "a\nb");
    editor.set_text_raw("a\n\n");
    assert_eq!(editor.get_text_raw(), "a\n");
    editor.set_text_raw("\n");
    assert_eq!(editor.get_text_raw(), "");
    assert!(!editor.is_empty());
}

#[test]
fn set_then_get_text_keeps_carriage_returns() {
    let mut editor = TextEditor::new();
    editor.set_text_raw("a\r\nb");
    assert_eq!(editor.get_text_raw(), "a\r\nb");
    editor.set_text_raw("a\r\nb\r");
    assert_eq!(editor.get_text_raw(), "a\r\nb\r");
    editor.set_text_raw("a\r\n");
    assert_eq!(editor.get_text_raw(), "a\r");
}

#[test]
fn set_text_replaces_previous_content() {
    let mut editor = TextEditor::from_str("old\ncontent");
    editor.set_text_raw("new");
    assert_eq!(editor.get_text_raw(), "new");
    editor.clear();
    assert!(editor.is_empty());
}

#[test]
fn format_json_pretty_prints_valid_json() {
    let mut editor = TextEditor::from_str("{\"b\":1,\"a\":[true,null]}");
    editor.format_json();
    assert!(editor.get_error().is_none());
    assert_eq!(
        editor.get_text_raw(),
        "{\n  \"a\": [\n    true,\n    null\n  ],\n  \"b\": 1\n}"
    );
}

#[test]
fn format_json_twice_gives_the_same_text() {
    let mut editor = TextEditor::from_str("{\"name\": \"x\", \"n\": [1, 2, {\"k\": \"v\"}]}");
    editor.format_json();
    let once = editor.get_text_raw();
    editor.format_json();
    assert_eq!(editor.get_text_raw(), once);
    assert!(editor.get_error().is_none());
}

#[test]
fn format_json_leaves_invalid_text_untouched() {
    let mut editor = TextEditor::from_str("{not json");
    editor.format_json();
    assert_eq!(editor.get_text_raw(), "{not json");
    let error = editor.get_error().expect("a format error");
    assert_eq!(error.kind, "Format Error");
    assert_eq!(error.msg, "key must be a string at line 1 column 2");
}

#[test]
fn format_json_success_clears_an_earlier_error() {
    let mut editor = TextEditor::from_str("[1,");
    editor.format_json();
    assert!(editor.get_error().is_some());
    editor.set_text_raw("[1]");
    assert!(editor.get_error().is_some());
    editor.format_json();
    assert!(editor.get_error().is_none());
    assert_eq!(editor.get_text_raw(), "[\n  1\n]");
}

#[test]
fn pretty_format_json_reports_the_parser_message() {
    let err = pretty_format_json("").err().expect("empty input is no JSON");
    assert_eq!(err.kind, "Format Error");
    assert_eq!(err.msg, "EOF while parsing a value at line 1 column 0");
    assert_eq!(pretty_format_json("1").ok(), Some("1".to_string()));
}

#[test]
fn error_kinds_carry_their_tag() {
    let e = ErrorKind::format_error("bad".to_string());
    assert_eq!(e.kind, "Format Error");
    assert_eq!(e.msg, "bad");
    let d = ErrorKind::default_error("boom");
    assert_eq!(d.kind, "Error");
    assert_eq!(d.msg, "boom");
}

#[test]
fn insert_key_enters_insert_mode_and_escape_leaves_it() {
    let mut editor = TextEditor::new();
    editor.on_key(KeyEvent::plain(KeyCode::Char('i')));
    assert!(editor.insert_mode());
    editor.on_key(KeyEvent::plain(KeyCode::Char('q')));
    assert!(editor.insert_mode());
    assert_eq!(editor.get_text_raw(), "q");
    editor.on_key(KeyEvent::plain(KeyCode::Esc));
    assert!(!editor.insert_mode());
}

#[test]
fn paste_types_each_character_at_the_cursor() {
    let mut editor = TextEditor::new();
    editor.paste_from_clipboard(Some("ab\ncd"));
    assert_eq!(editor.get_text_raw(), "ab\ncd");
    editor.paste_from_clipboard(None);
    assert_eq!(editor.get_text_raw(), "ab\ncd");
    assert_eq!(editor.yank(), "ab\ncd");
}

#[test]
fn focus_and_error_slot_are_independent_of_text() {
    let mut editor = TextEditor::from_str("x");
    editor.focus();
    assert!(editor.focus);
    editor.set_error(Some(ErrorKind::default_error("rpc failed")));
    editor.on_key(KeyEvent::plain(KeyCode::Char('l')));
    assert_eq!(editor.get_error().map(|e| e.msg), Some("rpc failed".to_string()));
    editor.unfocus();
    assert!(!editor.focus);
    assert_eq!(editor.get_text_raw(), "x");
}

fn press(editor: &mut TextEditor, code: KeyCode) {
    editor.on_key(KeyEvent::plain(code));
}

#[test]
fn typing_after_moving_up_to_a_shorter_line_lands_at_its_end() {
    let mut editor = TextEditor::from_str("a\nhello");
    press(&mut editor, KeyCode::Char('j'));
    press(&mut editor, KeyCode::Char('$'));
    press(&mut editor, KeyCode::Char('a'));
    assert!(editor.insert_mode());
    press(&mut editor, KeyCode::Up);
    press(&mut editor, KeyCode::Char('x'));
    assert_eq!(editor.get_text_raw(), "ax\nhello");
}

#[test]
fn typing_below_the_last_line_lands_on_the_last_line() {
    let mut editor = TextEditor::from_str("a\nhello");
    press(&mut editor, KeyCode::Char('i'));
    press(&mut editor, KeyCode::Down);
    press(&mut editor, KeyCode::Down);
    press(&mut editor, KeyCode::Right);
    press(&mut editor, KeyCode::Char('x'));
    assert_eq!(editor.get_text_raw(), "a\nhxello");
    press(&mut editor, KeyCode::Enter);
    assert_eq!(editor.get_text_raw(), "a\nhx\nello");
    press(&mut editor, KeyCode::Backspace);
    assert_eq!(editor.get_text_raw(), "a\nhxello");
}

#[test]
fn typing_after_the_text_was_replaced_starts_at_the_top() {
    let mut editor = TextEditor::from_str("a long first line\nsecond");
    press(&mut editor, KeyCode::Char('j'));
    press(&mut editor, KeyCode::Char('$'));
    press(&mut editor, KeyCode::Char('a'));
    editor.set_text_raw("x");
    press(&mut editor, KeyCode::Char('y'));
    assert_eq!(editor.get_text_raw(), "yx");
    editor.clear();
    press(&mut editor, KeyCode::Char('z'));
    assert_eq!(editor.get_text_raw(), "z");
}

#[test]
fn paste_after_moving_outside_the_text_does_not_fail() {
    let mut editor = TextEditor::from_str("a\nhello");
    press(&mut editor, KeyCode::Char('i'));
    press(&mut editor, KeyCode::Down);
    press(&mut editor, KeyCode::Down);
    editor.paste_from_clipboard(Some("1\n2"));
    assert_eq!(editor.get_text_raw(), "a\n1\n2hello");
}

#[test]
fn normal_mode_commands_work_on_a_loaded_text() {
    let mut editor = TextEditor::from_str("one\ntwo\nthree");
    press(&mut editor, KeyCode::Char('j'));
    press(&mut editor, KeyCode::Char('d'));
    press(&mut editor, KeyCode::Char('d'));
    assert_eq!(editor.get_text_raw(), "one\nthree");
    press(&mut editor, KeyCode::Char('o'));
    assert!(editor.insert_mode());
    press(&mut editor, KeyCode::Char('x'));
    press(&mut editor, KeyCode::Esc);
    assert_eq!(editor.get_text_raw(), "one\nthree\nx");
    press(&mut editor, KeyCode::Char('u'));
    press(&mut editor, KeyCode::Char('x'));
    assert!(!editor.insert_mode());
}

#[test]
fn cloned_editor_shows_the_same() {
    let mut editor = TextEditor::from_str("text");
    editor.focus();
    editor.set_error(Some(ErrorKind::default_error("e")));
    press(&mut editor, KeyCode::Char('i'));
    let copy = editor.clone();
    assert_eq!(copy.get_text_raw(), "text");
    assert!(copy.insert_mode());
    assert!(copy.focus);
    assert_eq!(copy.get_error().map(|e| e.msg), Some("e".to_string()));
    assert_eq!(TextEditor::default().get_text_raw(), "");
}

#[test]
fn random_key_sequences_never_make_the_editor_fail() {
    let mut keys = Vec::new();
    for code in [
        KeyCode::Enter,
        KeyCode::Esc,
        KeyCode::Tab,
        KeyCode::BackTab,
        KeyCode::Up,
        KeyCode::Down,
        KeyCode::Left,
        KeyCode::Right,
        KeyCode::Backspace,
        KeyCode::Other,
    ] {
        keys.push(KeyEvent::plain(code));
    }
    for c in "iavhjklwb0_$IAoOxdcVuryp/nN\" {}q1 GgeDCsSJ%()[]ciwciwdd".chars() {
        keys.push(KeyEvent::plain(KeyCode::Char(c)));
    }
    for c in "rdyf".chars() {
        keys.push(KeyEvent::ctrl(c));
    }
    let texts = ["", "a", "a\nhello", "{\n  \"k\": \"v w\"\n}", "\n\n", "x y  z\n\n  \"q\" "];
    let mut seed: u64 = 0x9E3779B97F4A7C15;
    for round in 0..4000 {
        let mut editor = TextEditor::from_str(texts[round % texts.len()]);
        for step in 0..30 {
            seed = seed.wrapping_mul(6364136223846793005).wrapping_add(1442695040888963407);
            let key = keys[((seed >> 33) as usize) % keys.len()];
            editor.on_key(key);
            if round % 3 == 0 {
                continue;
            }
            if step % 7 == 3 {
                editor.paste_from_clipboard(Some("p\nq"));
            }
            if (seed >> 20) % 11 == 0 {
                editor.set_text_raw(texts[(seed >> 25) as usize % texts.len()]);
            }
            if (seed >> 20) % 13 == 0 {
                editor.clear();
            }
            if (seed >> 20) % 17 == 0 {
                editor.format_json();
            }
            let _ = editor.get_text_raw();
        }
    }
}

#[test]
fn control_keys_reach_the_buffer_as_control_keys() {
    let mut editor = TextEditor::from_str("abc");
    press(&mut editor, KeyCode::Char('x'));
    assert_eq!(editor.get_text_raw(), "bc");
    press(&mut editor, KeyCode::Char('u'));
    assert_eq!(editor.get_text_raw(), "abc");
    editor.on_key(KeyEvent::ctrl('r'));
    assert_eq!(editor.get_text_raw(), "bc");
    press(&mut editor, KeyCode::Char('i'));
    editor.on_key(KeyEvent::ctrl('r'));
    assert_eq!(editor.get_text_raw(), "bc");
    assert!(editor.insert_mode());
}

#[test]
fn mode_tells_insert_from_normal() {
    let mut editor = TextEditor::new();
    assert_eq!(editor.mode(), EditorMode::Normal);
    press(&mut editor, KeyCode::Char('i'));
    assert_eq!(editor.mode(), EditorMode::Insert);
    press(&mut editor, KeyCode::Esc);
    press(&mut editor, KeyCode::Char('v'));
    assert_eq!(editor.mode(), EditorMode::Normal);
    assert_eq!(EditorMode::default(), EditorMode::Unset);
}

#[test]
fn keys_that_the_buffer_does_not_read_change_nothing() {
    for insert in [false, true] {
        let mut editor = TextEditor::from_str("ab\ncd");
        if insert {
            press(&mut editor, KeyCode::Char('i'));
        }
        for event in [
            KeyEvent::plain(KeyCode::Tab),
            KeyEvent::plain(KeyCode::BackTab),
            KeyEvent::plain(KeyCode::Other),
            KeyEvent::new(KeyCode::Enter, wireman::key::KeyModifiers::Control),
        ] {
            editor.on_key(event);
            assert_eq!(editor.get_text_raw(), "ab\ncd");
            assert_eq!(editor.insert_mode(), insert);
        }
    }
}

#[test]
fn character_keys_are_text_in_insert_mode() {
    let mut editor = TextEditor::from_str("ab\ncd");
    press(&mut editor, KeyCode::Char('i'));
    for c in "iq:dd".chars() {
        press(&mut editor, KeyCode::Char(c));
        assert!(editor.insert_mode());
    }
    assert_eq!(editor.get_text_raw(), "iq:ddab\ncd");
    press(&mut editor, KeyCode::Char('\n'));
    assert_eq!(editor.get_text_raw(), "iq:dd\nab\ncd");
}

#[test]
fn deleting_a_selection_after_the_text_was_cleared_does_nothing() {
    let mut editor = TextEditor::from_str("hello");
    press(&mut editor, KeyCode::Char('v'));
    for _ in 0..4 {
        press(&mut editor, KeyCode::Char('l'));
    }
    editor.clear();
    press(&mut editor, KeyCode::Char('d'));
    assert_eq!(editor.get_text_raw(), "");
    assert!(!editor.insert_mode());
    press(&mut editor, KeyCode::Char('i'));
    press(&mut editor, KeyCode::Char('x'));
    assert_eq!(editor.get_text_raw(), "x");
}

#[test]
fn a_selection_that_no_longer_fits_the_text_is_given_up() {
    let mut editor = TextEditor::from_str("one\ntwo\nthree");
    press(&mut editor, KeyCode::Char('v'));
    press(&mut editor, KeyCode::Char('j'));
    press(&mut editor, KeyCode::Char('j'));
    press(&mut editor, KeyCode::Char('l'));
    editor.set_text_raw("ab");
    press(&mut editor, KeyCode::Char('p'));
    press(&mut editor, KeyCode::Char('d'));
    press(&mut editor, KeyCode::Char('y'));
    let _ = editor.get_text_raw();
    let mut kept = TextEditor::from_str("abcd");
    press(&mut kept, KeyCode::Char('v'));
    press(&mut kept, KeyCode::Char('l'));
    press(&mut kept, KeyCode::Char('d'));
    assert_eq!(kept.get_text_raw(), "cd");
}

#[test]
fn i_enters_insert_mode_only_when_no_key_is_held_back() {
    let mut editor = TextEditor::from_str("ab");
    press(&mut editor, KeyCode::Char('c'));
    press(&mut editor, KeyCode::Char('i'));
    assert!(!editor.insert_mode());
    assert_eq!(editor.get_text_raw(), "ab");
    let mut editor = TextEditor::from_str("ab");
    press(&mut editor, KeyCode::Char('c'));
    press(&mut editor, KeyCode::Tab);
    press(&mut editor, KeyCode::Char('i'));
    assert!(editor.insert_mode());
    assert_eq!(editor.get_text_raw(), "ab");
    press(&mut editor, KeyCode::Esc);
    assert!(!editor.insert_mode());
    assert_eq!(editor.mode(), EditorMode::Normal);
    press(&mut editor, KeyCode::Char('i'));
    assert!(editor.insert_mode());
}

#[test]
fn escape_in_insert_mode_keeps_the_text() {
    let mut editor = TextEditor::from_str("one\ntwo");
    press(&mut editor, KeyCode::Char('i'));
    for code in [KeyCode::Down, KeyCode::Right, KeyCode::Up, KeyCode::Left, KeyCode::Char('x'), KeyCode::Backspace] {
        press(&mut editor, code);
        assert!(editor.insert_mode());
    }
    press(&mut editor, KeyCode::Esc);
    assert!(!editor.insert_mode());
    assert_eq!(editor.get_text_raw(), "one\ntwo");
}

#[test]
fn the_word_command_on_a_new_editor_does_nothing() {
    let mut editor = TextEditor::new();
    for c in "ciw".chars() {
        press(&mut editor, KeyCode::Char(c));
    }
    assert!(editor.is_empty());
    assert!(!editor.insert_mode());
    press(&mut editor, KeyCode::Char('i'));
    assert!(editor.insert_mode());
    press(&mut editor, KeyCode::Char('w'));
    assert_eq!(editor.get_text_raw(), "w");
    let mut cleared = TextEditor::from_str("\"a b\"");
    cleared.clear();
    for c in "wciwbciw".chars() {
        press(&mut cleared, KeyCode::Char(c));
    }
    assert!(cleared.is_empty());
}

#[test]
fn the_word_command_selects_between_quotes() {
    let mut editor = TextEditor::from_str("say \"hello you\" now");
    for _ in 0..6 {
        press(&mut editor, KeyCode::Char('l'));
    }
    for c in "ciw".chars() {
        press(&mut editor, KeyCode::Char(c));
    }
    press(&mut editor, KeyCode::Char('d'));
    assert_eq!(editor.get_text_raw(), "say \"\" now");
}

#[test]
fn control_keys_do_nothing_but_redo() {
    for insert in [false, true] {
        let mut editor = TextEditor::from_str("ab\ncd");
        if insert {
            press(&mut editor, KeyCode::Char('i'));
        }
        for c in "fdyslhaqw".chars() {
            editor.on_key(KeyEvent::ctrl(c));
            assert_eq!(editor.get_text_raw(), "ab\ncd");
            assert_eq!(editor.insert_mode(), insert);
        }
        if insert {
            editor.on_key(KeyEvent::ctrl('r'));
            assert_eq!(editor.get_text_raw(), "ab\ncd");
            assert!(editor.insert_mode());
        }
    }
    let mut editor = TextEditor::from_str("ab");
    press(&mut editor, KeyCode::Char('d'));
    editor.on_key(KeyEvent::ctrl('x'));
    press(&mut editor, KeyCode::Char('d'));
    assert_eq!(editor.get_text_raw(), "ab");
    press(&mut editor, KeyCode::Char('d'));
    assert_eq!(editor.get_text_raw(), "");
}

fn short_alphabet() -> Vec<KeyEvent> {
    let mut keys = Vec::new();
    for code in [
        KeyCode::Enter,
        KeyCode::Esc,
        KeyCode::Up,
        KeyCode::Down,
        KeyCode::Left,
        KeyCode::Right,
        KeyCode::Backspace,
        KeyCode::Tab,
    ] {
        keys.push(KeyEvent::plain(code));
    }
    for c in "iavhjklwb0_$IAoOxdcVuyp/nN\"".chars() {
        keys.push(KeyEvent::plain(KeyCode::Char(c)));
    }
    keys.push(KeyEvent::ctrl('r'));
    keys
}

#[test]
fn every_short_key_sequence_leaves_the_editor_working() {
    let keys = short_alphabet();
    let texts = ["", "a", "\"a b\"\n\nc", "\n"];
    for text in texts {
        for first in &keys {
            for second in &keys {
                for third in &keys {
                    let mut editor = TextEditor::from_str(text);
                    editor.on_key(*first);
                    editor.on_key(*second);
                    editor.on_key(*third);
                    let _ = editor.get_text_raw();
                }
            }
        }
    }
}

#[test]
fn every_short_key_sequence_after_a_command_start_leaves_the_editor_working() {
    let keys = short_alphabet();
    let starts = ["ci", "vl", "v$", "/a", "ddu", "xu", "op", "Vy", "Vd"];
    let texts = ["", "ab \"c\"", "x\n\ny z"];
    for text in texts {
        for start in starts {
            for first in &keys {
                for second in &keys {
                    let mut editor = TextEditor::from_str(text);
                    for c in start.chars() {
                        editor.on_key(KeyEvent::plain(KeyCode::Char(c)));
                    }
                    editor.on_key(*first);
                    editor.on_key(*second);
                    editor.clear();
                    editor.on_key(*first);
                    editor.on_key(*second);
                    let _ = editor.get_text_raw();
                }
            }
        }
    }
}
