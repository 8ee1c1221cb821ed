use wireman::app::{AppContext, Tab};
use wireman::editor::EditorMode;
use wireman::headers::{AuthSelection, HeadersModel, HeadersSelection, MetaCursor, MetaHeaders};
use wireman::input::{HeadersCommand, HeadersInput};
use wireman::key::{KeyCode, KeyEvent};

fn headers_context() -> AppContext {
    let mut context = AppContext::new();
    context.tab = Tab::Headers;
    context
}

fn send(model: &mut HeadersModel, context: &mut AppContext, event: KeyEvent) {
    HeadersInput { model, context }.handle(event);
}

fn press(model: &mut HeadersModel, context: &mut AppContext, code: KeyCode) {
    send(model, context, KeyEvent::plain(code));
}

fn model_with_rows(n: usize) -> (HeadersModel, AppContext) {
    let mut model = HeadersModel::new("localhost:50051");
    let mut context = headers_context();
    for _ in 0..n {
        press(&mut model, &mut context, KeyCode::Esc);
        send(&mut model, &mut context, KeyEvent::ctrl('h'));
    }
    (model, context)
}

#[test]
fn new_headers_model_has_nothing_selected() {
    let model = HeadersModel::new("localhost:50051");
    assert_eq!(model.selected, HeadersSelection::Nothing);
    assert_eq!(model.addr.get_text_raw(), "localhost:50051");
    assert!(model.meta.is_empty());
    assert!(model.meta.is_hidden());
    assert_eq!(model.meta.selected, None);
    assert_eq!(model.auth.selected, AuthSelection::Bearer);
    assert_eq!(model.mode(), EditorMode::Normal);
}

#[test]
fn down_walks_the_zones_and_skips_empty_metadata() {
    let (mut model, mut context) = model_with_rows(0);
    press(&mut model, &mut context, KeyCode::Down);
    assert_eq!(model.selected, HeadersSelection::Addr);
    press(&mut model, &mut context, KeyCode::Char('j'));
    assert_eq!(model.selected, HeadersSelection::Auth);
    press(&mut model, &mut context, KeyCode::Down);
    assert_eq!(model.selected, HeadersSelection::Auth);
    press(&mut model, &mut context, KeyCode::Up);
    assert_eq!(model.selected, HeadersSelection::Addr);
    press(&mut model, &mut context, KeyCode::Char('k'));
    assert_eq!(model.selected, HeadersSelection::Nothing);
    press(&mut model, &mut context, KeyCode::Up);
    assert_eq!(model.selected, HeadersSelection::Nothing);
}

#[test]
fn ctrl_h_adds_a_header_and_selects_metadata() {
    let (mut model, mut context) = model_with_rows(0);
    send(&mut model, &mut context, KeyEvent::ctrl('h'));
    assert_eq!(model.selected, HeadersSelection::Meta);
    assert_eq!(model.meta.len(), 1);
    assert_eq!(model.meta.selected, Some(MetaCursor { row: 0, col: 0 }));
    assert_eq!(model.meta.pairs(), vec![(String::new(), String::new())]);
    assert!(!model.meta.is_hidden());
}

#[test]
fn down_at_the_last_metadata_row_stays_there() {
    let (mut model, mut context) = model_with_rows(3);
    assert_eq!(model.meta.len(), 3);
    assert_eq!(model.selected, HeadersSelection::Meta);
    assert_eq!(model.meta.selected, Some(MetaCursor { row: 2, col: 0 }));
    for _ in 0..5 {
        press(&mut model, &mut context, KeyCode::Down);
        assert_eq!(model.selected, HeadersSelection::Meta);
        assert_eq!(model.meta.selected.map(|c| c.row), Some(2));
        assert_eq!(model.meta.len(), 3);
    }
}

#[test]
fn up_and_down_move_inside_metadata_before_the_zone_moves() {
    let (mut model, mut context) = model_with_rows(3);
    assert!(model.meta.block_prev());
    assert!(!model.meta.block_next());
    assert_eq!(HeadersInput::command(&model, &context, KeyEvent::plain(KeyCode::Up)), HeadersCommand::Dispatch);
    press(&mut model, &mut context, KeyCode::Up);
    assert_eq!(model.meta.selected, Some(MetaCursor { row: 1, col: 0 }));
    assert!(model.meta.block_next());
    press(&mut model, &mut context, KeyCode::Char('k'));
    assert_eq!(model.meta.selected, Some(MetaCursor { row: 0, col: 0 }));
    assert!(!model.meta.block_prev());
    assert_eq!(HeadersInput::command(&model, &context, KeyEvent::plain(KeyCode::Up)), HeadersCommand::ZoneUp);
    press(&mut model, &mut context, KeyCode::Up);
    assert_eq!(model.selected, HeadersSelection::Auth);
    assert_eq!(model.meta.selected, None);
    press(&mut model, &mut context, KeyCode::Down);
    assert_eq!(model.selected, HeadersSelection::Meta);
    assert_eq!(model.meta.selected, Some(MetaCursor { row: 0, col: 0 }));
    press(&mut model, &mut context, KeyCode::Char('j'));
    assert_eq!(model.meta.selected, Some(MetaCursor { row: 1, col: 0 }));
}

#[test]
fn metadata_selection_over_an_empty_list_resolves_to_nothing() {
    for code in [
        KeyCode::Down,
        KeyCode::Up,
        KeyCode::Esc,
        KeyCode::Enter,
        KeyCode::Tab,
        KeyCode::Char('x'),
        KeyCode::Char('j'),
        KeyCode::Other,
    ] {
        let mut model = HeadersModel::new("");
        let mut context = headers_context();
        model.selected = HeadersSelection::Meta;
        press(&mut model, &mut context, code);
        assert_eq!(model.selected, HeadersSelection::Nothing, "after {:?}", code);
    }
    let mut model = HeadersModel::new("");
    let mut context = headers_context();
    model.selected = HeadersSelection::Meta;
    send(&mut model, &mut context, KeyEvent::ctrl('h'));
    assert_eq!(model.selected, HeadersSelection::Nothing);
    assert!(model.meta.is_empty());
}

#[test]
fn removing_the_last_header_unselects_metadata() {
    let (mut model, mut context) = model_with_rows(2);
    send(&mut model, &mut context, KeyEvent::ctrl('d'));
    assert_eq!(model.meta.len(), 1);
    assert_eq!(model.selected, HeadersSelection::Meta);
    assert_eq!(model.meta.selected, Some(MetaCursor { row: 0, col: 0 }));
    send(&mut model, &mut context, KeyEvent::ctrl('d'));
    assert_eq!(model.meta.len(), 0);
    assert_eq!(model.meta.selected, None);
    assert_eq!(model.selected, HeadersSelection::Nothing);
}

#[test]
fn tab_switches_between_key_and_value() {
    let (mut model, mut context) = model_with_rows(1);
    assert!(model.meta.is_key_selected());
    press(&mut model, &mut context, KeyCode::Tab);
    assert_eq!(model.meta.selected, Some(MetaCursor { row: 0, col: 1 }));
    assert!(!model.meta.is_key_selected());
    assert_eq!(context.tab, Tab::Headers);
    press(&mut model, &mut context, KeyCode::Char('i'));
    press(&mut model, &mut context, KeyCode::Char('v'));
    press(&mut model, &mut context, KeyCode::Esc);
    press(&mut model, &mut context, KeyCode::Tab);
    press(&mut model, &mut context, KeyCode::Char('i'));
    press(&mut model, &mut context, KeyCode::Char('k'));
    press(&mut model, &mut context, KeyCode::Esc);
    assert_eq!(model.meta.pairs(), vec![("k".to_string(), "v".to_string())]);
    assert_eq!(model.selected, HeadersSelection::Meta);
}

#[test]
fn insert_mode_in_a_header_turns_root_events_off() {
    let (mut model, mut context) = model_with_rows(1);
    press(&mut model, &mut context, KeyCode::Char('i'));
    assert!(context.disable_root_events);
    assert_eq!(model.mode(), EditorMode::Insert);
    press(&mut model, &mut context, KeyCode::Esc);
    assert_eq!(model.selected, HeadersSelection::Meta);
    assert!(!context.disable_root_events);
    assert_eq!(model.mode(), EditorMode::Normal);
    press(&mut model, &mut context, KeyCode::Esc);
    assert_eq!(model.selected, HeadersSelection::Nothing);
    assert_eq!(model.meta.selected, None);
}

#[test]
fn tab_in_the_auth_zone_switches_bearer_and_basic() {
    let (mut model, mut context) = model_with_rows(0);
    press(&mut model, &mut context, KeyCode::Down);
    press(&mut model, &mut context, KeyCode::Down);
    assert_eq!(model.selected, HeadersSelection::Auth);
    press(&mut model, &mut context, KeyCode::Tab);
    assert_eq!(model.auth.selected, AuthSelection::Basic);
    assert_eq!(context.tab, Tab::Headers);
    press(&mut model, &mut context, KeyCode::Char('i'));
    press(&mut model, &mut context, KeyCode::Char('u'));
    press(&mut model, &mut context, KeyCode::Tab);
    assert_eq!(model.auth.selected, AuthSelection::Basic);
    press(&mut model, &mut context, KeyCode::Esc);
    assert_eq!(model.auth.basic.get_text_raw(), "u");
    assert_eq!(model.auth.bearer.get_text_raw(), "");
    press(&mut model, &mut context, KeyCode::Tab);
    assert_eq!(model.auth.selected, AuthSelection::Bearer);
}

#[test]
fn enter_selects_the_address_and_tab_leaves_the_page() {
    let (mut model, mut context) = model_with_rows(0);
    press(&mut model, &mut context, KeyCode::Enter);
    assert_eq!(model.selected, HeadersSelection::Addr);
    press(&mut model, &mut context, KeyCode::Tab);
    assert_eq!(context.tab, Tab::Selection);
    assert_eq!(context.sub, 0);
    context.tab = Tab::Headers;
    press(&mut model, &mut context, KeyCode::BackTab);
    assert_eq!(context.tab, Tab::Messages);
}

#[test]
fn meta_headers_clamp_rows_on_their_own() {
    let mut meta = MetaHeaders::new();
    meta.next_row();
    assert_eq!(meta.selected, None);
    meta.add();
    meta.add();
    assert_eq!(meta.selected, Some(MetaCursor { row: 1, col: 0 }));
    meta.next_row();
    assert_eq!(meta.selected, Some(MetaCursor { row: 1, col: 0 }));
    meta.prev_row();
    meta.prev_row();
    assert_eq!(meta.selected, Some(MetaCursor { row: 0, col: 0 }));
    meta.select_val();
    assert_eq!(meta.selected, Some(MetaCursor { row: 0, col: 1 }));
    meta.select_key();
    assert!(meta.is_key_selected());
    meta.unselect();
    assert!(meta.get_selected().is_none());
    meta.select();
    assert!(meta.get_selected().is_some());
    meta.set_pairs(&vec![("a".to_string(), "1".to_string()), ("b".to_string(), "2\n3".to_string())]);
    assert_eq!(meta.selected, None);
    assert_eq!(meta.pairs(), vec![("a".to_string(), "1".to_string()), ("b".to_string(), "2\n3".to_string())]);
    meta.clear();
    assert!(meta.is_empty());
}

#[test]
fn clear_keeps_the_address() {
    let (mut model, mut context) = model_with_rows(2);
    press(&mut model, &mut context, KeyCode::Char('i'));
    press(&mut model, &mut context, KeyCode::Char('x'));
    press(&mut model, &mut context, KeyCode::Esc);
    model.clear();
    assert_eq!(model.addr.get_text_raw(), "localhost:50051");
    assert!(model.meta.is_empty());
    assert_eq!(model.selected, HeadersSelection::Nothing);
}
