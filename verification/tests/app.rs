use wireman::app::{App, AppContext, Tab};
use wireman::config::{Config, HistoryConfig, LoggingConfig, ServerConfig, TlsConfig};
use wireman::headers::{HeadersModel, HeadersSelection};
use wireman::key::{KeyCode, KeyEvent, KeyModifiers};
use wireman::selection::{Method, MethodId, Service};

fn catalogue() -> Vec<Service> {
    vec![
        Service {
            name: "Greeter".to_string(),
            methods: vec![
                Method { name: "SayHello".to_string(), template: "{\n  \"name\": \"\"\n}".to_string() },
                Method { name: "SayBye".to_string(), template: "{}".to_string() },
            ],
        },
        Service {
            name: "Echo".to_string(),
            methods: vec![Method { name: "Ping".to_string(), template: "{\"n\": 0}".to_string() }],
        },
    ]
}

fn config(autosave: bool) -> Config {
    Config {
        includes: vec![],
        files: vec![],
        history: HistoryConfig::new("/tmp/history", autosave, false),
        server: ServerConfig::new("http://localhost:50051"),
        logging: LoggingConfig::default(),
        tls: TlsConfig::default(),
    }
}

fn press(app: &mut App, code: KeyCode) {
    app.handle_key_event(KeyEvent::plain(code));
}

#[test]
fn tab_next_cycles_through_three_tabs() {
    assert_eq!(Tab::Selection.next(), Tab::Messages);
    assert_eq!(Tab::Messages.next(), Tab::Headers);
    assert_eq!(Tab::Headers.next(), Tab::Selection);
    for tab in [Tab::Selection, Tab::Messages, Tab::Headers] {
        assert_eq!(tab.next().next().next(), tab);
    }
}

#[test]
fn tab_prev_cycles_the_other_way() {
    assert_eq!(Tab::Selection.prev(), Tab::Headers);
    assert_eq!(Tab::Headers.prev(), Tab::Messages);
    assert_eq!(Tab::Messages.prev(), Tab::Selection);
    for tab in [Tab::Selection, Tab::Messages, Tab::Headers] {
        assert_eq!(tab.prev().prev().prev(), tab);
        assert_eq!(tab.next().prev(), tab);
    }
}

#[test]
fn tab_index_is_the_place_in_the_navigation_bar() {
    assert_eq!(Tab::Selection.index(), 0);
    assert_eq!(Tab::Messages.index(), 1);
    assert_eq!(Tab::Headers.index(), 2);
    assert_eq!(Tab::default(), Tab::Selection);
}

#[test]
fn new_context_starts_on_selection() {
    let context = AppContext::new();
    assert_eq!(context.tab, Tab::Selection);
    assert_eq!(context.sub, 0);
    assert!(!context.disable_root_events);
    let default = AppContext::default();
    assert_eq!(default.tab, Tab::Selection);
    assert_eq!(default.sub, 0);
}

#[test]
fn q_quits_in_normal_mode() {
    let mut app = App::new(&config(true), catalogue());
    assert!(!app.should_quit);
    press(&mut app, KeyCode::Char('q'));
    assert!(app.should_quit);
}

#[test]
fn q_does_not_quit_in_insert_mode() {
    let mut app = App::new(&config(true), catalogue());
    press(&mut app, KeyCode::Tab);
    assert_eq!(app.context.tab, Tab::Messages);
    press(&mut app, KeyCode::Char('i'));
    assert!(app.messages.request.editor.insert_mode());
    assert!(app.context.disable_root_events);
    press(&mut app, KeyCode::Char('q'));
    assert!(!app.should_quit);
    assert_eq!(app.messages.request.editor.get_text_raw(), "q");
    press(&mut app, KeyCode::Tab);
    assert_eq!(app.context.tab, Tab::Messages);
    press(&mut app, KeyCode::Esc);
    assert!(!app.messages.request.editor.insert_mode());
    assert!(!app.context.disable_root_events);
    press(&mut app, KeyCode::Char('q'));
    assert!(app.should_quit);
}

#[test]
fn tab_key_changes_tab_and_resets_sub() {
    let mut app = App::new(&config(true), catalogue());
    press(&mut app, KeyCode::Down);
    assert_eq!(app.context.sub, 1);
    press(&mut app, KeyCode::Tab);
    assert_eq!(app.context.tab, Tab::Messages);
    assert_eq!(app.context.sub, 0);
    press(&mut app, KeyCode::Down);
    assert_eq!(app.context.sub, 1);
    press(&mut app, KeyCode::Up);
    assert_eq!(app.context.sub, 0);
    press(&mut app, KeyCode::BackTab);
    assert_eq!(app.context.tab, Tab::Selection);
    press(&mut app, KeyCode::BackTab);
    assert_eq!(app.context.tab, Tab::Headers);
}

#[test]
fn enter_on_selection_selects_the_first_method_and_loads_it() {
    let mut app = App::new(&config(true), catalogue());
    assert!(app.selection.selected_method().is_none());
    press(&mut app, KeyCode::Enter);
    assert_eq!(app.context.sub, 1);
    assert_eq!(app.selection.selected_method(), Some(MethodId { service: 0, method: 0 }));
    assert_eq!(app.messages.selected_method, Some(MethodId { service: 0, method: 0 }));
    assert_eq!(app.messages.request.editor.get_text_raw(), "{\n  \"name\": \"\"\n}");
    press(&mut app, KeyCode::Enter);
    assert_eq!(app.context.tab, Tab::Messages);
    assert_eq!(app.context.sub, 0);
}

#[test]
fn enter_on_messages_starts_the_request() {
    let mut app = App::new(&config(true), catalogue());
    press(&mut app, KeyCode::Enter);
    press(&mut app, KeyCode::Enter);
    assert!(!app.needs_request());
    press(&mut app, KeyCode::Enter);
    assert!(app.needs_request());
    assert_eq!(app.messages.response.editor.get_text_raw(), "Processing...");
    app.messages.do_request(Ok("{\"message\": \"hi\"}".to_string()));
    assert!(!app.needs_request());
    assert_eq!(app.messages.response.editor.get_text_raw(), "{\"message\": \"hi\"}");
}

#[test]
fn headers_tab_dispatches_to_the_headers_model() {
    let mut app = App::new(&config(true), catalogue());
    press(&mut app, KeyCode::BackTab);
    assert_eq!(app.context.tab, Tab::Headers);
    press(&mut app, KeyCode::Down);
    assert_eq!(app.messages.headers_model.selected, HeadersSelection::Addr);
    press(&mut app, KeyCode::Char('i'));
    assert!(app.context.disable_root_events);
    press(&mut app, KeyCode::Char('q'));
    assert!(!app.should_quit);
    assert_eq!(app.messages.headers_model.addr.get_text_raw(), "qhttp://localhost:50051");
    press(&mut app, KeyCode::Tab);
    assert_eq!(app.context.tab, Tab::Headers);
    press(&mut app, KeyCode::Esc);
    assert!(!app.context.disable_root_events);
    press(&mut app, KeyCode::Tab);
    assert_eq!(app.context.tab, Tab::Selection);
}

fn headers_insert(headers: &HeadersModel) -> bool {
    headers.addr.insert_mode()
        || headers.auth.bearer.insert_mode()
        || headers.auth.basic.insert_mode()
        || headers
            .meta
            .headers
            .iter()
            .any(|(key, value)| key.insert_mode() || value.insert_mode())
}

fn any_insert(app: &App) -> bool {
    app.messages.request.editor.insert_mode()
        || app.messages.response.editor.insert_mode()
        || headers_insert(&app.messages.headers_model)
}

#[test]
fn random_keys_keep_focus_and_shortcuts_in_agreement() {
    let mut keys = Vec::new();
    for code in [
        KeyCode::Enter,
        KeyCode::Esc,
        KeyCode::Tab,
        KeyCode::BackTab,
        KeyCode::Up,
        KeyCode::Down,
        KeyCode::Left,
        KeyCode::Right,
        KeyCode::Backspace,
        KeyCode::Other,
    ] {
        keys.push(KeyEvent::plain(code));
        keys.push(KeyEvent::plain(code));
    }
    for c in "iaoIAOvjkhlxud12345 {}\"".chars() {
        keys.push(KeyEvent::plain(KeyCode::Char(c)));
    }
    for c in "yfdslhar".chars() {
        keys.push(KeyEvent::ctrl(c));
    }
    keys.push(KeyEvent::new(KeyCode::Char('H'), KeyModifiers::Other));
    let mut seed: u64 = 0x2545F4914F6CDD1D;
    for round in 0..400 {
        let mut app = App::new(&config(round % 2 == 0), catalogue());
        for _ in 0..60 {
            seed = seed.wrapping_mul(6364136223846793005).wrapping_add(1442695040888963407);
            let key = keys[((seed >> 33) as usize) % keys.len()];
            assert!(app.is_consistent());
            let inserting = any_insert(&app);
            assert_eq!(app.context.disable_root_events, inserting);
            let tab = app.context.tab;
            app.handle_key_event(key);
            if inserting {
                assert!(!app.should_quit);
                assert_eq!(app.context.tab, tab);
            }
            if app.messages.headers_model.selected == HeadersSelection::Meta {
                assert!(!app.messages.headers_model.meta.is_empty());
                assert!(app.messages.headers_model.meta.selected.is_some());
            } else {
                assert!(app.messages.headers_model.meta.selected.is_none());
            }
            if app.needs_request() {
                app.messages.do_request(Ok("{}".to_string()));
            }
            let _ = app.messages.take_yank();
        }
    }
}

#[test]
fn q_is_the_only_key_that_quits() {
    for code in [KeyCode::Enter, KeyCode::Esc, KeyCode::Tab, KeyCode::Char('Q'), KeyCode::Char('c')] {
        let mut app = App::new(&config(true), catalogue());
        press(&mut app, code);
        assert!(!app.should_quit);
    }
    let mut app = App::new(&config(true), catalogue());
    app.handle_key_event(KeyEvent::ctrl('q'));
    assert!(app.should_quit);
}
