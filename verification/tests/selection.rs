use wireman::app::{AppContext, Tab};
use wireman::input::{SelectionCommand, SelectionInput};
use wireman::key::KeyCode;
use wireman::messages::MessagesModel;
use wireman::selection::{Method, MethodId, SelectionModel, Service};

fn service(name: &str, methods: &[&str]) -> Service {
    Service {
        name: name.to_string(),
        methods: methods
            .iter()
            .map(|m| Method { name: m.to_string(), template: format!("{{\"{}\": 1}}", m) })
            .collect(),
    }
}

fn catalogue() -> Vec<Service> {
    vec![service("A", &["a1", "a2", "a3"]), service("B", &[]), service("C", &["c1"])]
}

fn press(model: &mut SelectionModel, messages: &mut MessagesModel, context: &mut AppContext, code: KeyCode) {
    SelectionInput { model, messages_model: messages, context }.handle(code);
}

#[test]
fn new_selection_model_selects_the_first_service() {
    let model = SelectionModel::new(catalogue());
    assert_eq!(model.service, Some(0));
    assert_eq!(model.method, None);
    assert!(model.selected_method().is_none());
    assert!(model.is_parent_selected());
    let empty = SelectionModel::new(vec![]);
    assert_eq!(empty.service, None);
}

#[test]
fn services_wrap_around() {
    let mut model = SelectionModel::new(catalogue());
    model.next_service();
    assert_eq!(model.service, Some(1));
    model.next_service();
    model.next_service();
    assert_eq!(model.service, Some(0));
    model.previous_service();
    assert_eq!(model.service, Some(2));
    let mut empty = SelectionModel::new(vec![]);
    empty.next_service();
    empty.previous_service();
    empty.next_method();
    assert_eq!(empty.service, None);
    assert_eq!(empty.method, None);
}

#[test]
fn methods_wrap_around_inside_the_selected_service() {
    let mut model = SelectionModel::new(catalogue());
    model.next_method();
    assert_eq!(model.selected_method(), Some(MethodId { service: 0, method: 0 }));
    model.next_method();
    model.next_method();
    assert_eq!(model.method, Some(2));
    model.next_method();
    assert_eq!(model.method, Some(0));
    model.previous_method();
    assert_eq!(model.method, Some(2));
    assert_eq!(model.template(MethodId { service: 0, method: 2 }), "{\"a3\": 1}");
    model.next_service();
    assert_eq!(model.method, None);
    model.next_method();
    assert_eq!(model.method, None);
    model.clear_method();
    assert!(model.selected_method().is_none());
}

#[test]
fn tree_moves_between_services_and_methods() {
    let mut model = SelectionModel::new(catalogue());
    model.next();
    assert_eq!((model.service, model.method), (Some(1), None));
    model.previous();
    assert_eq!((model.service, model.method), (Some(0), None));
    model.expand();
    assert_eq!((model.service, model.method), (Some(0), Some(0)));
    assert!(!model.is_parent_selected());
    model.next();
    assert_eq!((model.service, model.method), (Some(0), Some(1)));
    model.expand();
    assert_eq!((model.service, model.method), (Some(0), Some(1)));
    model.previous();
    model.previous();
    assert_eq!((model.service, model.method), (Some(0), Some(2)));
    model.collapse();
    assert_eq!((model.service, model.method), (Some(0), None));
}

#[test]
fn selection_keys_stand_for_commands() {
    let mut context = AppContext::new();
    assert_eq!(SelectionInput::command(&context, KeyCode::Tab), SelectionCommand::NextTab);
    assert_eq!(SelectionInput::command(&context, KeyCode::BackTab), SelectionCommand::PrevTab);
    assert_eq!(SelectionInput::command(&context, KeyCode::Enter), SelectionCommand::Open);
    assert_eq!(SelectionInput::command(&context, KeyCode::Esc), SelectionCommand::Ignore);
    assert_eq!(SelectionInput::command(&context, KeyCode::Up), SelectionCommand::SwitchSub);
    assert_eq!(SelectionInput::command(&context, KeyCode::Char('j')), SelectionCommand::Descend);
    assert_eq!(SelectionInput::command(&context, KeyCode::Char('k')), SelectionCommand::Ascend);
    assert_eq!(SelectionInput::command(&context, KeyCode::Char('q')), SelectionCommand::Ignore);
    context.sub = 1;
    assert_eq!(SelectionInput::command(&context, KeyCode::Enter), SelectionCommand::Confirm);
    assert_eq!(SelectionInput::command(&context, KeyCode::Esc), SelectionCommand::Back);
    context.disable_root_events = true;
    assert_eq!(SelectionInput::command(&context, KeyCode::Tab), SelectionCommand::Ignore);
    assert_eq!(SelectionInput::command(&context, KeyCode::BackTab), SelectionCommand::Ignore);
}

#[test]
fn j_on_the_services_moves_the_service_and_loads_nothing() {
    let mut model = SelectionModel::new(catalogue());
    let mut messages = MessagesModel::new("addr", true, false);
    let mut context = AppContext::new();
    press(&mut model, &mut messages, &mut context, KeyCode::Char('j'));
    assert_eq!((model.service, model.method), (Some(1), None));
    assert_eq!(messages.selected_method, None);
    press(&mut model, &mut messages, &mut context, KeyCode::Char('k'));
    assert_eq!((model.service, model.method), (Some(0), None));
}

#[test]
fn j_on_the_methods_moves_the_method_and_loads_it() {
    let mut model = SelectionModel::new(catalogue());
    let mut messages = MessagesModel::new("addr", true, false);
    let mut context = AppContext::new();
    press(&mut model, &mut messages, &mut context, KeyCode::Enter);
    assert_eq!(context.sub, 1);
    assert_eq!(messages.request.editor.get_text_raw(), "{\"a1\": 1}");
    press(&mut model, &mut messages, &mut context, KeyCode::Char('j'));
    assert_eq!(model.method, Some(1));
    assert_eq!(messages.selected_method, Some(MethodId { service: 0, method: 1 }));
    assert_eq!(messages.request.editor.get_text_raw(), "{\"a2\": 1}");
    press(&mut model, &mut messages, &mut context, KeyCode::Char('k'));
    press(&mut model, &mut messages, &mut context, KeyCode::Char('k'));
    assert_eq!(model.method, Some(2));
    assert_eq!(messages.request.editor.get_text_raw(), "{\"a3\": 1}");
}

#[test]
fn esc_in_the_methods_goes_back_and_clears_the_method() {
    let mut model = SelectionModel::new(catalogue());
    let mut messages = MessagesModel::new("addr", true, false);
    let mut context = AppContext::new();
    press(&mut model, &mut messages, &mut context, KeyCode::Enter);
    assert!(messages.selected_method.is_some());
    press(&mut model, &mut messages, &mut context, KeyCode::Esc);
    assert_eq!(context.sub, 0);
    assert_eq!(model.method, None);
    assert_eq!(messages.selected_method, None);
    assert!(messages.request.editor.is_empty());
    press(&mut model, &mut messages, &mut context, KeyCode::Esc);
    assert_eq!(context.sub, 0);
}

#[test]
fn enter_in_the_methods_without_a_method_selects_one_first() {
    let mut model = SelectionModel::new(catalogue());
    let mut messages = MessagesModel::new("addr", true, false);
    let mut context = AppContext::new();
    press(&mut model, &mut messages, &mut context, KeyCode::Down);
    assert_eq!(context.sub, 1);
    press(&mut model, &mut messages, &mut context, KeyCode::Enter);
    assert_eq!(model.method, Some(0));
    assert_eq!(context.tab, Tab::Selection);
    assert_eq!(messages.selected_method, None);
    press(&mut model, &mut messages, &mut context, KeyCode::Enter);
    assert_eq!(context.tab, Tab::Messages);
    assert_eq!(context.sub, 0);
}

#[test]
fn enter_on_a_service_without_methods_selects_nothing() {
    let mut model = SelectionModel::new(catalogue());
    let mut messages = MessagesModel::new("addr", true, false);
    let mut context = AppContext::new();
    press(&mut model, &mut messages, &mut context, KeyCode::Char('j'));
    press(&mut model, &mut messages, &mut context, KeyCode::Enter);
    assert_eq!(context.sub, 1);
    assert_eq!(model.selected_method(), None);
    assert_eq!(messages.selected_method, None);
}

#[test]
fn up_and_down_cycle_the_two_sub_windows() {
    let mut model = SelectionModel::new(catalogue());
    let mut messages = MessagesModel::new("addr", true, false);
    let mut context = AppContext::new();
    press(&mut model, &mut messages, &mut context, KeyCode::Down);
    assert_eq!(context.sub, 1);
    press(&mut model, &mut messages, &mut context, KeyCode::Down);
    assert_eq!(context.sub, 0);
    press(&mut model, &mut messages, &mut context, KeyCode::Up);
    assert_eq!(context.sub, 1);
    press(&mut model, &mut messages, &mut context, KeyCode::Up);
    assert_eq!(context.sub, 0);
}
