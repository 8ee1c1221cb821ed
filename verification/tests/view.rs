use wireman::headers::{HeadersModel, HeadersSelection};
use wireman::view::HeadersPage;

fn footer(selected: HeadersSelection) -> Vec<(&'static str, &'static str)> {
    let mut model = HeadersModel::new("");
    model.selected = selected;
    HeadersPage::new(&model).footer_keys()
}

#[test]
fn footer_keys_for_the_address() {
    assert_eq!(
        footer(HeadersSelection::Addr),
        vec![("q", "Quit"), ("Esc", "Unselect"), ("↑/k", "Up"), ("↓/j", "Down")]
    );
}

#[test]
fn footer_keys_for_the_authentication() {
    assert_eq!(
        footer(HeadersSelection::Auth),
        vec![("q", "Quit"), ("Esc", "Unselect"), ("Tab", "Switch"), ("↑/k", "Up"), ("↓/j", "Down")]
    );
}

#[test]
fn footer_keys_for_the_metadata() {
    assert_eq!(
        footer(HeadersSelection::Meta),
        vec![
            ("q", "Quit"),
            ("Esc", "Unselect"),
            ("Tab", "Switch"),
            ("↑/k", "Up"),
            ("↓/j", "Down"),
            ("^h/^a", "Add Header"),
            ("^d", "Remove Header"),
        ]
    );
}

#[test]
fn footer_keys_without_a_selection() {
    assert_eq!(
        footer(HeadersSelection::Nothing),
        vec![("q", "Quit"), ("Tab", "Next Tab"), ("↑/k", "Up"), ("↓/j", "Down"), ("^h/^a", "Add Header")]
    );
}
