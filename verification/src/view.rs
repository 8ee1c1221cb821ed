//! What the pages put into the footer.

use crate::headers::{HeadersModel, HeadersSelection};
use vstd::prelude::*;

verus! {

/// The key hints of the headers page, for each zone selection.
pub open spec fn footer_hints(selected: HeadersSelection) -> Seq<(Seq<char>, Seq<char>)> {
    match selected {
        HeadersSelection::Addr => seq![
            ("q"@, "Quit"@),
            ("Esc"@, "Unselect"@),
            ("↑/k"@, "Up"@),
            ("↓/j"@, "Down"@),
        ],
        HeadersSelection::Auth => seq![
            ("q"@, "Quit"@),
            ("Esc"@, "Unselect"@),
            ("Tab"@, "Switch"@),
            ("↑/k"@, "Up"@),
            ("↓/j"@, "Down"@),
        ],
        HeadersSelection::Meta => seq![
            ("q"@, "Quit"@),
            ("Esc"@, "Unselect"@),
            ("Tab"@, "Switch"@),
            ("↑/k"@, "Up"@),
            ("↓/j"@, "Down"@),
            ("^h/^a"@, "Add Header"@),
            ("^d"@, "Remove Header"@),
        ],
        HeadersSelection::Nothing => seq![
            ("q"@, "Quit"@),
            ("Tab"@, "Next Tab"@),
            ("↑/k"@, "Up"@),
            ("↓/j"@, "Down"@),
            ("^h/^a"@, "Add Header"@),
        ],
    }
}

/// What a list of hints says, each text by its view.
pub open spec fn hints_view(hints: Seq<(&'static str, &'static str)>) -> Seq<
    (Seq<char>, Seq<char>),
> {
    hints.map_values(|hint: (&'static str, &'static str)| (hint.0@, hint.1@))
}

/// The address and headers tab.
pub struct HeadersPage<'a> {
    pub model: &'a HeadersModel,
}

impl<'a> HeadersPage<'a> {
    pub fn new(model: &'a HeadersModel) -> (page: Self)
        ensures
            page.model == model,
    {
        Self { model }
    }

    /// The key hints for the footer: the keys that the selected zone reads.
    pub fn footer_keys(&self) -> (keys: Vec<(&'static str, &'static str)>)
        ensures
            hints_view(keys@) == footer_hints(self.model.selected),
    {
        let mut keys: Vec<(&'static str, &'static str)> = Vec::new();
        keys.push(("q", "Quit"));
        match self.model.selected {
            HeadersSelection::Addr => {
                keys.push(("Esc", "Unselect"));
                keys.push(("↑/k", "Up"));
                keys.push(("↓/j", "Down"));
            },
            HeadersSelection::Auth => {
                keys.push(("Esc", "Unselect"));
                keys.push(("Tab", "Switch"));
                keys.push(("↑/k", "Up"));
                keys.push(("↓/j", "Down"));
            },
            HeadersSelection::Meta => {
                keys.push(("Esc", "Unselect"));
                keys.push(("Tab", "Switch"));
                keys.push(("↑/k", "Up"));
                keys.push(("↓/j", "Down"));
                keys.push(("^h/^a", "Add Header"));
                keys.push(("^d", "Remove Header"));
            },
            HeadersSelection::Nothing => {
                keys.push(("Tab", "Next Tab"));
                keys.push(("↑/k", "Up"));
                keys.push(("↓/j", "Down"));
                keys.push(("^h/^a", "Add Header"));
            },
        }
        assert(hints_view(keys@) =~= footer_hints(self.model.selected));
        keys
    }
}

} // verus!
