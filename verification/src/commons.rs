//! What the panels have in common.

use vstd::prelude::*;

verus! {

/// One key hint: the key's name and what it does.
pub type HelpAction = (&'static str, &'static str);

/// What a key hint says, both texts by their view.
pub open spec fn hint_view(hint: HelpAction) -> (Seq<char>, Seq<char>) {
    (hint.0@, hint.1@)
}

/// A list of help actions, in the order in which they are shown.
pub struct HelpActions {
    pub items: Vec<HelpAction>,
}

impl View for HelpActions {
    type V = Seq<(Seq<char>, Seq<char>)>;

    open spec fn view(&self) -> Self::V {
        self.items@.map_values(|hint: HelpAction| hint_view(hint))
    }
}

impl HelpActions {
    /// The hints that every window shows: quit and the three toggles.
    pub open spec fn default_view() -> Seq<(Seq<char>, Seq<char>)> {
        seq![
            ("q"@, "Quit"@),
            ("H"@, "Toggle help"@),
            ("A"@, "Toggle address"@),
            ("M"@, "Toggle metadata"@),
        ]
    }

    /// Returns an empty list.
    pub fn new() -> (actions: Self)
        ensures
            actions@ == Seq::<(Seq<char>, Seq<char>)>::empty(),
    {
        let actions = Self { items: Vec::new() };
        assert(actions@ =~= Seq::empty());
        actions
    }

    /// Returns the list that holds `items`, in their order.
    pub fn from_items(items: Vec<HelpAction>) -> (actions: Self)
        ensures
            actions.items == items,
    {
        Self { items }
    }

    /// Appends an action.
    pub fn insert(&mut self, key: &'static str, action: &'static str)
        ensures
            final(self)@ == old(self)@.push((key@, action@)),
            final(self).items@ == old(self).items@.push((key, action)),
    {
        self.items.push((key, action));
        assert(self@ =~= old(self)@.push((key@, action@)));
    }

    /// Iterates over the actions, first to last.
    pub fn iter(&self) -> (it: std::slice::Iter<'_, HelpAction>)
        ensures
            vstd::std_specs::slice::into_iter_elts(it) == self.items@,
    {
        self.items.iter()
    }

    /// Returns the action at `index`.
    pub fn get(&self, index: usize) -> (hint: HelpAction)
        requires
            index < self@.len(),
        ensures
            hint == self.items@[index as int],
            hint_view(hint) == self@[index as int],
    {
        self.items[index]
    }

    /// Returns the number of actions.
    pub fn len(&self) -> (n: usize)
        ensures
            n == self@.len(),
    {
        self.items.len()
    }
}

impl Default for HelpActions {
    /// The default actions: `q` for quit, and `H`, `A`, `M` for the three
    /// toggles.
    fn default() -> (actions: Self)
        ensures
            actions@ == HelpActions::default_view(),
    {
        let mut actions = Self::new();
        actions.insert("q", "Quit");
        actions.insert("H", "Toggle help");
        actions.insert("A", "Toggle address");
        actions.insert("M", "Toggle metadata");
        assert(actions@ =~= HelpActions::default_view());
        actions
    }
}

} // verus!
