//! The headers of a request: the address, the authentication and the
//! metadata, with the cursor that says which of them has the keyboard.
//!
//! The cursor has two levels. The outer one names a zone: nothing, the
//! address, the authentication, or the metadata. Inside the metadata a
//! second cursor names a row and, in it, the key or the value.

use crate::editor::{EditorMode, EditorView, TextEditor};
use crate::text::{join_lines, split_lines};
use crate::key::{KeyCode, KeyEvent};
use vstd::prelude::*;

verus! {

/// Which zone of the headers page has the keyboard.
#[derive(Clone, Copy, Debug, PartialEq, Eq, Structural)]
pub enum HeadersSelection {
    /// No zone is selected.
    Nothing,
    /// The address.
    Addr,
    /// The authentication.
    Auth,
    /// The metadata. Legal only while there is at least one row.
    Meta,
}

/// Which kind of authentication is being edited.
#[derive(Clone, Copy, Debug, PartialEq, Eq, Structural)]
pub enum AuthSelection {
    Bearer,
    Basic,
}

/// The authentication: a bearer token and a basic pair, one of them selected.
pub struct AuthHeader {
    pub bearer: TextEditor,
    pub basic: TextEditor,
    pub selected: AuthSelection,
}

impl AuthHeader {
    /// Whether one of the two editors is in insert mode.
    pub open spec fn inserting(&self) -> bool {
        self.bearer@.insert || self.basic@.insert
    }

    /// Whether the editor that is not selected is out of insert mode.
    pub open spec fn focused(&self) -> bool {
        match self.selected {
            AuthSelection::Bearer => !self.basic@.insert,
            AuthSelection::Basic => !self.bearer@.insert,
        }
    }

    /// The other kind of authentication.
    pub open spec fn other(selected: AuthSelection) -> AuthSelection {
        match selected {
            AuthSelection::Bearer => AuthSelection::Basic,
            AuthSelection::Basic => AuthSelection::Bearer,
        }
    }

    /// What a key does to the authentication. In normal mode Tab switches
    /// between bearer and basic. Every other key, and every key in insert
    /// mode, goes to the selected editor and leaves the other one alone.
    pub open spec fn stepped(before: AuthHeader, event: KeyEvent, after: AuthHeader) -> bool {
        if !before.inserting() && event.code == KeyCode::Tab {
            after == (AuthHeader { selected: Self::other(before.selected), ..before })
        } else {
            &&& after.selected == before.selected
            &&& match before.selected {
                AuthSelection::Bearer => after.basic == before.basic && after.bearer.keyed_from(
                    before.bearer,
                    event,
                ),
                AuthSelection::Basic => after.bearer == before.bearer && after.basic.keyed_from(
                    before.basic,
                    event,
                ),
            }
        }
    }

    /// Empty bearer and basic editors, bearer selected.
    pub fn new() -> (auth: Self)
        ensures
            auth.bearer@ == TextEditor::empty_view(),
            auth.basic@ == TextEditor::empty_view(),
            auth.selected == AuthSelection::Bearer,
    {
        AuthHeader {
            bearer: TextEditor::new(),
            basic: TextEditor::new(),
            selected: AuthSelection::Bearer,
        }
    }

    /// Whether one of the two editors is in insert mode.
    pub fn insert_mode(&self) -> (insert: bool)
        ensures
            insert == self.inserting(),
    {
        self.bearer.insert_mode() || self.basic.insert_mode()
    }

    /// Switches between bearer and basic.
    pub fn next(&mut self)
        ensures
            *final(self) == (AuthHeader { selected: Self::other(old(self).selected), ..*old(self) }),
    {
        self.selected = match self.selected {
            AuthSelection::Bearer => AuthSelection::Basic,
            AuthSelection::Basic => AuthSelection::Bearer,
        };
    }

    /// Empties both editors. The selection stays.
    pub fn clear(&mut self)
        ensures
            final(self).selected == old(self).selected,
            final(self).bearer@ == (EditorView {
                rows: Seq::empty(),
                ..old(self).bearer@
            }),
            final(self).basic@ == (EditorView {
                rows: Seq::empty(),
                ..old(self).basic@
            }),
    {
        self.bearer.clear();
        self.basic.clear();
    }

    /// Handles a key while the authentication zone is selected.
    pub fn on_key(&mut self, event: KeyEvent)
        ensures
            Self::stepped(*old(self), event, *final(self)),
    {
        let normal = !self.insert_mode();
        if normal && event.code == KeyCode::Tab {
            self.next();
        } else {
            match self.selected {
                AuthSelection::Bearer => self.bearer.on_key(event),
                AuthSelection::Basic => self.basic.on_key(event),
            }
        }
    }
}

/// A position in the metadata table: a row, and in it the key (column 0) or
/// the value (column 1).
#[derive(Clone, Copy, Debug, PartialEq, Eq, Structural)]
pub struct MetaCursor {
    pub row: usize,
    pub col: usize,
}

/// The metadata: a list of key and value editors, and the cursor in it.
pub struct MetaHeaders {
    pub headers: Vec<(TextEditor, TextEditor)>,
    pub selected: Option<MetaCursor>,
}

impl MetaHeaders {
    /// The cursor, where there is one, stands on a row of the list and on
    /// one of its two columns. An empty list has no cursor.
    pub open spec fn wf(&self) -> bool {
        match self.selected {
            Some(c) => c.row < self.headers@.len() && c.col <= 1,
            None => true,
        }
    }

    /// The editor under the cursor `c`.
    pub open spec fn editor_at(&self, c: MetaCursor) -> TextEditor {
        if c.col == 0 {
            self.headers@[c.row as int].0
        } else {
            self.headers@[c.row as int].1
        }
    }

    /// Whether the editor under the cursor is in insert mode.
    pub open spec fn inserting(&self) -> bool {
        match self.selected {
            Some(c) => self.editor_at(c)@.insert,
            None => false,
        }
    }

    /// Whether the list is as `set_pairs` leaves it: without a cursor, and
    /// each of its editors in normal mode, without an error and without the
    /// focus.
    pub open spec fn fresh(&self) -> bool {
        &&& self.selected is None
        &&& forall|i: int|
            0 <= i < self.headers@.len() ==> {
                &&& (#[trigger] self.headers@[i]).0@ == (EditorView {
                    rows: self.headers@[i].0@.rows,
                    ..TextEditor::empty_view()
                })
                &&& self.headers@[i].1@ == (EditorView {
                    rows: self.headers@[i].1@.rows,
                    ..TextEditor::empty_view()
                })
            }
    }

    /// Whether no editor of the list is in insert mode.
    pub open spec fn quiet(&self) -> bool {
        forall|i: int|
            0 <= i < self.headers@.len() ==> !(#[trigger] self.headers@[i]).0@.insert
                && !self.headers@[i].1@.insert
    }

    /// Whether the cursor stands on the given row and column.
    pub open spec fn stands_on(&self, row: int, col: int) -> bool {
        self.selected matches Some(c) && c.row == row && c.col == col
    }

    /// Whether no editor of the list is in insert mode, but for the one
    /// under the cursor, which may be.
    pub open spec fn focused(&self) -> bool {
        forall|i: int|
            0 <= i < self.headers@.len() ==> {
                &&& (#[trigger] self.headers@[i]).0@.insert ==> self.stands_on(i, 0)
                &&& self.headers@[i].1@.insert ==> self.stands_on(i, 1)
            }
    }

    /// Whether the cursor can still move down inside the list, which keeps
    /// the zone selection from moving on.
    pub open spec fn blocks_next(&self) -> bool {
        match self.selected {
            Some(c) => c.row + 1 < self.headers@.len(),
            None => false,
        }
    }

    /// Whether the cursor can still move up inside the list.
    pub open spec fn blocks_prev(&self) -> bool {
        match self.selected {
            Some(c) => c.row > 0,
            None => false,
        }
    }

    /// The cursor one row further down, held at the last row.
    pub open spec fn cursor_down(&self, c: MetaCursor) -> MetaCursor {
        if c.row + 1 < self.headers@.len() {
            MetaCursor { row: (c.row + 1) as usize, col: c.col }
        } else {
            c
        }
    }

    /// The cursor one row further up, held at the first row.
    pub open spec fn cursor_up(c: MetaCursor) -> MetaCursor {
        if c.row > 0 {
            MetaCursor { row: (c.row - 1) as usize, col: c.col }
        } else {
            c
        }
    }

    /// The cursor on the other column of its row.
    pub open spec fn cursor_across(c: MetaCursor) -> MetaCursor {
        MetaCursor { row: c.row, col: if c.col == 0 { 1 } else { 0 } }
    }

    /// The cursor after the row under `c` was removed from a list of `len`
    /// rows: on the row that took its place, or on the new last row, or
    /// gone with the last row of the list.
    pub open spec fn cursor_after_removal(c: MetaCursor, len: nat) -> Option<MetaCursor> {
        if len <= 1 {
            None
        } else if c.row + 1 < len {
            Some(c)
        } else {
            Some(MetaCursor { row: (len - 2) as usize, col: c.col })
        }
    }

    /// `after` is `before` with one more row at the end, made of two empty
    /// editors, and the cursor on the key of that row.
    pub open spec fn added(before: MetaHeaders, after: MetaHeaders) -> bool {
        &&& after.headers@.len() == before.headers@.len() + 1
        &&& after.headers@.take(before.headers@.len() as int) == before.headers@
        &&& after.headers@.last().0@ == TextEditor::empty_view()
        &&& after.headers@.last().1@ == TextEditor::empty_view()
        &&& after.selected == Some(MetaCursor { row: before.headers@.len() as usize, col: 0 })
    }

    /// `after` is `before` without the row under the cursor `c`.
    pub open spec fn removed(before: MetaHeaders, c: MetaCursor, after: MetaHeaders) -> bool {
        &&& after.headers@ == before.headers@.remove(c.row as int)
        &&& after.selected == Self::cursor_after_removal(c, before.headers@.len())
    }

    /// `after` is `before` with the key `event` handed to the editor under
    /// the cursor `c`. No other editor changed and the cursor did not move.
    pub open spec fn forwarded(
        before: MetaHeaders,
        c: MetaCursor,
        event: KeyEvent,
        after: MetaHeaders,
    ) -> bool {
        &&& after.selected == before.selected
        &&& after.headers@.len() == before.headers@.len()
        &&& forall|i: int|
            0 <= i < before.headers@.len() && i != c.row ==> after.headers@[i]
                == before.headers@[i]
        &&& after.editor_at(c).keyed_from(before.editor_at(c), event)
        &&& after.editor_at(Self::cursor_across(c)) == before.editor_at(Self::cursor_across(c))
    }

    /// What a key does to the metadata. Without a cursor nothing happens,
    /// and in insert mode every key goes to the editor under the cursor. In
    /// normal mode Tab changes the column, Down and `j` move a row down, Up
    /// and `k` a row up, both held at the ends of the list; Control with `d`
    /// removes the row, Control with `h` or `a` adds one; any other key goes
    /// to the editor under the cursor.
    pub open spec fn stepped(before: MetaHeaders, event: KeyEvent, after: MetaHeaders) -> bool {
        match before.selected {
            None => after == before,
            Some(c) => {
                if before.inserting() {
                    Self::forwarded(before, c, event, after)
                } else {
                    match event.code {
                        KeyCode::Tab => after == (MetaHeaders {
                            selected: Some(Self::cursor_across(c)),
                            ..before
                        }),
                        KeyCode::Down => after == (MetaHeaders {
                            selected: Some(before.cursor_down(c)),
                            ..before
                        }),
                        KeyCode::Up => after == (MetaHeaders {
                            selected: Some(Self::cursor_up(c)),
                            ..before
                        }),
                        KeyCode::Char(ch) => {
                            if event.control() {
                                if ch == 'd' {
                                    Self::removed(before, c, after)
                                } else if ch == 'h' || ch == 'a' {
                                    Self::added(before, after)
                                } else {
                                    Self::forwarded(before, c, event, after)
                                }
                            } else if ch == 'j' {
                                after == (MetaHeaders {
                                    selected: Some(before.cursor_down(c)),
                                    ..before
                                })
                            } else if ch == 'k' {
                                after == (MetaHeaders {
                                    selected: Some(Self::cursor_up(c)),
                                    ..before
                                })
                            } else {
                                Self::forwarded(before, c, event, after)
                            }
                        },
                        _ => Self::forwarded(before, c, event, after),
                    }
                }
            },
        }
    }

    /// Tests whether the cursor, if there is one, stands inside the list.
    pub fn is_consistent(&self) -> (ok: bool)
        ensures
            ok == self.wf(),
    {
        match self.selected {
            Some(c) => c.row < self.headers.len() && c.col <= 1,
            None => true,
        }
    }

    /// A list whose cursor editor is the only one that may be in insert
    /// mode, and is not, has no editor in insert mode.
    pub proof fn lemma_focused_normal_is_quiet(self)
        requires
            self.focused(),
            !self.inserting(),
        ensures
            self.quiet(),
    {
        assert forall|i: int| 0 <= i < self.headers@.len() implies !(
        #[trigger] self.headers@[i]).0@.insert && !self.headers@[i].1@.insert by {
            if self.headers@[i].0@.insert {
                assert(self.stands_on(i, 0));
            }
            if self.headers@[i].1@.insert {
                assert(self.stands_on(i, 1));
            }
        }
    }

    /// Law: a key leaves the metadata focused. If no editor but the one
    /// under the cursor could be in insert mode before the key, none but the
    /// one under the cursor can be afterwards.
    pub proof fn lemma_step_keeps_focus(before: MetaHeaders, event: KeyEvent, after: MetaHeaders)
        requires
            before.wf(),
            after.wf(),
            before.focused(),
            Self::stepped(before, event, after),
        ensures
            after.focused(),
    {
        match before.selected {
            None => {},
            Some(c) => {
                if before.inserting() || Self::forwarded(before, c, event, after) {
                    assert(Self::forwarded(before, c, event, after) ==> after.focused()) by {
                        if Self::forwarded(before, c, event, after) {
                            assert forall|i: int| 0 <= i < after.headers@.len() implies {
                                &&& (#[trigger] after.headers@[i]).0@.insert ==> after.stands_on(
                                    i,
                                    0,
                                )
                                &&& after.headers@[i].1@.insert ==> after.stands_on(i, 1)
                            } by {
                                if i != c.row {
                                    assert(after.headers@[i] == before.headers@[i]);
                                } else {
                                    let across = Self::cursor_across(c);
                                    assert(after.editor_at(across) == before.editor_at(across));
                                    assert(before.headers@[i].0@.insert ==> c.col == 0);
                                    assert(before.headers@[i].1@.insert ==> c.col == 1);
                                }
                            }
                        }
                    }
                }
                if !before.inserting() {
                    before.lemma_focused_normal_is_quiet();
                    if Self::removed(before, c, after) {
                        assert forall|i: int| 0 <= i < after.headers@.len() implies !(
                        #[trigger] after.headers@[i]).0@.insert && !after.headers@[i].1@.insert by {
                            let j = if i < c.row { i } else { i + 1 };
                            assert(after.headers@[i] == before.headers@[j]);
                        }
                    }
                    if Self::added(before, after) {
                        let n = before.headers@.len() as int;
                        assert forall|i: int| 0 <= i < after.headers@.len() implies !(
                        #[trigger] after.headers@[i]).0@.insert && !after.headers@[i].1@.insert by {
                            if i < n {
                                assert(after.headers@[i] == after.headers@.take(n)[i]);
                                assert(after.headers@[i] == before.headers@[i]);
                            } else {
                                assert(after.headers@[i] == after.headers@.last());
                            }
                        }
                    }
                }
            },
        }
    }

    /// An empty list without a cursor.
    pub fn new() -> (meta: Self)
        ensures
            meta.headers@.len() == 0,
            meta.selected is None,
            meta.wf(),
    {
        MetaHeaders { headers: Vec::new(), selected: None }
    }

    /// The number of rows.
    pub fn len(&self) -> (n: usize)
        ensures
            n == self.headers@.len(),
    {
        self.headers.len()
    }

    /// Whether there is no row.
    pub fn is_empty(&self) -> (empty: bool)
        ensures
            empty == (self.headers@.len() == 0),
    {
        self.headers.len() == 0
    }

    /// Whether the table is left out of the page, which it is when empty.
    pub fn is_hidden(&self) -> (hidden: bool)
        ensures
            hidden == (self.headers@.len() == 0),
    {
        self.headers.len() == 0
    }

    /// Appends a row of two empty editors and puts the cursor on its key.
    pub fn add(&mut self)
        ensures
            Self::added(*old(self), *final(self)),
            final(self).wf(),
    {
        let row = self.headers.len();
        self.headers.push((TextEditor::new(), TextEditor::new()));
        self.selected = Some(MetaCursor { row, col: 0 });
        assert(self.headers@.take(row as int) =~= old(self).headers@);
    }

    /// Removes the row under the cursor, if there is a cursor.
    pub fn remove(&mut self)
        requires
            old(self).wf(),
        ensures
            final(self).wf(),
            match old(self).selected {
                Some(c) => Self::removed(*old(self), c, *final(self)),
                None => *final(self) == *old(self),
            },
    {
        if let Some(c) = self.selected {
            let len = self.headers.len();
            self.headers.remove(c.row);
            self.selected = if len <= 1 {
                None
            } else if c.row + 1 < len {
                Some(c)
            } else {
                Some(MetaCursor { row: len - 2, col: c.col })
            };
        }
    }

    /// Puts the cursor on the key of the first row, if there is a row and
    /// no cursor yet.
    pub fn select(&mut self)
        ensures
            final(self).headers == old(self).headers,
            final(self).selected == if old(self).selected is None && old(self).headers@.len() > 0 {
                Some(MetaCursor { row: 0, col: 0 })
            } else {
                old(self).selected
            },
            old(self).wf() ==> final(self).wf(),
    {
        if self.selected.is_none() && self.headers.len() > 0 {
            self.selected = Some(MetaCursor { row: 0, col: 0 });
        }
    }

    /// Takes the cursor away.
    pub fn unselect(&mut self)
        ensures
            *final(self) == (MetaHeaders { selected: None, ..*old(self) }),
            final(self).wf(),
    {
        self.selected = None;
    }

    /// Whether the cursor can still move down inside the list.
    pub fn block_next(&self) -> (blocked: bool)
        ensures
            blocked == self.blocks_next(),
    {
        match self.selected {
            Some(c) => self.headers.len() > 0 && c.row < self.headers.len() - 1,
            None => false,
        }
    }

    /// Whether the cursor can still move up inside the list.
    pub fn block_prev(&self) -> (blocked: bool)
        ensures
            blocked == self.blocks_prev(),
    {
        match self.selected {
            Some(c) => c.row > 0,
            None => false,
        }
    }

    /// Whether the cursor stands on a key.
    pub fn is_key_selected(&self) -> (key: bool)
        ensures
            key == (self.selected matches Some(c) && c.col == 0),
    {
        match self.selected {
            Some(c) => c.col == 0,
            None => false,
        }
    }

    /// Moves the cursor to the key of its row.
    pub fn select_key(&mut self)
        ensures
            final(self).headers == old(self).headers,
            final(self).selected == match old(self).selected {
                Some(c) => Some(MetaCursor { row: c.row, col: 0 }),
                None => None,
            },
            old(self).wf() ==> final(self).wf(),
    {
        if let Some(c) = self.selected {
            self.selected = Some(MetaCursor { row: c.row, col: 0 });
        }
    }

    /// Moves the cursor to the value of its row.
    pub fn select_val(&mut self)
        ensures
            final(self).headers == old(self).headers,
            final(self).selected == match old(self).selected {
                Some(c) => Some(MetaCursor { row: c.row, col: 1 }),
                None => None,
            },
            old(self).wf() ==> final(self).wf(),
    {
        if let Some(c) = self.selected {
            self.selected = Some(MetaCursor { row: c.row, col: 1 });
        }
    }

    /// The editor under the cursor, if there is a cursor.
    pub fn get_selected(&self) -> (editor: Option<&TextEditor>)
        requires
            self.wf(),
        ensures
            match self.selected {
                Some(c) => editor == Some(&self.editor_at(c)),
                None => editor is None,
            },
    {
        match self.selected {
            Some(c) => {
                if c.col == 0 {
                    Some(&self.headers[c.row].0)
                } else {
                    Some(&self.headers[c.row].1)
                }
            },
            None => None,
        }
    }

    /// Whether the editor under the cursor is in insert mode.
    pub fn insert_mode(&self) -> (insert: bool)
        requires
            self.wf(),
        ensures
            insert == self.inserting(),
    {
        match self.get_selected() {
            Some(editor) => editor.insert_mode(),
            None => false,
        }
    }

    /// Hands a key to the editor under the cursor, if there is a cursor.
    pub fn forward(&mut self, event: KeyEvent)
        requires
            old(self).wf(),
        ensures
            final(self).wf(),
            match old(self).selected {
                Some(c) => Self::forwarded(*old(self), c, event, *final(self)),
                None => *final(self) == *old(self),
            },
    {
        if let Some(c) = self.selected {
            if c.col == 0 {
                self.headers[c.row].0.on_key(event);
            } else {
                self.headers[c.row].1.on_key(event);
            }
        }
    }

    /// Removes every row.
    pub fn clear(&mut self)
        ensures
            final(self).headers@.len() == 0,
            final(self).selected is None,
            final(self).wf(),
    {
        self.headers.clear();
        self.selected = None;
    }

    /// The rows as texts: for each row its key and its value.
    pub open spec fn texts(&self) -> Seq<(Seq<char>, Seq<char>)> {
        self.headers@.map_values(
            |pair: (TextEditor, TextEditor)| (join_lines(pair.0@.rows), join_lines(pair.1@.rows)),
        )
    }

    /// The rows as texts: for each row its key and its value.
    pub fn pairs(&self) -> (pairs: Vec<(String, String)>)
        ensures
            pairs@.len() == self.headers@.len(),
            forall|k: int|
                0 <= k < pairs@.len() ==> (#[trigger] pairs@[k]).0@ == self.texts()[k].0
                    && pairs@[k].1@ == self.texts()[k].1,
    {
        let mut pairs: Vec<(String, String)> = Vec::new();
        let mut i: usize = 0;
        while i < self.headers.len()
            invariant
                0 <= i <= self.headers@.len(),
                pairs@.len() == i,
                forall|k: int|
                    0 <= k < i ==> (#[trigger] pairs@[k]).0@ == join_lines(
                        self.headers@[k].0@.rows,
                    ) && pairs@[k].1@ == join_lines(self.headers@[k].1@.rows),
            decreases self.headers.len() - i,
        {
            let row = &self.headers[i];
            pairs.push((row.0.get_text_raw(), row.1.get_text_raw()));
            i = i + 1;
        }
        pairs
    }

    /// Replaces the rows by one row for each pair of texts, each editor
    /// holding the lines of its text. The cursor goes.
    pub fn set_pairs(&mut self, pairs: &Vec<(String, String)>)
        ensures
            final(self).selected is None,
            final(self).wf(),
            final(self).headers@.len() == pairs@.len(),
            forall|k: int|
                0 <= k < pairs@.len() ==> (#[trigger] final(self).headers@[k]).0@ == (EditorView {
                    rows: split_lines(pairs@[k].0@),
                    ..TextEditor::empty_view()
                }) && final(self).headers@[k].1@ == (EditorView {
                    rows: split_lines(pairs@[k].1@),
                    ..TextEditor::empty_view()
                }),
    {
        self.headers.clear();
        self.selected = None;
        let mut i: usize = 0;
        while i < pairs.len()
            invariant
                0 <= i <= pairs@.len(),
                self.selected is None,
                self.headers@.len() == i,
                forall|k: int|
                    0 <= k < i ==> (#[trigger] self.headers@[k]).0@ == (EditorView {
                        rows: split_lines(pairs@[k].0@),
                        ..TextEditor::empty_view()
                    }) && self.headers@[k].1@ == (EditorView {
                        rows: split_lines(pairs@[k].1@),
                        ..TextEditor::empty_view()
                    }),
            decreases pairs.len() - i,
        {
            let pair = &pairs[i];
            self.headers.push(
                (TextEditor::from_str(pair.0.as_str()), TextEditor::from_str(pair.1.as_str())),
            );
            i = i + 1;
        }
    }

    /// Handles a key while the metadata zone is selected.
    pub fn on_key(&mut self, event: KeyEvent)
        requires
            old(self).wf(),
        ensures
            final(self).wf(),
            Self::stepped(*old(self), event, *final(self)),
    {
        let cursor = match self.selected {
            Some(c) => c,
            None => {
                return ;
            },
        };
        if self.insert_mode() {
            self.forward(event);
            return ;
        }
        match event.code {
            KeyCode::Tab => {
                self.selected = Some(
                    MetaCursor { row: cursor.row, col: if cursor.col == 0 { 1 } else { 0 } },
                );
            },
            KeyCode::Down => self.next_row(),
            KeyCode::Up => self.prev_row(),
            KeyCode::Char(ch) => {
                if event.is_control() {
                    if ch == 'd' {
                        self.remove();
                    } else if ch == 'h' || ch == 'a' {
                        self.add();
                    } else {
                        self.forward(event);
                    }
                } else if ch == 'j' {
                    self.next_row();
                } else if ch == 'k' {
                    self.prev_row();
                } else {
                    self.forward(event);
                }
            },
            _ => self.forward(event),
        }
    }

    /// Moves the cursor a row down, unless it stands on the last row.
    pub fn next_row(&mut self)
        requires
            old(self).wf(),
        ensures
            final(self).wf(),
            final(self).headers == old(self).headers,
            final(self).selected == match old(self).selected {
                Some(c) => Some(old(self).cursor_down(c)),
                None => None,
            },
    {
        if let Some(c) = self.selected {
            if c.row < self.headers.len() - 1 {
                self.selected = Some(MetaCursor { row: c.row + 1, col: c.col });
            }
        }
    }

    /// Moves the cursor a row up, unless it stands on the first row.
    pub fn prev_row(&mut self)
        requires
            old(self).wf(),
        ensures
            final(self).wf(),
            final(self).headers == old(self).headers,
            final(self).selected == match old(self).selected {
                Some(c) => Some(Self::cursor_up(c)),
                None => None,
            },
    {
        if let Some(c) = self.selected {
            if c.row > 0 {
                self.selected = Some(MetaCursor { row: c.row - 1, col: c.col });
            }
        }
    }
}

/// The model of the headers page.
pub struct HeadersModel {
    /// The address of the server.
    pub addr: TextEditor,
    /// The authentication.
    pub auth: AuthHeader,
    /// The metadata.
    pub meta: MetaHeaders,
    /// The zone that has the keyboard.
    pub selected: HeadersSelection,
}

impl HeadersModel {
    /// The metadata cursor stands inside the list.
    pub open spec fn wf(&self) -> bool {
        self.meta.wf()
    }

    /// The zone selection is legal: the metadata zone is selected only while
    /// there is a row, and the metadata cursor exists only while its zone is
    /// selected.
    pub open spec fn settled(&self) -> bool {
        &&& self.selected == HeadersSelection::Meta ==> self.meta.headers@.len() > 0
        &&& self.meta.selected is Some ==> self.selected == HeadersSelection::Meta
    }

    /// Whether any editor that can take a key is in insert mode.
    pub open spec fn inserting(&self) -> bool {
        self.addr@.insert || self.auth.inserting() || self.meta.inserting()
    }

    /// Whether no editor of the page is in insert mode.
    pub open spec fn quiet(&self) -> bool {
        !self.addr@.insert && !self.auth.inserting() && self.meta.quiet()
    }

    /// Whether no editor of the page is in insert mode, but for the one that
    /// has the keyboard, which may be: the address, the selected
    /// authentication editor, or the metadata editor under the cursor,
    /// whichever the zone selection names.
    pub open spec fn focused(&self) -> bool {
        match self.selected {
            HeadersSelection::Nothing => self.quiet(),
            HeadersSelection::Addr => !self.auth.inserting() && self.meta.quiet(),
            HeadersSelection::Auth => !self.addr@.insert && self.auth.focused()
                && self.meta.quiet(),
            HeadersSelection::Meta => !self.addr@.insert && !self.auth.inserting()
                && self.meta.focused(),
        }
    }

    /// The zone below the selected one. The order is: nothing, address,
    /// authentication, metadata. It does not wrap, and it skips the metadata
    /// while the list is empty. A metadata selection over an empty list
    /// falls back to nothing.
    pub open spec fn zone_below(&self) -> HeadersSelection {
        match self.selected {
            HeadersSelection::Nothing => HeadersSelection::Addr,
            HeadersSelection::Addr => HeadersSelection::Auth,
            HeadersSelection::Auth => if self.meta.headers@.len() == 0 {
                HeadersSelection::Auth
            } else {
                HeadersSelection::Meta
            },
            HeadersSelection::Meta => if self.meta.headers@.len() == 0 {
                HeadersSelection::Nothing
            } else {
                HeadersSelection::Meta
            },
        }
    }

    /// The zone above the selected one.
    pub open spec fn zone_above(&self) -> HeadersSelection {
        match self.selected {
            HeadersSelection::Nothing => HeadersSelection::Nothing,
            HeadersSelection::Addr => HeadersSelection::Nothing,
            HeadersSelection::Auth => HeadersSelection::Addr,
            HeadersSelection::Meta => if self.meta.headers@.len() == 0 {
                HeadersSelection::Nothing
            } else {
                HeadersSelection::Auth
            },
        }
    }

    /// The metadata cursor that goes with a move of the zone selection to
    /// `zone`: it stays while the metadata stay selected, starts on the
    /// first key when they become selected, and goes when they are left.
    pub open spec fn cursor_for(&self, zone: HeadersSelection) -> Option<MetaCursor> {
        if zone == HeadersSelection::Meta {
            if self.meta.selected is None && self.meta.headers@.len() > 0 {
                Some(MetaCursor { row: 0, col: 0 })
            } else {
                self.meta.selected
            }
        } else {
            None
        }
    }

    /// The model with the zone selection moved to `zone`.
    pub open spec fn moved_to(&self, zone: HeadersSelection) -> HeadersModel {
        HeadersModel {
            selected: zone,
            meta: MetaHeaders { selected: self.cursor_for(zone), ..self.meta },
            ..*self
        }
    }

    /// Under a settled and focused zone selection, some editor of the page
    /// is in insert mode exactly if the one that has the keyboard is.
    pub proof fn lemma_focused_inserting(self)
        requires
            self.wf(),
            self.settled(),
            self.focused(),
        ensures
            self.inserting() <==> !self.quiet(),
    {
        if self.selected == HeadersSelection::Meta {
            if !self.meta.inserting() {
                self.meta.lemma_focused_normal_is_quiet();
            } else {
                let c = self.meta.selected->0;
                assert(self.meta.headers@[c.row as int].0@.insert
                    || self.meta.headers@[c.row as int].1@.insert);
            }
        }
    }

    /// Tests whether the metadata cursor stands inside the list.
    pub fn is_consistent(&self) -> (ok: bool)
        ensures
            ok == self.wf(),
    {
        self.meta.is_consistent()
    }

    /// A model with the given address, no authentication, no metadata and
    /// nothing selected.
    pub fn new(default_address: &str) -> (model: Self)
        ensures
            model.addr@ == (EditorView {
                rows: split_lines(default_address@),
                ..TextEditor::empty_view()
            }),
            model.meta.headers@.len() == 0,
            model.meta.selected is None,
            model.selected == HeadersSelection::Nothing,
            model.wf(),
            model.settled(),
            model.quiet(),
    {
        HeadersModel {
            addr: TextEditor::from_str(default_address),
            auth: AuthHeader::new(),
            meta: MetaHeaders::new(),
            selected: HeadersSelection::Nothing,
        }
    }

    /// The zone below the selected one. The metadata cursor is made to go
    /// with it; the zone selection itself is left for the caller to set.
    pub fn next(&mut self) -> (zone: HeadersSelection)
        requires
            old(self).wf(),
        ensures
            zone == old(self).zone_below(),
            *final(self) == (HeadersModel {
                selected: old(self).selected,
                ..old(self).moved_to(zone)
            }),
            final(self).wf(),
    {
        let zone = match self.selected {
            HeadersSelection::Nothing => HeadersSelection::Addr,
            HeadersSelection::Addr => HeadersSelection::Auth,
            HeadersSelection::Auth => if self.meta.is_empty() {
                HeadersSelection::Auth
            } else {
                HeadersSelection::Meta
            },
            HeadersSelection::Meta => if self.meta.is_empty() {
                HeadersSelection::Nothing
            } else {
                HeadersSelection::Meta
            },
        };
        self.set_cursor_for(zone);
        zone
    }

    /// The zone above the selected one, with the metadata cursor made to go
    /// with it.
    pub fn prev(&mut self) -> (zone: HeadersSelection)
        requires
            old(self).wf(),
        ensures
            zone == old(self).zone_above(),
            *final(self) == (HeadersModel {
                selected: old(self).selected,
                ..old(self).moved_to(zone)
            }),
            final(self).wf(),
    {
        let zone = match self.selected {
            HeadersSelection::Nothing => HeadersSelection::Nothing,
            HeadersSelection::Addr => HeadersSelection::Nothing,
            HeadersSelection::Auth => HeadersSelection::Addr,
            HeadersSelection::Meta => if self.meta.is_empty() {
                HeadersSelection::Nothing
            } else {
                HeadersSelection::Auth
            },
        };
        self.set_cursor_for(zone);
        zone
    }

    fn set_cursor_for(&mut self, zone: HeadersSelection)
        requires
            old(self).wf(),
        ensures
            *final(self) == (HeadersModel {
                selected: old(self).selected,
                ..old(self).moved_to(zone)
            }),
            final(self).wf(),
    {
        if zone == HeadersSelection::Meta {
            self.meta.select();
        } else {
            self.meta.unselect();
        }
    }

    /// Selects no zone and takes the metadata cursor away.
    pub fn unselect(&mut self)
        ensures
            *final(self) == old(self).moved_to(HeadersSelection::Nothing),
    {
        self.selected = HeadersSelection::Nothing;
        self.meta.unselect();
    }

    /// Insert mode if an editor that can take a key is in insert mode, else
    /// normal mode.
    pub fn mode(&self) -> (mode: EditorMode)
        requires
            self.wf(),
        ensures
            mode == if self.inserting() {
                EditorMode::Insert
            } else {
                EditorMode::Normal
            },
    {
        if self.addr.insert_mode() || self.auth.insert_mode() || self.meta.insert_mode() {
            EditorMode::Insert
        } else {
            EditorMode::Normal
        }
    }

    /// Removes authentication and metadata, and selects nothing. The
    /// address stays.
    pub fn clear(&mut self)
        ensures
            final(self).addr == old(self).addr,
            final(self).auth.selected == old(self).auth.selected,
            final(self).auth.bearer@ == (EditorView {
                rows: Seq::empty(),
                ..old(self).auth.bearer@
            }),
            final(self).auth.basic@ == (EditorView { rows: Seq::empty(), ..old(self).auth.basic@ }),
            final(self).meta.headers@.len() == 0,
            final(self).meta.selected is None,
            final(self).selected == HeadersSelection::Nothing,
            final(self).wf(),
            final(self).settled(),
    {
        self.auth.clear();
        self.meta.clear();
        self.selected = HeadersSelection::Nothing;
    }
}

} // verus!
