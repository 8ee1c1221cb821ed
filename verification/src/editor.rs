//! A text editor for one panel: a buffer with its editing mode, a slot for
//! the error that the panel shows, and a focus mark.

use crate::buffer::{
    buffer_cursor, buffer_insert_mode, buffer_mode, buffer_normal_mode, buffer_rows,
    input_pending, clear_rows, copy_input, copy_state,
    cursor_fits, fitted, has_no_rows, is_insert, is_normal, lemma_typed_fits, new_input, new_state,
    press_key, push_row, put_cursor, rows_of, settle, type_char, typed, typed_text,
};
use crate::json::{
    error_text, json_error_text, json_parsed, json_rendered, parse_json, render_json,
};
use crate::key::{BufferKey, KeyEvent};
use crate::text::{
    chars_of, join_lines, join_rows, lemma_split_join_round_trip, normalized, rows_view,
    split_lines, split_text,
};
use vstd::prelude::*;

verus! {

/// The editing mode of an editor.
#[derive(Clone, Copy, Debug, PartialEq, Eq, Structural)]
pub enum EditorMode {
    /// No mode was set yet.
    Unset,
    /// Keys are commands.
    Normal,
    /// Keys are text.
    Insert,
}

impl Default for EditorMode {
    fn default() -> (mode: Self)
        ensures
            mode == EditorMode::Unset,
    {
        EditorMode::Unset
    }
}

/// What an `ErrorKind` says: its kind tag and its message.
pub ghost struct ErrorView {
    pub kind: Seq<char>,
    pub msg: Seq<char>,
}

/// A diagnostic shown in an editor's panel. The kind tells a formatting
/// failure from any other error.
pub struct ErrorKind {
    pub kind: String,
    pub msg: String,
}

impl View for ErrorKind {
    type V = ErrorView;

    open spec fn view(&self) -> ErrorView {
        ErrorView { kind: self.kind@, msg: self.msg@ }
    }
}

impl Clone for ErrorKind {
    fn clone(&self) -> (copy: Self)
        ensures
            copy == *self,
    {
        ErrorKind { kind: self.kind.clone(), msg: self.msg.clone() }
    }
}

/// The tag of a formatting failure.
pub open spec fn format_error_tag() -> Seq<char> {
    "Format Error"@
}

/// The tag of any other error.
pub open spec fn default_error_tag() -> Seq<char> {
    "Error"@
}

/// The formatting failure with the given message.
pub open spec fn format_error_view(msg: Seq<char>) -> ErrorView {
    ErrorView { kind: format_error_tag(), msg }
}

impl ErrorKind {
    /// A formatting failure with the given message.
    pub fn format_error(msg: String) -> (error: Self)
        ensures
            error@ == format_error_view(msg@),
    {
        ErrorKind { kind: "Format Error".to_owned(), msg }
    }

    /// An error of no particular kind with the given message.
    pub fn default_error(msg: &str) -> (error: Self)
        ensures
            error@ == (ErrorView { kind: default_error_tag(), msg: msg@ }),
    {
        ErrorKind { kind: "Error".to_owned(), msg: msg.to_owned() }
    }

    /// The formatting failure that a JSON error stands for: its message is
    /// the one the error displays.
    pub fn from_json_error(err: serde_json::Error) -> (error: Self)
        ensures
            error@ == format_error_view(json_error_text(err)),
    {
        ErrorKind::format_error(error_text(&err))
    }
}

/// The view of an optional error.
pub open spec fn error_slot_view(slot: Option<ErrorKind>) -> Option<ErrorView> {
    match slot {
        Some(e) => Some(e@),
        None => None,
    }
}

/// The pretty-printed form of a JSON text, or the formatting failure that
/// says why it has none.
pub open spec fn pretty_format_spec(text: Seq<char>) -> Result<Seq<char>, ErrorView> {
    rendered_spec(json_parsed(text))
}

/// The same, from what the parser made of the text.
pub open spec fn rendered_spec(parsed: Result<serde_json::Value, serde_json::Error>) -> Result<
    Seq<char>,
    ErrorView,
> {
    match parsed {
        Ok(value) => match json_rendered(value) {
            Ok(pretty) => Ok(pretty),
            Err(err) => Err(format_error_view(json_error_text(err))),
        },
        Err(err) => Err(format_error_view(json_error_text(err))),
    }
}

/// Whether `out` is the outcome `spec`, text and error each taken by its view.
pub open spec fn is_outcome(out: Result<String, ErrorKind>, spec: Result<Seq<char>, ErrorView>)
    -> bool {
    match out {
        Ok(text) => spec == Ok::<Seq<char>, ErrorView>(text@),
        Err(error) => spec == Err::<Seq<char>, ErrorView>(error@),
    }
}

/// Renders a parsed document, or turns the parser's complaint into a
/// formatting failure.
pub fn render_parsed(parsed: Result<serde_json::Value, serde_json::Error>) -> (out: Result<
    String,
    ErrorKind,
>)
    ensures
        is_outcome(out, rendered_spec(parsed)),
{
    match parsed {
        Ok(value) => match render_json(&value) {
            Ok(pretty) => Ok(pretty),
            Err(err) => Err(ErrorKind::from_json_error(err)),
        },
        Err(err) => Err(ErrorKind::from_json_error(err)),
    }
}

/// Pretty-prints `input`, taken as JSON. Fails with a formatting failure
/// exactly when `input` does not parse or the document does not render.
pub fn pretty_format_json(input: &str) -> (out: Result<String, ErrorKind>)
    ensures
        is_outcome(out, pretty_format_spec(input@)),
{
    render_parsed(parse_json(input))
}

/// What an editor shows: its rows, whether it is in insert mode or in
/// normal mode (it can be in neither), how many keys of an unfinished
/// command it holds back, the error in its slot and whether it has the
/// focus.
pub ghost struct EditorView {
    pub rows: Seq<Seq<char>>,
    pub insert: bool,
    pub normal: bool,
    pub pending: nat,
    pub error: Option<ErrorView>,
    pub focus: bool,
}

/// Basic editor: a buffer with normal and insert mode, JSON formatting, and
/// a slot for the error of the last operation that could fail.
pub struct TextEditor {
    /// The buffer holds the text, the cursor and the mode.
    pub state: edtui::EditorState,
    /// The key handler with its bindings.
    pub input: edtui::EditorInput,
    /// The error slot.
    pub error: Option<ErrorKind>,
    /// Whether the editor is focused.
    pub focus: bool,
}

impl View for TextEditor {
    type V = EditorView;

    open spec fn view(&self) -> EditorView {
        EditorView {
            rows: buffer_rows(self.state),
            insert: buffer_insert_mode(self.state),
            normal: buffer_normal_mode(self.state),
            pending: input_pending(self.input),
            error: error_slot_view(self.error),
            focus: self.focus,
        }
    }
}

impl Default for TextEditor {
    fn default() -> (editor: Self)
        ensures
            editor@ == TextEditor::empty_view(),
    {
        Self::new()
    }
}

impl Clone for TextEditor {
    fn clone(&self) -> (copy: Self)
        ensures
            copy@ == self@,
    {
        TextEditor {
            state: copy_state(&self.state),
            input: copy_input(&self.input),
            error: match &self.error {
                Some(e) => Some(e.clone()),
                None => None,
            },
            focus: self.focus,
        }
    }
}

impl TextEditor {
    /// What a new editor shows: no rows, normal mode, no key held back, no
    /// error, no focus.
    pub open spec fn empty_view() -> EditorView {
        EditorView {
            rows: Seq::empty(),
            insert: false,
            normal: true,
            pending: 0,
            error: None,
            focus: false,
        }
    }

    /// The editor's content as one text.
    pub open spec fn text(&self) -> Seq<char> {
        join_lines(self@.rows)
    }

    /// The row and the column that the cursor stands on.
    pub open spec fn cursor(&self) -> (nat, nat) {
        buffer_cursor(self.state)
    }

    /// The key as the buffer gets it. An editor without rows in normal mode
    /// gets the key `w` as a key that the buffer does not read: the word
    /// that `w` moves to or selects is not there.
    pub open spec fn key_for(&self, key: KeyEvent) -> BufferKey {
        if self@.rows.len() == 0 && self@.normal && key.for_buffer() == BufferKey::Char('w') {
            BufferKey::Unbound
        } else {
            key.for_buffer()
        }
    }

    /// What is known of an editor after it was handed a key. Neither the
    /// error slot nor the focus was touched. In insert mode a character key
    /// was typed at the cursor, which was brought inside the text first, and
    /// nothing else changed. A key that the buffer does not read changed
    /// nothing, but that no key is held back after it; the same holds of
    /// Control with a character key, but for Control with `r` in normal mode
    /// with no key held back. With no key held back, `i` led from normal
    /// mode to insert mode and Esc from insert mode to normal mode, the text
    /// staying as it was. In insert mode no key is ever held back. Of any
    /// other key the buffer made what its bindings say.
    pub open spec fn keyed_from(&self, before: TextEditor, key: KeyEvent) -> bool {
        let start = fitted(before@.rows, before.cursor());
        let idle = before@.pending == 0;
        let passed_over = self@ == (EditorView { pending: 0, ..before@ }) && self.cursor()
            == start;
        &&& self.error == before.error
        &&& self.focus == before.focus
        &&& before@.insert && idle ==> self@.pending == 0
        &&& match before.key_for(key) {
            BufferKey::Char(c) => if before@.insert {
                &&& (self@.rows, self.cursor()) == typed(before@.rows, start, c)
                &&& self@ == (EditorView { rows: self@.rows, ..before@ })
            } else {
                c == 'i' && before@.normal && idle ==> self@ == (EditorView {
                    insert: true,
                    normal: false,
                    ..before@
                })
            },
            BufferKey::Esc => before@.insert && idle ==> self@ == (EditorView {
                insert: false,
                normal: true,
                ..before@
            }),
            BufferKey::Ctrl(c) => !(c == 'r' && before@.normal && idle) ==> passed_over,
            BufferKey::Unbound => passed_over,
            _ => true,
        }
    }

    /// What pretty-printing does to an editor. Where the text is JSON, the
    /// pretty text replaces the content and the error slot is empty; where
    /// it is not, the buffer is the same and the slot holds the formatting
    /// failure. Mode and focus stay.
    pub open spec fn formatted(before: TextEditor, after: TextEditor) -> bool {
        match pretty_format_spec(before.text()) {
            Ok(pretty) => after@ == (EditorView {
                rows: split_lines(pretty),
                error: None,
                ..before@
            }),
            Err(failure) => after@ == (EditorView { error: Some(failure), ..before@ })
                && after.state == before.state,
        }
    }

    /// Law: the text of an editor that was given `text` is `text` without
    /// one line feed at its very end. So what `get_text_raw` returns after
    /// `set_text_raw(text)` is `text` itself, or `text` without its last
    /// character where that is a line feed.
    pub proof fn lemma_text_round_trip(editor: TextEditor, text: Seq<char>)
        requires
            editor@.rows == split_lines(text),
        ensures
            editor.text() == normalized(text),
    {
        lemma_split_join_round_trip(text);
    }

    /// Law: formatting changes nothing in an editor whose text the formatter
    /// gives back as it is, if that text does not end in a line feed: the
    /// text stays and the error slot is empty. Whether the formatter gives
    /// its own output back as it is lies with the JSON crate.
    pub proof fn lemma_format_fixed_point(before: TextEditor, after: TextEditor)
        requires
            Self::formatted(before, after),
            pretty_format_spec(before.text()) == Ok::<Seq<char>, ErrorView>(before.text()),
            before.text().len() == 0 || before.text().last() != '\n',
        ensures
            after.text() == before.text(),
            after@.error is None,
    {
        lemma_split_join_round_trip(before.text());
    }

    /// Returns an empty editor.
    pub fn new() -> (editor: Self)
        ensures
            editor@ == Self::empty_view(),
            editor.cursor() == (0nat, 0nat),
    {
        TextEditor { state: new_state(), input: new_input(), error: None, focus: false }
    }

    /// Gives the editor the focus.
    pub fn focus(&mut self)
        ensures
            final(self)@ == (EditorView { focus: true, ..old(self)@ }),
    {
        self.focus = true;
    }

    /// Takes the focus away.
    pub fn unfocus(&mut self)
        ensures
            final(self)@ == (EditorView { focus: false, ..old(self)@ }),
    {
        self.focus = false;
    }

    /// Returns an editor that holds the lines of `text`.
    pub fn from_str(text: &str) -> (editor: Self)
        ensures
            editor@ == (EditorView { rows: split_lines(text@), ..Self::empty_view() }),
            editor.cursor() == (0nat, 0nat),
    {
        let mut editor = Self::new();
        editor.set_text_raw(text);
        editor
    }

    /// Gets the editor's content as raw text: its rows, a line feed between
    /// neighbours.
    pub fn get_text_raw(&self) -> (text: String)
        ensures
            text@ == self.text(),
    {
        let rows = rows_of(&self.state);
        join_rows(&rows)
    }

    /// Sets the editor's content from raw text: the old rows go, the lines
    /// of `text` come, one row each, and the cursor goes to the start of the
    /// text. Mode, error and focus stay.
    pub fn set_text_raw(&mut self, text: &str)
        ensures
            final(self)@ == (EditorView { rows: split_lines(text@), ..old(self)@ }),
            final(self).cursor() == (0nat, 0nat),
    {
        let mut rows = split_text(text);
        clear_rows(&mut self.state);
        put_cursor(&mut self.state, 0, 0);
        let ghost all = rows_view(rows@);
        let mut i: usize = 0;
        let n = rows.len();
        while i < n
            invariant
                n == rows.len(),
                0 <= i <= n,
                forall|k: int| i <= k < n ==> (#[trigger] rows@[k])@ == all[k],
                all.len() == n,
                buffer_rows(self.state) == all.take(i as int),
                buffer_cursor(self.state) == (0nat, 0nat),
                buffer_mode(self.state) == buffer_mode(old(self).state),
                self.input == old(self).input,
                self.error == old(self).error,
                self.focus == old(self).focus,
            decreases n - i,
        {
            let mut row: Vec<char> = Vec::new();
            std::mem::swap(&mut row, &mut rows[i]);
            push_row(&mut self.state, row);
            assert(all.take(i + 1) =~= all.take(i as int).push(all[i as int]));
            i = i + 1;
        }
        assert(all.take(n as int) =~= all);
    }

    /// Returns the error in the slot.
    pub fn get_error(&self) -> (error: Option<ErrorKind>)
        ensures
            error == self.error,
    {
        match &self.error {
            Some(e) => Some(e.clone()),
            None => None,
        }
    }

    /// Puts `error` into the slot.
    pub fn set_error(&mut self, error: Option<ErrorKind>)
        ensures
            final(self)@ == (EditorView { error: error_slot_view(error), ..old(self)@ }),
            final(self).error == error,
    {
        self.error = error;
    }

    /// Clears all text. The cursor goes to the start.
    pub fn clear(&mut self)
        ensures
            final(self)@ == (EditorView { rows: Seq::empty(), ..old(self)@ }),
            final(self).cursor() == (0nat, 0nat),
    {
        clear_rows(&mut self.state);
        put_cursor(&mut self.state, 0, 0);
    }

    /// Whether the editor is in insert mode.
    pub fn insert_mode(&self) -> (insert: bool)
        ensures
            insert == self@.insert,
    {
        is_insert(&self.state)
    }

    /// The editor's mode, as far as the focus machine tells modes apart:
    /// insert, or normal for every other mode of the buffer.
    pub fn mode(&self) -> (mode: EditorMode)
        ensures
            mode == if self@.insert {
                EditorMode::Insert
            } else {
                EditorMode::Normal
            },
    {
        if is_insert(&self.state) {
            EditorMode::Insert
        } else {
            EditorMode::Normal
        }
    }

    /// Pastes what was read from the clipboard. With `None`, which stands
    /// for a clipboard that is not there or could not be read, nothing
    /// happens. Else the cursor is brought inside the text, if it stood
    /// outside, and each character is typed at the cursor, one after the
    /// other, a line feed breaking the line. Mode, error and focus stay.
    pub fn paste_from_clipboard(&mut self, clipboard: Option<&str>)
        ensures
            match clipboard {
                Some(text) => {
                    &&& (final(self)@.rows, final(self).cursor()) == typed_text(
                        old(self)@.rows,
                        fitted(old(self)@.rows, old(self).cursor()),
                        text@,
                    )
                    &&& final(self)@ == (EditorView { rows: final(self)@.rows, ..old(self)@ })
                },
                None => *final(self) == *old(self),
            },
    {
        if let Some(text) = clipboard {
            let chars = chars_of(text);
            settle(&mut self.state);
            let ghost start = fitted(old(self)@.rows, old(self).cursor());
            let mut i: usize = 0;
            while i < chars.len()
                invariant
                    chars@ == text@,
                    0 <= i <= chars.len(),
                    cursor_fits(self.state),
                    (buffer_rows(self.state), buffer_cursor(self.state)) == typed_text(
                        old(self)@.rows,
                        start,
                        chars@.take(i as int),
                    ),
                    buffer_mode(self.state) == buffer_mode(old(self).state),
                    self.input == old(self).input,
                    self.error == old(self).error,
                    self.focus == old(self).focus,
                decreases chars.len() - i,
            {
                assert(chars@.take(i + 1).drop_last() =~= chars@.take(i as int));
                self.insert_char(chars[i]);
                i = i + 1;
            }
            assert(chars@.take(i as int) =~= chars@);
        }
    }

    /// The full text, for the clipboard.
    pub fn yank(&self) -> (text: String)
        ensures
            text@ == self.text(),
    {
        self.get_text_raw()
    }

    /// Types one character at the cursor. A line feed breaks the line.
    fn insert_char(&mut self, c: char)
        requires
            cursor_fits(old(self).state),
        ensures
            cursor_fits(final(self).state),
            (final(self)@.rows, final(self).cursor()) == typed(
                old(self)@.rows,
                old(self).cursor(),
                c,
            ),
            final(self)@ == (EditorView { rows: final(self)@.rows, ..old(self)@ }),
            buffer_mode(final(self).state) == buffer_mode(old(self).state),
            final(self).input == old(self).input,
            final(self).error == old(self).error,
            final(self).focus == old(self).focus,
    {
        proof {
            lemma_typed_fits(self@.rows, self.cursor(), c);
        }
        type_char(&mut self.state, c);
    }

    /// Pretty-prints the editor's text as JSON. On success the pretty text
    /// replaces the content and the error slot is emptied. On failure the
    /// buffer is left untouched and the slot holds the formatting failure.
    pub fn format_json(&mut self)
        ensures
            Self::formatted(*old(self), *final(self)),
            final(self).focus == old(self).focus,
    {
        let text = self.get_text_raw();
        match pretty_format_json(text.as_str()) {
            Ok(pretty) => {
                self.set_text_raw(pretty.as_str());
                self.error = None;
            },
            Err(err) => {
                self.error = Some(err);
            },
        }
    }

    /// Returns whether the editor holds no row at all.
    pub fn is_empty(&self) -> (empty: bool)
        ensures
            empty == (self@.rows.len() == 0),
    {
        has_no_rows(&self.state)
    }

    /// Hands a key to the buffer, which reads it by the bindings of its
    /// current mode. A cursor that stands outside the text is brought inside
    /// first. In insert mode a character key is text: its character is typed
    /// at the cursor. A key that the buffer does not read changes nothing,
    /// and an editor without rows in normal mode reads `w` as such a key.
    /// For the other keys, text and mode afterwards are what the buffer made
    /// of the key. Error slot and focus are not touched.
    pub fn on_key(&mut self, key: KeyEvent)
        ensures
            final(self).keyed_from(*old(self), key),
    {
        settle(&mut self.state);
        let read = key.buffer_key();
        let wordless = has_no_rows(&self.state) && is_normal(&self.state);
        let handed = if wordless && read == BufferKey::Char('w') {
            BufferKey::Unbound
        } else {
            read
        };
        press_key(&mut self.input, &mut self.state, handed);
    }
}

} // verus!
