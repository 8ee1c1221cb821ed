//! The editor buffer.
//!
//! The text of an editor, its cursor and its editing mode are kept by the
//! `edtui` crate, which also owns the key bindings that move between the
//! modes. The functions that call into the crate are not proved: each states
//! what the outside code does, in terms of what this library reads from a
//! buffer: its rows, its cursor, and whether it is in insert mode.
//!
//! The crate's editing actions index into the rows at the cursor and at the
//! ends of the selection, and do not all check them first. A buffer is
//! therefore handed to them only with its cursor and its selection inside
//! the text (`cursor_fits`, `selection_fits`), which `settle` sees to. One
//! action, the selection between quotes that ends the command `ciw`, walks
//! backwards from the cursor without a look at the rows; a buffer without
//! rows in normal mode is therefore never handed the key `w` (`readable`).

use crate::key::BufferKey;
use crate::text::rows_view;
use vstd::prelude::*;

verus! {

#[verifier::external_type_specification]
#[verifier::external_body]
pub struct ExEditorState(edtui::EditorState);

#[verifier::external_type_specification]
#[verifier::external_body]
pub struct ExEditorInput(edtui::EditorInput);

/// The rows of text that a buffer holds, from top to bottom.
pub uninterp spec fn buffer_rows(state: edtui::EditorState) -> Seq<Seq<char>>;

/// The mode of a buffer, as a number: 0 for normal mode, 1 for insert mode,
/// 2 for visual mode and 3 for search mode.
pub uninterp spec fn buffer_mode(state: edtui::EditorState) -> nat;

/// The number of keys that a key handler holds back because they may be
/// the start of a longer command.
pub uninterp spec fn input_pending(input: edtui::EditorInput) -> nat;

/// Whether a buffer is in normal mode.
pub open spec fn buffer_normal_mode(state: edtui::EditorState) -> bool {
    buffer_mode(state) == 0
}

/// Whether a buffer is in insert mode.
pub open spec fn buffer_insert_mode(state: edtui::EditorState) -> bool {
    buffer_mode(state) == 1
}

/// The row and the column that a buffer's cursor stands on.
pub uninterp spec fn buffer_cursor(state: edtui::EditorState) -> (nat, nat);

/// The selection of a buffer, if it has one: the place where it starts and
/// the place where it ends, each as row and column.
pub uninterp spec fn buffer_selection(state: edtui::EditorState) -> Option<
    ((nat, nat), (nat, nat)),
>;

/// Whether a place stands inside a text: on a row that exists, and on one of
/// its characters or directly behind the last. In a text without rows only
/// the first column of the first row stands inside.
pub open spec fn fits(rows: Seq<Seq<char>>, at: (nat, nat)) -> bool {
    if rows.len() == 0 {
        at.0 == 0 && at.1 == 0
    } else {
        at.0 < rows.len() && at.1 <= rows[at.0 as int].len()
    }
}

/// The place inside a text that is nearest to `at`: on the last row for a
/// place below it, and behind the last character of the row for a place
/// further right.
pub open spec fn fitted(rows: Seq<Seq<char>>, at: (nat, nat)) -> (nat, nat) {
    if rows.len() == 0 {
        (0, 0)
    } else {
        let row = if at.0 < rows.len() {
            at.0
        } else {
            (rows.len() - 1) as nat
        };
        let col = if at.1 <= rows[row as int].len() {
            at.1
        } else {
            rows[row as int].len()
        };
        (row, col)
    }
}

/// Whether the cursor of a buffer stands inside its text.
pub open spec fn cursor_fits(state: edtui::EditorState) -> bool {
    fits(buffer_rows(state), buffer_cursor(state))
}

/// Whether the selection of a buffer, if it has one, starts and ends inside
/// its text.
pub open spec fn selection_fits(state: edtui::EditorState) -> bool {
    match buffer_selection(state) {
        Some((start, end)) => fits(buffer_rows(state), start) && fits(buffer_rows(state), end),
        None => true,
    }
}

/// A text and the cursor in it after one character was typed at the place
/// `at`. A line feed breaks the row there and leads to the start of the new
/// row. Any other character goes into the row, and the cursor behind it. A
/// text without rows gets its first row from the first character.
pub open spec fn typed(rows: Seq<Seq<char>>, at: (nat, nat), c: char) -> (
    Seq<Seq<char>>,
    (nat, nat),
) {
    let base = if rows.len() == 0 {
        seq![Seq::<char>::empty()]
    } else {
        rows
    };
    let row = at.0 as int;
    let col = at.1 as int;
    if c == '\n' {
        (
            base.take(row) + seq![base[row].take(col), base[row].skip(col)] + base.skip(row + 1),
            ((at.0 + 1) as nat, 0),
        )
    } else {
        (base.update(row, base[row].insert(col, c)), (at.0, (at.1 + 1) as nat))
    }
}

/// A text and the cursor in it after the characters of `text` were typed
/// one after the other, the first at the place `at`.
pub open spec fn typed_text(rows: Seq<Seq<char>>, at: (nat, nat), text: Seq<char>) -> (
    Seq<Seq<char>>,
    (nat, nat),
)
    decreases text.len(),
{
    if text.len() == 0 {
        (rows, at)
    } else {
        let before = typed_text(rows, at, text.drop_last());
        typed(before.0, before.1, text.last())
    }
}

/// `EditorState::default` makes a buffer without rows and without a
/// selection, in normal mode, with the cursor on the first column of the
/// first row.
#[verifier::external_body]
pub(crate) fn new_state() -> (state: edtui::EditorState)
    ensures
        buffer_rows(state) == Seq::<Seq<char>>::empty(),
        buffer_mode(state) == 0,
        buffer_cursor(state) == (0nat, 0nat),
        buffer_selection(state) is None,
{
    edtui::EditorState::default()
}

/// `EditorInput::default` makes a key handler with the crate's own bindings
/// and no key held back.
#[verifier::external_body]
pub(crate) fn new_input() -> (input: edtui::EditorInput)
    ensures
        input_pending(input) == 0,
{
    edtui::EditorInput::default()
}

/// `EditorState::clone` copies the rows, the cursor, the selection and the
/// mode.
#[verifier::external_body]
pub(crate) fn copy_state(state: &edtui::EditorState) -> (copy: edtui::EditorState)
    ensures
        buffer_rows(copy) == buffer_rows(*state),
        buffer_mode(copy) == buffer_mode(*state),
        buffer_cursor(copy) == buffer_cursor(*state),
        buffer_selection(copy) == buffer_selection(*state),
{
    state.clone()
}

/// `EditorInput::clone` copies the key handler with the keys it holds back.
#[verifier::external_body]
pub(crate) fn copy_input(input: &edtui::EditorInput) -> (copy: edtui::EditorInput)
    ensures
        input_pending(copy) == input_pending(*input),
{
    input.clone()
}

/// `Jagged::to_vecs` on the buffer's lines hands out a copy of the rows.
#[verifier::external_body]
pub(crate) fn rows_of(state: &edtui::EditorState) -> (rows: Vec<Vec<char>>)
    ensures
        rows_view(rows@) == buffer_rows(*state),
{
    state.lines.to_vecs()
}

/// `Jagged::is_empty` on the buffer's lines: whether there is no row.
#[verifier::external_body]
pub(crate) fn has_no_rows(state: &edtui::EditorState) -> (none: bool)
    ensures
        none == (buffer_rows(*state).len() == 0),
{
    state.lines.is_empty()
}

/// `Jagged::len` on the buffer's lines: the number of rows.
#[verifier::external_body]
pub(crate) fn row_count(state: &edtui::EditorState) -> (n: usize)
    ensures
        n == buffer_rows(*state).len(),
{
    state.lines.len()
}

/// `Jagged::len_col` on the buffer's lines: the length of a row, or nothing
/// for a row that does not exist.
#[verifier::external_body]
pub(crate) fn row_len(state: &edtui::EditorState, row: usize) -> (len: Option<usize>)
    ensures
        match len {
            Some(n) => row < buffer_rows(*state).len() && n == buffer_rows(*state)[row as int].len(),
            None => row >= buffer_rows(*state).len(),
        },
{
    state.lines.len_col(row)
}

/// Reads the cursor's row and column.
#[verifier::external_body]
pub(crate) fn cursor_of(state: &edtui::EditorState) -> (at: (usize, usize))
    ensures
        (at.0 as nat, at.1 as nat) == buffer_cursor(*state),
{
    (state.cursor.row, state.cursor.col)
}

/// Reads the selection: the row and column of its start and of its end.
#[verifier::external_body]
pub(crate) fn selection_of(state: &edtui::EditorState) -> (ends: Option<
    ((usize, usize), (usize, usize)),
>)
    ensures
        match ends {
            Some((start, end)) => buffer_selection(*state) == Some(
                ((start.0 as nat, start.1 as nat), (end.0 as nat, end.1 as nat)),
            ),
            None => buffer_selection(*state) is None,
        },
{
    state.selection.as_ref().map(|s| ((s.start.row, s.start.col), (s.end.row, s.end.col)))
}

/// Takes the selection away. Rows, cursor and mode stay as they are.
#[verifier::external_body]
pub(crate) fn drop_selection(state: &mut edtui::EditorState)
    ensures
        buffer_selection(*final(state)) is None,
        buffer_rows(*final(state)) == buffer_rows(*old(state)),
        buffer_mode(*final(state)) == buffer_mode(*old(state)),
        buffer_cursor(*final(state)) == buffer_cursor(*old(state)),
{
    state.selection = None;
}

/// `Jagged::clear` on the buffer's lines removes every row and leaves mode,
/// cursor and selection alone.
#[verifier::external_body]
pub(crate) fn clear_rows(state: &mut edtui::EditorState)
    ensures
        buffer_rows(*final(state)) == Seq::<Seq<char>>::empty(),
        buffer_mode(*final(state)) == buffer_mode(*old(state)),
        buffer_cursor(*final(state)) == buffer_cursor(*old(state)),
        buffer_selection(*final(state)) == buffer_selection(*old(state)),
{
    state.lines.clear();
}

/// `Jagged::push` with a whole row appends it below the last row and leaves
/// mode, cursor and selection alone.
#[verifier::external_body]
pub(crate) fn push_row(state: &mut edtui::EditorState, row: Vec<char>)
    ensures
        buffer_rows(*final(state)) == buffer_rows(*old(state)).push(row@),
        buffer_mode(*final(state)) == buffer_mode(*old(state)),
        buffer_cursor(*final(state)) == buffer_cursor(*old(state)),
        buffer_selection(*final(state)) == buffer_selection(*old(state)),
{
    state.lines.push(row);
}

/// Puts the cursor (`Index2::new`) on the given row and column. Rows, mode
/// and selection stay as they are.
#[verifier::external_body]
pub(crate) fn put_cursor(state: &mut edtui::EditorState, row: usize, col: usize)
    ensures
        buffer_rows(*final(state)) == buffer_rows(*old(state)),
        buffer_mode(*final(state)) == buffer_mode(*old(state)),
        buffer_cursor(*final(state)) == (row as nat, col as nat),
        buffer_selection(*final(state)) == buffer_selection(*old(state)),
{
    state.cursor = edtui::Index2::new(row, col);
}

/// Tells whether a place stands inside the buffer's text.
fn place_fits(state: &edtui::EditorState, row: usize, col: usize) -> (inside: bool)
    ensures
        inside == fits(buffer_rows(*state), (row as nat, col as nat)),
{
    if row_count(state) == 0 {
        row == 0 && col == 0
    } else {
        match row_len(state, row) {
            Some(len) => col <= len,
            None => false,
        }
    }
}

/// Brings cursor and selection inside the text. A cursor that stands
/// outside is put onto the last row if it stands below it, and behind the
/// last character of its row if it stands further right. A selection that
/// starts or ends outside the text is taken away. A buffer whose cursor and
/// selection stand inside the text is not touched.
pub(crate) fn settle(state: &mut edtui::EditorState)
    ensures
        cursor_fits(*old(state)) && selection_fits(*old(state)) ==> *final(state) == *old(state),
        buffer_cursor(*final(state)) == fitted(buffer_rows(*old(state)), buffer_cursor(*old(state))),
        buffer_selection(*final(state)) == if selection_fits(*old(state)) {
            buffer_selection(*old(state))
        } else {
            None
        },
        cursor_fits(*final(state)),
        selection_fits(*final(state)),
        buffer_rows(*final(state)) == buffer_rows(*old(state)),
        buffer_mode(*final(state)) == buffer_mode(*old(state)),
{
    let (row, col) = cursor_of(state);
    let rows = row_count(state);
    if rows == 0 {
        if row != 0 || col != 0 {
            put_cursor(state, 0, 0);
        }
    } else {
        let fit_row = if row < rows {
            row
        } else {
            rows - 1
        };
        let len = match row_len(state, fit_row) {
            Some(len) => len,
            None => 0,
        };
        let fit_col = if col <= len {
            col
        } else {
            len
        };
        if fit_row != row || fit_col != col {
            put_cursor(state, fit_row, fit_col);
        }
    }
    if let Some((start, end)) = selection_of(state) {
        let inside = place_fits(state, start.0, start.1) && place_fits(state, end.0, end.1);
        if !inside {
            drop_selection(state);
        }
    }
}

/// Typing at a place inside a text leads to a place inside the new text.
pub proof fn lemma_typed_fits(rows: Seq<Seq<char>>, at: (nat, nat), c: char)
    requires
        fits(rows, at),
    ensures
        fits(typed(rows, at, c).0, typed(rows, at, c).1),
{
}

/// Reads the buffer's mode and tells whether it is `EditorMode::Normal`.
#[verifier::external_body]
pub(crate) fn is_normal(state: &edtui::EditorState) -> (normal: bool)
    ensures
        normal == (buffer_mode(*state) == 0),
{
    state.mode == edtui::EditorMode::Normal
}

/// Reads the buffer's mode and tells whether it is `EditorMode::Insert`.
#[verifier::external_body]
pub(crate) fn is_insert(state: &edtui::EditorState) -> (insert: bool)
    ensures
        insert == (buffer_mode(*state) == 1),
{
    state.mode == edtui::EditorMode::Insert
}

/// The action `InsertChar` types one character at the cursor: it puts the
/// character into the cursor's row and the cursor behind it, and for a line
/// feed breaks the row at the cursor and puts the cursor on the start of the
/// new row. A buffer without rows gets an empty first row before that.
/// Mode and selection are never changed.
#[verifier::external_body]
pub(crate) fn type_char(state: &mut edtui::EditorState, c: char)
    requires
        cursor_fits(*old(state)),
    ensures
        (buffer_rows(*final(state)), buffer_cursor(*final(state))) == typed(
            buffer_rows(*old(state)),
            buffer_cursor(*old(state)),
            c,
        ),
        buffer_mode(*final(state)) == buffer_mode(*old(state)),
        buffer_selection(*final(state)) == buffer_selection(*old(state)),
{
    edtui::actions::Execute::execute(&mut edtui::actions::InsertChar(c), state);
}

/// Whether a key can be handed to a buffer: every key can, but `w` to a
/// buffer without rows in normal mode.
pub open spec fn readable(state: edtui::EditorState, key: BufferKey) -> bool {
    !(buffer_rows(state).len() == 0 && buffer_normal_mode(state) && key == BufferKey::Char('w'))
}

/// Whether a buffer and its key handler are after a key as they were
/// before, but that no key is held back any more.
pub open spec fn passed_over(
    before: edtui::EditorState,
    input_after: edtui::EditorInput,
    after: edtui::EditorState,
) -> bool {
    &&& buffer_rows(after) == buffer_rows(before)
    &&& buffer_cursor(after) == buffer_cursor(before)
    &&& buffer_mode(after) == buffer_mode(before)
    &&& buffer_selection(after) == buffer_selection(before)
    &&& input_pending(input_after) == 0
}

/// What is known of a buffer and its key handler after a key.
///
/// In insert mode a character key types its character at the cursor and
/// changes nothing else. A key that the buffer has no binding for leaves the
/// buffer alone, and no key is held back after it; so does Control with a
/// character key, but for Control with `r` in normal mode with no key held
/// back, which is bound. With no key held back,
/// `i` leads from normal mode to insert mode and Esc from insert mode to
/// normal mode, where it also takes the selection away; neither changes the
/// rows. In insert mode no key is ever held back, since every binding of
/// that mode is one key long. What any other key does is the business of
/// the bindings.
pub open spec fn pressed(
    input: edtui::EditorInput,
    before: edtui::EditorState,
    key: BufferKey,
    input_after: edtui::EditorInput,
    after: edtui::EditorState,
) -> bool {
    let idle = input_pending(input) == 0;
    &&& buffer_insert_mode(before) && idle ==> input_pending(input_after) == 0
    &&& match key {
        BufferKey::Char(c) => if buffer_insert_mode(before) {
            &&& (buffer_rows(after), buffer_cursor(after)) == typed(
                buffer_rows(before),
                buffer_cursor(before),
                c,
            )
            &&& buffer_mode(after) == buffer_mode(before)
            &&& buffer_selection(after) == buffer_selection(before)
            &&& input_pending(input_after) == input_pending(input)
        } else {
            c == 'i' && buffer_normal_mode(before) && idle ==> {
                &&& buffer_insert_mode(after)
                &&& buffer_rows(after) == buffer_rows(before)
                &&& buffer_selection(after) == buffer_selection(before)
                &&& input_pending(input_after) == 0
            }
        },
        BufferKey::Esc => buffer_insert_mode(before) && idle ==> {
            &&& buffer_normal_mode(after)
            &&& buffer_rows(after) == buffer_rows(before)
            &&& buffer_selection(after) is None
        },
        BufferKey::Ctrl(c) => !(c == 'r' && buffer_normal_mode(before) && idle) ==> passed_over(
            before,
            input_after,
            after,
        ),
        BufferKey::Unbound => passed_over(before, input_after, after),
        _ => true,
    }
}

/// `EditorInput::on_key`. In insert mode it hands a character key straight
/// to the action `InsertChar`, which types the character. Every other key
/// it looks up in the bindings of the buffer's current mode, together with
/// the keys it holds back, and runs the action that it finds; it holds the
/// key back where it starts a longer binding and drops all keys where no
/// binding starts with them. No binding holds the key `None`, which stands
/// for the keys that the buffer does not read, so that such a key runs
/// nothing; the one binding with a Control key is Control with `r` alone,
/// in normal mode. With no key held back, `i` finds `SwitchMode(Insert)` in normal
/// mode and Esc finds `SwitchMode(Normal)` in insert mode. Of the other
/// bindings nothing is claimed. The actions that delete or replace the
/// selection walk from its end back to its start, which is why the
/// selection has to stand inside the text as the cursor has.
#[verifier::external_body]
pub(crate) fn press_key(input: &mut edtui::EditorInput, state: &mut edtui::EditorState, key: BufferKey)
    requires
        cursor_fits(*old(state)),
        selection_fits(*old(state)),
        readable(*old(state), key),
    ensures
        pressed(*old(input), *old(state), key, *final(input), *final(state)),
{
    let key = match key {
        BufferKey::Char(c) => edtui::input::key::Key::Char(c),
        BufferKey::Ctrl(c) => edtui::input::key::Key::Ctrl(c),
        BufferKey::Down => edtui::input::key::Key::Down,
        BufferKey::Up => edtui::input::key::Key::Up,
        BufferKey::Right => edtui::input::key::Key::Right,
        BufferKey::Left => edtui::input::key::Key::Left,
        BufferKey::Enter => edtui::input::key::Key::Enter,
        BufferKey::Esc => edtui::input::key::Key::Esc,
        BufferKey::Backspace => edtui::input::key::Key::Backspace,
        BufferKey::Unbound => edtui::input::key::Key::None,
    };
    input.on_key(key, state);
}

} // verus!
