//! The dispatchers: one for each tab. A dispatcher reads a key, decides
//! which command the key stands for in the state at hand, and carries the
//! command out on its page's model and on the shared context.

use crate::app::AppContext;
use crate::editor::TextEditor;
use crate::headers::{AuthHeader, HeadersModel, HeadersSelection, MetaHeaders};
use crate::key::{KeyCode, KeyEvent};
use crate::messages::MessagesModel;
use crate::selection::{step_backward, step_forward, MethodId, SelectionModel};
use vstd::prelude::*;

verus! {

/// The number of sub windows of the selection page and of the messages page.
pub const SUBS: usize = 2;

/// The sub window after `sub`, in a cycle of two. With two sub windows a
/// step forward and a step backward lead to the same place.
pub open spec fn other_sub(sub: usize) -> usize {
    ((sub + 1) % 2) as usize
}

fn cycle_sub(sub: usize) -> (next: usize)
    ensures
        next == other_sub(sub),
{
    (sub % SUBS + 1) % SUBS
}

/// What a key stands for on the selection page.
#[derive(Clone, Copy, Debug, PartialEq, Eq, Structural)]
pub enum SelectionCommand {
    /// Go to the previous tab.
    PrevTab,
    /// Go to the next tab.
    NextTab,
    /// Go from the services into the methods of the selected service.
    Open,
    /// Confirm the selected method and go on to the next tab.
    Confirm,
    /// Go back from the methods to the services, and give the method up.
    Back,
    /// Change the sub window.
    SwitchSub,
    /// Move the cursor of the current sub window down.
    Descend,
    /// Move the cursor of the current sub window up.
    Ascend,
    /// The key is not bound.
    Ignore,
}

/// The command that a key stands for on the selection page. Tab and
/// Shift-Tab change the tab unless the global shortcuts are off. Enter opens
/// the selected service in the first sub window and confirms the method in
/// the second, where Esc leads back. Up and Down change the sub window, `j`
/// and `k` move the cursor.
pub open spec fn selection_command(context: AppContext, code: KeyCode) -> SelectionCommand {
    match code {
        KeyCode::BackTab => if !context.disable_root_events {
            SelectionCommand::PrevTab
        } else {
            SelectionCommand::Ignore
        },
        KeyCode::Tab => if !context.disable_root_events {
            SelectionCommand::NextTab
        } else {
            SelectionCommand::Ignore
        },
        KeyCode::Enter => if context.sub == 0 {
            SelectionCommand::Open
        } else if context.sub == 1 {
            SelectionCommand::Confirm
        } else {
            SelectionCommand::Ignore
        },
        KeyCode::Esc => if context.sub == 1 {
            SelectionCommand::Back
        } else {
            SelectionCommand::Ignore
        },
        KeyCode::Up => SelectionCommand::SwitchSub,
        KeyCode::Down => SelectionCommand::SwitchSub,
        KeyCode::Char(c) => if c == 'j' {
            SelectionCommand::Descend
        } else if c == 'k' {
            SelectionCommand::Ascend
        } else {
            SelectionCommand::Ignore
        },
        _ => SelectionCommand::Ignore,
    }
}

/// The selection model with a method selected: as it is where the cursor
/// stands on a method already, else with the cursor on the first method.
pub open spec fn with_method(model: SelectionModel) -> SelectionModel {
    if model.chosen() is None {
        model.at_method(step_forward(model.method, model.method_count()))
    } else {
        model
    }
}

/// The selection model after a command.
pub open spec fn selection_after(
    model: SelectionModel,
    context: AppContext,
    command: SelectionCommand,
) -> SelectionModel {
    match command {
        SelectionCommand::Open => with_method(model),
        SelectionCommand::Confirm => with_method(model),
        SelectionCommand::Back => model.at_method(None),
        SelectionCommand::Descend => if context.sub == 0 {
            model.at_service(step_forward(model.service, model.services@.len()))
        } else {
            model.at_method(step_forward(model.method, model.method_count()))
        },
        SelectionCommand::Ascend => if context.sub == 0 {
            model.at_service(step_backward(model.service, model.services@.len()))
        } else {
            model.at_method(step_backward(model.method, model.method_count()))
        },
        _ => model,
    }
}

/// The context after a command of the selection page.
pub open spec fn selection_context_after(
    model: SelectionModel,
    context: AppContext,
    command: SelectionCommand,
) -> AppContext {
    match command {
        SelectionCommand::PrevTab => context.at_tab(context.tab.before()),
        SelectionCommand::NextTab => context.at_tab(context.tab.after()),
        SelectionCommand::Open => AppContext { sub: 1, ..context },
        SelectionCommand::Confirm => if model.chosen() is None {
            context
        } else {
            context.at_tab(context.tab.after())
        },
        SelectionCommand::Back => AppContext { sub: 0, ..context },
        SelectionCommand::SwitchSub => AppContext { sub: other_sub(context.sub), ..context },
        _ => context,
    }
}

/// The method that a command of the selection page loads into the messages
/// page: the one the cursor stands on after the command, for the commands
/// that open a service or move the cursor.
pub open spec fn selection_loads(after: SelectionModel, command: SelectionCommand) -> Option<
    MethodId,
> {
    match command {
        SelectionCommand::Open => after.chosen(),
        SelectionCommand::Descend => after.chosen(),
        SelectionCommand::Ascend => after.chosen(),
        _ => None,
    }
}

/// What a key does on the selection page. The selection model and the
/// context change as the command says. The messages page follows: a command
/// that opens a service or moves the cursor loads the method that the
/// cursor stands on afterwards, if it stands on one, and going back from
/// the methods takes the method away from the messages page too.
pub open spec fn selection_stepped(
    model: SelectionModel,
    messages: MessagesModel,
    context: AppContext,
    code: KeyCode,
    model_after: SelectionModel,
    messages_after: MessagesModel,
    context_after: AppContext,
) -> bool {
    let command = selection_command(context, code);
    &&& model_after == selection_after(model, context, command)
    &&& context_after == selection_context_after(model, context, command)
    &&& if command == SelectionCommand::Back {
        MessagesModel::method_cleared(messages, messages_after)
    } else {
        match selection_loads(model_after, command) {
            Some(method) => MessagesModel::method_loaded(
                messages,
                method,
                model_after.template_of(method),
                messages_after,
            ),
            None => messages_after == messages,
        }
    }
}

/// The input on the select services and methods page.
pub struct SelectionInput<'a> {
    pub model: &'a mut SelectionModel,
    pub messages_model: &'a mut MessagesModel,
    pub context: &'a mut AppContext,
}

impl SelectionInput<'_> {
    /// The command that `code` stands for.
    pub fn command(context: &AppContext, code: KeyCode) -> (command: SelectionCommand)
        ensures
            command == selection_command(*context, code),
    {
        let roots = !context.disable_root_events;
        let sub = context.sub;
        match code {
            KeyCode::BackTab => if roots {
                SelectionCommand::PrevTab
            } else {
                SelectionCommand::Ignore
            },
            KeyCode::Tab => if roots {
                SelectionCommand::NextTab
            } else {
                SelectionCommand::Ignore
            },
            KeyCode::Enter => if sub == 0 {
                SelectionCommand::Open
            } else if sub == 1 {
                SelectionCommand::Confirm
            } else {
                SelectionCommand::Ignore
            },
            KeyCode::Esc => if sub == 1 {
                SelectionCommand::Back
            } else {
                SelectionCommand::Ignore
            },
            KeyCode::Up => SelectionCommand::SwitchSub,
            KeyCode::Down => SelectionCommand::SwitchSub,
            KeyCode::Char(c) => if c == 'j' {
                SelectionCommand::Descend
            } else if c == 'k' {
                SelectionCommand::Ascend
            } else {
                SelectionCommand::Ignore
            },
            _ => SelectionCommand::Ignore,
        }
    }

    /// Handles a key on the selection page.
    pub fn handle(self, code: KeyCode)
        requires
            old(self.model).wf(),
            old(self.messages_model).wf(),
        ensures
            final(self.model).wf(),
            final(self.messages_model).wf(),
            selection_stepped(
                *old(self.model),
                *old(self.messages_model),
                *old(self.context),
                code,
                *final(self.model),
                *final(self.messages_model),
                *final(self.context),
            ),
    {
        let SelectionInput { model, messages_model, context } = self;
        let command = Self::command(context, code);
        let mut load = false;
        match command {
            SelectionCommand::PrevTab => {
                context.tab = context.tab.prev();
                context.sub = 0;
            },
            SelectionCommand::NextTab => {
                context.tab = context.tab.next();
                context.sub = 0;
            },
            SelectionCommand::Open => {
                context.sub = 1;
                // Select a method if there is none selected yet.
                if model.selected_method().is_none() {
                    model.next_method();
                }
                load = true;
            },
            SelectionCommand::Confirm => {
                if model.selected_method().is_none() {
                    // Select a method if there is none selected yet.
                    model.next_method();
                } else {
                    // Otherwise go to next tab
                    context.tab = context.tab.next();
                    context.sub = 0;
                }
            },
            SelectionCommand::Back => {
                context.sub = 0;
                model.clear_method();
                messages_model.clear_method();
            },
            SelectionCommand::SwitchSub => {
                context.sub = cycle_sub(context.sub);
            },
            SelectionCommand::Descend => {
                if context.sub == 0 {
                    model.next_service();
                    model.clear_method();
                } else {
                    model.next_method();
                }
                load = true;
            },
            SelectionCommand::Ascend => {
                if context.sub == 0 {
                    model.previous_service();
                    model.clear_method();
                } else {
                    model.previous_method();
                }
                load = true;
            },
            SelectionCommand::Ignore => {},
        }
        if load {
            if let Some(method) = model.selected_method() {
                let template = model.template(method);
                messages_model.load_method(method, template.as_str());
            }
        }
    }
}

/// What a key stands for on the messages page.
#[derive(Clone, Copy, Debug, PartialEq, Eq, Structural)]
pub enum MessagesCommand {
    /// Go to the previous tab.
    PrevTab,
    /// Go to the next tab.
    NextTab,
    /// Change between request and response.
    SwitchSub,
    /// Start the call.
    StartRequest,
    /// Put the request on the clipboard as a command line.
    YankGrpcurl,
    /// Pretty-print the request.
    FormatRequest,
    /// Remove the saved request and start over from the template.
    DeleteHistory,
    /// Save the request.
    SaveHistory,
    /// Load the saved request.
    LoadHistory,
    /// Reload the history slot of the given number.
    ReloadHistory(usize),
    /// Hand the key to the editor of the current sub window.
    Edit,
}

/// The history slot that a digit key names.
pub open spec fn slot_of(c: char) -> Option<usize> {
    if c == '1' {
        Some(1usize)
    } else if c == '2' {
        Some(2usize)
    } else if c == '3' {
        Some(3usize)
    } else if c == '4' {
        Some(4usize)
    } else if c == '5' {
        Some(5usize)
    } else {
        None
    }
}

/// The command that a key stands for on the messages page. While the global
/// shortcuts are off, every key belongs to the editor. Else Tab and
/// Shift-Tab change the tab, Up and Down the sub window, Enter on the
/// request starts the call, Control with `y`, `f`, `d`, `s` or `l` yanks,
/// formats, deletes, saves or loads, and the digits `1` to `5` reload a
/// history slot. Any other key belongs to the editor.
pub open spec fn messages_command(context: AppContext, event: KeyEvent) -> MessagesCommand {
    if context.disable_root_events {
        MessagesCommand::Edit
    } else {
        match event.code {
            KeyCode::BackTab => MessagesCommand::PrevTab,
            KeyCode::Tab => MessagesCommand::NextTab,
            KeyCode::Down => MessagesCommand::SwitchSub,
            KeyCode::Up => MessagesCommand::SwitchSub,
            KeyCode::Enter => if context.sub == 0 {
                MessagesCommand::StartRequest
            } else {
                MessagesCommand::Edit
            },
            KeyCode::Char(c) => if event.control() && c == 'y' {
                MessagesCommand::YankGrpcurl
            } else if event.control() && c == 'f' && context.sub == 0 {
                MessagesCommand::FormatRequest
            } else if event.control() && c == 'd' {
                MessagesCommand::DeleteHistory
            } else if event.control() && c == 's' {
                MessagesCommand::SaveHistory
            } else if event.control() && c == 'l' {
                MessagesCommand::LoadHistory
            } else {
                match slot_of(c) {
                    Some(slot) => MessagesCommand::ReloadHistory(slot),
                    None => MessagesCommand::Edit,
                }
            },
            _ => MessagesCommand::Edit,
        }
    }
}

/// What handing a key to the editor of sub window `sub` does to the
/// messages model: that editor took the key, nothing else changed.
pub open spec fn messages_edited(
    before: MessagesModel,
    sub: usize,
    event: KeyEvent,
    after: MessagesModel,
) -> bool {
    if sub == 0 {
        &&& after.request.editor.keyed_from(before.request.editor, event)
        &&& after == (MessagesModel { request: after.request, ..before })
    } else if sub == 1 {
        &&& after.response.editor.keyed_from(before.response.editor, event)
        &&& after == (MessagesModel { response: after.response, ..before })
    } else {
        after == before
    }
}

/// Whether the editor of sub window `sub` is in insert mode.
pub open spec fn messages_inserting(model: MessagesModel, sub: usize) -> bool {
    if sub == 0 {
        model.request.editor@.insert
    } else if sub == 1 {
        model.response.editor@.insert
    } else {
        false
    }
}

/// What a key does on the messages page.
pub open spec fn messages_stepped(
    model: MessagesModel,
    context: AppContext,
    event: KeyEvent,
    model_after: MessagesModel,
    context_after: AppContext,
) -> bool {
    match messages_command(context, event) {
        MessagesCommand::PrevTab => model_after == model && context_after == context.at_tab(
            context.tab.before(),
        ),
        MessagesCommand::NextTab => model_after == model && context_after == context.at_tab(
            context.tab.after(),
        ),
        MessagesCommand::SwitchSub => model_after == model && context_after == (AppContext {
            sub: other_sub(context.sub),
            ..context
        }),
        MessagesCommand::StartRequest => {
            &&& context_after == context
            &&& MessagesModel::request_started(model, model_after)
        },
        MessagesCommand::YankGrpcurl => context_after == context && model_after == (MessagesModel {
            yank_pending: true,
            ..model
        }),
        MessagesCommand::FormatRequest => {
            &&& context_after == context
            &&& model_after == (MessagesModel { request: model_after.request, ..model })
            &&& TextEditor::formatted(model.request.editor, model_after.request.editor)
        },
        MessagesCommand::DeleteHistory => {
            &&& context_after == context
            &&& MessagesModel::history_deleted(model, model_after)
        },
        MessagesCommand::SaveHistory => {
            &&& context_after == context
            &&& MessagesModel::history_saved(model, model_after)
        },
        MessagesCommand::LoadHistory => {
            &&& context_after == context
            &&& MessagesModel::history_loaded(model, model_after)
        },
        MessagesCommand::ReloadHistory(slot) => {
            &&& context_after == context
            &&& MessagesModel::reloaded(model, slot, model_after)
        },
        MessagesCommand::Edit => {
            &&& messages_edited(model, context.sub, event, model_after)
            &&& context_after == (AppContext {
                disable_root_events: messages_inserting(model_after, context.sub),
                ..context
            })
        },
    }
}

/// The input on the messages page.
pub struct MessagesInput<'a> {
    pub model: &'a mut MessagesModel,
    pub context: &'a mut AppContext,
}

impl MessagesInput<'_> {
    /// The command that `event` stands for.
    pub fn command(context: &AppContext, event: KeyEvent) -> (command: MessagesCommand)
        ensures
            command == messages_command(*context, event),
    {
        if context.disable_root_events {
            return MessagesCommand::Edit;
        }
        let control = event.is_control();
        match event.code {
            KeyCode::BackTab => MessagesCommand::PrevTab,
            KeyCode::Tab => MessagesCommand::NextTab,
            KeyCode::Down => MessagesCommand::SwitchSub,
            KeyCode::Up => MessagesCommand::SwitchSub,
            KeyCode::Enter => if context.sub == 0 {
                MessagesCommand::StartRequest
            } else {
                MessagesCommand::Edit
            },
            KeyCode::Char(c) => if control && c == 'y' {
                MessagesCommand::YankGrpcurl
            } else if control && c == 'f' && context.sub == 0 {
                MessagesCommand::FormatRequest
            } else if control && c == 'd' {
                MessagesCommand::DeleteHistory
            } else if control && c == 's' {
                MessagesCommand::SaveHistory
            } else if control && c == 'l' {
                MessagesCommand::LoadHistory
            } else if c == '1' {
                MessagesCommand::ReloadHistory(1)
            } else if c == '2' {
                MessagesCommand::ReloadHistory(2)
            } else if c == '3' {
                MessagesCommand::ReloadHistory(3)
            } else if c == '4' {
                MessagesCommand::ReloadHistory(4)
            } else if c == '5' {
                MessagesCommand::ReloadHistory(5)
            } else {
                MessagesCommand::Edit
            },
            _ => MessagesCommand::Edit,
        }
    }

    /// Handles a key on the messages page.
    pub fn handle(self, event: KeyEvent)
        requires
            old(self.model).wf(),
        ensures
            final(self.model).wf(),
            messages_stepped(
                *old(self.model),
                *old(self.context),
                event,
                *final(self.model),
                *final(self.context),
            ),
    {
        let MessagesInput { model, context } = self;
        let command = Self::command(context, event);
        match command {
            MessagesCommand::PrevTab => {
                context.tab = context.tab.prev();
                context.sub = 0;
            },
            MessagesCommand::NextTab => {
                context.tab = context.tab.next();
                context.sub = 0;
            },
            MessagesCommand::SwitchSub => {
                context.sub = cycle_sub(context.sub);
            },
            MessagesCommand::StartRequest => {
                model.start_request();
            },
            MessagesCommand::YankGrpcurl => {
                model.yank_grpcurl();
            },
            MessagesCommand::FormatRequest => {
                model.request.editor.format_json();
            },
            MessagesCommand::DeleteHistory => {
                model.delete_history();
            },
            MessagesCommand::SaveHistory => {
                model.save_history();
            },
            MessagesCommand::LoadHistory => {
                model.load_history();
            },
            MessagesCommand::ReloadHistory(slot) => {
                let input = MessagesInput { model, context };
                input.handle_history_reload(slot);
            },
            MessagesCommand::Edit => {
                let mut disable_root_events = false;
                if context.sub == 0 {
                    model.request.editor.on_key(event);
                    disable_root_events = model.request.editor.insert_mode();
                }
                if context.sub == 1 {
                    model.response.editor.on_key(event);
                    disable_root_events = model.response.editor.insert_mode();
                }
                // Disable all root key events if one of the editors went into insert mode
                // to not overwrite keys such as 'q' for quitting.
                context.disable_root_events = disable_root_events;
            },
        }
    }

    /// Reloads the history slot `index`: saves the request in progress
    /// first if autosave is on, then selects the slot and loads it.
    pub fn handle_history_reload(self, index: usize)
        requires
            old(self.model).wf(),
        ensures
            final(self.model).wf(),
            *final(self.context) == *old(self.context),
            MessagesModel::reloaded(*old(self.model), index, *final(self.model)),
    {
        self.model.reload_history(index);
    }
}

/// What a key stands for on the headers page, as far as the zones go.
#[derive(Clone, Copy, Debug, PartialEq, Eq, Structural)]
pub enum HeadersCommand {
    /// Select no zone.
    Unselect,
    /// Select the zone above.
    ZoneUp,
    /// Select the zone below.
    ZoneDown,
    /// Hand the key to the selected zone.
    Dispatch,
}

/// Whether a key means "up" on the headers page.
pub open spec fn is_up(code: KeyCode) -> bool {
    code == KeyCode::Up || code == KeyCode::Char('k')
}

/// Whether a key means "down" on the headers page.
pub open spec fn is_down(code: KeyCode) -> bool {
    code == KeyCode::Down || code == KeyCode::Char('j')
}

/// The command that a key stands for on the headers page. While the global
/// shortcuts are on, Esc selects no zone, and up and down move the zone
/// selection, unless the cursor inside the metadata can still move that
/// way. Every other key, and every key while the shortcuts are off, goes to
/// the selected zone.
pub open spec fn headers_command(model: HeadersModel, context: AppContext, event: KeyEvent)
    -> HeadersCommand {
    if context.disable_root_events {
        HeadersCommand::Dispatch
    } else if event.code == KeyCode::Esc {
        HeadersCommand::Unselect
    } else if is_up(event.code) && !model.meta.blocks_prev() {
        HeadersCommand::ZoneUp
    } else if is_down(event.code) && !model.meta.blocks_next() {
        HeadersCommand::ZoneDown
    } else {
        HeadersCommand::Dispatch
    }
}

/// Where Tab and Shift-Tab lead from a zone that has no use for them
/// itself: to the next and the previous tab, while the global shortcuts are
/// on. Any other key, and any key while they are off, leaves the tab.
pub open spec fn tab_moved(context: AppContext, code: KeyCode) -> AppContext {
    if context.disable_root_events {
        context
    } else if code == KeyCode::Tab {
        context.at_tab(context.tab.after())
    } else if code == KeyCode::BackTab {
        context.at_tab(context.tab.before())
    } else {
        context
    }
}

/// Whether a key changes the tab from a zone that has no use for Tab.
pub open spec fn moves_tab(context: AppContext, code: KeyCode) -> bool {
    !context.disable_root_events && (code == KeyCode::Tab || code == KeyCode::BackTab)
}

/// What handing a key to the selected zone does to the headers model.
pub open spec fn zone_keyed(
    before: HeadersModel,
    context: AppContext,
    event: KeyEvent,
    after: HeadersModel,
) -> bool {
    match before.selected {
        HeadersSelection::Addr => if moves_tab(context, event.code) {
            after == before
        } else {
            &&& after.addr.keyed_from(before.addr, event)
            &&& after == (HeadersModel { addr: after.addr, ..before })
        },
        HeadersSelection::Auth => {
            &&& AuthHeader::stepped(before.auth, event, after.auth)
            &&& after == (HeadersModel { auth: after.auth, ..before })
        },
        HeadersSelection::Meta => {
            &&& MetaHeaders::stepped(before.meta, event, after.meta)
            &&& after == (HeadersModel {
                meta: after.meta,
                selected: if after.meta.headers@.len() == 0 {
                    HeadersSelection::Nothing
                } else {
                    HeadersSelection::Meta
                },
                ..before
            })
        },
        HeadersSelection::Nothing => if moves_tab(context, event.code) {
            after == before
        } else if event.code == KeyCode::Enter {
            after == (HeadersModel { selected: HeadersSelection::Addr, ..before })
        } else if event.code == KeyCode::Char('h') && event.control() {
            &&& MetaHeaders::added(before.meta, after.meta)
            &&& after == (HeadersModel {
                meta: after.meta,
                selected: HeadersSelection::Meta,
                ..before
            })
        } else {
            after == before
        },
    }
}

/// Where a key that went to the selected zone leaves the context: on
/// another tab if the zone passed Tab on, and with the global shortcuts off
/// exactly if an editor is in insert mode now.
pub open spec fn zone_context(
    before: HeadersModel,
    context: AppContext,
    event: KeyEvent,
    after: HeadersModel,
) -> AppContext {
    let moved = match before.selected {
        HeadersSelection::Addr => tab_moved(context, event.code),
        HeadersSelection::Nothing => tab_moved(context, event.code),
        _ => context,
    };
    AppContext { disable_root_events: after.inserting(), ..moved }
}

/// What a key does on the headers page.
pub open spec fn headers_stepped(
    model: HeadersModel,
    context: AppContext,
    event: KeyEvent,
    model_after: HeadersModel,
    context_after: AppContext,
) -> bool {
    match headers_command(model, context, event) {
        HeadersCommand::Unselect => {
            &&& context_after == context
            &&& model_after == model.moved_to(HeadersSelection::Nothing)
        },
        HeadersCommand::ZoneUp => {
            &&& context_after == context
            &&& model_after == model.moved_to(model.zone_above())
        },
        HeadersCommand::ZoneDown => {
            &&& context_after == context
            &&& model_after == model.moved_to(model.zone_below())
        },
        HeadersCommand::Dispatch => {
            &&& zone_keyed(model, context, event, model_after)
            &&& context_after == zone_context(model, context, event, model_after)
        },
    }
}

/// Law: with the cursor on the last row of the metadata, "down" does not
/// move it past that row, whatever the mode, and the list keeps its rows.
pub proof fn lemma_down_stops_at_last_row(
    model: HeadersModel,
    context: AppContext,
    event: KeyEvent,
    model_after: HeadersModel,
    context_after: AppContext,
)
    requires
        model.wf(),
        model.selected == HeadersSelection::Meta,
        model.meta.selected matches Some(c) && c.row + 1 == model.meta.headers@.len(),
        event.code == KeyCode::Down,
        headers_stepped(model, context, event, model_after, context_after),
    ensures
        model_after.selected == HeadersSelection::Meta,
        model_after.meta.headers@.len() == model.meta.headers@.len(),
        model_after.meta.selected matches Some(c) && c.row + 1 == model.meta.headers@.len(),
{
}

/// Law: a metadata selection over an empty list does not outlast the next
/// key. Whatever the key, no zone is selected afterwards.
pub proof fn lemma_empty_metadata_unselects(
    model: HeadersModel,
    context: AppContext,
    event: KeyEvent,
    model_after: HeadersModel,
    context_after: AppContext,
)
    requires
        model.wf(),
        model.selected == HeadersSelection::Meta,
        model.meta.headers@.len() == 0,
        headers_stepped(model, context, event, model_after, context_after),
    ensures
        model_after.selected == HeadersSelection::Nothing,
        model_after.meta.selected is None,
{
}

/// Law: whatever the key, the metadata zone is selected afterwards only if
/// the list has a row, and the cursor stands on a row of the list.
pub proof fn lemma_metadata_selection_is_legal(
    model: HeadersModel,
    context: AppContext,
    event: KeyEvent,
    model_after: HeadersModel,
    context_after: AppContext,
)
    requires
        model.wf(),
        headers_stepped(model, context, event, model_after, context_after),
        model_after.wf(),
    ensures
        model_after.selected == HeadersSelection::Meta ==> model_after.meta.headers@.len() > 0,
        model_after.meta.selected matches Some(c) ==> c.row < model_after.meta.headers@.len(),
        model.settled() ==> model_after.settled(),
{
}

/// Focus and shortcuts agree on the headers page: only the editor that has
/// the keyboard can be in insert mode, the zone selection is settled, and
/// the global shortcuts are off exactly if that editor is in insert mode.
pub open spec fn headers_focus_agrees(model: HeadersModel, context: AppContext) -> bool {
    &&& model.settled()
    &&& model.focused()
    &&& context.disable_root_events == model.inserting()
}

/// Law: a key on the headers page leaves focus and shortcuts in agreement.
pub proof fn lemma_headers_focus_is_kept(
    model: HeadersModel,
    context: AppContext,
    event: KeyEvent,
    model_after: HeadersModel,
    context_after: AppContext,
)
    requires
        model.wf(),
        model_after.wf(),
        headers_focus_agrees(model, context),
        headers_stepped(model, context, event, model_after, context_after),
    ensures
        headers_focus_agrees(model_after, context_after),
        !context_after.disable_root_events ==> model_after.quiet(),
{
    model.lemma_focused_inserting();
    lemma_metadata_selection_is_legal(model, context, event, model_after, context_after);
    match headers_command(model, context, event) {
        HeadersCommand::Dispatch => {
            match model.selected {
                HeadersSelection::Meta => {
                    MetaHeaders::lemma_step_keeps_focus(model.meta, event, model_after.meta);
                },
                HeadersSelection::Nothing => {
                    if MetaHeaders::added(model.meta, model_after.meta) {
                        let n = model.meta.headers@.len() as int;
                        assert forall|i: int|
                            0 <= i < model_after.meta.headers@.len() implies !(
                        #[trigger] model_after.meta.headers@[i]).0@.insert
                            && !model_after.meta.headers@[i].1@.insert by {
                            if i < n {
                                assert(model_after.meta.headers@[i]
                                    == model_after.meta.headers@.take(n)[i]);
                                assert(model_after.meta.headers@[i] == model.meta.headers@[i]);
                            } else {
                                assert(model_after.meta.headers@[i]
                                    == model_after.meta.headers@.last());
                            }
                        }
                    }
                },
                _ => {},
            }
        },
        _ => {},
    }
    model_after.lemma_focused_inserting();
}

/// The input on the headers page.
pub struct HeadersInput<'a> {
    pub model: &'a mut HeadersModel,
    pub context: &'a mut AppContext,
}

impl HeadersInput<'_> {
    /// The command that `event` stands for.
    pub fn command(model: &HeadersModel, context: &AppContext, event: KeyEvent) -> (command:
        HeadersCommand)
        ensures
            command == headers_command(*model, *context, event),
    {
        if context.disable_root_events {
            return HeadersCommand::Dispatch;
        }
        match event.code {
            KeyCode::Esc => HeadersCommand::Unselect,
            KeyCode::Up => if !model.meta.block_prev() {
                HeadersCommand::ZoneUp
            } else {
                HeadersCommand::Dispatch
            },
            KeyCode::Down => if !model.meta.block_next() {
                HeadersCommand::ZoneDown
            } else {
                HeadersCommand::Dispatch
            },
            KeyCode::Char(c) => if c == 'k' && !model.meta.block_prev() {
                HeadersCommand::ZoneUp
            } else if c == 'j' && !model.meta.block_next() {
                HeadersCommand::ZoneDown
            } else {
                HeadersCommand::Dispatch
            },
            _ => HeadersCommand::Dispatch,
        }
    }

    /// Handles a key on the headers page.
    pub fn handle(self, event: KeyEvent)
        requires
            old(self.model).wf(),
        ensures
            final(self.model).wf(),
            headers_stepped(
                *old(self.model),
                *old(self.context),
                event,
                *final(self.model),
                *final(self.context),
            ),
    {
        let HeadersInput { model, context } = self;
        let command = Self::command(model, context, event);
        match command {
            HeadersCommand::Unselect => {
                model.unselect();
            },
            HeadersCommand::ZoneUp => {
                model.selected = model.prev();
            },
            HeadersCommand::ZoneDown => {
                model.selected = model.next();
            },
            HeadersCommand::Dispatch => {
                let selected = model.selected;
                let roots = !context.disable_root_events;
                match selected {
                    HeadersSelection::Addr => match event.code {
                        KeyCode::Tab if roots => {
                            context.tab = context.tab.next();
                            context.sub = 0;
                        },
                        KeyCode::BackTab if roots => {
                            context.tab = context.tab.prev();
                            context.sub = 0;
                        },
                        _ => model.addr.on_key(event),
                    },
                    HeadersSelection::Auth => model.auth.on_key(event),
                    HeadersSelection::Meta => model.meta.on_key(event),
                    HeadersSelection::Nothing => match event.code {
                        KeyCode::Tab if roots => {
                            context.tab = context.tab.next();
                            context.sub = 0;
                        },
                        KeyCode::BackTab if roots => {
                            context.tab = context.tab.prev();
                            context.sub = 0;
                        },
                        KeyCode::Enter => {
                            model.selected = HeadersSelection::Addr;
                        },
                        KeyCode::Char(c) => {
                            if c == 'h' && event.is_control() {
                                model.meta.add();
                                model.selected = HeadersSelection::Meta;
                            }
                        },
                        _ => {},
                    },
                }
                // Disable all root key events unless all editors are in normal mode.
                context.disable_root_events = model.mode() != crate::editor::EditorMode::Normal;
                // Make sure that a valid field is selected
                if selected == HeadersSelection::Meta && model.meta.is_empty() {
                    model.selected = HeadersSelection::Nothing;
                }
            },
        }
    }
}

} // verus!
