//! The state that every dispatcher shares: which tab is shown, which of its
//! sub windows has the cursor, and whether the global shortcuts are off.

use crate::config::Config;
use crate::input::{
    headers_stepped, messages_command, messages_edited, messages_inserting, messages_stepped,
    selection_stepped, HeadersInput, MessagesCommand, MessagesInput, SelectionInput,
};
use crate::key::{KeyCode, KeyEvent, KeyModifiers};
use crate::messages::MessagesModel;
use crate::selection::{SelectionModel, Service};
use vstd::prelude::*;

verus! {

/// A top-level page. The three tabs form a cycle: Selection, Messages,
/// Headers, and Selection again.
#[derive(Debug, PartialEq, Eq, Clone, Copy, Structural)]
pub enum Tab {
    Selection,
    Messages,
    Headers,
}

impl Default for Tab {
    fn default() -> (tab: Self)
        ensures
            tab == Tab::Selection,
    {
        Tab::Selection
    }
}

impl Tab {
    /// The tab after this one in the cycle.
    pub open spec fn after(self) -> Tab {
        match self {
            Tab::Selection => Tab::Messages,
            Tab::Messages => Tab::Headers,
            Tab::Headers => Tab::Selection,
        }
    }

    /// The tab before this one in the cycle.
    pub open spec fn before(self) -> Tab {
        match self {
            Tab::Selection => Tab::Headers,
            Tab::Headers => Tab::Messages,
            Tab::Messages => Tab::Selection,
        }
    }

    /// The tab's place in the navigation bar, counted from zero.
    pub open spec fn position(self) -> int {
        match self {
            Tab::Selection => 0,
            Tab::Messages => 1,
            Tab::Headers => 2,
        }
    }

    /// The next tab; after the last comes the first.
    pub fn next(self) -> (tab: Self)
        ensures
            tab == self.after(),
    {
        match self {
            Self::Selection => Self::Messages,
            Self::Messages => Self::Headers,
            Self::Headers => Self::Selection,
        }
    }

    /// The previous tab; before the first comes the last.
    pub fn prev(self) -> (tab: Self)
        ensures
            tab == self.before(),
    {
        match self {
            Self::Selection => Self::Headers,
            Self::Headers => Self::Messages,
            Self::Messages => Self::Selection,
        }
    }

    /// The tab's place in the navigation bar.
    pub fn index(self) -> (i: usize)
        ensures
            i == self.position(),
    {
        match self {
            Self::Selection => 0,
            Self::Messages => 1,
            Self::Headers => 2,
        }
    }

    /// Law: three steps forward lead back to where one started, and so do
    /// three steps backward. A step forward and a step backward undo each
    /// other, and a step forward moves one place along the navigation bar,
    /// around its end.
    pub proof fn lemma_cycle(self)
        ensures
            self.after().after().after() == self,
            self.before().before().before() == self,
            self.after().before() == self,
            self.before().after() == self,
            self.after().position() == (self.position() + 1) % 3,
            self.before().position() == (self.position() + 2) % 3,
    {
    }
}

/// The state shared by the dispatchers, for one run of the application.
#[derive(Debug)]
pub struct AppContext {
    /// The main tab.
    pub tab: Tab,
    /// The index of the sub window. It counts within the active tab, and
    /// starts again at zero whenever the tab changes.
    pub sub: usize,
    /// Disable root key events, such as quit, while an editor is in insert
    /// mode.
    pub disable_root_events: bool,
}

impl Default for AppContext {
    fn default() -> (context: Self)
        ensures
            context == AppContext::initial(),
    {
        AppContext { tab: Tab::Selection, sub: 0, disable_root_events: false }
    }
}

impl AppContext {
    /// The context at start: the Selection tab, its first sub window, global
    /// shortcuts on.
    pub open spec fn initial() -> AppContext {
        AppContext { tab: Tab::Selection, sub: 0, disable_root_events: false }
    }

    /// The context moved to `tab`, on its first sub window.
    pub open spec fn at_tab(self, tab: Tab) -> AppContext {
        AppContext { tab, sub: 0, ..self }
    }

    /// The context at start.
    pub fn new() -> (context: Self)
        ensures
            context == Self::initial(),
    {
        AppContext { tab: Tab::Selection, sub: 0, disable_root_events: false }
    }
}

/// The application without its terminal: the context, the models of the
/// three pages and the mark that says when to stop. The messages model
/// holds the headers.
pub struct App {
    /// The context containing app-specific data.
    pub context: AppContext,
    /// The model of the selection page.
    pub selection: SelectionModel,
    /// The model of the messages page, and with it that of the headers page.
    pub messages: MessagesModel,
    /// Indicating whether the application should quit or not.
    pub should_quit: bool,
}

impl App {
    /// The models are consistent.
    pub open spec fn wf(&self) -> bool {
        self.selection.wf() && self.messages.wf()
    }

    /// Whether any editor of the application is in insert mode.
    pub open spec fn any_insert(&self) -> bool {
        ||| self.messages.request.editor@.insert
        ||| self.messages.response.editor@.insert
        ||| !self.messages.headers_model.quiet()
    }

    /// Focus and shortcuts agree: no editor is in insert mode but the one
    /// that has the keyboard, and the global shortcuts are off exactly if
    /// that one is. The editor with the keyboard is the request or the response
    /// on the messages page, whichever the sub window names, and the one
    /// that the zone selection names on the headers page. The selection
    /// page has none.
    pub open spec fn focus_agrees(&self) -> bool {
        let messages = self.messages;
        let headers = messages.headers_model;
        let off = self.context.disable_root_events;
        &&& headers.settled()
        &&& match self.context.tab {
            Tab::Selection => !off && !self.any_insert(),
            Tab::Messages => {
                &&& headers.quiet()
                &&& if self.context.sub == 0 {
                    !messages.response.editor@.insert && off == messages.request.editor@.insert
                } else if self.context.sub == 1 {
                    !messages.request.editor@.insert && off == messages.response.editor@.insert
                } else {
                    !off && !self.any_insert()
                }
            },
            Tab::Headers => {
                &&& !messages.request.editor@.insert
                &&& !messages.response.editor@.insert
                &&& headers.focused()
                &&& off == headers.inserting()
            },
        }
    }

    /// Whether a key is the quit key and is read as such: `q`, while the
    /// global shortcuts are on.
    pub open spec fn quits(context: AppContext, event: KeyEvent) -> bool {
        event.code == KeyCode::Char('q') && !context.disable_root_events
    }

    /// What a key does. The quit key, read while the global shortcuts are
    /// on, sets the quit mark and nothing else. Any other key goes to the
    /// dispatcher of the active tab and leaves the quit mark alone.
    pub open spec fn stepped(before: App, event: KeyEvent, after: App) -> bool {
        if Self::quits(before.context, event) {
            after == (App { should_quit: true, ..before })
        } else {
            &&& after.should_quit == before.should_quit
            &&& match before.context.tab {
                Tab::Selection => selection_stepped(
                    before.selection,
                    before.messages,
                    before.context,
                    event.code,
                    after.selection,
                    after.messages,
                    after.context,
                ),
                Tab::Messages => {
                    &&& after.selection == before.selection
                    &&& messages_stepped(
                        before.messages,
                        before.context,
                        event,
                        after.messages,
                        after.context,
                    )
                },
                Tab::Headers => {
                    &&& after.selection == before.selection
                    &&& after.messages == (MessagesModel {
                        headers_model: after.messages.headers_model,
                        ..before.messages
                    })
                    &&& headers_stepped(
                        before.messages.headers_model,
                        before.context,
                        event,
                        after.messages.headers_model,
                        after.context,
                    )
                },
            }
        }
    }

    /// Law: while the global shortcuts are off, no key sets the quit mark,
    /// and no key leads away from a tab that has editors. While they are
    /// on, the quit mark is set by `q` and by no other key.
    pub proof fn lemma_shortcuts_off_means_no_quit(before: App, event: KeyEvent, after: App)
        requires
            Self::stepped(before, event, after),
        ensures
            before.context.disable_root_events ==> after.should_quit == before.should_quit,
            before.context.disable_root_events && before.context.tab != Tab::Selection
                ==> after.context.tab == before.context.tab,
            !before.context.disable_root_events && !before.should_quit ==> (after.should_quit
                <==> event.code == KeyCode::Char('q')),
    {
    }

    /// Law: focus and shortcuts stay in agreement. If they agree before a
    /// key, they agree after the key.
    pub proof fn lemma_focus_is_kept(before: App, event: KeyEvent, after: App)
        requires
            before.wf(),
            after.wf(),
            before.focus_agrees(),
            Self::stepped(before, event, after),
        ensures
            after.focus_agrees(),
    {
        if Self::quits(before.context, event) {
        } else {
            match before.context.tab {
                Tab::Selection => {},
                Tab::Messages => {},
                Tab::Headers => {
                    crate::input::lemma_headers_focus_is_kept(
                        before.messages.headers_model,
                        before.context,
                        event,
                        after.messages.headers_model,
                        after.context,
                    );
                },
            }
        }
    }

    /// Law: with focus and shortcuts in agreement, an editor in insert mode
    /// keeps every key from the global shortcuts. While any editor is in insert mode the
    /// shortcuts are off, so that no key sets the quit mark, `q` least of
    /// all; and while none is, `q` sets it.
    pub proof fn lemma_insert_mode_gates_quit(before: App, event: KeyEvent, after: App)
        requires
            before.wf(),
            before.focus_agrees(),
            Self::stepped(before, event, after),
        ensures
            before.any_insert() <==> before.context.disable_root_events,
            before.any_insert() ==> after.should_quit == before.should_quit,
            !before.any_insert() && event.code == KeyCode::Char('q') ==> after.should_quit,
    {
        if before.context.tab == Tab::Headers {
            before.messages.headers_model.lemma_focused_inserting();
        }
    }

    /// Law: on the messages page, with the global shortcuts on, the key
    /// `i` puts the request editor into insert mode and switches the global
    /// shortcuts off, if the editor is in normal mode and holds no key back.
    /// Esc, read by the request editor in insert mode, switches them on
    /// again.
    pub proof fn lemma_insert_key_switches_the_shortcuts(before: App, event: KeyEvent, after: App)
        requires
            before.context.tab == Tab::Messages,
            before.context.sub == 0,
            before.messages.request.editor@.pending == 0,
            Self::stepped(before, event, after),
        ensures
            event == (KeyEvent { code: KeyCode::Char('i'), modifiers: KeyModifiers::Unmodified })
                && !before.context.disable_root_events && before.messages.request.editor@.normal
                ==> after.context.disable_root_events && after.messages.request.editor@.insert,
            event == (KeyEvent { code: KeyCode::Esc, modifiers: KeyModifiers::Unmodified })
                && before.context.disable_root_events && before.messages.request.editor@.insert
                ==> !after.context.disable_root_events && after.messages.request.editor@.normal,
    {
    }

    /// Law: a key that leaves the editor of the messages page in insert mode
    /// switches the global shortcuts off, so that the next `q` is text: it
    /// goes to that editor and does not set the quit mark.
    pub proof fn lemma_insert_mode_takes_the_quit_key(
        start: App,
        first: KeyEvent,
        typing: App,
        second: KeyEvent,
        after: App,
    )
        requires
            start.context.tab == Tab::Messages,
            !Self::quits(start.context, first),
            messages_command(start.context, first) == MessagesCommand::Edit,
            Self::stepped(start, first, typing),
            messages_inserting(typing.messages, start.context.sub),
            second.code == KeyCode::Char('q'),
            Self::stepped(typing, second, after),
        ensures
            typing.context.disable_root_events,
            after.should_quit == start.should_quit,
            after.context.tab == Tab::Messages,
            messages_edited(typing.messages, typing.context.sub, second, after.messages),
            after.context.disable_root_events == messages_inserting(
                after.messages,
                typing.context.sub,
            ),
    {
    }

    /// Tests whether the models are consistent.
    pub fn is_consistent(&self) -> (ok: bool)
        ensures
            ok == self.wf(),
    {
        self.selection.is_consistent() && self.messages.is_consistent()
    }

    /// The application at start: the first tab, the catalogue as given, the
    /// address and the history settings of the configuration.
    pub fn new(env: &Config, services: Vec<Service>) -> (app: Self)
        ensures
            app.wf(),
            app.focus_agrees(),
            app.context == AppContext::initial(),
            !app.should_quit,
            app.selection.services == services,
            app.selection.method is None,
            app.messages.selected_method is None,
            app.messages.headers_model.addr@.rows == crate::text::split_lines(
                env.server.default_address@,
            ),
            app.messages.history_model.autosave == env.history.autosave,
            app.messages.history_model.disabled == env.history.disabled,
            !app.messages.is_processing,
    {
        App {
            context: AppContext::new(),
            selection: SelectionModel::new(services),
            messages: MessagesModel::new(
                env.server.default_address.as_str(),
                env.history.autosave,
                env.history.disabled,
            ),
            should_quit: false,
        }
    }

    /// Handles one key.
    pub fn handle_key_event(&mut self, event: KeyEvent)
        requires
            old(self).wf(),
        ensures
            final(self).wf(),
            Self::stepped(*old(self), event, *final(self)),
    {
        if event.code == KeyCode::Char('q') && !self.context.disable_root_events {
            self.should_quit = true;
            return ;
        }
        match self.context.tab {
            Tab::Selection => {
                SelectionInput {
                    model: &mut self.selection,
                    messages_model: &mut self.messages,
                    context: &mut self.context,
                }.handle(event.code);
            },
            Tab::Messages => {
                MessagesInput { model: &mut self.messages, context: &mut self.context }.handle(
                    event,
                );
            },
            Tab::Headers => {
                HeadersInput {
                    model: &mut self.messages.headers_model,
                    context: &mut self.context,
                }.handle(event);
            },
        }
    }

    /// Whether a call was started that is still to be made. Whoever runs
    /// the event loop draws once more and then makes the call.
    pub fn needs_request(&self) -> (pending: bool)
        ensures
            pending == self.messages.is_processing,
    {
        self.messages.is_processing
    }
}

} // verus!
