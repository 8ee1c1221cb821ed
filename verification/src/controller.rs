//! The window controller: one active window out of four, insert mode
//! gating, and the toggles for help, address and metadata.

use crate::commons::HelpActions;
use crate::headers::MetaHeaders;
use crate::key::{KeyCode, KeyEvent};
use crate::messages::MessagesModel;
use crate::selection::{SelectionModel, Service};
use vstd::prelude::*;

verus! {

/// The window that has the keyboard.
#[derive(Clone, Copy, Debug, PartialEq, Eq, Structural)]
pub enum Window {
    Selection,
    Request,
    Address,
    Metadata,
}

/// Turns key input into actions on the models.
pub struct Controller {
    /// The model for the services and methods list.
    pub selection: SelectionModel,
    /// The model for the request and response messages. It holds the
    /// address field and the metadata field with its headers.
    pub messages: MessagesModel,
    /// The active window.
    pub window: Window,
    /// Whether to display the help.
    pub show_help: bool,
    /// Whether to display the address.
    pub show_address: bool,
    /// Whether to display the metadata.
    pub show_metadata: bool,
}

/// The hint shown in insert mode.
pub open spec fn insert_hints() -> Seq<(Seq<char>, Seq<char>)> {
    seq![("Esc"@, "Normal mode"@)]
}

/// The hints of the selection window. The last one depends on whether the
/// cursor stands on a service.
pub open spec fn selection_hints(parent: bool) -> Seq<(Seq<char>, Seq<char>)> {
    seq![
        ("q"@, "Quit"@),
        ("Tab"@, "Go to Request"@),
        ("j/↓"@, "down"@),
        ("k/↑"@, "up"@),
        if parent {
            ("Enter"@, "Select"@)
        } else {
            ("Esc"@, "Collapse"@)
        },
    ]
}

/// The hints of the request window.
pub open spec fn request_hints() -> Seq<(Seq<char>, Seq<char>)> {
    seq![
        ("q"@, "Quit"@),
        ("Tab"@, "Go to Selection"@),
        ("i"@, "Insert mode"@),
        ("p"@, "Paste"@),
        ("u"@, "Undo"@),
        ("y"@, "Yank"@),
        ("<C-y>"@, "Yank as grpcurl"@),
        ("Enter"@, "gRPC request"@),
    ]
}

/// The hints of the metadata window. The third one depends on whether the
/// cursor stands on a key.
pub open spec fn metadata_hints(key: bool) -> Seq<(Seq<char>, Seq<char>)> {
    seq![
        ("q"@, "Quit"@),
        ("M"@, "Untoggle metadata"@),
        if key {
            ("Tab"@, "Select Value"@)
        } else {
            ("Tab"@, "Select Key"@)
        },
        ("i"@, "Insert mode"@),
        ("p"@, "Paste"@),
        ("u"@, "Undo"@),
        ("y"@, "Yank"@),
    ]
}

/// The hints of the address window.
pub open spec fn address_hints() -> Seq<(Seq<char>, Seq<char>)> {
    seq![("q"@, "Quit"@), ("A"@, "Untoggle address"@), ("i"@, "Insert mode"@)]
}

impl Controller {
    /// The models are consistent.
    pub open spec fn wf(&self) -> bool {
        self.selection.wf() && self.messages.wf()
    }

    /// Whether an editor is in insert mode: the request, the address, or
    /// the metadata editor under the cursor.
    pub open spec fn inserting(&self) -> bool {
        ||| self.messages.request.editor@.insert
        ||| self.messages.headers_model.addr@.insert
        ||| self.messages.headers_model.meta.inserting()
    }

    /// The controller with the help switched over.
    pub open spec fn help_toggled(&self) -> Controller {
        Controller { show_help: !self.show_help, ..*self }
    }

    /// The controller with the address switched over: shown, with the
    /// address window active, or hidden, with the request window active.
    pub open spec fn address_toggled(&self) -> Controller {
        Controller {
            show_address: !self.show_address,
            window: if !self.show_address {
                Window::Address
            } else {
                Window::Request
            },
            ..*self
        }
    }

    /// The window after the metadata were switched over.
    pub open spec fn metadata_window(&self) -> Window {
        if !self.show_metadata {
            Window::Metadata
        } else {
            Window::Request
        }
    }

    /// The hints for the state at hand, if the help is shown.
    pub open spec fn hints(&self) -> Option<Seq<(Seq<char>, Seq<char>)>> {
        if !self.show_help {
            None
        } else if self.inserting() {
            Some(insert_hints())
        } else {
            Some(
                match self.window {
                    Window::Selection => selection_hints(self.selection.method is None),
                    Window::Request => request_hints(),
                    Window::Metadata => metadata_hints(
                        self.messages.headers_model.meta.selected matches Some(c) && c.col == 0,
                    ),
                    Window::Address => address_hints(),
                },
            )
        }
    }

    /// What a key does in insert mode: it goes to the editor of the active
    /// window, and to nobody on the selection window. No window changes and
    /// nothing is toggled.
    pub open spec fn insert_stepped(before: Controller, key: KeyEvent, after: Controller) -> bool {
        let headers = before.messages.headers_model;
        match before.window {
            Window::Selection => after == before,
            Window::Request => {
                &&& after.messages.request.editor.keyed_from(
                    before.messages.request.editor,
                    key,
                )
                &&& after == (Controller {
                    messages: MessagesModel { request: after.messages.request, ..before.messages },
                    ..before
                })
            },
            Window::Address => {
                &&& after.messages.headers_model.addr.keyed_from(headers.addr, key)
                &&& after == (Controller {
                    messages: MessagesModel {
                        headers_model: crate::headers::HeadersModel {
                            addr: after.messages.headers_model.addr,
                            ..headers
                        },
                        ..before.messages
                    },
                    ..before
                })
            },
            Window::Metadata => {
                &&& Self::metadata_keyed(before, key, after)
            },
        }
    }

    /// The key went to the metadata editor under the cursor, if there is a
    /// cursor, and nothing else changed.
    pub open spec fn metadata_keyed(before: Controller, key: KeyEvent, after: Controller) -> bool {
        let headers = before.messages.headers_model;
        &&& match headers.meta.selected {
            Some(c) => MetaHeaders::forwarded(
                headers.meta,
                c,
                key,
                after.messages.headers_model.meta,
            ),
            None => after.messages.headers_model.meta == headers.meta,
        }
        &&& after == (Controller {
            messages: MessagesModel {
                headers_model: crate::headers::HeadersModel {
                    meta: after.messages.headers_model.meta,
                    ..headers
                },
                ..before.messages
            },
            ..before
        })
    }

    /// The selection moved to `moved`, and the method under the cursor, if
    /// the cursor stands on one, was loaded into the messages.
    pub open spec fn browsed(before: Controller, moved: SelectionModel, after: Controller) -> bool {
        &&& after.selection == moved
        &&& after == (Controller { selection: moved, messages: after.messages, ..before })
        &&& match moved.chosen() {
            Some(method) => MessagesModel::method_loaded(
                before.messages,
                method,
                moved.template_of(method),
                after.messages,
            ),
            None => after.messages == before.messages,
        }
    }

    /// What one of the three toggle keys does, in a window that honours it.
    pub open spec fn toggled(before: Controller, c: char, after: Controller) -> bool {
        if c == 'H' {
            after == before.help_toggled()
        } else if c == 'A' {
            after == before.address_toggled()
        } else {
            after == before.metadata_toggled()
        }
    }

    /// The controller with the metadata switched over: shown, with the
    /// metadata window active, or hidden, with the request window active.
    /// Nothing else changes.
    pub open spec fn metadata_toggled(&self) -> Controller {
        Controller {
            show_metadata: !self.show_metadata,
            window: self.metadata_window(),
            ..*self
        }
    }

    /// What a key does on the selection window, in normal mode.
    pub open spec fn selection_stepped(before: Controller, key: KeyEvent, after: Controller)
        -> bool {
        match key.code {
            KeyCode::Tab => after == (Controller { window: Window::Request, ..before }),
            KeyCode::Down => Self::browsed(before, before.selection.below(), after),
            KeyCode::Up => Self::browsed(before, before.selection.above(), after),
            KeyCode::Enter => if before.selection.method is None {
                Self::browsed(before, before.selection.opened(), after)
            } else {
                after == before
            },
            KeyCode::Esc => if before.selection.method is Some {
                &&& after.selection == before.selection.at_method(None)
                &&& MessagesModel::method_cleared(before.messages, after.messages)
                &&& after == (Controller {
                    selection: after.selection,
                    messages: after.messages,
                    ..before
                })
            } else {
                after == before
            },
            KeyCode::Char(c) => if c == 'j' {
                Self::browsed(before, before.selection.below(), after)
            } else if c == 'k' {
                Self::browsed(before, before.selection.above(), after)
            } else if c == 'H' || c == 'A' || c == 'M' {
                Self::toggled(before, c, after)
            } else {
                after == before
            },
            _ => after == before,
        }
    }

    /// What a key does on the request window, in normal mode.
    pub open spec fn request_stepped(before: Controller, key: KeyEvent, after: Controller) -> bool {
        let edited = {
            &&& after.messages.request.editor.keyed_from(
                    before.messages.request.editor,
                    key,
                )
            &&& after == (Controller {
                messages: MessagesModel { request: after.messages.request, ..before.messages },
                ..before
            })
        };
        match key.code {
            KeyCode::Tab => after == (Controller { window: Window::Selection, ..before }),
            KeyCode::Enter => {
                &&& MessagesModel::request_started(before.messages, after.messages)
                &&& after == (Controller { messages: after.messages, ..before })
            },
            KeyCode::Char(c) => if c == 'y' && key.control() {
                after == (Controller {
                    messages: MessagesModel { yank_pending: true, ..before.messages },
                    ..before
                })
            } else if c == 'H' || c == 'A' || c == 'M' {
                Self::toggled(before, c, after)
            } else {
                edited
            },
            _ => edited,
        }
    }

    /// What a key does on the metadata window, in normal mode.
    pub open spec fn metadata_stepped(before: Controller, key: KeyEvent, after: Controller)
        -> bool {
        let headers = before.messages.headers_model;
        match key.code {
            KeyCode::Tab => after == (Controller {
                messages: MessagesModel {
                    headers_model: crate::headers::HeadersModel {
                        meta: MetaHeaders {
                            selected: match headers.meta.selected {
                                Some(c) => Some(MetaHeaders::cursor_across(c)),
                                None => None,
                            },
                            ..headers.meta
                        },
                        ..headers
                    },
                    ..before.messages
                },
                ..before
            }),
            KeyCode::Char(c) => if c == 'H' || c == 'M' {
                Self::toggled(before, c, after)
            } else {
                Self::metadata_keyed(before, key, after)
            },
            _ => Self::metadata_keyed(before, key, after),
        }
    }

    /// What a key does on the address window, in normal mode.
    pub open spec fn address_stepped(before: Controller, key: KeyEvent, after: Controller) -> bool {
        let headers = before.messages.headers_model;
        let edited = {
            &&& after.messages.headers_model.addr.keyed_from(headers.addr, key)
            &&& after == (Controller {
                messages: MessagesModel {
                    headers_model: crate::headers::HeadersModel {
                        addr: after.messages.headers_model.addr,
                        ..headers
                    },
                    ..before.messages
                },
                ..before
            })
        };
        match key.code {
            KeyCode::Char(c) => if c == 'H' || c == 'A' {
                Self::toggled(before, c, after)
            } else {
                edited
            },
            _ => edited,
        }
    }

    /// What a key does. In insert mode it goes to the editor and no
    /// shortcut is read: `quit` is false whatever the key. In normal mode
    /// `q` quits and changes nothing; any other key goes to the handler of
    /// the active window.
    pub open spec fn stepped(before: Controller, key: KeyEvent, after: Controller, quit: bool)
        -> bool {
        if before.inserting() {
            !quit && Self::insert_stepped(before, key, after)
        } else if key.code == KeyCode::Char('q') {
            quit && after == before
        } else {
            &&& !quit
            &&& match before.window {
                Window::Selection => Self::selection_stepped(before, key, after),
                Window::Request => Self::request_stepped(before, key, after),
                Window::Metadata => Self::metadata_stepped(before, key, after),
                Window::Address => Self::address_stepped(before, key, after),
            }
        }
    }

    /// Law: while an editor is in insert mode, no key quits, `q` least of
    /// all, no key changes the window and no key toggles anything. Once no
    /// editor is in insert mode, `q` quits.
    pub proof fn lemma_insert_mode_gates_shortcuts(
        before: Controller,
        key: KeyEvent,
        after: Controller,
        quit: bool,
    )
        requires
            Self::stepped(before, key, after, quit),
        ensures
            before.inserting() ==> !quit,
            before.inserting() ==> after.window == before.window,
            before.inserting() ==> after.show_help == before.show_help && after.show_address
                == before.show_address && after.show_metadata == before.show_metadata,
            before.inserting() ==> after.selection == before.selection,
            !before.inserting() ==> (quit <==> key.code == KeyCode::Char('q')),
    {
    }

    /// Tests whether the models are consistent.
    pub fn is_consistent(&self) -> (ok: bool)
        ensures
            ok == self.wf(),
    {
        self.selection.is_consistent() && self.messages.is_consistent()
    }

    /// The controller at start: the selection window is active, the help is
    /// shown, address and metadata are hidden.
    pub fn new(services: Vec<Service>, default_address: &str) -> (controller: Self)
        ensures
            controller.wf(),
            controller.selection.services == services,
            controller.selection.method is None,
            controller.messages.selected_method is None,
            controller.messages.headers_model.addr@.rows == crate::text::split_lines(
                default_address@,
            ),
            controller.messages.headers_model.meta.headers@.len() == 0,
            controller.messages.headers_model.meta.selected is None,
            controller.window == Window::Selection,
            controller.show_help,
            !controller.show_address,
            !controller.show_metadata,
            !controller.inserting(),
    {
        // The selection model
        let selection = SelectionModel::new(services);
        // The messages model, with the address and the metadata
        let messages = MessagesModel::new(default_address, false, true);
        Self {
            selection,
            messages,
            window: Window::Selection,
            show_help: true,
            show_address: false,
            show_metadata: false,
        }
    }

    /// Handles key events. Returns true if the app should quit.
    pub fn on_event(&mut self, key: KeyEvent) -> (quit: bool)
        requires
            old(self).wf(),
        ensures
            final(self).wf(),
            Self::stepped(*old(self), key, *final(self), quit),
    {
        // Handle events when in insert mode
        if self.insert_mode() {
            self.on_event_insert_mode(key);
            return false;
        }
        // Always quit on q in normal mode
        if key.code == KeyCode::Char('q') {
            return true;
        }
        // Handle events in normal mode
        match self.window {
            Window::Selection => self.on_event_selection(key),
            Window::Request => self.on_event_request(key),
            Window::Metadata => self.on_event_metadata(key),
            Window::Address => self.on_event_address(key),
        }
        false
    }

    /// Whether we are in insert mode on any window.
    pub fn insert_mode(&self) -> (insert: bool)
        requires
            self.wf(),
        ensures
            insert == self.inserting(),
    {
        self.messages.request.editor.insert_mode() || self.messages.headers_model.addr.insert_mode()
            || self.messages.headers_model.meta.insert_mode()
    }

    /// Handle key events in insert mode.
    pub fn on_event_insert_mode(&mut self, key: KeyEvent)
        requires
            old(self).wf(),
        ensures
            final(self).wf(),
            Self::insert_stepped(*old(self), key, *final(self)),
    {
        match self.window {
            Window::Selection => (),
            Window::Request => self.messages.request.editor.on_key(key),
            Window::Metadata => self.messages.headers_model.meta.forward(key),
            Window::Address => self.messages.headers_model.addr.on_key(key),
        }
    }

    fn load_selected(&mut self)
        requires
            old(self).wf(),
        ensures
            final(self).wf(),
            Self::browsed(*old(self), old(self).selection, *final(self)),
    {
        if let Some(method) = self.selection.selected_method() {
            let template = self.selection.template(method);
            self.messages.load_method(method, template.as_str());
        }
    }

    fn toggle(&mut self, c: char)
        requires
            c == 'H' || c == 'A' || c == 'M',
        ensures
            Self::toggled(*old(self), c, *final(self)),
            old(self).wf() ==> final(self).wf(),
    {
        if c == 'H' {
            self.toggle_help();
        } else if c == 'A' {
            self.toggle_address();
        } else {
            self.toggle_metadata();
        }
    }

    /// Handle key events on the selection window.
    fn on_event_selection(&mut self, key: KeyEvent)
        requires
            old(self).wf(),
        ensures
            final(self).wf(),
            Self::selection_stepped(*old(self), key, *final(self)),
    {
        match key.code {
            KeyCode::Tab => {
                self.window = Window::Request;
            },
            KeyCode::Down => {
                self.selection.next();
                self.load_selected();
            },
            KeyCode::Up => {
                self.selection.previous();
                self.load_selected();
            },
            KeyCode::Enter => {
                if self.selection.is_parent_selected() {
                    self.selection.expand();
                    self.load_selected();
                }
            },
            KeyCode::Esc => {
                if !self.selection.is_parent_selected() {
                    self.selection.collapse();
                    self.selection.clear_method();
                    self.messages.clear_method();
                }
            },
            KeyCode::Char(c) => {
                if c == 'j' {
                    self.selection.next();
                    self.load_selected();
                } else if c == 'k' {
                    self.selection.previous();
                    self.load_selected();
                } else if c == 'H' || c == 'A' || c == 'M' {
                    self.toggle(c);
                }
            },
            _ => {},
        }
    }

    /// Handle key events on the request window.
    fn on_event_request(&mut self, key: KeyEvent)
        requires
            old(self).wf(),
        ensures
            final(self).wf(),
            Self::request_stepped(*old(self), key, *final(self)),
    {
        match key.code {
            KeyCode::Tab => {
                self.window = Window::Selection;
            },
            KeyCode::Enter => self.messages.call_grpc(),
            KeyCode::Char(c) => {
                if c == 'y' && key.is_control() {
                    self.messages.yank_grpcurl();
                } else if c == 'H' || c == 'A' || c == 'M' {
                    self.toggle(c);
                } else {
                    self.messages.request.editor.on_key(key);
                }
            },
            _ => self.messages.request.editor.on_key(key),
        }
    }

    /// Handle key events on the metadata window.
    fn on_event_metadata(&mut self, key: KeyEvent)
        requires
            old(self).wf(),
        ensures
            final(self).wf(),
            Self::metadata_stepped(*old(self), key, *final(self)),
    {
        match key.code {
            KeyCode::Tab => {
                if self.messages.headers_model.meta.is_key_selected() {
                    self.messages.headers_model.meta.select_val();
                } else {
                    self.messages.headers_model.meta.select_key();
                }
            },
            KeyCode::Char(c) => {
                if c == 'H' || c == 'M' {
                    self.toggle(c);
                } else {
                    self.messages.headers_model.meta.forward(key);
                }
            },
            _ => self.messages.headers_model.meta.forward(key),
        }
    }

    /// Handle key events on the address window.
    fn on_event_address(&mut self, key: KeyEvent)
        requires
            old(self).wf(),
        ensures
            final(self).wf(),
            Self::address_stepped(*old(self), key, *final(self)),
    {
        match key.code {
            KeyCode::Char(c) => {
                if c == 'H' || c == 'A' {
                    self.toggle(c);
                } else {
                    self.messages.headers_model.addr.on_key(key);
                }
            },
            _ => self.messages.headers_model.addr.on_key(key),
        }
    }

    /// Returns the help actions of the current active window, or nothing
    /// while the help is hidden.
    pub fn help_hint(&self) -> (actions: Option<HelpActions>)
        requires
            self.wf(),
        ensures
            match actions {
                Some(list) => self.hints() == Some(list@),
                None => self.hints() is None,
            },
    {
        if !self.show_help {
            return None;
        }
        let mut actions = HelpActions::new();
        // help in insert mode
        if self.insert_mode() {
            actions.insert("Esc", "Normal mode");
            assert(actions@ =~= insert_hints());
            return Some(actions);
        }
        // help in normal mode
        match self.window {
            Window::Selection => {
                let parent = self.selection.is_parent_selected();
                actions.insert("q", "Quit");
                actions.insert("Tab", "Go to Request");
                actions.insert("j/↓", "down");
                actions.insert("k/↑", "up");
                if parent {
                    actions.insert("Enter", "Select");
                } else {
                    actions.insert("Esc", "Collapse");
                }
                assert(actions@ =~= selection_hints(parent));
            },
            Window::Request => {
                actions.insert("q", "Quit");
                actions.insert("Tab", "Go to Selection");
                actions.insert("i", "Insert mode");
                actions.insert("p", "Paste");
                actions.insert("u", "Undo");
                actions.insert("y", "Yank");
                actions.insert("<C-y>", "Yank as grpcurl");
                actions.insert("Enter", "gRPC request");
                assert(actions@ =~= request_hints());
            },
            Window::Metadata => {
                let key = self.messages.headers_model.meta.is_key_selected();
                actions.insert("q", "Quit");
                actions.insert("M", "Untoggle metadata");
                if key {
                    actions.insert("Tab", "Select Value");
                } else {
                    actions.insert("Tab", "Select Key");
                }
                actions.insert("i", "Insert mode");
                actions.insert("p", "Paste");
                actions.insert("u", "Undo");
                actions.insert("y", "Yank");
                assert(actions@ =~= metadata_hints(key));
            },
            Window::Address => {
                actions.insert("q", "Quit");
                actions.insert("A", "Untoggle address");
                actions.insert("i", "Insert mode");
                assert(actions@ =~= address_hints());
            },
        }
        Some(actions)
    }

    /// Toggle the help window on or off.
    pub fn toggle_help(&mut self)
        ensures
            *final(self) == old(self).help_toggled(),
    {
        self.show_help = !self.show_help;
    }

    /// Toggle the address window on or off.
    pub fn toggle_address(&mut self)
        ensures
            *final(self) == old(self).address_toggled(),
    {
        self.show_address = !self.show_address;
        if self.show_address {
            self.window = Window::Address;
        } else {
            self.window = Window::Request;
        };
    }

    /// Toggle the metadata window on or off.
    pub fn toggle_metadata(&mut self)
        ensures
            *final(self) == old(self).metadata_toggled(),
    {
        self.show_metadata = !self.show_metadata;
        if self.show_metadata {
            self.window = Window::Metadata;
        } else {
            self.window = Window::Request;
        };
    }
}

} // verus!
