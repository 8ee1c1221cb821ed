//! The model of the messages page: the request being written, the response
//! of the last call, the method they belong to, the headers that go with
//! the request and the history of saved requests.

use crate::editor::{EditorView, ErrorKind, TextEditor};
use crate::headers::{HeadersModel, HeadersSelection};
use crate::history::{recorded, HistoryModel, Snapshot, SnapshotView};
use crate::selection::MethodId;
use crate::text::{join_lines, lemma_join_split_round_trip, separable, split_lines};
use vstd::prelude::*;

verus! {

/// The request editor.
pub struct RequestModel {
    pub editor: TextEditor,
}

impl RequestModel {
    /// An empty request.
    pub fn new() -> (request: Self)
        ensures
            request.editor@ == TextEditor::empty_view(),
    {
        RequestModel { editor: TextEditor::new() }
    }

    /// Replaces the request by the template of a method and empties the
    /// error slot.
    pub fn load_template(&mut self, template: &str)
        ensures
            final(self).editor@ == (EditorView {
                rows: split_lines(template@),
                error: None,
                ..old(self).editor@
            }),
    {
        self.editor.set_text_raw(template);
        self.editor.set_error(None);
    }
}

/// The response editor.
pub struct ResponseModel {
    pub editor: TextEditor,
}

impl ResponseModel {
    /// An empty response.
    pub fn new() -> (response: Self)
        ensures
            response.editor@ == TextEditor::empty_view(),
    {
        ResponseModel { editor: TextEditor::new() }
    }
}

/// The part of the state that a snapshot keeps, as rows of text: the
/// request, the address, and for each metadata row its key and its value.
pub ghost struct Content {
    pub request: Seq<Seq<char>>,
    pub address: Seq<Seq<char>>,
    pub metadata: Seq<(Seq<Seq<char>>, Seq<Seq<char>>)>,
}

/// The snapshot that keeps a content: each buffer joined into one text.
pub open spec fn snapshot_of(content: Content) -> SnapshotView {
    SnapshotView {
        address: join_lines(content.address),
        metadata: content.metadata.map_values(
            |pair: (Seq<Seq<char>>, Seq<Seq<char>>)| (join_lines(pair.0), join_lines(pair.1)),
        ),
        request: join_lines(content.request),
    }
}

/// The content that a snapshot brings back: each text split into lines.
pub open spec fn content_of(snapshot: SnapshotView) -> Content {
    Content {
        request: split_lines(snapshot.request),
        address: split_lines(snapshot.address),
        metadata: snapshot.metadata.map_values(
            |pair: (Seq<char>, Seq<char>)| (split_lines(pair.0), split_lines(pair.1)),
        ),
    }
}

/// What the response shows while a call is under way.
pub open spec fn processing_text() -> Seq<char> {
    "Processing..."@
}

/// The model of the messages page.
pub struct MessagesModel {
    /// The request.
    pub request: RequestModel,
    /// The response.
    pub response: ResponseModel,
    /// The method that request and response belong to.
    pub selected_method: Option<MethodId>,
    /// The template of that method.
    pub template: String,
    /// The saved requests.
    pub history_model: HistoryModel,
    /// Address, authentication and metadata.
    pub headers_model: HeadersModel,
    /// Whether a call was started and not yet made.
    pub is_processing: bool,
    /// Whether the request was asked for as a command line, for the
    /// clipboard.
    pub yank_pending: bool,
}

impl MessagesModel {
    /// The history and the headers are consistent.
    pub open spec fn wf(&self) -> bool {
        self.history_model.wf() && self.headers_model.wf()
    }

    /// The content of the model.
    pub open spec fn content(&self) -> Content {
        Content {
            request: self.request.editor@.rows,
            address: self.headers_model.addr@.rows,
            metadata: self.headers_model.meta.headers@.map_values(
                |pair: (TextEditor, TextEditor)| (pair.0@.rows, pair.1@.rows),
            ),
        }
    }

    /// `after` differs from `before` in its content and in the zone
    /// selection of its headers at most: method, template, response,
    /// history, authentication and the two marks are the same. Of the
    /// request and address editors only the rows can differ: mode, error
    /// slot and focus are the same.
    pub open spec fn same_but_content(before: MessagesModel, after: MessagesModel) -> bool {
        &&& after.selected_method == before.selected_method
        &&& after.template == before.template
        &&& after.response == before.response
        &&& after.history_model == before.history_model
        &&& after.is_processing == before.is_processing
        &&& after.yank_pending == before.yank_pending
        &&& after.headers_model.auth == before.headers_model.auth
        &&& after.request.editor@ == (EditorView {
            rows: after.request.editor@.rows,
            ..before.request.editor@
        })
        &&& after.headers_model.addr@ == (EditorView {
            rows: after.headers_model.addr@.rows,
            ..before.headers_model.addr@
        })
    }

    /// What applying a snapshot does: the content is what the snapshot
    /// holds, the metadata editors are new ones, no zone of the headers is
    /// selected, and nothing else changed.
    pub open spec fn applied(before: MessagesModel, snapshot: SnapshotView, after: MessagesModel)
        -> bool {
        &&& after.content() == content_of(snapshot)
        &&& Self::same_but_content(before, after)
        &&& after.headers_model.selected == HeadersSelection::Nothing
        &&& after.headers_model.meta.fresh()
    }

    /// What a load from the history does: the snapshot that the selected
    /// slot holds for the selected method is applied. Where the slot is
    /// empty, or no method is selected, nothing changes.
    pub open spec fn history_loaded(before: MessagesModel, after: MessagesModel) -> bool {
        match before.selected_method {
            Some(method) => match before.history_model.loadable(method) {
                Some(snapshot) => Self::applied(before, snapshot, after),
                None => after == before,
            },
            None => after == before,
        }
    }

    /// What loading a method does: `after` has `method` selected and keeps
    /// its template. The response is empty and has no error, the request
    /// has no error. The content is what the selected slot of the history
    /// holds for the method; where the slot is empty it is the template, the
    /// address as it was, and no metadata. The metadata editors are new
    /// ones and no zone of the headers is selected. History, authentication
    /// and the two marks are the same, and so are mode and focus of the
    /// request and mode, error slot and focus of the address.
    pub open spec fn method_loaded(
        before: MessagesModel,
        method: MethodId,
        template: Seq<char>,
        after: MessagesModel,
    ) -> bool {
        &&& after.selected_method == Some(method)
        &&& after.template@ == template
        &&& after.history_model == before.history_model
        &&& after.headers_model.auth == before.headers_model.auth
        &&& after.is_processing == before.is_processing
        &&& after.yank_pending == before.yank_pending
        &&& after.response.editor@ == (EditorView {
            rows: Seq::empty(),
            error: None,
            ..before.response.editor@
        })
        &&& after.request.editor@ == (EditorView {
            rows: after.request.editor@.rows,
            error: None,
            ..before.request.editor@
        })
        &&& after.headers_model.addr@ == (EditorView {
            rows: after.headers_model.addr@.rows,
            ..before.headers_model.addr@
        })
        &&& after.content() == match before.history_model.loadable(method) {
            Some(snapshot) => content_of(snapshot),
            None => Content {
                request: split_lines(template),
                address: before.content().address,
                metadata: Seq::empty(),
            },
        }
        &&& after.headers_model.selected == HeadersSelection::Nothing
        &&& after.headers_model.meta.fresh()
    }

    /// What forgetting the method does: no method is selected, request and
    /// response are empty, and nothing else changed.
    pub open spec fn method_cleared(before: MessagesModel, after: MessagesModel) -> bool {
        &&& after.selected_method is None
        &&& after.request.editor@ == (EditorView {
            rows: Seq::empty(),
            ..before.request.editor@
        })
        &&& after.response.editor@ == (EditorView {
            rows: Seq::empty(),
            ..before.response.editor@
        })
        &&& after.template == before.template
        &&& after.history_model == before.history_model
        &&& after.headers_model == before.headers_model
        &&& after.is_processing == before.is_processing
        &&& after.yank_pending == before.yank_pending
    }

    /// What starting a call does: the call is marked as under way, the
    /// response says so and has no error, and nothing else changed.
    pub open spec fn request_started(before: MessagesModel, after: MessagesModel) -> bool {
        &&& after.is_processing
        &&& after.response.editor@ == (EditorView {
            rows: split_lines(processing_text()),
            error: None,
            ..before.response.editor@
        })
        &&& after == (MessagesModel { is_processing: true, response: after.response, ..before })
    }

    /// What saving does: the snapshot of the content stands in the selected
    /// slot of the selected method, and nothing else changed. Without a
    /// selected method, or with the history switched off, nothing changed
    /// at all.
    pub open spec fn history_saved(before: MessagesModel, after: MessagesModel) -> bool {
        &&& after == (MessagesModel { history_model: after.history_model, ..before })
        &&& after.history_model.save_spot == before.history_model.save_spot
        &&& after.history_model.autosave == before.history_model.autosave
        &&& after.history_model.disabled == before.history_model.disabled
        &&& match before.selected_method {
            Some(method) if !before.history_model.disabled => recorded(
                before.history_model.entries@,
                method,
                before.history_model.save_spot,
                Some(snapshot_of(before.content())),
                after.history_model.entries@,
            ),
            _ => after.history_model == before.history_model,
        }
    }

    /// What deleting does: the selected slot of the selected method is
    /// empty, the request is the method's template again and has no error,
    /// the authentication texts are empty, the metadata are gone and no zone
    /// of the headers is selected. The address, the response, the method
    /// and the marks are the same, and so are the modes of the editors that
    /// stay. Without a selected method nothing changed.
    pub open spec fn history_deleted(before: MessagesModel, after: MessagesModel) -> bool {
        let was = before.headers_model;
        let is = after.headers_model;
        match before.selected_method {
            Some(method) => {
                &&& recorded(
                    before.history_model.entries@,
                    method,
                    before.history_model.save_spot,
                    None,
                    after.history_model.entries@,
                )
                &&& after.history_model.save_spot == before.history_model.save_spot
                &&& after.history_model.autosave == before.history_model.autosave
                &&& after.history_model.disabled == before.history_model.disabled
                &&& after.request.editor@ == (EditorView {
                    rows: split_lines(before.template@),
                    error: None,
                    ..before.request.editor@
                })
                &&& is.addr == was.addr
                &&& is.auth.selected == was.auth.selected
                &&& is.auth.bearer@ == (EditorView { rows: Seq::empty(), ..was.auth.bearer@ })
                &&& is.auth.basic@ == (EditorView { rows: Seq::empty(), ..was.auth.basic@ })
                &&& is.meta.headers@.len() == 0
                &&& is.meta.selected is None
                &&& is.selected == HeadersSelection::Nothing
                &&& after.selected_method == before.selected_method
                &&& after.template == before.template
                &&& after.response == before.response
                &&& after.is_processing == before.is_processing
                &&& after.yank_pending == before.yank_pending
            },
            None => after == before,
        }
    }

    /// What a reload of slot `index` does. The request in progress is saved
    /// first, into the slot that was selected until now, if autosave is on
    /// and a method is selected. Then `index` becomes the selected slot, if
    /// it is one of the five, and what that slot holds for the selected
    /// method is loaded. Where it holds nothing, nothing but the history
    /// changed; no error is stored anywhere.
    pub open spec fn reloaded(before: MessagesModel, index: usize, after: MessagesModel) -> bool {
        let history = before.history_model;
        let autosaves = history.autosave && !history.disabled && before.selected_method is Some;
        &&& after.history_model.autosave == history.autosave
        &&& after.history_model.disabled == history.disabled
        &&& after.history_model.save_spot == if crate::history::FIRST_SLOT <= index
            <= crate::history::LAST_SLOT {
            index
        } else {
            history.save_spot
        }
        &&& if autosaves {
            recorded(
                history.entries@,
                before.selected_method->0,
                history.save_spot,
                Some(snapshot_of(before.content())),
                after.history_model.entries@,
            )
        } else {
            after.history_model.entries == history.entries
        }
        &&& Self::history_loaded(
            MessagesModel { history_model: after.history_model, ..before },
            after,
        )
    }

    /// Whether a content comes back unchanged from its own snapshot.
    pub open spec fn survives_snapshot(content: Content) -> bool {
        content_of(snapshot_of(content)) == content
    }

    /// Whether the rows of every buffer of a content are separable.
    pub open spec fn separable_content(content: Content) -> bool {
        &&& separable(content.request)
        &&& separable(content.address)
        &&& forall|i: int|
            0 <= i < content.metadata.len() ==> separable((#[trigger] content.metadata[i]).0)
                && separable(content.metadata[i].1)
    }

    /// A content whose buffers hold separable rows survives its snapshot:
    /// no buffer ends in an empty row, and no row holds a line feed.
    pub proof fn lemma_separable_content_survives(content: Content)
        requires
            Self::separable_content(content),
        ensures
            Self::survives_snapshot(content),
    {
        lemma_join_split_round_trip(content.request);
        lemma_join_split_round_trip(content.address);
        let back = content_of(snapshot_of(content));
        assert forall|i: int| 0 <= i < content.metadata.len() implies back.metadata[i]
            == content.metadata[i] by {
            lemma_join_split_round_trip(content.metadata[i].0);
            lemma_join_split_round_trip(content.metadata[i].1);
        }
        assert(back.metadata =~= content.metadata);
    }

    /// Law: a reload of a slot, followed at once by a reload of the same
    /// slot, leaves the content as the first reload made it. Where the
    /// second reload saves before it loads, which it does with autosave on
    /// and a method selected, the law holds of every content that survives
    /// its own snapshot.
    pub proof fn lemma_reload_twice(
        start: MessagesModel,
        index: usize,
        once: MessagesModel,
        twice: MessagesModel,
    )
        requires
            Self::reloaded(start, index, once),
            Self::reloaded(once, index, twice),
            once.history_model.autosave && !once.history_model.disabled && once.selected_method
                is Some ==> Self::survives_snapshot(once.content()),
        ensures
            twice.content() == once.content(),
            twice.history_model.save_spot == once.history_model.save_spot,
            twice.selected_method == once.selected_method,
    {
        match once.selected_method {
            Some(method) => {
                let history = once.history_model;
                let slot = history.save_spot;
                if history.autosave && !history.disabled {
                    assert(crate::history::saved(twice.history_model.entries@, method, slot)
                        == Some(snapshot_of(once.content())));
                } else {
                    assert(twice.history_model.loadable(method) == once.history_model.loadable(
                        method,
                    ));
                }
            },
            None => {},
        }
    }

    /// Tests whether history and headers are consistent.
    pub fn is_consistent(&self) -> (ok: bool)
        ensures
            ok == self.wf(),
    {
        self.history_model.is_consistent() && self.headers_model.is_consistent()
    }

    /// A model without a method, with empty request and response, the given
    /// address and an empty history.
    pub fn new(default_address: &str, autosave: bool, history_disabled: bool) -> (model: Self)
        ensures
            model.wf(),
            model.selected_method is None,
            model.request.editor@ == TextEditor::empty_view(),
            model.response.editor@ == TextEditor::empty_view(),
            model.headers_model.selected == HeadersSelection::Nothing,
            model.headers_model.settled(),
            model.headers_model.quiet(),
            model.headers_model.addr@.rows == split_lines(default_address@),
            model.headers_model.meta.headers@.len() == 0,
            model.history_model.entries@.len() == 0,
            model.history_model.autosave == autosave,
            model.history_model.disabled == history_disabled,
            !model.is_processing,
            !model.yank_pending,
    {
        MessagesModel {
            request: RequestModel::new(),
            response: ResponseModel::new(),
            selected_method: None,
            template: String::new(),
            history_model: HistoryModel::new(autosave, history_disabled),
            headers_model: HeadersModel::new(default_address),
            is_processing: false,
            yank_pending: false,
        }
    }

    /// The snapshot of the content: request, address and metadata as texts.
    pub fn snapshot(&self) -> (snapshot: Snapshot)
        ensures
            snapshot@ == snapshot_of(self.content()),
    {
        let snapshot = Snapshot {
            address: self.headers_model.addr.get_text_raw(),
            metadata: self.headers_model.meta.pairs(),
            request: self.request.editor.get_text_raw(),
        };
        assert(snapshot@.metadata =~= snapshot_of(self.content()).metadata);
        snapshot
    }

    /// Replaces the content by what a snapshot holds. No zone of the headers
    /// is selected afterwards.
    pub fn apply(&mut self, snapshot: &Snapshot)
        requires
            old(self).wf(),
        ensures
            final(self).wf(),
            Self::applied(*old(self), snapshot@, *final(self)),
    {
        self.request.editor.set_text_raw(snapshot.request.as_str());
        self.headers_model.addr.set_text_raw(snapshot.address.as_str());
        self.headers_model.meta.set_pairs(&snapshot.metadata);
        self.headers_model.selected = HeadersSelection::Nothing;
        assert(self.content().metadata =~= content_of(snapshot@).metadata);
    }

    /// Makes `method` the selected method. The request becomes the method's
    /// template, the response is emptied and the metadata are removed; then
    /// what the selected slot of the history holds for the method, if
    /// anything, replaces the content.
    pub fn load_method(&mut self, method: MethodId, template: &str)
        requires
            old(self).wf(),
        ensures
            final(self).wf(),
            Self::method_loaded(*old(self), method, template@, *final(self)),
    {
        self.selected_method = Some(method);
        self.template = template.to_owned();
        self.request.load_template(template);
        self.response.editor.clear();
        self.response.editor.set_error(None);
        self.headers_model.meta.clear();
        self.headers_model.selected = HeadersSelection::Nothing;
        assert(self.content().metadata =~= Seq::empty());
        match self.history_model.load(method) {
            Some(snapshot) => self.apply(&snapshot),
            None => {},
        }
    }

    /// Forgets the selected method and empties request and response.
    pub fn clear_method(&mut self)
        ensures
            Self::method_cleared(*old(self), *final(self)),
    {
        self.selected_method = None;
        self.request.editor.clear();
        self.response.editor.clear();
    }

    /// Marks a call as started. The response shows that it is under way,
    /// and its error slot is emptied. The call itself is made by whoever
    /// runs the event loop, after the next draw.
    pub fn start_request(&mut self)
        ensures
            Self::request_started(*old(self), *final(self)),
    {
        self.is_processing = true;
        self.response.editor.set_text_raw("Processing...");
        self.response.editor.set_error(None);
    }

    /// Starts a call.
    pub fn call_grpc(&mut self)
        ensures
            Self::request_started(*old(self), *final(self)),
    {
        self.start_request();
    }

    /// Takes in the outcome of the call that was started: the response text,
    /// or the description of what went wrong. The call is over afterwards.
    pub fn do_request(&mut self, outcome: Result<String, String>)
        ensures
            !final(self).is_processing,
            final(self).response.editor@ == match outcome {
                Ok(text) => EditorView {
                    rows: split_lines(text@),
                    error: None,
                    ..old(self).response.editor@
                },
                Err(message) => EditorView {
                    rows: Seq::empty(),
                    error: Some(
                        crate::editor::ErrorView {
                            kind: crate::editor::default_error_tag(),
                            msg: message@,
                        },
                    ),
                    ..old(self).response.editor@
                },
            },
            final(self).request == old(self).request,
            final(self).selected_method == old(self).selected_method,
            final(self).template == old(self).template,
            final(self).history_model == old(self).history_model,
            final(self).headers_model == old(self).headers_model,
            final(self).yank_pending == old(self).yank_pending,
    {
        self.is_processing = false;
        match outcome {
            Ok(text) => {
                self.response.editor.set_text_raw(text.as_str());
                self.response.editor.set_error(None);
            },
            Err(message) => {
                self.response.editor.clear();
                self.response.editor.set_error(Some(ErrorKind::default_error(message.as_str())));
            },
        }
    }

    /// Asks for the request as a `grpcurl` command line on the clipboard.
    pub fn yank_grpcurl(&mut self)
        ensures
            *final(self) == (MessagesModel { yank_pending: true, ..*old(self) }),
    {
        self.yank_pending = true;
    }

    /// Tells whether the command line was asked for, and takes the request
    /// for it back.
    pub fn take_yank(&mut self) -> (pending: bool)
        ensures
            pending == old(self).yank_pending,
            *final(self) == (MessagesModel { yank_pending: false, ..*old(self) }),
    {
        let pending = self.yank_pending;
        self.yank_pending = false;
        pending
    }

    /// Saves the content for the selected method, in the selected slot.
    /// Without a selected method, or with the history switched off, nothing
    /// is saved.
    pub fn save_history(&mut self)
        requires
            old(self).wf(),
        ensures
            final(self).wf(),
            Self::history_saved(*old(self), *final(self)),
    {
        if let Some(method) = self.selected_method {
            let snapshot = self.snapshot();
            self.history_model.save(method, snapshot);
        }
    }

    /// Replaces the content by what the selected slot holds for the
    /// selected method. An empty slot leaves the content as it is.
    pub fn load_history(&mut self)
        requires
            old(self).wf(),
        ensures
            final(self).wf(),
            Self::history_loaded(*old(self), *final(self)),
    {
        if let Some(method) = self.selected_method {
            match self.history_model.load(method) {
                Some(snapshot) => self.apply(&snapshot),
                None => {},
            }
        }
    }

    /// Removes what the selected slot holds for the selected method, and
    /// starts the request over: its template comes back, authentication and
    /// metadata go. Without a selected method nothing happens.
    pub fn delete_history(&mut self)
        requires
            old(self).wf(),
        ensures
            final(self).wf(),
            Self::history_deleted(*old(self), *final(self)),
    {
        if let Some(method) = self.selected_method {
            self.history_model.delete(method);
            let template = self.template.clone();
            self.request.load_template(template.as_str());
            self.headers_model.clear();
            assert(self.content().metadata =~= Seq::empty());
        }
    }

    /// Reloads slot `index`: saves the request in progress first if autosave
    /// is on, then selects the slot and loads it.
    pub fn reload_history(&mut self, index: usize)
        requires
            old(self).wf(),
        ensures
            final(self).wf(),
            Self::reloaded(*old(self), index, *final(self)),
    {
        if self.history_model.autosave {
            self.save_history();
        }
        self.history_model.select(index);
        self.load_history();
    }
}

} // verus!
