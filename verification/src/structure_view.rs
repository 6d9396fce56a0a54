//! Loading a table's structure: which load is current, and what a finished
//! load leaves on screen.
//!
//! The structure itself is whatever the loader produced (`T`): the view only
//! decides which answer it keeps.

use vstd::prelude::*;
use crate::i18n::{tr, translated};
use crate::models::{StructureActionKind, StructureActionTarget};
use crate::models::DatabaseObject;
use crate::results::status_icon_name;

verus! {

/// The load state of the structure view, with the texts of its status page.
#[derive(Debug)]
pub struct TableStructureView<T> {
    /// A connection was handed over with the object.
    pub connected: bool,
    pub object: Option<DatabaseObject>,
    pub structure: Option<T>,
    pub is_loading: bool,
    pub is_error: bool,
    pub status_title: String,
    pub status_description: Option<String>,
    pub request_id: u64,
    pub active_request_id: Option<u64>,
    /// The structure item whose context menu is open.
    pub context_target: Option<StructureActionTarget>,
}

/// What happens to the structure view.
#[derive(Debug)]
pub enum TableStructureMsg<T> {
    /// A table was opened on a connection.
    Open(DatabaseObject),
    /// Load the structure again.
    Refresh,
    /// A load finished.
    StructureLoaded { id: u64, result: Result<T, String> },
}

/// What the view asks the application to do.
#[derive(Clone, Copy, Debug, PartialEq, Eq, Structural)]
pub enum TableStructureAction {
    /// Nothing to do.
    Nothing,
    /// Abort any running load, clear the shown structure and load it again;
    /// the answer comes back with `id`.
    Load { id: u64 },
    /// A load finished: render what the view now holds.
    Render,
}

/// What the context menu of a structure item asks for.
#[derive(Clone, Copy, Debug, PartialEq, Eq, Structural)]
pub enum StructureContextRequest {
    CopyName,
    Rename,
    Drop,
}

/// What the application does for a context menu request.
#[derive(Debug)]
pub enum StructureContextAction {
    /// Copy this name and tell which kind of item it named.
    Copied { text: String, kind: StructureActionKind },
    /// Ask for the new name of this item.
    Rename(StructureActionTarget),
    /// Ask whether to drop this item.
    Drop(StructureActionTarget),
}

/// The load state without the texts.
pub struct StructureCore<T> {
    pub connected: bool,
    pub object: Option<DatabaseObject>,
    pub structure: Option<T>,
    pub is_loading: bool,
    pub is_error: bool,
    pub request_id: u64,
    pub active_request_id: Option<u64>,
}

impl<T> TableStructureView<T> {
    pub open spec fn load_state(self) -> StructureCore<T> {
        StructureCore {
            connected: self.connected,
            object: self.object,
            structure: self.structure,
            is_loading: self.is_loading,
            is_error: self.is_error,
            request_id: self.request_id,
            active_request_id: self.active_request_id,
        }
    }
}

/// The request id after `id`, wrapping around.
pub open spec fn following_id(id: u64) -> u64 {
    if id == u64::MAX {
        0
    } else {
        (id + 1) as u64
    }
}

/// Starting a load: nothing without a connection and a table; otherwise the
/// shown structure is dropped and a fresh request id becomes the only one
/// whose answer is taken.
pub open spec fn start_load<T>(s: StructureCore<T>) -> (StructureCore<T>, TableStructureAction) {
    if !s.connected || s.object is None {
        (s, TableStructureAction::Nothing)
    } else {
        (
            StructureCore {
                is_loading: true,
                is_error: false,
                structure: None,
                request_id: following_id(s.request_id),
                active_request_id: Some(s.request_id),
                ..s
            },
            TableStructureAction::Load { id: s.request_id },
        )
    }
}

/// One step of the structure view.
pub open spec fn structure_step<T>(s: StructureCore<T>, e: TableStructureMsg<T>) -> (
    StructureCore<T>,
    TableStructureAction,
) {
    match e {
        TableStructureMsg::Open(object) => start_load(
            StructureCore { connected: true, object: Some(object), ..s },
        ),
        TableStructureMsg::Refresh => start_load(s),
        TableStructureMsg::StructureLoaded { id, result } => {
            if s.active_request_id != Some(id) {
                (s, TableStructureAction::Nothing)
            } else {
                match result {
                    Ok(structure) => (
                        StructureCore {
                            active_request_id: None,
                            is_loading: false,
                            is_error: false,
                            structure: Some(structure),
                            ..s
                        },
                        TableStructureAction::Render,
                    ),
                    Err(_) => (
                        StructureCore {
                            active_request_id: None,
                            is_loading: false,
                            is_error: true,
                            structure: None,
                            ..s
                        },
                        TableStructureAction::Render,
                    ),
                }
            }
        },
    }
}

/// The status page's texts after a step: translated while loading and after
/// a failure (where the description is the error), none once the structure is
/// shown, unchanged when the step did nothing.
pub open spec fn status_texts_after<T>(
    old_title: Seq<char>,
    old_description: Option<Seq<char>>,
    e: TableStructureMsg<T>,
    action: TableStructureAction,
    title: Seq<char>,
    description: Option<Seq<char>>,
) -> bool {
    match action {
        TableStructureAction::Nothing => title == old_title && description == old_description,
        TableStructureAction::Load { .. } => translated("Loading structure"@, title) && (
        description matches Some(d) && translated("Fetching table structure from PostgreSQL."@, d)),
        TableStructureAction::Render => match e {
            TableStructureMsg::StructureLoaded { result: Ok(_), .. } => title.len() == 0
                && description is None,
            TableStructureMsg::StructureLoaded { result: Err(error), .. } => translated(
                "Loading structure failed"@,
                title,
            ) && description == Some(error@),
            _ => true,
        },
    }
}

/// The view of an optional string.
pub open spec fn opt_view(s: Option<String>) -> Option<Seq<char>> {
    match s {
        Some(t) => Some(t@),
        None => None,
    }
}

impl<T> TableStructureView<T> {
    /// A view with nothing opened yet.
    pub fn new() -> (r: TableStructureView<T>)
        ensures
            !r.connected,
            r.object is None,
            r.structure is None,
            !r.is_loading,
            !r.is_error,
            r.request_id == 0,
            r.active_request_id is None,
            r.context_target is None,
            translated("Structure"@, r.status_title@),
            (r.status_description matches Some(d) && translated(
                "Open a table to inspect its columns."@,
                d@,
            )),
    {
        TableStructureView {
            connected: false,
            object: None,
            structure: None,
            is_loading: false,
            is_error: false,
            status_title: tr("Structure"),
            status_description: Some(tr("Open a table to inspect its columns.")),
            request_id: 0,
            active_request_id: None,
            context_target: None,
        }
    }

    fn start_loading(&mut self) -> (a: TableStructureAction)
        ensures
            (final(self).load_state(), a) == start_load(old(self).load_state()),
            a is Nothing ==> final(self).status_title@ == old(self).status_title@
                && opt_view(final(self).status_description) == opt_view(
                old(self).status_description,
            ),
            a is Load ==> translated("Loading structure"@, final(self).status_title@) && (
            final(self).status_description matches Some(d) && translated(
                "Fetching table structure from PostgreSQL."@,
                d@,
            )),
            final(self).context_target == old(self).context_target,
    {
        if !self.connected || self.object.is_none() {
            return TableStructureAction::Nothing;
        }
        self.is_loading = true;
        self.is_error = false;
        self.status_title = tr("Loading structure");
        self.status_description = Some(tr("Fetching table structure from PostgreSQL."));
        self.structure = None;
        let id = self.request_id;
        self.request_id = self.request_id.wrapping_add(1);
        self.active_request_id = Some(id);
        TableStructureAction::Load { id }
    }

    /// Takes an event and says what the application must do. Answers to any
    /// but the current load are ignored.
    pub fn update(&mut self, event: TableStructureMsg<T>) -> (a: TableStructureAction)
        ensures
            (final(self).load_state(), a) == structure_step(old(self).load_state(), event),
            status_texts_after(
                old(self).status_title@,
                opt_view(old(self).status_description),
                event,
                a,
                final(self).status_title@,
                opt_view(final(self).status_description),
            ),
            final(self).context_target == old(self).context_target,
    {
        match event {
            TableStructureMsg::Open(object) => {
                self.connected = true;
                self.object = Some(object);
                self.start_loading()
            },
            TableStructureMsg::Refresh => self.start_loading(),
            TableStructureMsg::StructureLoaded { id, result } => {
                match self.active_request_id {
                    Some(active) => {
                        if active != id {
                            return TableStructureAction::Nothing;
                        }
                    },
                    None => {
                        return TableStructureAction::Nothing;
                    },
                }
                self.active_request_id = None;
                self.is_loading = false;
                match result {
                    Ok(structure) => {
                        self.is_error = false;
                        self.status_title = String::new();
                        self.status_description = None;
                        self.structure = Some(structure);
                    },
                    Err(error) => {
                        self.is_error = true;
                        self.status_title = tr("Loading structure failed");
                        self.status_description = Some(error);
                        self.structure = None;
                    },
                }
                TableStructureAction::Render
            },
        }
    }

    /// The context menu of a structure item was opened.
    pub fn open_context_menu(&mut self, target: StructureActionTarget)
        ensures
            final(self).context_target == Some(target),
            final(self).load_state() == old(self).load_state(),
            final(self).status_title == old(self).status_title,
            final(self).status_description == old(self).status_description,
    {
        self.context_target = Some(target);
    }

    /// A request from the context menu: the menu closes, forgetting its
    /// target. Copying the name works on any target; renaming and dropping
    /// only on an editable one.
    pub fn take_context_request(&mut self, request: StructureContextRequest) -> (r: Option<
        StructureContextAction,
    >)
        ensures
            final(self).context_target is None,
            final(self).load_state() == old(self).load_state(),
            final(self).status_title == old(self).status_title,
            final(self).status_description == old(self).status_description,
            match old(self).context_target {
                None => r is None,
                Some(t) => match request {
                    StructureContextRequest::CopyName => r == Some(
                        StructureContextAction::Copied { text: t.name, kind: t.kind },
                    ),
                    StructureContextRequest::Rename => r == (if t.editable {
                        Some(StructureContextAction::Rename(t))
                    } else {
                        None
                    }),
                    StructureContextRequest::Drop => r == (if t.editable {
                        Some(StructureContextAction::Drop(t))
                    } else {
                        None
                    }),
                },
            },
    {
        let target = self.context_target.take();
        match target {
            None => None,
            Some(t) => match request {
                StructureContextRequest::CopyName => Some(
                    StructureContextAction::Copied { text: t.name, kind: t.kind },
                ),
                StructureContextRequest::Rename => if t.editable {
                    Some(StructureContextAction::Rename(t))
                } else {
                    None
                },
                StructureContextRequest::Drop => if t.editable {
                    Some(StructureContextAction::Drop(t))
                } else {
                    None
                },
            },
        }
    }

    /// Whether the structure page (rather than the status page) is shown.
    pub fn shows_structure(&self) -> (r: bool)
        ensures
            r == self.structure is Some,
    {
        self.structure.is_some()
    }

    /// The icon of the status page.
    pub fn status_icon_name(&self) -> (r: &'static str)
        ensures
            r@ == (if self.is_error {
                "dialog-error-symbolic"@
            } else if self.is_loading {
                "view-refresh-symbolic"@
            } else {
                "table-symbolic"@
            }),
    {
        status_icon_name(self.is_error, self.is_loading, "table-symbolic")
    }
}

/// An answer that does not carry the current request id changes nothing.
pub proof fn stale_structure_answer_is_ignored<T>(s: StructureCore<T>, id: u64, result: Result<T, String>)
    requires
        s.active_request_id != Some(id),
    ensures
        structure_step(s, TableStructureMsg::StructureLoaded { id, result }) == (
            s,
            TableStructureAction::Nothing,
        ),
{
}

/// An answer is taken at most once: after it is taken, the same answer again
/// changes nothing.
pub proof fn structure_answer_is_taken_once<T>(
    s: StructureCore<T>,
    id: u64,
    first: Result<T, String>,
    second: Result<T, String>,
)
    ensures
        ({
            let (t, _) = structure_step(s, TableStructureMsg::StructureLoaded { id, result: first });
            structure_step(t, TableStructureMsg::StructureLoaded { id, result: second }) == (
                t,
                TableStructureAction::Nothing,
            )
        }),
{
}

/// Every load asks with the id it made current, and a new load makes any
/// earlier answer stale.
pub proof fn each_load_supersedes_the_last<T>(s: StructureCore<T>, e: TableStructureMsg<T>)
    ensures
        ({
            let (t, a) = structure_step(s, e);
            a matches TableStructureAction::Load { id } ==> t.active_request_id == Some(id)
                && id == s.request_id && t.is_loading && t.structure is None
        }),
{
}

/// The view is loading exactly while a load is outstanding, and a shown
/// structure never sits beside an error or a running load.
pub open spec fn structure_view_wf<T>(s: StructureCore<T>) -> bool {
    &&& s.is_loading <==> s.active_request_id is Some
    &&& s.structure is Some ==> !s.is_error && !s.is_loading
}

/// Every step keeps the view's invariant.
pub proof fn structure_step_keeps_invariant<T>(s: StructureCore<T>, e: TableStructureMsg<T>)
    requires
        structure_view_wf(s),
    ensures
        structure_view_wf(structure_step(s, e).0),
{
}

} // verus!
