//! Renaming, truncating and dropping database objects and structure items:
//! which requests go ahead, when a failed drop may be retried with CASCADE,
//! and the texts of the dialogs and notices.

use vstd::prelude::*;
use crate::i18n::{tr, translated};
use crate::models::{
    DatabaseObject, DatabaseObjectKind, ObjectAction, StructureActionKind, StructureActionTarget,
    StructureDropMode, qualified_name_spec,
};
use crate::text::{chars_of, replace_all, replace_spec, same_text, string_from_chars, trim_chars, trim_spec};

verus! {

/// A new object name as typed: without surrounding white space, and none
/// when nothing is left.
pub open spec fn normalized_name_spec(name: Seq<char>) -> Option<Seq<char>> {
    if trim_spec(name).len() == 0 {
        None
    } else {
        Some(trim_spec(name))
    }
}

/// The name to give an object, or `None` when the typed name is blank.
pub fn normalize_new_object_name(name: &str) -> (r: Option<String>)
    ensures
        match r {
            Some(n) => normalized_name_spec(name@) == Some(n@),
            None => normalized_name_spec(name@) is None,
        },
{
    let trimmed = trim_chars(&chars_of(name));
    if trimmed.len() == 0 {
        None
    } else {
        Some(string_from_chars(&trimmed))
    }
}

/// The database and connection an action was started in.
#[derive(Clone, Debug)]
pub struct StructureActionScope {
    pub connection_id: String,
    pub database: String,
}

impl StructureActionScope {
    /// A copy of the scope.
    pub fn copied(&self) -> (r: StructureActionScope)
        ensures
            r == *self,
    {
        StructureActionScope {
            connection_id: self.connection_id.clone(),
            database: self.database.clone(),
        }
    }
}

/// A rename or drop of an item of a table's structure.
#[derive(Clone, Debug)]
pub enum StructureActionRequest {
    Rename { scope: StructureActionScope, target: StructureActionTarget, new_name: String },
    Drop { scope: StructureActionScope, target: StructureActionTarget, mode: StructureDropMode },
}

/// Why a request does not go ahead.
#[derive(Clone, Copy, Debug, PartialEq, Eq, Structural)]
pub enum RequestRefusal {
    /// The item cannot be changed.
    NotEditable,
    /// The new name is blank.
    InvalidName,
    /// The new name is the current one.
    Unchanged,
}

impl StructureActionRequest {
    pub open spec fn target_spec(self) -> StructureActionTarget {
        match self {
            StructureActionRequest::Rename { target, .. } => target,
            StructureActionRequest::Drop { target, .. } => target,
        }
    }

    /// The item the request works on.
    pub fn target(&self) -> (r: &StructureActionTarget)
        ensures
            *r == self.target_spec(),
    {
        match self {
            StructureActionRequest::Rename { target, .. } => target,
            StructureActionRequest::Drop { target, .. } => target,
        }
    }

    /// Where the request was made.
    pub fn scope(&self) -> (r: &StructureActionScope)
        ensures
            *r == match self {
                StructureActionRequest::Rename { scope, .. } => scope,
                StructureActionRequest::Drop { scope, .. } => scope,
            },
    {
        match self {
            StructureActionRequest::Rename { scope, .. } => scope,
            StructureActionRequest::Drop { scope, .. } => scope,
        }
    }
}

/// Checks a structure request before it runs: only editable items, and a
/// rename needs a non-blank name that differs from the current one; the
/// name is sent without surrounding white space.
pub fn normalize_structure_action_request(request: StructureActionRequest) -> (r: Result<
    StructureActionRequest,
    RequestRefusal,
>)
    ensures
        !request.target_spec().editable ==> r == Err::<StructureActionRequest, RequestRefusal>(
            RequestRefusal::NotEditable,
        ),
        match request {
            StructureActionRequest::Rename { scope, target, new_name } => target.editable ==> match normalized_name_spec(new_name@) {
                None => r == Err::<StructureActionRequest, RequestRefusal>(RequestRefusal::InvalidName),
                Some(n) => if n == target.name@ {
                    r == Err::<StructureActionRequest, RequestRefusal>(RequestRefusal::Unchanged)
                } else {
                    r matches Ok(StructureActionRequest::Rename { scope: s2, target: t2, new_name: n2 })
                        && s2 == scope && t2 == target && n2@ == n
                },
            },
            StructureActionRequest::Drop { .. } => request.target_spec().editable ==> r == Ok::<
                StructureActionRequest,
                RequestRefusal,
            >(request),
        },
{
    match request {
        StructureActionRequest::Rename { scope, target, new_name } => {
            if !target.editable {
                return Err(RequestRefusal::NotEditable);
            }
            match normalize_new_object_name(new_name.as_str()) {
                None => Err(RequestRefusal::InvalidName),
                Some(name) => {
                    if name == target.name {
                        Err(RequestRefusal::Unchanged)
                    } else {
                        Ok(StructureActionRequest::Rename { scope, target, new_name: name })
                    }
                },
            }
        },
        StructureActionRequest::Drop { scope, target, mode } => {
            if target.editable {
                Ok(StructureActionRequest::Drop { scope, target, mode })
            } else {
                Err(RequestRefusal::NotEditable)
            }
        },
    }
}

/// PostgreSQL refuses to drop an object that others depend on with code
/// `2BP01`; only then is a drop with CASCADE offered.
pub fn allows_cascade(code: Option<&str>) -> (r: bool)
    ensures
        r == (code is Some && code->0@ == "2BP01"@),
{
    match code {
        Some(c) => same_text(c, "2BP01"),
        None => false,
    }
}

/// A failed drop that may be retried with CASCADE.
#[derive(Clone, Debug)]
pub struct CascadeDropRecovery {
    pub scope: StructureActionScope,
    pub target: StructureActionTarget,
}

/// After a failure, whether to offer dropping with CASCADE: only for a drop
/// that did not already cascade and failed on dependent objects.
pub fn cascade_target(request: &StructureActionRequest, allows_cascade: bool) -> (r: Option<
    CascadeDropRecovery,
>)
    ensures
        match *request {
            StructureActionRequest::Drop { scope, target, mode } => if mode
                == StructureDropMode::Restrict && allows_cascade {
                r matches Some(rec) && rec.scope == scope && rec.target == target
            } else {
                r is None
            },
            StructureActionRequest::Rename { .. } => r is None,
        },
{
    match request {
        StructureActionRequest::Drop { scope, target, mode } => {
            if *mode == StructureDropMode::Cascade || !allows_cascade {
                return None;
            }
            Some(CascadeDropRecovery { scope: scope.copied(), target: target.copied() })
        },
        StructureActionRequest::Rename { .. } => None,
    }
}

/// The text of the message id naming a kind of structure item.
pub open spec fn structure_kind_text(kind: StructureActionKind) -> Seq<char> {
    match kind {
        StructureActionKind::Column => "Column"@,
        StructureActionKind::Index => "Index"@,
        StructureActionKind::Constraint => "Constraint"@,
        StructureActionKind::ForeignKey => "Foreign key"@,
        StructureActionKind::Trigger => "Trigger"@,
    }
}

/// The message id naming a kind of structure item.
pub fn structure_kind_msgid(kind: StructureActionKind) -> (r: &'static str)
    ensures
        r@ == structure_kind_text(kind),
{
    match kind {
        StructureActionKind::Column => "Column",
        StructureActionKind::Index => "Index",
        StructureActionKind::Constraint => "Constraint",
        StructureActionKind::ForeignKey => "Foreign key",
        StructureActionKind::Trigger => "Trigger",
    }
}

/// The translated name of a kind of structure item.
pub fn structure_kind_label(kind: StructureActionKind) -> (r: String)
    ensures
        translated(structure_kind_text(kind), r@),
{
    tr(structure_kind_msgid(kind))
}

/// `first`, a space, `second`.
pub fn two_words(first: &str, second: &str) -> (r: String)
    ensures
        r@ == first@ + " "@ + second@,
{
    let mut r = first.to_string();
    r.append(" ");
    r.append(second);
    r
}

/// The heading of the rename dialog: the translated verb and kind.
pub fn rename_heading(target: &StructureActionTarget) -> (r: String)
    ensures
        exists|verb: Seq<char>, kind: Seq<char>|
            #![trigger translated("Rename"@, verb), translated(structure_kind_text(target.kind), kind)]
            translated("Rename"@, verb) && translated(structure_kind_text(target.kind), kind) && r@
                == verb + " "@ + kind,
{
    let verb = tr("Rename");
    let kind = structure_kind_label(target.kind);
    two_words(verb.as_str(), kind.as_str())
}

/// The heading of the drop dialog: the translated verb and kind.
pub fn drop_heading(target: &StructureActionTarget) -> (r: String)
    ensures
        exists|verb: Seq<char>, kind: Seq<char>|
            #![trigger translated("Drop"@, verb), translated(structure_kind_text(target.kind), kind)]
            translated("Drop"@, verb) && translated(structure_kind_text(target.kind), kind) && r@
                == verb + " "@ + kind,
{
    let verb = tr("Drop");
    let kind = structure_kind_label(target.kind);
    two_words(verb.as_str(), kind.as_str())
}

/// The question of the drop dialog, with the item's name and table.
pub open spec fn drop_body_text(
    verb: Seq<char>,
    kind: Seq<char>,
    name: Seq<char>,
    from_table: Seq<char>,
    table: Seq<char>,
) -> Seq<char> {
    verb + " "@ + kind + " "@ + name + " "@ + from_table + "?\n"@ + table
}

/// The question of the drop dialog.
pub fn drop_body(target: &StructureActionTarget) -> (r: String)
    ensures
        exists|verb: Seq<char>, kind: Seq<char>, from_table: Seq<char>|
            #![trigger translated("Drop"@, verb), translated(structure_kind_text(target.kind), kind), translated("from table"@, from_table)]
            translated("Drop"@, verb) && translated(structure_kind_text(target.kind), kind)
                && translated("from table"@, from_table) && r@ == drop_body_text(
                verb,
                kind,
                target.name@,
                from_table,
                qualified_name_spec(target.table),
            ),
{
    let verb = tr("Drop");
    let kind = structure_kind_label(target.kind);
    let from_table = tr("from table");
    let table = target.table.qualified_name();
    let mut r = verb.clone();
    r.append(" ");
    r.append(kind.as_str());
    r.append(" ");
    r.append(target.name.as_str());
    r.append(" ");
    r.append(from_table.as_str());
    r.append("?\n");
    r.append(table.as_str());
    assert(r@ == drop_body_text(verb@, kind@, target.name@, from_table@, table@));
    r
}

/// The text of the message id of the notice after a structure action
/// succeeded.
pub open spec fn structure_success_text(request: StructureActionRequest) -> Seq<char> {
    match request {
        StructureActionRequest::Rename { .. } => "renamed."@,
        StructureActionRequest::Drop { mode, .. } => if mode == StructureDropMode::Cascade {
            "dropped with CASCADE."@
        } else {
            "dropped."@
        },
    }
}

/// The message id of the notice after a structure action succeeded.
pub fn structure_success_msgid(request: &StructureActionRequest) -> (r: &'static str)
    ensures
        r@ == structure_success_text(*request),
{
    match request {
        StructureActionRequest::Rename { .. } => "renamed.",
        StructureActionRequest::Drop { mode, .. } => {
            if *mode == StructureDropMode::Cascade {
                "dropped with CASCADE."
            } else {
                "dropped."
            }
        },
    }
}

/// The notice after a structure action succeeded: the kind and what was done.
pub fn structure_action_success_message(request: &StructureActionRequest) -> (r: String)
    ensures
        exists|kind: Seq<char>, done: Seq<char>|
            #![trigger translated(structure_kind_text(request.target_spec().kind), kind), translated(structure_success_text(*request), done)]
            translated(structure_kind_text(request.target_spec().kind), kind) && translated(
                structure_success_text(*request),
                done,
            ) && r@ == kind + " "@ + done,
{
    let kind = structure_kind_label(request.target().kind);
    let done = tr(structure_success_msgid(request));
    two_words(kind.as_str(), done.as_str())
}

/// The text of the message id of the heading after a structure action failed.
pub open spec fn structure_failure_text(request: StructureActionRequest) -> Seq<char> {
    match request {
        StructureActionRequest::Rename { .. } => "Renaming failed"@,
        StructureActionRequest::Drop { mode, .. } => if mode == StructureDropMode::Cascade {
            "Dropping with CASCADE failed"@
        } else {
            "Dropping failed"@
        },
    }
}

/// The message id of the heading after a structure action failed.
pub fn structure_failure_msgid(request: &StructureActionRequest) -> (r: &'static str)
    ensures
        r@ == structure_failure_text(*request),
{
    match request {
        StructureActionRequest::Rename { .. } => "Renaming failed",
        StructureActionRequest::Drop { mode, .. } => {
            if *mode == StructureDropMode::Cascade {
                "Dropping with CASCADE failed"
            } else {
                "Dropping failed"
            }
        },
    }
}

/// The heading after a structure action failed, translated.
pub fn structure_action_failure_message(request: &StructureActionRequest) -> (r: String)
    ensures
        translated(structure_failure_text(*request), r@),
{
    tr(structure_failure_msgid(request))
}

/// The body of the failure dialog: the database's error, and a warning about
/// dependent objects when dropping with CASCADE is offered.
pub fn structure_action_error_body(error: &str, cascade_target: Option<&CascadeDropRecovery>) -> (r:
    String)
    ensures
        cascade_target is None ==> r@ == error@,
        cascade_target is Some ==> exists|warning: Seq<char>|
            #![trigger translated(cascade_warning_text(), warning)]
            translated(cascade_warning_text(), warning) && r@ == error@ + "\n\n"@ + warning,
{
    if cascade_target.is_none() {
        return error.to_string();
    }
    let mut r = error.to_string();
    r.append("\n\n");
    let warning = tr(
        "This may also drop dependent views, constraints, indexes, or other database objects. This cannot be undone.",
    );
    r.append(warning.as_str());
    proof {
        assert(translated(cascade_warning_text(), warning@));
    }
    r
}

/// The text of the warning that dropping with CASCADE may drop more.
pub open spec fn cascade_warning_text() -> Seq<char> {
    "This may also drop dependent views, constraints, indexes, or other database objects. This cannot be undone."@
}

/// Options of TRUNCATE.
#[derive(Clone, Copy, Debug, PartialEq, Eq, Structural)]
pub struct TruncateOptions {
    pub restart_identity: bool,
    pub cascade: bool,
}

/// A rename, truncation or deletion of a table or view.
#[derive(Clone, Debug)]
pub enum ObjectActionRequest {
    Rename { object: DatabaseObject, new_name: String },
    Truncate { object: DatabaseObject, options: TruncateOptions },
    Delete { object: DatabaseObject },
}

impl ObjectActionRequest {
    /// The action the request carries out.
    pub fn action(&self) -> (r: ObjectAction)
        ensures
            r == match *self {
                ObjectActionRequest::Rename { .. } => ObjectAction::Rename,
                ObjectActionRequest::Truncate { .. } => ObjectAction::Truncate,
                ObjectActionRequest::Delete { .. } => ObjectAction::Delete,
            },
    {
        match self {
            ObjectActionRequest::Rename { .. } => ObjectAction::Rename,
            ObjectActionRequest::Truncate { .. } => ObjectAction::Truncate,
            ObjectActionRequest::Delete { .. } => ObjectAction::Delete,
        }
    }

    /// The object the request works on.
    pub fn object(&self) -> (r: &DatabaseObject)
        ensures
            *r == match *self {
                ObjectActionRequest::Rename { object, .. } => object,
                ObjectActionRequest::Truncate { object, .. } => object,
                ObjectActionRequest::Delete { object } => object,
            },
    {
        match self {
            ObjectActionRequest::Rename { object, .. } => object,
            ObjectActionRequest::Truncate { object, .. } => object,
            ObjectActionRequest::Delete { object } => object,
        }
    }
}

/// Checks an object request before it runs: a rename needs a non-blank name
/// that differs from the current one and is sent trimmed; truncations and
/// deletions go ahead as they are.
pub fn normalize_object_action_request(request: ObjectActionRequest) -> (r: Result<
    ObjectActionRequest,
    RequestRefusal,
>)
    ensures
        match request {
            ObjectActionRequest::Rename { object, new_name } => match normalized_name_spec(new_name@) {
                None => r == Err::<ObjectActionRequest, RequestRefusal>(RequestRefusal::InvalidName),
                Some(n) => if n == object.name@ {
                    r == Err::<ObjectActionRequest, RequestRefusal>(RequestRefusal::Unchanged)
                } else {
                    r matches Ok(ObjectActionRequest::Rename { object: o2, new_name: n2 }) && o2
                        == object && n2@ == n
                },
            },
            _ => r == Ok::<ObjectActionRequest, RequestRefusal>(request),
        },
{
    match request {
        ObjectActionRequest::Rename { object, new_name } => {
            match normalize_new_object_name(new_name.as_str()) {
                None => Err(RequestRefusal::InvalidName),
                Some(name) => {
                    if name == object.name {
                        Err(RequestRefusal::Unchanged)
                    } else {
                        Ok(ObjectActionRequest::Rename { object, new_name: name })
                    }
                },
            }
        },
        other => Ok(other),
    }
}

/// The text of the message id of the heading of an object action dialog.
pub open spec fn object_action_heading_text(action: ObjectAction, kind: DatabaseObjectKind) -> Seq<char> {
    match action {
        ObjectAction::Rename => if kind == DatabaseObjectKind::Table {
            "Rename Table"@
        } else {
            "Rename View"@
        },
        ObjectAction::Truncate => "Truncate Table"@,
        ObjectAction::Delete => if kind == DatabaseObjectKind::Table {
            "Delete Table"@
        } else {
            "Delete View"@
        },
    }
}

/// The message id of the heading of an object action dialog.
pub fn object_action_heading_msgid(action: ObjectAction, kind: DatabaseObjectKind) -> (r: &'static str)
    ensures
        r@ == object_action_heading_text(action, kind),
{
    match action {
        ObjectAction::Rename => match kind {
            DatabaseObjectKind::Table => "Rename Table",
            DatabaseObjectKind::View => "Rename View",
        },
        ObjectAction::Truncate => "Truncate Table",
        ObjectAction::Delete => match kind {
            DatabaseObjectKind::Table => "Delete Table",
            DatabaseObjectKind::View => "Delete View",
        },
    }
}

/// The heading of an object action dialog, translated.
pub fn object_action_heading(action: ObjectAction, object: &DatabaseObject) -> (r: String)
    ensures
        translated(object_action_heading_text(action, object.kind), r@),
{
    tr(object_action_heading_msgid(action, object.kind))
}

/// The body of an object action dialog: empty for a rename; for a
/// truncation or deletion the translated question with the qualified name
/// filled in.
pub fn object_action_body(action: ObjectAction, object: &DatabaseObject) -> (r: String)
    ensures
        action == ObjectAction::Rename ==> r@ == Seq::<char>::empty(),
        action == ObjectAction::Truncate ==> exists|template: Seq<char>|
            #![trigger translated("Remove all rows from {table}?\nThis cannot be undone."@, template)]
            translated("Remove all rows from {table}?\nThis cannot be undone."@, template) && r@
                == replace_spec(template, "{table}"@, qualified_name_spec(*object)),
        action == ObjectAction::Delete ==> exists|template: Seq<char>|
            #![trigger translated(delete_question_text(object.kind), template)]
            translated(delete_question_text(object.kind), template) && r@ == replace_spec(
                template,
                "{name}"@,
                qualified_name_spec(*object),
            ),
{
    proof {
        reveal_strlit("{table}");
        reveal_strlit("{name}");
    }
    match action {
        ObjectAction::Rename => String::new(),
        ObjectAction::Truncate => {
            let template = tr("Remove all rows from {table}?\nThis cannot be undone.");
            let r = replace_all(template.as_str(), "{table}", object.qualified_name().as_str());
            proof {
                assert(translated("Remove all rows from {table}?\nThis cannot be undone."@, template@));
            }
            r
        },
        ObjectAction::Delete => {
            let template = match object.kind {
                DatabaseObjectKind::Table => tr("Delete table {name}?\nThis cannot be undone."),
                DatabaseObjectKind::View => tr("Delete view {name}?\nThis cannot be undone."),
            };
            let r = replace_all(template.as_str(), "{name}", object.qualified_name().as_str());
            proof {
                assert(translated(delete_question_text(object.kind), template@));
            }
            r
        },
    }
}

/// The text of the question of the delete dialog for a kind of object.
pub open spec fn delete_question_text(kind: DatabaseObjectKind) -> Seq<char> {
    match kind {
        DatabaseObjectKind::Table => "Delete table {name}?\nThis cannot be undone."@,
        DatabaseObjectKind::View => "Delete view {name}?\nThis cannot be undone."@,
    }
}

/// The message id of the confirm button of an object action dialog.
pub fn object_action_confirm_msgid(action: ObjectAction) -> (r: &'static str)
    ensures
        r@ == match action {
            ObjectAction::Rename => "Rename"@,
            ObjectAction::Truncate => "Truncate"@,
            ObjectAction::Delete => "Delete"@,
        },
{
    match action {
        ObjectAction::Rename => "Rename",
        ObjectAction::Truncate => "Truncate",
        ObjectAction::Delete => "Delete",
    }
}

/// The notice after an object action succeeded; a truncation names the
/// table.
pub fn object_action_success_message(action: ObjectAction, object: &DatabaseObject) -> (r: String)
    ensures
        action == ObjectAction::Rename ==> translated("Database object renamed."@, r@),
        action == ObjectAction::Delete ==> translated("Database object deleted."@, r@),
        action == ObjectAction::Truncate ==> exists|template: Seq<char>|
            #![trigger translated("Table truncated: {table}"@, template)]
            translated("Table truncated: {table}"@, template) && r@ == replace_spec(
                template,
                "{table}"@,
                qualified_name_spec(*object),
            ),
{
    match action {
        ObjectAction::Rename => tr("Database object renamed."),
        ObjectAction::Truncate => {
            proof {
                reveal_strlit("{table}");
            }
            let template = tr("Table truncated: {table}");
            let r = replace_all(template.as_str(), "{table}", object.qualified_name().as_str());
            proof {
                assert(translated("Table truncated: {table}"@, template@));
            }
            r
        },
        ObjectAction::Delete => tr("Database object deleted."),
    }
}

/// The text of the message id of the notice after an object action failed.
pub open spec fn object_action_failure_text(action: ObjectAction) -> Seq<char> {
    match action {
        ObjectAction::Rename => "Renaming failed"@,
        ObjectAction::Truncate => "Truncating failed"@,
        ObjectAction::Delete => "Deleting failed"@,
    }
}

/// The message id of the notice after an object action failed.
pub fn object_action_failure_msgid(action: ObjectAction) -> (r: &'static str)
    ensures
        r@ == object_action_failure_text(action),
{
    match action {
        ObjectAction::Rename => "Renaming failed",
        ObjectAction::Truncate => "Truncating failed",
        ObjectAction::Delete => "Deleting failed",
    }
}

/// `heading: detail`, as failure notices are written.
pub fn failure_notice(heading: &str, detail: &str) -> (r: String)
    ensures
        r@ == heading@ + ": "@ + detail@,
{
    let mut r = heading.to_string();
    r.append(": ");
    r.append(detail);
    r
}

/// The notice after an object action failed: the translated heading and the
/// error.
pub fn object_action_failure_message(action: ObjectAction, error: &str) -> (r: String)
    ensures
        exists|heading: Seq<char>|
            #![trigger translated(object_action_failure_text(action), heading)]
            translated(object_action_failure_text(action), heading) && r@ == heading + ": "@ + error@,
{
    let heading = tr(object_action_failure_msgid(action));
    let r = failure_notice(heading.as_str(), error);
    proof {
        assert(translated(object_action_failure_text(action), heading@));
    }
    r
}

} // verus!
