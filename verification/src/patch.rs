use vstd::prelude::*;
use vstd::string::*;
use crate::error::{is_outcome, AppError, ErrorModel, ACCEPTED};
use crate::extract::{
    extract, extract_identifier, extraction, identification, optional_field, take_optional,
    user_fields, user_table_for, Policy,
};
use crate::fields::FieldMap;
use crate::json::{json_model, JsonModel};
use crate::post::lemma_user_field_names;
use crate::routes::{handled, respond, Action, ActionModel, Handled, HandledModel, Reply, ReplyModel};
use crate::schema::{SchemaRegistry, TableModel};
use crate::text::{decimal, decimal_string};
use crate::types::{value_text, DataKind, DataValue, ValueModel};

verus! {

/// `head`, then the text of `value` between `label` and `tail` where there
/// is a value.
pub open spec fn with_part(
    head: Seq<char>,
    label: Seq<char>,
    value: Option<ValueModel>,
    tail: Seq<char>,
) -> Seq<char> {
    match value {
        Some(v) => head + label + value_text(v) + tail,
        None => head,
    }
}

/// The line that records an updated user.
pub open spec fn update_log(
    id: u32,
    name: Option<ValueModel>,
    email: Option<ValueModel>,
    registered: Option<ValueModel>,
    kind: Option<ValueModel>,
) -> Seq<char> {
    let head = "Updated User: { id: "@ + decimal(id as nat) + ", "@;
    let named = with_part(head, "name: "@, name, ","@);
    let mailed = with_part(named, "email: "@, email, ","@);
    let dated = with_part(mailed, "registered: "@, registered, ","@);
    with_part(dated, "type: "@, kind, ""@)
}

/// What updating user `id` from validated fields gives.
///
/// Each of `name`, `email` and `registered` is a string where it is there,
/// and `type` an enum. The fields are taken in that order, and the first of
/// another kind decides the error.
pub open spec fn updated(id: u32, m: Map<Seq<char>, ValueModel>) -> Result<
    ActionModel,
    ErrorModel,
> {
    match optional_field(m, "name"@, DataKind::String) {
        Err(e) => Err(e),
        Ok(name) => match optional_field(m, "email"@, DataKind::String) {
            Err(e) => Err(e),
            Ok(email) => match optional_field(m, "registered"@, DataKind::String) {
                Err(e) => Err(e),
                Ok(registered) => match optional_field(m, "type"@, DataKind::Enum) {
                    Err(e) => Err(e),
                    Ok(kind) => Ok(
                        ActionModel {
                            subject: decimal(id as nat),
                            log: update_log(id, name, email, registered, kind),
                        },
                    ),
                },
            },
        },
    }
}

/// The message that answers an update of the user called `user_name`.
pub open spec fn patch_message(user_name: Seq<char>) -> Seq<char> {
    "Welcome, User #"@ + user_name
        + "! If this was hooked up to a database, your information would be changed."@
}

/// What extraction gives for an update of user `id`.
pub open spec fn patch_extraction(id: u32, body: JsonModel, registry: Seq<TableModel>) -> Result<
    (u32, Map<Seq<char>, ValueModel>),
    ErrorModel,
> {
    match user_fields(body, registry) {
        Ok(fields) => match extraction(body, fields, Policy::Update) {
            Ok(m) => Ok((id, m)),
            Err(e) => Err(e),
        },
        Err(e) => Err(e),
    }
}

/// What extraction gives for an update whose identifier travels in the
/// body: the identifier is read first, then the other fields.
pub open spec fn patch_body_extraction(body: JsonModel, registry: Seq<TableModel>) -> Result<
    (u32, Map<Seq<char>, ValueModel>),
    ErrorModel,
> {
    match user_fields(body, registry) {
        Ok(fields) => match identification(body, fields) {
            Ok(id) => match extraction(body, fields, Policy::Update) {
                Ok(m) => Ok((id, m)),
                Err(e) => Err(e),
            },
            Err(e) => Err(e),
        },
        Err(e) => Err(e),
    }
}

/// What an update leads to, once its identifier and fields are extracted.
pub open spec fn patch_outcome(
    extracted: Result<(u32, Map<Seq<char>, ValueModel>), ErrorModel>,
) -> Result<HandledModel, ErrorModel> {
    match extracted {
        Ok((id, m)) => handled(updated(id, m), |name: Seq<char>| patch_message(name), 202),
        Err(e) => Err(e),
    }
}

/// Appends `label`, the text of `value` and `tail` where there is a value.
fn push_part(log: &mut String, label: &str, value: &Option<DataValue>, tail: &str)
    ensures
        final(log)@ == with_part(
            old(log)@,
            label@,
            match *value {
                Some(v) => Some(v@),
                None => None,
            },
            tail@,
        ),
{
    if let Some(v) = value {
        log.append(label);
        log.append(v.to_text().as_str());
        log.append(tail);
    }
}

/// Uses the fields to update a user.
pub fn patch_insert(req: (u32, FieldMap)) -> (r: Result<Action, AppError>)
    ensures
        is_outcome(r, updated(req.0, req.1@)),
{
    let id = req.0;
    let mut body = req.1;
    proof {
        lemma_user_field_names();
    }
    let name = match take_optional(&mut body, "name", DataKind::String) {
        Ok(value) => value,
        Err(e) => {
            return Err(e);
        },
    };
    let email = match take_optional(&mut body, "email", DataKind::String) {
        Ok(value) => value,
        Err(e) => {
            return Err(e);
        },
    };
    let registered = match take_optional(&mut body, "registered", DataKind::String) {
        Ok(value) => value,
        Err(e) => {
            return Err(e);
        },
    };
    let kind = match take_optional(&mut body, "type", DataKind::Enum) {
        Ok(value) => value,
        Err(e) => {
            return Err(e);
        },
    };
    let mut log = String::from_str("Updated User: { id: ");
    log.append(decimal_string(id as u64).as_str());
    log.append(", ");
    push_part(&mut log, "name: ", &name, ",");
    push_part(&mut log, "email: ", &email, ",");
    push_part(&mut log, "registered: ", &registered, ",");
    push_part(&mut log, "type: ", &kind, "");
    Ok(Action { subject: decimal_string(id as u64), log })
}

/// Extracts the data from the request body and verifies it in the process.
///
/// Any subset of the fields may be there, so this is for update requests.
pub fn patch_extract(id: u32, body: &serde_json::Value, registry: &SchemaRegistry) -> (r: Result<
    (u32, FieldMap),
    AppError,
>)
    ensures
        is_outcome(r, patch_extraction(id, json_model(*body), registry@)),
{
    let table = match user_table_for(body, registry) {
        Ok(table) => table,
        Err(e) => {
            return Err(e);
        },
    };
    match extract(body, table, Policy::Update) {
        Ok(map) => Ok((id, map)),
        Err(e) => Err(e),
    }
}

/// Extracts the identifier and the data from the request body.
pub fn patch_extract_body(body: &serde_json::Value, registry: &SchemaRegistry) -> (r: Result<
    (u32, FieldMap),
    AppError,
>)
    ensures
        is_outcome(r, patch_body_extraction(json_model(*body), registry@)),
{
    let table = match user_table_for(body, registry) {
        Ok(table) => table,
        Err(e) => {
            return Err(e);
        },
    };
    let id = match extract_identifier(body, table) {
        Ok(id) => id,
        Err(e) => {
            return Err(e);
        },
    };
    match extract(body, table, Policy::Update) {
        Ok(map) => Ok((id, map)),
        Err(e) => Err(e),
    }
}

/// Replies with a success code and a message about the update.
pub fn patch_success(user_name: String) -> (r: Result<Reply, AppError>)
    ensures
        is_outcome(r, Ok(ReplyModel { status: 202, message: patch_message(user_name@) })),
{
    let mut message = String::from_str("Welcome, User #");
    message.append(user_name.as_str());
    message.append("! If this was hooked up to a database, your information would be changed.");
    respond(Ok(message), ACCEPTED)
}

/// Carries out an update whose identifier and fields are extracted.
fn patch_finish(req: (u32, FieldMap)) -> (r: Result<Handled, AppError>)
    ensures
        is_outcome(r, patch_outcome(Ok((req.0, req.1@)))),
{
    let action = match patch_insert(req) {
        Ok(action) => action,
        Err(e) => {
            return Err(e);
        },
    };
    match patch_success(action.subject) {
        Ok(reply) => Ok(Handled { reply, log: action.log }),
        Err(e) => Err(e),
    }
}

/// Updates user `id` from a request body.
pub fn patch_user(id: u32, body: &serde_json::Value, registry: &SchemaRegistry) -> (r: Result<
    Handled,
    AppError,
>)
    ensures
        is_outcome(r, patch_outcome(patch_extraction(id, json_model(*body), registry@))),
{
    match patch_extract(id, body, registry) {
        Ok(req) => patch_finish(req),
        Err(e) => Err(e),
    }
}

/// Updates the user whose identifier the body holds.
pub fn patch_user_body(body: &serde_json::Value, registry: &SchemaRegistry) -> (r: Result<
    Handled,
    AppError,
>)
    ensures
        is_outcome(r, patch_outcome(patch_body_extraction(json_model(*body), registry@))),
{
    match patch_extract_body(body, registry) {
        Ok(req) => patch_finish(req),
        Err(e) => Err(e),
    }
}

} // verus!
