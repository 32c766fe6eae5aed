use vstd::prelude::*;
use vstd::string::*;
use crate::error::{is_outcome, AppError, ErrorModel, ACCEPTED};
use crate::extract::{
    extract, extraction, optional_field, required_field, take_optional, take_required,
    user_fields, user_table_for, Policy,
};
use crate::fields::FieldMap;
use crate::json::{json_model, JsonModel};
use crate::routes::{handled, respond, Action, ActionModel, Handled, HandledModel, Reply, ReplyModel};
use crate::schema::{SchemaRegistry, TableModel};
use crate::types::{value_text, DataKind, DataValue, ValueModel};

verus! {

/// The line that records a created user.
pub open spec fn insert_log(
    name: ValueModel,
    email: ValueModel,
    registered: Option<ValueModel>,
    kind: ValueModel,
) -> Seq<char> {
    let head = "Found User: { name: "@ + value_text(name) + ", email: "@ + value_text(email)
        + ", "@;
    let middle = match registered {
        Some(date) => head + "registered: "@ + value_text(date) + ", "@,
        None => head,
    };
    middle + "type: "@ + value_text(kind) + " }"@
}

/// What creating a user from validated fields gives.
///
/// `name` and `email` must be strings and `type` an enum; `registered` may
/// be absent, and is a string otherwise. The fields are taken in that
/// order, and the first that is absent or of another kind decides the
/// error.
pub open spec fn inserted(m: Map<Seq<char>, ValueModel>) -> Result<ActionModel, ErrorModel> {
    match required_field(m, "name"@, DataKind::String) {
        Err(e) => Err(e),
        Ok(name) => match required_field(m, "email"@, DataKind::String) {
            Err(e) => Err(e),
            Ok(email) => match optional_field(m, "registered"@, DataKind::String) {
                Err(e) => Err(e),
                Ok(registered) => match required_field(m, "type"@, DataKind::Enum) {
                    Err(e) => Err(e),
                    Ok(kind) => Ok(
                        ActionModel {
                            subject: value_text(name),
                            log: insert_log(name, email, registered, kind),
                        },
                    ),
                },
            },
        },
    }
}

/// The message that welcomes a created user.
pub open spec fn post_message(user_name: Seq<char>) -> Seq<char> {
    "Welcome, "@ + user_name + "! If this was hooked up to a database, you would be added."@
}

/// What extraction gives for a create request on the user table.
pub open spec fn post_extraction(body: JsonModel, registry: Seq<TableModel>) -> Result<
    Map<Seq<char>, ValueModel>,
    ErrorModel,
> {
    match user_fields(body, registry) {
        Ok(fields) => extraction(body, fields, Policy::Create),
        Err(e) => Err(e),
    }
}

/// What a create request leads to.
pub open spec fn post_outcome(body: JsonModel, registry: Seq<TableModel>) -> Result<
    HandledModel,
    ErrorModel,
> {
    match post_extraction(body, registry) {
        Ok(m) => handled(inserted(m), |name: Seq<char>| post_message(name), 202),
        Err(e) => Err(e),
    }
}

/// The names of the user's fields are four different names.
pub proof fn lemma_user_field_names()
    ensures
        "name"@ != "email"@,
        "name"@ != "registered"@,
        "name"@ != "type"@,
        "email"@ != "registered"@,
        "email"@ != "type"@,
        "registered"@ != "type"@,
{
    reveal_strlit("name");
    reveal_strlit("email");
    reveal_strlit("registered");
    reveal_strlit("type");
    assert("name"@.len() == 4);
    assert("email"@.len() == 5);
    assert("registered"@.len() == 10);
    assert("type"@.len() == 4);
    assert("name"@[0] == 'n');
    assert("type"@[0] == 't');
}

/// Uses the fields to create a user.
pub fn post_insert(req: FieldMap) -> (r: Result<Action, AppError>)
    ensures
        is_outcome(r, inserted(req@)),
{
    let mut req = req;
    let ghost m = req@;
    proof {
        lemma_user_field_names();
    }
    let name = match take_required(&mut req, "name", DataKind::String) {
        Ok(value) => value,
        Err(e) => {
            return Err(e);
        },
    };
    let email = match take_required(&mut req, "email", DataKind::String) {
        Ok(value) => value,
        Err(e) => {
            return Err(e);
        },
    };
    let registered = match take_optional(&mut req, "registered", DataKind::String) {
        Ok(value) => value,
        Err(e) => {
            return Err(e);
        },
    };
    let kind = match take_required(&mut req, "type", DataKind::Enum) {
        Ok(value) => value,
        Err(e) => {
            return Err(e);
        },
    };
    let mut log = String::from_str("Found User: { name: ");
    log.append(name.to_text().as_str());
    log.append(", email: ");
    log.append(email.to_text().as_str());
    log.append(", ");
    if let Some(date) = registered {
        log.append("registered: ");
        log.append(date.to_text().as_str());
        log.append(", ");
    }
    log.append("type: ");
    log.append(kind.to_text().as_str());
    log.append(" }");
    Ok(Action { subject: name.to_text(), log })
}

/// Extracts the data from the request body and verifies it in the process.
///
/// Every required field must be there, so this is for create requests.
pub fn post_extract(body: &serde_json::Value, registry: &SchemaRegistry) -> (r: Result<
    FieldMap,
    AppError,
>)
    ensures
        is_outcome(r, post_extraction(json_model(*body), registry@)),
{
    match user_table_for(body, registry) {
        Ok(table) => extract(body, table, Policy::Create),
        Err(e) => Err(e),
    }
}

/// Replies with a success code and a message about the created user.
pub fn post_success(user_name: String) -> (r: Result<Reply, AppError>)
    ensures
        is_outcome(r, Ok(ReplyModel { status: 202, message: post_message(user_name@) })),
{
    let mut message = String::from_str("Welcome, ");
    message.append(user_name.as_str());
    message.append("! If this was hooked up to a database, you would be added.");
    respond(Ok(message), ACCEPTED)
}

/// Creates a user from a request body.
pub fn post_user(body: &serde_json::Value, registry: &SchemaRegistry) -> (r: Result<
    Handled,
    AppError,
>)
    ensures
        is_outcome(r, post_outcome(json_model(*body), registry@)),
{
    let fields = match post_extract(body, registry) {
        Ok(fields) => fields,
        Err(e) => {
            return Err(e);
        },
    };
    let action = match post_insert(fields) {
        Ok(action) => action,
        Err(e) => {
            return Err(e);
        },
    };
    match post_success(action.subject) {
        Ok(reply) => Ok(Handled { reply, log: action.log }),
        Err(e) => Err(e),
    }
}

} // verus!
