use vstd::prelude::*;
use vstd::string::*;
use crate::error::{is_outcome, AppError, ErrorModel, ACCEPTED};
use crate::extract::{identify, user_identification};
use crate::json::{json_model, JsonModel};
use crate::routes::{respond, Action, ActionModel, Handled, HandledModel, Reply, ReplyModel};
use crate::schema::{SchemaRegistry, TableModel};
use crate::text::{decimal, decimal_string};

verus! {

/// The action of reading user `id`.
pub open spec fn retrieved(id: u32) -> ActionModel {
    ActionModel {
        subject: decimal(id as nat),
        log: "User #"@ + decimal(id as nat) + ": <SQL-retrieved stuff>"@,
    }
}

/// The message that answers a read of the user called `user_id`.
pub open spec fn get_message(user_id: Seq<char>) -> Seq<char> {
    "Welcome, User #"@ + user_id
        + "! If this was hooked up to a database, your information would be retrieved."@
}

/// What a read of user `id` leads to.
pub open spec fn get_outcome(id: u32) -> HandledModel {
    HandledModel {
        reply: ReplyModel { status: 202, message: get_message(decimal(id as nat)) },
        log: retrieved(id).log,
    }
}

/// Uses the id to read a user.
pub fn get_retrieve(id: u32) -> (r: Result<Action, AppError>)
    ensures
        is_outcome(r, Ok(retrieved(id))),
{
    let mut log = String::from_str("User #");
    log.append(decimal_string(id as u64).as_str());
    log.append(": <SQL-retrieved stuff>");
    Ok(Action { subject: decimal_string(id as u64), log })
}

/// Replies with a success code and a message about the read.
pub fn get_success(user_id: String) -> (r: Result<Reply, AppError>)
    ensures
        is_outcome(r, Ok(ReplyModel { status: 202, message: get_message(user_id@) })),
{
    let mut message = String::from_str("Welcome, User #");
    message.append(user_id.as_str());
    message.append("! If this was hooked up to a database, your information would be retrieved.");
    respond(Ok(message), ACCEPTED)
}

/// Reads the user with the given identifier.
pub fn get_user(id: u32) -> (r: Result<Handled, AppError>)
    ensures
        is_outcome(r, Ok(get_outcome(id))),
{
    match get_retrieve(id) {
        Err(e) => Err(e),
        Ok(action) => match get_success(action.subject) {
            Err(e) => Err(e),
            Ok(reply) => Ok(Handled { reply, log: action.log }),
        },
    }
}

/// What a read leads to when the identifier travels in the body.
pub open spec fn get_body_outcome(body: JsonModel, registry: Seq<TableModel>) -> Result<
    HandledModel,
    ErrorModel,
> {
    match user_identification(body, registry) {
        Ok(id) => Ok(get_outcome(id)),
        Err(e) => Err(e),
    }
}

/// Reads the user whose identifier the body holds.
pub fn get_user_body(body: &serde_json::Value, registry: &SchemaRegistry) -> (r: Result<
    Handled,
    AppError,
>)
    ensures
        is_outcome(r, get_body_outcome(json_model(*body), registry@)),
{
    match identify(body, registry) {
        Ok(id) => get_user(id),
        Err(e) => Err(e),
    }
}

} // verus!
