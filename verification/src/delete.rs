use vstd::prelude::*;
use vstd::string::*;
use crate::error::{is_outcome, AppError, ErrorModel, ACCEPTED};
use crate::extract::{identify, user_identification};
use crate::json::{json_model, JsonModel};
use crate::routes::{respond, Action, ActionModel, Handled, HandledModel, Reply, ReplyModel};
use crate::schema::{SchemaRegistry, TableModel};
use crate::text::{decimal, decimal_string};

verus! {

/// The action of deleting user `id`.
pub open spec fn deleted(id: u32) -> ActionModel {
    ActionModel {
        subject: decimal(id as nat),
        log: "User #"@ + decimal(id as nat) + " deleted"@,
    }
}

/// The message that answers a deletion of the user called `user_id`.
pub open spec fn delete_message(user_id: Seq<char>) -> Seq<char> {
    "Goodbye, User #"@ + user_id
        + ". If this was hooked up to a database, your information would be deleted."@
}

/// What a deletion of user `id` leads to.
pub open spec fn delete_outcome(id: u32) -> HandledModel {
    HandledModel {
        reply: ReplyModel { status: 202, message: delete_message(decimal(id as nat)) },
        log: deleted(id).log,
    }
}

/// Uses the id to delete a user.
pub fn delete_retrieve(id: u32) -> (r: Result<Action, AppError>)
    ensures
        is_outcome(r, Ok(deleted(id))),
{
    let mut log = String::from_str("User #");
    log.append(decimal_string(id as u64).as_str());
    log.append(" deleted");
    Ok(Action { subject: decimal_string(id as u64), log })
}

/// Replies with a success code and a message about the deletion.
pub fn delete_success(user_id: String) -> (r: Result<Reply, AppError>)
    ensures
        is_outcome(r, Ok(ReplyModel { status: 202, message: delete_message(user_id@) })),
{
    let mut message = String::from_str("Goodbye, User #");
    message.append(user_id.as_str());
    message.append(". If this was hooked up to a database, your information would be deleted.");
    respond(Ok(message), ACCEPTED)
}

/// Deletes the user with the given identifier.
pub fn delete_user(id: u32) -> (r: Result<Handled, AppError>)
    ensures
        is_outcome(r, Ok(delete_outcome(id))),
{
    match delete_retrieve(id) {
        Err(e) => Err(e),
        Ok(action) => match delete_success(action.subject) {
            Err(e) => Err(e),
            Ok(reply) => Ok(Handled { reply, log: action.log }),
        },
    }
}

/// What a deletion leads to when the identifier travels in the body.
pub open spec fn delete_body_outcome(body: JsonModel, registry: Seq<TableModel>) -> Result<
    HandledModel,
    ErrorModel,
> {
    match user_identification(body, registry) {
        Ok(id) => Ok(delete_outcome(id)),
        Err(e) => Err(e),
    }
}

/// Deletes the user whose identifier the body holds.
pub fn delete_user_body(body: &serde_json::Value, registry: &SchemaRegistry) -> (r: Result<
    Handled,
    AppError,
>)
    ensures
        is_outcome(r, delete_body_outcome(json_model(*body), registry@)),
{
    match identify(body, registry) {
        Ok(id) => delete_user(id),
        Err(e) => Err(e),
    }
}

} // verus!
