use vstd::prelude::*;
use vstd::string::*;
use crate::error::{is_outcome, AppError, ErrorModel};

verus! {

/// What a handler did: the text it passes on, and the line that records the
/// action it took.
#[derive(Debug)]
pub struct Action {
    pub subject: String,
    pub log: String,
}

/// The mathematical content of an `Action`.
pub struct ActionModel {
    pub subject: Seq<char>,
    pub log: Seq<char>,
}

/// A successful response: the HTTP status number and the message.
#[derive(Debug)]
pub struct Reply {
    pub status: u16,
    pub message: String,
}

/// The mathematical content of a `Reply`.
pub struct ReplyModel {
    pub status: u16,
    pub message: Seq<char>,
}

/// A request that was carried out: the response, and the line that records
/// the action taken.
#[derive(Debug)]
pub struct Handled {
    pub reply: Reply,
    pub log: String,
}

/// The mathematical content of a `Handled`.
pub struct HandledModel {
    pub reply: ReplyModel,
    pub log: Seq<char>,
}

impl View for Action {
    type V = ActionModel;

    open spec fn view(&self) -> ActionModel {
        ActionModel { subject: self.subject@, log: self.log@ }
    }
}

impl View for Reply {
    type V = ReplyModel;

    open spec fn view(&self) -> ReplyModel {
        ReplyModel { status: self.status, message: self.message@ }
    }
}

impl View for Handled {
    type V = HandledModel;

    open spec fn view(&self) -> HandledModel {
        HandledModel { reply: self.reply@, log: self.log@ }
    }
}

/// The response to a result: a message becomes a reply with the given
/// status, an error stays as it is.
pub open spec fn response(result: Result<Seq<char>, ErrorModel>, status: u16) -> Result<
    ReplyModel,
    ErrorModel,
> {
    match result {
        Ok(message) => Ok(ReplyModel { status, message }),
        Err(e) => Err(e),
    }
}

/// What a handler's action leads to, given the message for its subject.
pub open spec fn handled(
    action: Result<ActionModel, ErrorModel>,
    message: spec_fn(Seq<char>) -> Seq<char>,
    status: u16,
) -> Result<HandledModel, ErrorModel> {
    match action {
        Ok(a) => Ok(
            HandledModel { reply: ReplyModel { status, message: message(a.subject) }, log: a.log },
        ),
        Err(e) => Err(e),
    }
}

/// Turns a result into a response.
///
/// Status is the status code on success.
pub fn respond(result: Result<String, AppError>, status: u16) -> (r: Result<Reply, AppError>)
    ensures
        match result {
            Ok(message) => is_outcome(r, response(Ok(message@), status)),
            Err(e) => is_outcome(r, response(Err(e@), status)),
        },
{
    match result {
        Ok(message) => Ok(Reply { status, message }),
        Err(err) => Err(err),
    }
}

} // verus!
