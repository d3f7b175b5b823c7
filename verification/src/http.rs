//! The answers of the service's HTTP endpoints, apart from answering questions.
use vstd::prelude::*;
use vstd::string::*;
use crate::db::{Statement, StatementModel};
use crate::ids::{format_uuid, uuid_text};
use crate::model::Conversation;

verus! {

/// HTTP status of a successful answer.
pub const STATUS_OK: u16 = 200;

/// HTTP status of a request for a path that no route serves.
pub const STATUS_NOT_FOUND: u16 = 404;

/// HTTP status of a failure inside the service.
pub const STATUS_INTERNAL_SERVER_ERROR: u16 = 500;

/// Status reported by the health endpoint.
pub const HEALTHY: &'static str = "ok";

/// Text before the path in the answer to an unknown route.
pub const NO_ROUTE_HEAD: &'static str = "No route for ";

/// Text after the path in the answer to an unknown route.
pub const NO_ROUTE_TAIL: &'static str = "!!1";

/// Text before the error in the answer to a failure.
pub const ERROR_HEAD: &'static str = "Internal Server Error: ";

/// The body of the health endpoint: a single `status` entry.
#[derive(Debug, Clone)]
pub struct Health {
    pub status: String,
}

/// The body of the conversations endpoint.
#[derive(Debug, Clone)]
pub struct ConversationsReply {
    pub conversations: Vec<String>,
}

/// A failure of a request, with the text of its cause.
#[derive(Debug, Clone)]
pub struct AppError {
    pub message: String,
}

/// The health endpoint answers that the service is up.
pub fn health() -> (res: (u16, Health))
    ensures
        res.0 == STATUS_OK,
        res.1.status@ == HEALTHY@,
{
    (STATUS_OK, Health { status: HEALTHY.to_owned() })
}

/// The answer to a request for a path that no route serves.
pub fn fallback(uri: &str) -> (res: (u16, String))
    ensures
        res.0 == STATUS_NOT_FOUND,
        res.1@ == NO_ROUTE_HEAD@ + uri@ + NO_ROUTE_TAIL@,
{
    let mut body = NO_ROUTE_HEAD.to_owned();
    body.append(uri);
    body.append(NO_ROUTE_TAIL);
    (STATUS_NOT_FOUND, body)
}

/// The statement that lists the conversations of the user with UUID `user_id`, written in its
/// hyphenated form.
pub fn conversations_query(user_id: u128) -> (s: Statement)
    ensures
        s@ == (StatementModel::ConversationsByUser { user_id: uuid_text(user_id) }),
{
    let user = format_uuid(user_id);
    Statement::get_conversation_list_by_user(user.as_str())
}

/// The answer of the conversations endpoint, given the conversations found: an empty list,
/// whatever was found.
pub fn conversations_reply(found: &Vec<Conversation>) -> (res: (u16, ConversationsReply))
    ensures
        res.0 == STATUS_OK,
        res.1.conversations@.len() == 0,
{
    (STATUS_OK, ConversationsReply { conversations: Vec::new() })
}

impl AppError {
    /// A failure caused by an error with the given text.
    pub fn from(message: String) -> (e: AppError)
        ensures
            e.message@ == message@,
    {
        AppError { message }
    }

    /// The answer to a failed request: status 500 and the text of the cause.
    pub fn into_response(self) -> (res: (u16, String))
        ensures
            res.0 == STATUS_INTERNAL_SERVER_ERROR,
            res.1@ == ERROR_HEAD@ + self.message@,
    {
        let mut body = ERROR_HEAD.to_owned();
        body.append(self.message.as_str());
        (STATUS_INTERNAL_SERVER_ERROR, body)
    }
}

} // verus!
