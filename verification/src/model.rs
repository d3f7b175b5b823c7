//! The records that the service receives, stores and reads back.
use vstd::prelude::*;

verus! {

/// A question sent to the assistant: who asks, in which conversation (none starts a new one),
/// and what.
#[derive(Debug, Clone)]
pub struct Bother {
    pub user_id: String,
    pub conversation_id: Option<String>,
    pub message: String,
}

/// A stored message of a conversation.
#[derive(Debug, Clone)]
pub struct Message {
    pub id: String,
    pub conversation_id: String,
    pub created_at: String,
    pub message: String,
    pub sender_type: String,
}

/// A stored conversation of a user.
#[derive(Debug, Clone)]
pub struct Conversation {
    pub id: String,
    pub created_at: String,
    pub user_id: String,
    pub title: String,
}

/// A question as text values.
pub struct BotherModel {
    pub user_id: Seq<char>,
    pub conversation_id: Option<Seq<char>>,
    pub message: Seq<char>,
}

/// The optional text of an optional string.
pub open spec fn opt_view(o: Option<String>) -> Option<Seq<char>> {
    match o {
        Some(s) => Some(s@),
        None => None,
    }
}

impl View for Bother {
    type V = BotherModel;

    open spec fn view(&self) -> BotherModel {
        BotherModel {
            user_id: self.user_id@,
            conversation_id: opt_view(self.conversation_id),
            message: self.message@,
        }
    }
}

} // verus!
