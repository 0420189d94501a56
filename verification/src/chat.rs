//! Conversations between clients and clerks: the text chat socket, where
//! every message is echoed to the room and those whose action is `message`
//! are also kept in the chat's history, and the pages of a chat or a call.

use vstd::prelude::*;
use crate::text::text_eq;

verus! {

/// A message on the text chat socket.
#[derive(Debug)]
pub struct ChatSocketMessage {
    /// Who sends.
    pub from: i32,
    /// Who the message is for.
    pub to: i32,
    /// The chat the message belongs to.
    pub chat_id: i32,
    /// `message`, or a transaction, leave or balance event.
    pub action: String,
    /// The text, when the action is a message.
    pub message: Option<String>,
    /// The transaction announced, if any.
    pub transaction: Option<i32>,
}

/// A line of a chat's history, without its time (the server stamps it).
#[derive(Debug)]
pub struct ChatLine {
    pub chat_msg_user_id: i32,
    pub chat_msg_body: Option<String>,
    pub chat_id: i32,
}

/// The history line a socket message adds, if it is a chat message.
pub fn chat_line(m: ChatSocketMessage) -> (res: Option<ChatLine>)
    ensures
        match res {
            Some(l) => m.action@ == "message"@ && l.chat_msg_user_id == m.from && l.chat_msg_body
                == m.message && l.chat_id == m.chat_id,
            None => m.action@ != "message"@,
        },
{
    if text_eq(m.action.as_str(), "message") {
        Some(ChatLine { chat_msg_user_id: m.from, chat_msg_body: m.message, chat_id: m.chat_id })
    } else {
        None
    }
}

/// What a chat or call page shows its viewer: the template and the other
/// party of the conversation.
#[derive(Debug)]
pub struct ConversationView {
    pub template: String,
    /// The user at the other end: the client for a clerk, the clerk for a client.
    pub other_party: i32,
}

/// Whether a user of this type attends (a clerk or an administrator);
/// type 1 is a client.
pub open spec fn attends(user_type_id: i32) -> bool {
    user_type_id > 1
}

/// The chat page for a viewer of type `user_type_id` in a chat between
/// `client_id` and `clerk_id`.
pub fn chat_view(user_type_id: i32, client_id: i32, clerk_id: i32) -> (res: ConversationView)
    ensures
        attends(user_type_id) ==> res.template@ == "home/chat_clerk"@ && res.other_party == client_id,
        !attends(user_type_id) ==> res.template@ == "home/chat_user"@ && res.other_party == clerk_id,
{
    if user_type_id > 1 {
        ConversationView { template: String::from_str("home/chat_clerk"), other_party: client_id }
    } else {
        ConversationView { template: String::from_str("home/chat_user"), other_party: clerk_id }
    }
}

/// The call page for a viewer of type `user_type_id` in a call that the
/// client `caller_id` placed to `clerk_id`.
pub fn call_view(user_type_id: i32, caller_id: i32, clerk_id: i32) -> (res: ConversationView)
    ensures
        attends(user_type_id) ==> res.template@ == "home/voip-clerk"@ && res.other_party == caller_id,
        !attends(user_type_id) ==> res.template@ == "home/voip-user"@ && res.other_party == clerk_id,
{
    if user_type_id > 1 {
        ConversationView { template: String::from_str("home/voip-clerk"), other_party: caller_id }
    } else {
        ConversationView { template: String::from_str("home/voip-user"), other_party: clerk_id }
    }
}

/// The voice minutes left on the platform's line after one more minute of
/// call: one fewer. The count may go below zero; it cannot go below the
/// smallest `i32`.
pub fn voice_minutes_after_minute(minutes: i32) -> (res: i32)
    requires
        minutes > i32::MIN,
    ensures
        res == minutes - 1,
{
    minutes - 1
}

} // verus!
