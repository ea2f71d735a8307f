//! The event data model: updates received from the remote messaging
//! platform, each carrying at most one message tied to a chat.
//!
//! The core reads only the sequence identifier of an update and the chat a
//! message belongs to; media attachments of the wire format are opaque
//! payloads and are not carried into the core.

use vstd::prelude::*;

verus! {

/// The kind of chat a message belongs to.
#[derive(Debug, PartialEq, Eq, Structural, Clone, Copy)]
pub enum ChatType {
    Private,
    Group,
    Supergroup,
    Channel,
}

/// A chat: a unique integer identifier and its kind.
#[derive(Debug, Clone)]
pub struct Chat {
    /// Unique identifier for this chat.
    pub id: i64,
    /// Kind of the chat.
    pub chat_type: ChatType,
    /// Title, for supergroups, channels and group chats.
    pub title: Option<String>,
}

/// The author of a message.
#[derive(Debug, Clone)]
pub struct User {
    /// Unique identifier for this user or bot.
    pub id: i64,
    /// True, if this user is a bot.
    pub is_bot: bool,
    /// User's or bot's first name.
    pub first_name: String,
    /// User's or bot's last name.
    pub last_name: Option<String>,
    /// User's or bot's username.
    pub username: Option<String>,
}

/// A message inside a chat.
#[derive(Debug, Clone)]
pub struct Message {
    /// Unique message identifier inside its chat.
    pub message_id: i64,
    /// Date the message was sent, in Unix time.
    pub date: u64,
    /// Chat the message belongs to.
    pub chat: Chat,
    /// Sender of the message; absent for messages sent to channels.
    pub from: Option<User>,
    /// For text messages, the text of the message.
    pub text: Option<String>,
}

/// One event received from the remote platform: a strictly increasing
/// sequence identifier and, for message events, the message itself.
#[derive(Debug, Clone)]
pub struct Update {
    /// Sequence identifier of the event.
    pub update_id: i64,
    /// The new message, if this event carries one.
    pub message: Option<Message>,
}

} // verus!
