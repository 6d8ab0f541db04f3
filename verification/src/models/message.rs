//! Messages of a chat.

use vstd::prelude::*;
use crate::models::member::MemberShort;
use crate::time::{Timestamp, format_created_at, us_date_time_12h};

verus! {

/// The fields of a message to be sent.
pub struct NewMessage {
    pub content: String,
    pub sender_id: i32,
    pub chat_id: i32,
}

/// A message of a chat.
pub struct Message {
    pub id: i32,
    pub content: String,
    pub sender: MemberShort,
    pub created_at: Timestamp,
}

impl Message {
    /// When two messages hold the same values.
    pub open spec fn same(self, other: Message) -> bool {
        &&& self.id == other.id
        &&& self.content@ == other.content@
        &&& self.sender.same(other.sender)
        &&& self.created_at == other.created_at
    }

    /// The placeholder message.
    pub fn default() -> (m: Message)
        ensures
            m.id == 0,
            m.content@ == "Message"@,
            m.sender.is_guest(),
            m.created_at == Timestamp::spec_epoch(),
    {
        Message {
            id: 0,
            content: String::from_str("Message"),
            sender: MemberShort::default(),
            created_at: Timestamp::epoch(),
        }
    }

    /// When the message was sent, as `MM/DD/YYYY hh:mm AM`.
    pub fn created_at(&self) -> (s: String)
        ensures
            s@ == us_date_time_12h(
                self.created_at.parts(),
            ),
    {
        format_created_at(&self.created_at)
    }
}

impl Clone for Message {
    fn clone(&self) -> (m: Message)
        ensures
            m == *self,
    {
        Message {
            id: self.id,
            content: self.content.clone(),
            sender: self.sender.clone(),
            created_at: self.created_at,
        }
    }
}

/// The messages of a chat, oldest first.
pub struct MessageThread {
    pub thread: Vec<Message>,
}

impl View for MessageThread {
    type V = Seq<Message>;

    open spec fn view(&self) -> Seq<Message> {
        self.thread@
    }
}

impl MessageThread {
    /// No messages.
    pub fn default() -> (t: MessageThread)
        ensures
            t@ == Seq::<Message>::empty(),
    {
        MessageThread { thread: Vec::new() }
    }
}

impl Clone for MessageThread {
    fn clone(&self) -> (t: MessageThread)
        ensures
            t@ == self@,
    {
        MessageThread { thread: self.thread.clone() }
    }
}

} // verus!
