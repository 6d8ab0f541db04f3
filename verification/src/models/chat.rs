//! Chats: conversations between friends.

use vstd::prelude::*;
use crate::models::message::MessageThread;
use crate::time::Timestamp;

verus! {

/// A chat.
pub struct Chat {
    pub id: i32,
    pub name: String,
    pub created_at: Timestamp,
}

impl Chat {
    /// When two chats hold the same values.
    pub open spec fn same(self, other: Chat) -> bool {
        &&& self.id == other.id
        &&& self.name@ == other.name@
        &&& self.created_at == other.created_at
    }

    /// When a chat is the placeholder that stands for "no chat open".
    pub open spec fn is_placeholder(self) -> bool {
        &&& self.id == 0
        &&& self.name@ == "Chat"@
        &&& self.created_at == Timestamp::spec_epoch()
    }

    /// The placeholder chat.
    pub fn default() -> (c: Chat)
        ensures
            c.is_placeholder(),
    {
        Chat { id: 0, name: String::from_str("Chat"), created_at: Timestamp::epoch() }
    }

    /// Compares two chats field by field.
    pub fn equals(&self, other: &Chat) -> (r: bool)
        ensures
            r == self.same(*other),
    {
        self.id == other.id && self.name == other.name && self.created_at == other.created_at
    }
}

impl Clone for Chat {
    fn clone(&self) -> (c: Chat)
        ensures
            c == *self,
    {
        Chat { id: self.id, name: self.name.clone(), created_at: self.created_at }
    }
}

/// The chats that the chat menu lists.
pub struct MultiChatPreview {
    pub chat_previews: Vec<Chat>,
}

impl View for MultiChatPreview {
    type V = Seq<Chat>;

    open spec fn view(&self) -> Seq<Chat> {
        self.chat_previews@
    }
}

impl MultiChatPreview {
    /// No chats.
    pub fn default() -> (m: MultiChatPreview)
        ensures
            m@ == Seq::<Chat>::empty(),
    {
        MultiChatPreview { chat_previews: Vec::new() }
    }
}

impl Clone for MultiChatPreview {
    fn clone(&self) -> (m: MultiChatPreview)
        ensures
            m@ == self@,
    {
        MultiChatPreview { chat_previews: self.chat_previews.clone() }
    }
}

/// A chat with its messages.
pub struct ChatDetail {
    pub chat: Chat,
    pub thread: MessageThread,
}

impl ChatDetail {
    /// The placeholder chat without messages.
    pub fn default() -> (d: ChatDetail)
        ensures
            d.chat.is_placeholder(),
            d.thread@ == Seq::<crate::models::message::Message>::empty(),
    {
        ChatDetail { chat: Chat::default(), thread: MessageThread::default() }
    }
}

} // verus!
