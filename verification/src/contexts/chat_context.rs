//! The chat context: the chats of the member, the open chat and its messages.

use vstd::prelude::*;
use crate::models::chat::{Chat, MultiChatPreview};
use crate::models::message::{Message, MessageThread};

verus! {

/// The values of a chat context.
pub struct ChatState {
    pub previews: Seq<Chat>,
    pub current_chat: Chat,
    pub thread: Seq<Message>,
}

/// The chat context.
pub struct ChatContext {
    pub previews: MultiChatPreview,
    pub current_chat: Chat,
    pub thread: MessageThread,
}

/// An update of the chat context.
pub enum ChatDispatch {
    UpdatePreviews(MultiChatPreview),
    UpdateCurrentChat(Chat),
    UpdateCurrentThread(MessageThread),
}

impl View for ChatContext {
    type V = ChatState;

    open spec fn view(&self) -> ChatState {
        ChatState { previews: self.previews@, current_chat: self.current_chat, thread: self.thread@ }
    }
}

/// The state after an update: the chat list or the messages are replaced,
/// or another chat is opened, which starts with no messages until they load.
pub open spec fn chat_step(s: ChatState, action: ChatDispatch) -> ChatState {
    match action {
        ChatDispatch::UpdatePreviews(previews) => ChatState {
            previews: previews@,
            current_chat: s.current_chat,
            thread: s.thread,
        },
        ChatDispatch::UpdateCurrentChat(chat) => ChatState {
            previews: s.previews,
            current_chat: chat,
            thread: Seq::empty(),
        },
        ChatDispatch::UpdateCurrentThread(thread) => ChatState {
            previews: s.previews,
            current_chat: s.current_chat,
            thread: thread@,
        },
    }
}

impl ChatContext {
    /// The state before anything loaded: no chats, the placeholder chat, no
    /// messages.
    pub fn initial() -> (c: ChatContext)
        ensures
            c@.previews == Seq::<Chat>::empty(),
            c@.current_chat.is_placeholder(),
            c@.thread == Seq::<Message>::empty(),
    {
        ChatContext {
            previews: MultiChatPreview::default(),
            current_chat: Chat::default(),
            thread: MessageThread::default(),
        }
    }

    /// Applies an update.
    pub fn reduce(&self, action: ChatDispatch) -> (c: ChatContext)
        ensures
            c@ == chat_step(self@, action),
    {
        match action {
            ChatDispatch::UpdatePreviews(previews) => ChatContext {
                previews,
                current_chat: self.current_chat.clone(),
                thread: self.thread.clone(),
            },
            ChatDispatch::UpdateCurrentChat(chat) => ChatContext {
                previews: self.previews.clone(),
                current_chat: chat,
                thread: MessageThread::default(),
            },
            ChatDispatch::UpdateCurrentThread(thread) => ChatContext {
                previews: self.previews.clone(),
                current_chat: self.current_chat.clone(),
                thread,
            },
        }
    }

    /// The chat whose messages have to be fetched after the open chat
    /// changed: none while the placeholder chat is open.
    pub fn thread_to_load(&self) -> (id: Option<i32>)
        ensures
            id == if self.current_chat.is_placeholder() {
                None
            } else {
                Some(self.current_chat.id)
            },
    {
        if self.current_chat.equals(&Chat::default()) {
            None
        } else {
            Some(self.current_chat.id)
        }
    }
}

/// Law: an update takes effect and touches nothing else. After replacing the
/// chat list or the messages they read back as given and the rest stays;
/// after opening a chat it is the open chat, the list stays and no message
/// is shown.
pub proof fn law_chat_update_reads_back(s: ChatState, action: ChatDispatch)
    ensures
        ({
            let t = chat_step(s, action);
            match action {
                ChatDispatch::UpdatePreviews(p) => t.previews == p@ && t.current_chat == s.current_chat
                    && t.thread == s.thread,
                ChatDispatch::UpdateCurrentChat(c) => t.current_chat == c && t.previews == s.previews
                    && t.thread == Seq::<Message>::empty(),
                ChatDispatch::UpdateCurrentThread(m) => t.thread == m@ && t.previews == s.previews
                    && t.current_chat == s.current_chat,
            }
        }),
{
}

/// Law: dispatching the same update twice leaves the state as dispatching it
/// once.
pub proof fn law_chat_update_idempotent(s: ChatState, action: ChatDispatch)
    ensures
        chat_step(chat_step(s, action), action) == chat_step(s, action),
{
}

/// Law: of two updates of the same kind the later one wins.
pub proof fn law_chat_last_update_wins(s: ChatState, first: ChatDispatch, second: ChatDispatch)
    requires
        (first is UpdatePreviews && second is UpdatePreviews) || (first is UpdateCurrentChat
            && second is UpdateCurrentChat) || (first is UpdateCurrentThread
            && second is UpdateCurrentThread),
    ensures
        chat_step(chat_step(s, first), second) == chat_step(s, second),
{
}

/// Law: refreshing the chat list is independent of which chat is open and of
/// its messages: it commutes with the other two updates.
pub proof fn law_chat_previews_commute(s: ChatState, previews: ChatDispatch, other: ChatDispatch)
    requires
        previews is UpdatePreviews,
        !(other is UpdatePreviews),
    ensures
        chat_step(chat_step(s, previews), other) == chat_step(chat_step(s, other), previews),
{
}

/// Law: opening a chat discards the messages of the previous one, so
/// messages loaded before the chat changes never show under the new chat.
pub proof fn law_chat_switch_discards_thread(s: ChatState, thread: ChatDispatch, chat: ChatDispatch)
    requires
        thread is UpdateCurrentThread,
        chat is UpdateCurrentChat,
    ensures
        chat_step(chat_step(s, thread), chat) == chat_step(s, chat),
{
}

} // verus!
