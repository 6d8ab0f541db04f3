use chat_client::contexts::chat_context::{ChatContext, ChatDispatch};
use chat_client::contexts::member_context::{MemberContext, MemberDispatch, token_worth_validating, is_logged_in};
use chat_client::contexts::server_context::{ServerContext, ServerDispatch};
use chat_client::models::chat::{Chat, MultiChatPreview};
use chat_client::models::message::{Message, MessageThread};
use chat_client::models::member::{Member, MemberShort};
use chat_client::models::server::{Server, MultiServer};
use chat_client::models::friends::{FullFriend, MultiFriend};
use chat_client::models::friend_request::{RequestDetailed, MultiFriendRequest};
use chat_client::models::channel::{Channel, MultiChannel};
use chat_client::models::post::{PostDetail, MultiPost};
use chat_client::time::Timestamp;

fn chat(id: i32, name: &str) -> Chat {
    Chat { id, name: name.to_string(), created_at: Timestamp::new(2024, 5, 1, 8, 0, 0, 0).unwrap() }
}

fn message(id: i32, text: &str) -> Message {
    Message { id, content: text.to_string(), sender: MemberShort::new(1, "ann".into(), None), created_at: Timestamp::epoch() }
}

#[test]
fn chat_context_updates() {
    let start = ChatContext::initial();
    assert!(start.current_chat.equals(&Chat::default()));
    assert_eq!(start.thread_to_load(), None);

    let opened = start.reduce(ChatDispatch::UpdateCurrentChat(chat(7, "team")));
    assert_eq!(opened.current_chat.id, 7);
    assert_eq!(opened.thread_to_load(), Some(7));

    let loaded = opened.reduce(ChatDispatch::UpdateCurrentThread(MessageThread { thread: vec![message(1, "a"), message(2, "b")] }));
    assert_eq!(loaded.thread.thread.len(), 2);
    assert_eq!(loaded.current_chat.id, 7);

    let listed = loaded.reduce(ChatDispatch::UpdatePreviews(MultiChatPreview { chat_previews: vec![chat(7, "team"), chat(8, "duo")] }));
    assert_eq!(listed.previews.chat_previews.len(), 2);
    assert_eq!(listed.thread.thread.len(), 2);

    let switched = listed.reduce(ChatDispatch::UpdateCurrentChat(chat(8, "duo")));
    assert!(switched.thread.thread.is_empty());
    assert_eq!(switched.previews.chat_previews.len(), 2);
}

#[test]
fn chat_context_same_update_twice_counts_once() {
    let s = ChatContext::initial().reduce(ChatDispatch::UpdateCurrentChat(chat(3, "x")));
    let once = s.reduce(ChatDispatch::UpdateCurrentThread(MessageThread { thread: vec![message(1, "a")] }));
    let twice = once.reduce(ChatDispatch::UpdateCurrentThread(MessageThread { thread: vec![message(1, "a")] }));
    assert_eq!(once.thread.thread.len(), twice.thread.thread.len());
    assert!(once.current_chat.equals(&twice.current_chat));
}

fn member(id: i32) -> Member {
    Member::new(id, format!("user{}", id), "u@x".into(), None, false, Timestamp::epoch())
}

#[test]
fn member_context_login_follows_member() {
    let start = MemberContext::initial();
    assert!(!start.logged_in);
    assert!(!start.lists_to_load());

    let in_ = start.reduce(MemberDispatch::UpdateMember(member(5)));
    assert!(in_.logged_in);
    assert!(in_.lists_to_load());

    let with_lists = in_
        .reduce(MemberDispatch::UpdateServers(MultiServer { servers: vec![Server::default()] }))
        .reduce(MemberDispatch::UpdateFriends(MultiFriend { friends: vec![FullFriend::default()] }))
        .reduce(MemberDispatch::UpdateRequests(MultiFriendRequest { incoming: vec![RequestDetailed::default()], outgoing: vec![] }));
    assert_eq!(with_lists.servers.servers.len(), 1);
    assert_eq!(with_lists.friends.friends.len(), 1);
    assert_eq!(with_lists.requests.incoming.len(), 1);
    assert!(with_lists.logged_in);

    let other = with_lists.reduce(MemberDispatch::UpdateMember(member(6)));
    assert!(other.logged_in);
    assert!(other.servers.servers.is_empty() && other.friends.friends.is_empty() && other.requests.incoming.is_empty());

    let out = other.reduce(MemberDispatch::UpdateMember(Member::default()));
    assert!(!out.logged_in);
}

#[test]
fn stored_tokens_at_start_up() {
    assert!(!token_worth_validating(&None));
    assert!(!token_worth_validating(&Some(String::new())));
    assert!(token_worth_validating(&Some("t".into())));
    assert!(is_logged_in(&Some("t".into()), true));
    assert!(!is_logged_in(&Some("t".into()), false));
    assert!(!is_logged_in(&Some(String::new()), true));
}

#[test]
fn server_context_updates() {
    let start = ServerContext::initial();
    assert_eq!(start.channels_to_load(), None);
    assert_eq!(start.thread_to_load(), None);
    assert_eq!(start.channels.channels.len(), 19);

    let srv = Server::new(4, "S".into(), "D".into(), None, 1, Timestamp::epoch());
    let opened = start.reduce(ServerDispatch::UpdateServer(srv));
    assert_eq!(opened.channels_to_load(), Some(4));

    let general = Channel::new(10, "general".into(), 4, Timestamp::epoch());
    let with_channels = opened.reduce(ServerDispatch::UpdateServerChannels(MultiChannel { channels: vec![general.clone()] }));
    let selected = with_channels.reduce(ServerDispatch::UpdateChannel(general));
    assert_eq!(selected.thread_to_load(), Some(10));
    let posts = selected.reduce(ServerDispatch::UpdateChannelThread(MultiPost { posts: vec![PostDetail::default()] }));
    assert_eq!(posts.current_thread.posts.len(), 1);
    assert_eq!(posts.channels.channels.len(), 1);

    let other = Server::new(5, "T".into(), "D".into(), None, 1, Timestamp::epoch());
    let switched = posts.reduce(ServerDispatch::UpdateServer(other));
    assert_eq!(switched.current_server.id, 5);
    assert_eq!(switched.channels.channels.len(), 19);
    assert!(switched.current_channel.equals(&Channel::default()));
    assert!(switched.current_thread.posts.is_empty());
    assert_eq!(switched.thread_to_load(), None);
}
