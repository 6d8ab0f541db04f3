use chat_client::models::member::{Member, MemberShort, MultiMember, UpdateMember};
use chat_client::models::server::{Server, MultiServer};
use chat_client::models::channel::{Channel, MultiChannel};
use chat_client::models::chat::{Chat, MultiChatPreview, ChatDetail};
use chat_client::models::message::{Message, MessageThread};
use chat_client::models::post::{Post, PostDetail, MultiPost};
use chat_client::models::friends::{FullFriend, MultiFriend};
use chat_client::models::friend_request::{RequestDetailed, MultiFriendRequest};
use chat_client::time::Timestamp;

fn at(y: i32, mo: u32, d: u32, h: u32, mi: u32) -> Timestamp {
    Timestamp::new(y, mo, d, h, mi, 0, 0).unwrap()
}

#[test]
fn member_placeholders() {
    let m = Member::default();
    assert_eq!((m.id, m.username.as_str(), m.email.as_str(), m.avatar.clone(), m.is_admin), (0, "guest", "member.email@provider", None, false));
    assert_eq!(m.created_at, Timestamp::epoch());
    let s = MemberShort::default();
    assert_eq!((s.id, s.username.as_str(), s.avatar.clone()), (0, "guest", None));
    let many = MultiMember::default();
    assert_eq!(many.members.len(), 14);
    assert!(many.members.iter().all(|m| m.equals(&MemberShort::default())));
    let u = UpdateMember::new("a".into(), "b".into(), "c".into(), true, Some("av".into()));
    assert_eq!((u.username.as_str(), u.password.as_str(), u.email.as_str(), u.is_admin, u.avatar.clone()), ("a", "b", "c", true, Some("av".to_string())));
    assert_eq!(MultiMember::new(vec![MemberShort::new(2, "x".into(), None)]).members.len(), 1);
}

#[test]
fn member_equality_is_by_value() {
    let a = Member::new(1, "ann".into(), "a@x".into(), None, false, at(2024, 1, 1, 0, 0));
    let b = a.clone();
    assert!(a.equals(&b));
    let c = Member::new(1, "ann".into(), "a@x".into(), Some("pic".into()), false, at(2024, 1, 1, 0, 0));
    assert!(!a.equals(&c));
    assert!(Member::default().equals(&Member::default()));
}

#[test]
fn server_icons() {
    let mut s = Server::default();
    assert_eq!((s.id, s.name.as_str(), s.description.as_str(), s.owner_id), (0, "default", "I is Server", 0));
    assert_eq!(s.icon(), ("default".to_string(), "var(--accent-green)".to_string()));
    s.icon = Some("rocket:#ff8800".to_string());
    assert!(s.has_readable_icon());
    assert_eq!(s.icon(), ("rocket".to_string(), "#ff8800".to_string()));
    s.icon = Some("a:b:c".to_string());
    assert_eq!(s.icon(), ("a".to_string(), "b".to_string()));
    s.icon = Some("broken".to_string());
    assert!(!s.has_readable_icon());
}

#[test]
fn server_membership_lookup() {
    let one = Server::new(1, "one".into(), "d".into(), None, 5, at(2024, 1, 1, 0, 0));
    let two = Server::new(2, "two".into(), "d".into(), None, 5, at(2024, 1, 1, 0, 0));
    let list = MultiServer::new(vec![one.clone()]);
    assert!(list.contains(&one));
    assert!(!list.contains(&two));
    assert!(!MultiServer::default().contains(&one));
    let renamed = Server::new(1, "uno".into(), "d".into(), None, 5, at(2024, 1, 1, 0, 0));
    assert!(!list.contains(&renamed));
}

#[test]
fn channel_placeholders_and_times() {
    let c = Channel::default();
    assert_eq!((c.id, c.server_id, c.name.as_str()), (0, 0, "default"));
    assert_eq!(MultiChannel::default().channels.len(), 19);
    let real = Channel::new(3, "general".into(), 1, at(2023, 7, 4, 18, 30));
    assert_eq!(real.created_at(), "07/04/2023 06:30 PM");
    assert!(!real.equals(&c));
    assert_eq!(MultiChannel::new(vec![real.clone()]).channels.len(), 1);
}

#[test]
fn chat_and_message_placeholders() {
    let c = Chat::default();
    assert_eq!((c.id, c.name.as_str()), (0, "Chat"));
    assert!(MultiChatPreview::default().chat_previews.is_empty());
    let d = ChatDetail::default();
    assert!(d.chat.equals(&Chat::default()));
    assert!(d.thread.thread.is_empty());
    let m = Message::default();
    assert_eq!((m.id, m.content.as_str()), (0, "Message"));
    assert_eq!(m.created_at(), "01/01/1970 12:00 AM");
    assert!(MessageThread::default().thread.is_empty());
}

#[test]
fn post_placeholders_and_times() {
    let p = Post::default();
    assert_eq!((p.id, p.content.as_str(), p.author_id, p.channel_id), (0, "Post", 0, 0));
    assert_eq!(p.created_at(), "01/01/1970 12:00 AM");
    let d = PostDetail::new(9, "hello".into(), MemberShort::new(2, "ann".into(), None), 3, at(2024, 11, 30, 9, 5));
    assert_eq!(d.created_at(), "11/30/2024 09:05 AM");
    assert_eq!(PostDetail::default().content, "Post");
    assert!(MultiPost::default().posts.is_empty());
    assert_eq!(MultiPost::new(vec![d]).posts.len(), 1);
}

#[test]
fn friend_placeholders() {
    let f = FullFriend::default();
    assert!(f.member.equals(&MemberShort::default()));
    assert!(MultiFriend::default().friends.is_empty());
    let r = RequestDetailed::default();
    assert_eq!(r.note, Some("Friend Request".to_string()));
    assert!(r.member.equals(&Member::default()));
    let m = MultiFriendRequest::default();
    assert!(m.incoming.is_empty() && m.outgoing.is_empty());
}
