use chat_client::views::{toggle_friend, without_chat, without_channel, updated_post_content, is_post_author, toggle_editing, post_item_class, is_server_owner, channel_item_class, welcome_item_class, OverviewTab, overview_heading, RequestFollowup, friend_request_followup, answer_adds_friend, Version, messages_newest_first, posts_newest_first, icon_for_new_server, random_server_icon, csv_download_href};
use chat_client::models::friends::FullFriend;
use chat_client::models::member::{Member, MemberShort};
use chat_client::models::chat::{Chat, MultiChatPreview};
use chat_client::models::channel::{Channel, MultiChannel};
use chat_client::models::message::{Message, MessageThread};
use chat_client::models::post::{PostDetail, MultiPost};
use chat_client::models::server::Server;
use chat_client::time::Timestamp;

fn friend(id: i32) -> FullFriend {
    FullFriend { member: MemberShort::new(id, format!("f{}", id), None), created_at: Timestamp::epoch() }
}

fn ids(v: &Vec<FullFriend>) -> Vec<i32> {
    v.iter().map(|f| f.member.id).collect()
}

#[test]
fn toggling_friends() {
    let s = vec![friend(1), friend(2)];
    let added = toggle_friend(&s, &friend(3));
    assert_eq!(ids(&added), vec![1, 2, 3]);
    let back = toggle_friend(&added, &friend(3));
    assert_eq!(ids(&back), vec![1, 2]);
    let removed = toggle_friend(&s, &friend(1));
    assert_eq!(ids(&removed), vec![2]);
    let dup = vec![friend(1), friend(2), friend(1)];
    assert_eq!(ids(&toggle_friend(&dup, &friend(1))), vec![2]);
}

fn chat(id: i32) -> Chat {
    Chat { id, name: format!("c{}", id), created_at: Timestamp::epoch() }
}

#[test]
fn removing_chats_and_channels() {
    let previews = MultiChatPreview { chat_previews: vec![chat(1), chat(2), chat(1), chat(3)] };
    let left = without_chat(&previews, &chat(1));
    assert_eq!(left.chat_previews.iter().map(|c| c.id).collect::<Vec<_>>(), vec![2, 3]);
    let renamed = Chat { id: 2, name: "other".into(), created_at: Timestamp::epoch() };
    assert_eq!(without_chat(&previews, &renamed).chat_previews.len(), 4);

    let a = Channel::new(1, "a".into(), 9, Timestamp::epoch());
    let b = Channel::new(2, "b".into(), 9, Timestamp::epoch());
    let channels = MultiChannel { channels: vec![a.clone(), b.clone()] };
    let rest = without_channel(&channels, &a);
    assert_eq!(rest.channels.len(), 1);
    assert!(rest.channels[0].equals(&b));
}

fn post(id: i32, text: &str, author: i32) -> PostDetail {
    PostDetail::new(id, text.into(), MemberShort::new(author, "a".into(), None), 1, Timestamp::epoch())
}

#[test]
fn posts_after_reload() {
    let thread = MultiPost { posts: vec![post(1, "one", 5), post(2, "two", 6), post(2, "dup", 6)] };
    assert_eq!(updated_post_content(&thread, 2), Some("two".to_string()));
    assert_eq!(updated_post_content(&thread, 9), None);
    let me = Member::new(5, "me".into(), "m@x".into(), None, false, Timestamp::epoch());
    assert!(is_post_author(&thread.posts[0], &me));
    assert!(!is_post_author(&thread.posts[1], &me));
    assert!(toggle_editing(true, false));
    assert!(!toggle_editing(true, true));
    assert!(!toggle_editing(false, false));
    assert_eq!(post_item_class(true, true), "self active");
    assert_eq!(post_item_class(false, false), "other why");
    let newest = posts_newest_first(&thread);
    assert_eq!(newest.iter().map(|p| p.content.as_str()).collect::<Vec<_>>(), vec!["dup", "two", "one"]);
}

#[test]
fn messages_newest_first_order() {
    let m = |id: i32| Message { id, content: String::new(), sender: MemberShort::default(), created_at: Timestamp::epoch() };
    let thread = MessageThread { thread: vec![m(1), m(2), m(3)] };
    assert_eq!(messages_newest_first(&thread).iter().map(|x| x.id).collect::<Vec<_>>(), vec![3, 2, 1]);
    assert!(messages_newest_first(&MessageThread::default()).is_empty());
}

#[test]
fn ownership_and_menu_classes() {
    let me = Member::new(5, "me".into(), "m@x".into(), None, false, Timestamp::epoch());
    let mine = Server::new(1, "S".into(), "D".into(), None, 5, Timestamp::epoch());
    assert!(is_server_owner(&me, &mine));
    assert!(!is_server_owner(&me, &Server::default()));
    assert_eq!(channel_item_class(true), "sub-menu-item channel-item owner");
    assert_eq!(channel_item_class(false), "sub-menu-item channel-item");
    assert_eq!(welcome_item_class(&Channel::default()), "sub-menu-item channel-item active");
    assert_eq!(welcome_item_class(&Channel::new(1, "x".into(), 1, Timestamp::epoch())), "sub-menu-item channel-item");
}

#[test]
fn overview_tabs() {
    assert_eq!(OverviewTab::from_page("pending"), OverviewTab::Pending);
    assert_eq!(OverviewTab::from_page("incoming"), OverviewTab::Incoming);
    assert_eq!(OverviewTab::from_page("online"), OverviewTab::Online);
    assert_eq!(OverviewTab::from_page("new"), OverviewTab::New);
    assert_eq!(OverviewTab::from_page("all"), OverviewTab::All);
    assert_eq!(OverviewTab::from_page("whatever"), OverviewTab::All);
    assert_eq!(OverviewTab::Pending.page_name(), "pending");
    assert_eq!(overview_heading(OverviewTab::Pending, 3, 1, 2), Some("PENDING Requests - 2".to_string()));
    assert_eq!(overview_heading(OverviewTab::Incoming, 3, 1, 2), Some("INCOMING Requests - 1".to_string()));
    assert_eq!(overview_heading(OverviewTab::Online, 3, 1, 2), Some("ONLINE - 3".to_string()));
    assert_eq!(overview_heading(OverviewTab::All, 12, 1, 2), Some("ALL Friends - 12".to_string()));
    assert_eq!(overview_heading(OverviewTab::New, 3, 1, 2), None);
}

#[test]
fn friend_request_answers() {
    assert_eq!(friend_request_followup(201), RequestFollowup::Requests);
    assert_eq!(friend_request_followup(200), RequestFollowup::RequestsAndFriends);
    assert_eq!(friend_request_followup(409), RequestFollowup::Failed);
    assert!(answer_adds_friend("accept"));
    assert!(!answer_adds_friend("deny"));
    assert_eq!(Version::Pending.value(), "pending");
    assert_eq!(Version::Incoming.value(), "incoming");
}

#[test]
fn new_server_icons() {
    assert_eq!(icon_for_new_server(Some("rocket".into()), "#123456"), "rocket");
    assert_eq!(icon_for_new_server(None, "#123456"), "default:#123456");
    assert_eq!(random_server_icon(&vec![], "red"), "default:red");
    let names = vec!["a".to_string(), "b".to_string(), "c".to_string()];
    for _ in 0..20 {
        let icon = random_server_icon(&names, "red");
        assert!(names.contains(&icon));
    }
}

#[test]
fn csv_links() {
    assert_eq!(csv_download_href("a,b\n1,2"), "data:text/csv;charset=utf-8,a,b\n1,2");
}
