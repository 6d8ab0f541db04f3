use chat_client::auth::{get_auth_token, bearer_token, login_token, auth_token_key};
use chat_client::routes::{AppRoute, AppPage, HomeRoute, HomePage, MeRoute, MePage, ServerRoute, ServerPage, home_access, HomeAccess, landing_access, LandingAccess};
use chat_client::forms::{login_form, server_form, message_form, post_form, channel_form, new_channel_form, friend_request_form, username_update_form, email_update_form, password_update_form, chat_form};
use chat_client::models::friends::FullFriend;
use chat_client::models::member::MemberShort;
use chat_client::time::Timestamp;

fn pairs(v: &[(&str, &str)]) -> Vec<(String, String)> {
    v.iter().map(|(k, x)| (k.to_string(), x.to_string())).collect()
}

#[test]
fn stored_token_or_empty() {
    assert_eq!(auth_token_key(), "jwt_token");
    assert_eq!(get_auth_token(Some("abc".to_string())), "abc");
    assert_eq!(get_auth_token(None), "");
}

#[test]
fn bearer_tokens() {
    assert_eq!(bearer_token("Bearer abc.def"), Some("abc.def".to_string()));
    assert_eq!(bearer_token("Bearer "), Some(String::new()));
    assert_eq!(bearer_token("bearer abc"), None);
    assert_eq!(bearer_token("Bear"), None);
    assert_eq!(login_token(Some("Bearer t0k")), Some("t0k".to_string()));
    assert_eq!(login_token(None), None);
}

#[test]
fn route_pages() {
    assert_eq!(AppRoute::Index.page(), AppPage::RedirectToLanding);
    assert_eq!(AppRoute::LandingExt.page(), AppPage::Landing);
    assert_eq!(AppRoute::HomeRoot.page(), AppPage::RedirectToHome);
    assert_eq!(AppRoute::HomeExt.page(), AppPage::Home);
    assert_eq!(AppRoute::NotFound.page(), AppPage::NotFound);
    assert_eq!(HomeRoute::MeExt.page(), HomePage::Me);
    assert_eq!(HomeRoute::ServerExt { server_id: 4 }.page(), HomePage::Server(4));
    assert_eq!(MeRoute::ChatRoom { chat_id: 8 }.page(), MePage::ChatRoom(8));
    assert_eq!(MeRoute::NotFound.page(), MePage::RedirectToNotFound);
    assert_eq!(ServerRoute::Channel { server_id: 1, channel_id: 2 }.page(), ServerPage::Channel);
    assert_eq!(ServerRoute::Welcome { server_id: 1 }.page(), ServerPage::Welcome);
    assert_eq!(home_access(false), HomeAccess::RedirectToLogin);
    assert_eq!(home_access(true), HomeAccess::Show);
    assert_eq!(landing_access(true), LandingAccess::RedirectToOverview);
    assert_eq!(landing_access(false), LandingAccess::Show);
}

#[test]
fn simple_forms() {
    assert_eq!(login_form("ann".into(), "pw".into()), pairs(&[("username", "ann"), ("password", "pw")]));
    assert_eq!(server_form("S".into(), "D".into(), String::new(), 12).iter().map(|p| (p.0.as_str(), p.1.as_str())).collect::<Vec<_>>(),
        vec![("name", "S"), ("description", "D"), ("icon", ""), ("owner_id", "12")]);
    assert_eq!(message_form("hi".into(), 3, 9), pairs(&[("content", "hi"), ("sender_id", "3"), ("chat_id", "9")]));
    assert_eq!(post_form("p".into(), 3, 4), pairs(&[("content", "p"), ("author_id", "3"), ("channel_id", "4")]));
    assert_eq!(channel_form(6, "general".into()), pairs(&[("server_id", "6"), ("name", "general")]));
    assert_eq!(new_channel_form("general".into(), 6), pairs(&[("name", "general"), ("server_id", "6")]));
    assert_eq!(friend_request_form(1, 2, "hey".into()), pairs(&[("sender_id", "1"), ("receiver_id", "2"), ("note", "hey")]));
}

#[test]
fn account_update_forms() {
    assert_eq!(username_update_form("new".into(), "pw".into(), "e@x".into()),
        pairs(&[("username", "new"), ("password", "pw"), ("confirm_password", "pw"), ("email", "e@x")]));
    assert_eq!(email_update_form("ann".into(), "pw".into(), "n@x".into()),
        pairs(&[("username", "ann"), ("password", "pw"), ("confirm_password", "pw"), ("email", "n@x")]));
    assert_eq!(password_update_form("ann".into(), "new".into(), "old".into(), "e@x".into()),
        pairs(&[("username", "ann"), ("password", "new"), ("confirm_password", "old"), ("email", "e@x")]));
}

fn friend(id: i32, name: &str) -> FullFriend {
    FullFriend { member: MemberShort::new(id, name.to_string(), None), created_at: Timestamp::epoch() }
}

#[test]
fn chat_forms() {
    let friends = vec![friend(4, "ann"), friend(7, "bob")];
    assert_eq!(chat_form("", &friends, Some("members")),
        pairs(&[("name", "ann,bob"), ("members", "4"), ("members", "7")]));
    assert_eq!(chat_form("Team", &friends, Some("member")),
        pairs(&[("name", "Team"), ("member", "4"), ("member", "7")]));
    assert_eq!(chat_form("Renamed", &friends, None), pairs(&[("name", "Renamed")]));
    assert_eq!(chat_form("", &vec![], None), pairs(&[("name", "")]));
}
