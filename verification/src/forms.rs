//! The form data that the views send: which fields, in which order, with
//! which values.

use vstd::prelude::*;
use crate::text::{int_decimal, i32_to_string, join, join_strings};
use crate::models::friends::FullFriend;

verus! {

/// The keys and values of form data.
pub open spec fn fields(data: Seq<(String, String)>) -> Seq<(Seq<char>, Seq<char>)> {
    data.map_values(|p: (String, String)| (p.0@, p.1@))
}

fn field(key: &str, value: String) -> (f: (String, String))
    ensures
        f.0@ == key@,
        f.1 == value,
{
    (String::from_str(key), value)
}

/// The login form: username and password.
pub fn login_form(username: String, password: String) -> (data: Vec<(String, String)>)
    ensures
        fields(data@) == seq![("username"@, username@), ("password"@, password@)],
{
    let data = vec![field("username", username), field("password", password)];
    assert(fields(data@) =~= seq![("username"@, username@), ("password"@, password@)]);
    data
}

/// The form that creates or edits a server: name, description, icon and the
/// owner's id.
pub fn server_form(name: String, description: String, icon: String, owner_id: i32) -> (data: Vec<(String, String)>)
    ensures
        fields(data@) == seq![
            ("name"@, name@),
            ("description"@, description@),
            ("icon"@, icon@),
            ("owner_id"@, int_decimal(owner_id as int)),
        ],
{
    let data = vec![
        field("name", name),
        field("description", description),
        field("icon", icon),
        field("owner_id", i32_to_string(owner_id)),
    ];
    assert(fields(data@) =~= seq![
        ("name"@, name@),
        ("description"@, description@),
        ("icon"@, icon@),
        ("owner_id"@, int_decimal(owner_id as int)),
    ]);
    data
}

/// The form that sends a message to a chat.
pub fn message_form(content: String, sender_id: i32, chat_id: i32) -> (data: Vec<(String, String)>)
    ensures
        fields(data@) == seq![
            ("content"@, content@),
            ("sender_id"@, int_decimal(sender_id as int)),
            ("chat_id"@, int_decimal(chat_id as int)),
        ],
{
    let data = vec![
        field("content", content),
        field("sender_id", i32_to_string(sender_id)),
        field("chat_id", i32_to_string(chat_id)),
    ];
    assert(fields(data@) =~= seq![
        ("content"@, content@),
        ("sender_id"@, int_decimal(sender_id as int)),
        ("chat_id"@, int_decimal(chat_id as int)),
    ]);
    data
}

/// The form that writes or edits a post in a channel.
pub fn post_form(content: String, author_id: i32, channel_id: i32) -> (data: Vec<(String, String)>)
    ensures
        fields(data@) == seq![
            ("content"@, content@),
            ("author_id"@, int_decimal(author_id as int)),
            ("channel_id"@, int_decimal(channel_id as int)),
        ],
{
    let data = vec![
        field("content", content),
        field("author_id", i32_to_string(author_id)),
        field("channel_id", i32_to_string(channel_id)),
    ];
    assert(fields(data@) =~= seq![
        ("content"@, content@),
        ("author_id"@, int_decimal(author_id as int)),
        ("channel_id"@, int_decimal(channel_id as int)),
    ]);
    data
}

/// The form of the channel editor: the server's id, then the name.
pub fn channel_form(server_id: i32, name: String) -> (data: Vec<(String, String)>)
    ensures
        fields(data@) == seq![("server_id"@, int_decimal(server_id as int)), ("name"@, name@)],
{
    let data = vec![field("server_id", i32_to_string(server_id)), field("name", name)];
    assert(fields(data@) =~= seq![("server_id"@, int_decimal(server_id as int)), ("name"@, name@)]);
    data
}

/// The form that creates a channel from the server menu: the name, then the
/// server's id.
pub fn new_channel_form(name: String, server_id: i32) -> (data: Vec<(String, String)>)
    ensures
        fields(data@) == seq![("name"@, name@), ("server_id"@, int_decimal(server_id as int))],
{
    let data = vec![field("name", name), field("server_id", i32_to_string(server_id))];
    assert(fields(data@) =~= seq![("name"@, name@), ("server_id"@, int_decimal(server_id as int))]);
    data
}

/// The form that sends or edits a friend request.
pub fn friend_request_form(sender_id: i32, receiver_id: i32, note: String) -> (data: Vec<(String, String)>)
    ensures
        fields(data@) == seq![
            ("sender_id"@, int_decimal(sender_id as int)),
            ("receiver_id"@, int_decimal(receiver_id as int)),
            ("note"@, note@),
        ],
{
    let data = vec![
        field("sender_id", i32_to_string(sender_id)),
        field("receiver_id", i32_to_string(receiver_id)),
        field("note", note),
    ];
    assert(fields(data@) =~= seq![
        ("sender_id"@, int_decimal(sender_id as int)),
        ("receiver_id"@, int_decimal(receiver_id as int)),
        ("note"@, note@),
    ]);
    data
}

/// The form of an account update: username, password, the confirming
/// password and email.
pub fn member_update_form(username: String, password: String, confirm_password: String, email: String) -> (data: Vec<(String, String)>)
    ensures
        fields(data@) == seq![
            ("username"@, username@),
            ("password"@, password@),
            ("confirm_password"@, confirm_password@),
            ("email"@, email@),
        ],
{
    let data = vec![
        field("username", username),
        field("password", password),
        field("confirm_password", confirm_password),
        field("email", email),
    ];
    assert(fields(data@) =~= seq![
        ("username"@, username@),
        ("password"@, password@),
        ("confirm_password"@, confirm_password@),
        ("email"@, email@),
    ]);
    data
}

/// A new username: the current password confirms itself, the email stays.
pub fn username_update_form(new_username: String, password: String, email: String) -> (data: Vec<(String, String)>)
    ensures
        fields(data@) == seq![
            ("username"@, new_username@),
            ("password"@, password@),
            ("confirm_password"@, password@),
            ("email"@, email@),
        ],
{
    let confirm = password.clone();
    member_update_form(new_username, password, confirm, email)
}

/// A new email: the current password confirms itself, the username stays.
pub fn email_update_form(username: String, password: String, new_email: String) -> (data: Vec<(String, String)>)
    ensures
        fields(data@) == seq![
            ("username"@, username@),
            ("password"@, password@),
            ("confirm_password"@, password@),
            ("email"@, new_email@),
        ],
{
    let confirm = password.clone();
    member_update_form(username, password, confirm, new_email)
}

/// A new password: it goes in `password`, the old one confirms it.
pub fn password_update_form(username: String, new_password: String, old_password: String, email: String) -> (data: Vec<(String, String)>)
    ensures
        fields(data@) == seq![
            ("username"@, username@),
            ("password"@, new_password@),
            ("confirm_password"@, old_password@),
            ("email"@, email@),
        ],
{
    member_update_form(username, new_password, old_password, email)
}

/// The usernames of the selected friends.
pub open spec fn friend_names(friends: Seq<FullFriend>) -> Seq<Seq<char>> {
    friends.map_values(|f: FullFriend| f.member.username@)
}

/// The name of a chat as it is sent: the typed name, or the selected
/// friends' usernames joined by commas when none was typed.
pub open spec fn chat_name(typed: Seq<char>, friends: Seq<FullFriend>) -> Seq<char> {
    if typed.len() == 0 {
        join(friend_names(friends), seq![','])
    } else {
        typed
    }
}

/// Law: the name of a chat. A typed name is sent as typed. With no typed
/// name it lists the usernames of all selected friends, in order, separated
/// by `,`: nothing for no friend, the username for one friend, and one more
/// friend adds `,` and that friend's username at the end.
pub proof fn law_chat_name(typed: Seq<char>, friends: Seq<FullFriend>, friend: FullFriend)
    ensures
        typed.len() > 0 ==> chat_name(typed, friends) == typed,
        chat_name(Seq::empty(), Seq::empty()) == Seq::<char>::empty(),
        chat_name(Seq::empty(), seq![friend]) == friend.member.username@,
        friends.len() > 0 ==> chat_name(Seq::empty(), friends.push(friend)) == chat_name(Seq::empty(), friends)
            + seq![','] + friend.member.username@,
        friend_names(friends).len() == friends.len(),
        forall|i: int| 0 <= i < friends.len() ==> #[trigger] friend_names(friends)[i] == friends[i].member.username@,
{
    let one = seq![friend];
    assert(friend_names(one) =~= seq![friend.member.username@]);
    let more = friends.push(friend);
    assert(friend_names(more).drop_last() =~= friend_names(friends));
    assert(friend_names(more).last() == friend.member.username@);
    assert(friend_names(Seq::<FullFriend>::empty()) =~= Seq::<Seq<char>>::empty());
}

/// The form that creates or renames a chat: the name, then, when the chat is
/// new, one member field per selected friend with the friend's id. The key
/// of those fields is `members` in the chat editor and `member` in the
/// new-chat dialog; a rename sends no member fields.
pub fn chat_form(name: &str, friends: &Vec<FullFriend>, member_key: Option<&str>) -> (data: Vec<(String, String)>)
    ensures
        data@.len() == 1 + match member_key {
            Some(_) => friends@.len(),
            None => 0,
        },
        fields(data@)[0] == ("name"@, chat_name(name@, friends@)),
        forall|i: int|
            #![trigger data@[i + 1]]
            0 <= i < data@.len() - 1 ==> (member_key matches Some(k) && data@[i + 1].0@ == k@
                && data@[i + 1].1@ == int_decimal(friends@[i].member.id as int)),
{
    let mut names: Vec<String> = Vec::new();
    let mut i: usize = 0;
    while i < friends.len()
        invariant
            0 <= i <= friends.len(),
            names@.len() == i,
            forall|j: int| 0 <= j < i ==> (#[trigger] names@[j])@ == friends@[j].member.username@,
        decreases friends.len() - i,
    {
        names.push(friends[i].member.username.clone());
        i = i + 1;
    }
    proof {
        assert(names@.map_values(|p: String| p@) =~= friend_names(friends@));
    }
    let chosen = if name.unicode_len() == 0 {
        join_strings(&names, ",")
    } else {
        String::from_str(name)
    };
    proof {
        reveal_strlit(",");
        assert(","@ =~= seq![',']);
        assert(chosen@ == chat_name(name@, friends@));
    }
    let mut data: Vec<(String, String)> = vec![field("name", chosen)];
    assert(fields(data@)[0] == ("name"@, chat_name(name@, friends@)));
    if let Some(key) = member_key {
        let mut k: usize = 0;
        while k < friends.len()
            invariant
                0 <= k <= friends.len(),
                member_key == Some(key),
                data@.len() == 1 + k,
                fields(data@)[0] == ("name"@, chat_name(name@, friends@)),
                forall|j: int|
                    #![trigger data@[j + 1]]
                    0 <= j < k ==> data@[j + 1].0@ == key@ && data@[j + 1].1@ == int_decimal(
                        friends@[j].member.id as int,
                    ),
            decreases friends.len() - k,
        {
            data.push(field(key, i32_to_string(friends[k].member.id)));
            proof {
                assert forall|j: int|
                    #![trigger data@[j + 1]]
                    0 <= j < k + 1 implies data@[j + 1].0@ == key@ && data@[j + 1].1@ == int_decimal(
                        friends@[j].member.id as int,
                    ) by {

                }
            }
            k = k + 1;
        }
    }
    data
}

} // verus!
