//! The decisions that the views take: which friends are selected, what a
//! list shows after a removal, which post is the updated one, how items are
//! styled, what each tab of the friends overview counts.

use vstd::prelude::*;
use crate::models::friends::FullFriend;
use crate::models::chat::{Chat, MultiChatPreview};
use crate::models::channel::{Channel, ChannelView, MultiChannel};
use crate::models::message::{Message, MessageThread};
use crate::models::post::{PostDetail, MultiPost};
use crate::models::member::Member;
use crate::models::server::Server;
use crate::text::{nat_decimal, usize_to_string};

verus! {

proof fn lemma_filter_step<A>(s: Seq<A>, pred: spec_fn(A) -> bool, i: int)
    requires
        0 <= i < s.len(),
    ensures
        s.take(i + 1).filter(pred) == if pred(s[i]) {
            s.take(i).filter(pred).push(s[i])
        } else {
            s.take(i).filter(pred)
        },
{
    reveal_with_fuel(Seq::filter, 1);
    assert(s.take(i + 1).drop_last() =~= s.take(i));
}

proof fn lemma_filter_keeps_all<A>(s: Seq<A>, pred: spec_fn(A) -> bool)
    requires
        forall|i: int| 0 <= i < s.len() ==> pred(#[trigger] s[i]),
    ensures
        s.filter(pred) == s,
    decreases s.len(),
{
    reveal_with_fuel(Seq::filter, 1);
    if s.len() > 0 {
        lemma_filter_keeps_all(s.drop_last(), pred);
        assert(s.drop_last().push(s.last()) =~= s);
    } else {
        assert(s.filter(pred) =~= s);
    }
}

proof fn lemma_filter_len_drop<A>(s: Seq<A>, pred: spec_fn(A) -> bool, i: int)
    requires
        0 <= i < s.len(),
        !pred(s[i]),
    ensures
        s.filter(pred).len() < s.len(),
    decreases s.len(),
{
    reveal_with_fuel(Seq::filter, 1);
    s.drop_last().lemma_filter_len(pred);
    if i < s.len() - 1 {
        assert(s.drop_last()[i] == s[i]);
        lemma_filter_len_drop(s.drop_last(), pred, i);
    }
}

/// The chats that stay after a chat was left: those not equal to it.
pub open spec fn chat_kept(chat: Chat) -> spec_fn(Chat) -> bool {
    |c: Chat| !c.same(chat)
}

/// The channels that stay after a channel was deleted.
pub open spec fn channel_kept(channel: ChannelView) -> spec_fn(ChannelView) -> bool {
    |c: ChannelView| c != channel
}

/// The friends that stay selected after a friend was unselected.
pub open spec fn friend_kept(friend: FullFriend) -> spec_fn(FullFriend) -> bool {
    |f: FullFriend| !f.same(friend)
}

/// When a friend is selected: some selected friend holds the same values.
pub open spec fn is_selected(selected: Seq<FullFriend>, friend: FullFriend) -> bool {
    exists|i: int| 0 <= i < selected.len() && (#[trigger] selected[i]).same(friend)
}

/// The selection after a friend was clicked: a friend not yet selected is
/// added at the end, a selected one is removed (with every copy of it).
pub open spec fn toggled(selected: Seq<FullFriend>, friend: FullFriend) -> Seq<FullFriend> {
    if is_selected(selected, friend) {
        selected.filter(friend_kept(friend))
    } else {
        selected.push(friend)
    }
}

/// Toggles a friend in the selection of a new chat.
pub fn toggle_friend(selected: &Vec<FullFriend>, friend: &FullFriend) -> (r: Vec<FullFriend>)
    ensures
        r@ == toggled(selected@, *friend),
{
    let ghost pred = friend_kept(*friend);
    let mut found = false;
    let mut out: Vec<FullFriend> = Vec::new();
    let mut i: usize = 0;
    while i < selected.len()
        invariant
            0 <= i <= selected.len(),
            pred == friend_kept(*friend),
            out@ == selected@.take(i as int).filter(pred),
            found == exists|j: int| 0 <= j < i && (#[trigger] selected@[j]).same(*friend),
        decreases selected.len() - i,
    {
        proof {
            lemma_filter_step(selected@, pred, i as int);
        }
        if selected[i].equals(friend) {
            found = true;
        } else {
            out.push(selected[i].clone());
        }
        i = i + 1;
    }
    proof {
        assert(selected@.take(selected.len() as int) =~= selected@);
    }
    if found {
        out
    } else {
        let mut all = selected.clone();
        all.push(friend.clone());
        assert(all@ =~= selected@.push(*friend));
        all
    }
}

/// Law: clicking a friend who is not selected appends that friend to the
/// selection, whatever its length, and keeps every friend selected before in
/// place; clicking a selected friend never adds anyone.
pub proof fn law_toggle_appends_unselected(selected: Seq<FullFriend>, friend: FullFriend)
    ensures
        !is_selected(selected, friend) ==> toggled(selected, friend) == selected.push(friend),
        !is_selected(selected, friend) ==> toggled(selected, friend).len() == selected.len() + 1,
        !is_selected(selected, friend) ==> toggled(selected, friend).last() == friend,
        !is_selected(selected, friend) ==> forall|i: int|
            0 <= i < selected.len() ==> #[trigger] toggled(selected, friend)[i] == selected[i],
        is_selected(selected, friend) ==> toggled(selected, friend).len() < selected.len(),
{
    if is_selected(selected, friend) {
        let i = choose|i: int| 0 <= i < selected.len() && (#[trigger] selected[i]).same(friend);
        let pred = friend_kept(friend);
        lemma_filter_len_drop(selected, pred, i);
    }
}

/// Law: clicking a friend twice restores the selection when the friend was
/// not selected before, and after clicking a selected friend no copy of it
/// is selected any more.
pub proof fn law_toggle_friend(selected: Seq<FullFriend>, friend: FullFriend)
    ensures
        !is_selected(selected, friend) ==> toggled(toggled(selected, friend), friend) == selected,
        is_selected(selected, friend) ==> !is_selected(toggled(selected, friend), friend),
{
    let pred = friend_kept(friend);
    if !is_selected(selected, friend) {
        let once = selected.push(friend);
        assert(once[once.len() - 1].same(friend));
        assert(is_selected(once, friend));
        reveal_with_fuel(Seq::filter, 1);
        assert(once.drop_last() =~= selected);
        assert forall|i: int| 0 <= i < selected.len() implies pred(#[trigger] selected[i]) by {
        }
        lemma_filter_keeps_all(selected, pred);
    } else {
        let out = selected.filter(pred);
        assert forall|i: int| 0 <= i < out.len() implies !(#[trigger] out[i]).same(friend) by {
            selected.lemma_filter_pred(pred, i);
        }
    }
}

/// The chat list after the member left a chat: every chat with the same
/// values is gone, the others stay in order.
pub fn without_chat(previews: &MultiChatPreview, chat: &Chat) -> (r: MultiChatPreview)
    ensures
        r@ == previews@.filter(chat_kept(*chat)),
{
    let ghost pred = chat_kept(*chat);
    let mut out: Vec<Chat> = Vec::new();
    let mut i: usize = 0;
    while i < previews.chat_previews.len()
        invariant
            0 <= i <= previews@.len(),
            pred == chat_kept(*chat),
            out@ == previews@.take(i as int).filter(pred),
        decreases previews@.len() - i,
    {
        proof {
            lemma_filter_step(previews@, pred, i as int);
        }
        if !previews.chat_previews[i].equals(chat) {
            out.push(previews.chat_previews[i].clone());
        }
        i = i + 1;
    }
    proof {
        assert(previews@.take(previews@.len() as int) =~= previews@);
    }
    MultiChatPreview { chat_previews: out }
}

/// The channel list after a channel was deleted: every channel with the same
/// values is gone, the others stay in order.
pub fn without_channel(channels: &MultiChannel, channel: &Channel) -> (r: MultiChannel)
    ensures
        r@ == channels@.filter(channel_kept(channel@)),
{
    let ghost pred = channel_kept(channel@);
    let mut out: Vec<Channel> = Vec::new();
    let mut i: usize = 0;
    while i < channels.channels.len()
        invariant
            0 <= i <= channels.channels@.len(),
            pred == channel_kept(channel@),
            out@.map_values(|c: Channel| c@) == channels@.take(i as int).filter(pred),
        decreases channels.channels@.len() - i,
    {
        proof {
            lemma_filter_step(channels@, pred, i as int);
        }
        let keep = !channels.channels[i].equals(channel);
        if keep {
            let c = channels.channels[i].clone();
            let ghost before = out@;
            out.push(c);
            assert(out@.map_values(|c: Channel| c@) =~= before.map_values(|c: Channel| c@).push(c@));
        }
        i = i + 1;
    }
    proof {
        assert(channels@.take(channels@.len() as int) =~= channels@);
    }
    MultiChannel { channels: out }
}

/// Law: after a removal nothing equal to the removed item is listed, and
/// everything listed was listed before.
pub proof fn law_removal(previews: Seq<Chat>, chat: Chat, channels: Seq<ChannelView>, channel: ChannelView)
    ensures
        forall|i: int|
            0 <= i < previews.filter(chat_kept(chat)).len() ==> !(
            #[trigger] previews.filter(chat_kept(chat))[i]).same(chat) && previews.contains(
                previews.filter(chat_kept(chat))[i],
            ),
        !channels.filter(channel_kept(channel)).contains(channel),
        forall|i: int|
            0 <= i < channels.filter(channel_kept(channel)).len() ==> channels.contains(
                #[trigger] channels.filter(channel_kept(channel))[i],
            ),
{
    let p1 = chat_kept(chat);
    let p2 = channel_kept(channel);
    assert forall|i: int| 0 <= i < previews.filter(p1).len() implies !(
    #[trigger] previews.filter(p1)[i]).same(chat) && previews.contains(previews.filter(p1)[i]) by {
        previews.lemma_filter_pred(p1, i);
        previews.lemma_filter_contains_rev(p1, previews.filter(p1)[i]);
    }
    assert forall|i: int| 0 <= i < channels.filter(p2).len() implies channels.contains(
        #[trigger] channels.filter(p2)[i],
    ) by {
        channels.lemma_filter_pred(p2, i);
        channels.lemma_filter_contains_rev(p2, channels.filter(p2)[i]);
    }
    if channels.filter(p2).contains(channel) {
        let i = choose|i: int| 0 <= i < channels.filter(p2).len() && channels.filter(p2)[i] == channel;
        channels.lemma_filter_pred(p2, i);
    }
}

/// The content that a post shows after the thread reloaded: that of the
/// first post of the new thread with the post's id; nothing when the post is
/// gone, and then the shown content stays.
pub fn updated_post_content(thread: &MultiPost, post_id: i32) -> (content: Option<String>)
    ensures
        content is None <==> !exists|i: int| 0 <= i < thread@.len() && thread@[i].id == post_id,
        content matches Some(c) ==> exists|i: int|
            0 <= i < thread@.len() && thread@[i].id == post_id && (forall|j: int| 0 <= j < i ==> thread@[j].id != post_id)
                && c@ == thread@[i].content@,
{
    let mut i: usize = 0;
    while i < thread.posts.len()
        invariant
            0 <= i <= thread@.len(),
            forall|j: int| 0 <= j < i ==> thread@[j].id != post_id,
        decreases thread@.len() - i,
    {
        if thread.posts[i].id == post_id {
            return Some(thread.posts[i].content.clone());
        }
        i = i + 1;
    }
    None
}

/// The link that downloads a report: its CSV text put in a `data:` URL as
/// it came, without escaping.
pub fn csv_download_href(content: &str) -> (href: String)
    ensures
        href@ == "data:text/csv;charset=utf-8,"@ + content@,
{
    let mut href = String::from_str("data:text/csv;charset=utf-8,");
    href.append(content);
    href
}

/// Whether the member wrote a post.
pub fn is_post_author(post: &PostDetail, member: &Member) -> (author: bool)
    ensures
        author == (post.author.id == member.id),
{
    post.author.id == member.id
}

/// Whether the edit button switches a post in or out of editing: only for
/// the post's author.
pub fn toggle_editing(is_author: bool, editing: bool) -> (now_editing: bool)
    ensures
        now_editing == if is_author {
            !editing
        } else {
            editing
        },
{
    if is_author {
        !editing
    } else {
        editing
    }
}

/// The style classes of a post: `self` or `other` by authorship, then
/// ` active` while it is edited and ` why` otherwise.
pub fn post_item_class(is_author: bool, editing: bool) -> (class: String)
    ensures
        class@ == (if is_author {
            "self"@
        } else {
            "other"@
        }) + (if editing {
            " active"@
        } else {
            " why"@
        }),
{
    let mut class = if is_author {
        String::from_str("self")
    } else {
        String::from_str("other")
    };
    class.append(
        if editing {
            " active"
        } else {
            " why"
        },
    );
    class
}

/// Whether the member owns the open server, which unlocks creating,
/// editing and deleting channels and editing or deleting the server.
pub fn is_server_owner(member: &Member, server: &Server) -> (owner: bool)
    ensures
        owner == (member.id == server.owner_id),
{
    member.id == server.owner_id
}

/// The style classes of a channel in the channel menu.
pub fn channel_item_class(is_owner: bool) -> (class: String)
    ensures
        class@ == "sub-menu-item channel-item"@ + if is_owner {
            " owner"@
        } else {
            Seq::<char>::empty()
        },
{
    let mut class = String::from_str("sub-menu-item channel-item");
    if is_owner {
        class.append(" owner");
    } else {
        proof {
            assert(class@ =~= class@ + Seq::<char>::empty());
        }
    }
    class
}

/// The style classes of the welcome entry of the channel menu: active while
/// no channel is selected.
pub fn welcome_item_class(current_channel: &Channel) -> (class: String)
    ensures
        class@ == "sub-menu-item channel-item"@ + if current_channel.is_placeholder() {
            " active"@
        } else {
            Seq::<char>::empty()
        },
{
    let mut class = String::from_str("sub-menu-item channel-item");
    if current_channel.equals(&Channel::default()) {
        class.append(" active");
    } else {
        proof {
            assert(class@ =~= class@ + Seq::<char>::empty());
        }
    }
    class
}

/// The tabs of the friends overview.
#[derive(Clone, Copy, Debug, PartialEq, Eq, Structural)]
pub enum OverviewTab {
    Online,
    All,
    Pending,
    Incoming,
    New,
}

impl OverviewTab {
    /// The tab that a page name selects; unknown names show all friends.
    pub fn from_page(page: &str) -> (tab: OverviewTab)
        ensures
            tab == if page@ == "new"@ {
                OverviewTab::New
            } else if page@ == "pending"@ {
                OverviewTab::Pending
            } else if page@ == "incoming"@ {
                OverviewTab::Incoming
            } else if page@ == "online"@ {
                OverviewTab::Online
            } else {
                OverviewTab::All
            },
    {
        let p = String::from_str(page);
        if p == String::from_str("new") {
            OverviewTab::New
        } else if p == String::from_str("pending") {
            OverviewTab::Pending
        } else if p == String::from_str("incoming") {
            OverviewTab::Incoming
        } else if p == String::from_str("online") {
            OverviewTab::Online
        } else {
            OverviewTab::All
        }
    }

    /// The class of the list under the tab.
    pub fn page_name(&self) -> (name: &'static str)
        ensures
            name@ == match *self {
                OverviewTab::Online => "online"@,
                OverviewTab::All => "all"@,
                OverviewTab::Pending => "pending"@,
                OverviewTab::Incoming => "incoming"@,
                OverviewTab::New => "new"@,
            },
    {
        match self {
            OverviewTab::Online => "online",
            OverviewTab::All => "all",
            OverviewTab::Pending => "pending",
            OverviewTab::Incoming => "incoming",
            OverviewTab::New => "new",
        }
    }
}

/// The heading of a tab of the friends overview with the number of entries
/// it lists; the tab that adds a friend has none.
pub fn overview_heading(tab: OverviewTab, friends: usize, incoming: usize, outgoing: usize) -> (heading: Option<String>)
    ensures
        heading matches Some(h) ==> h@ == match tab {
            OverviewTab::Pending => "PENDING Requests - "@ + nat_decimal(outgoing as nat),
            OverviewTab::Incoming => "INCOMING Requests - "@ + nat_decimal(incoming as nat),
            OverviewTab::Online => "ONLINE - "@ + nat_decimal(friends as nat),
            _ => "ALL Friends - "@ + nat_decimal(friends as nat),
        },
        heading is None <==> tab == OverviewTab::New,
{
    let (label, count) = match tab {
        OverviewTab::New => {
            return None;
        },
        OverviewTab::Pending => ("PENDING Requests - ", outgoing),
        OverviewTab::Incoming => ("INCOMING Requests - ", incoming),
        OverviewTab::Online => ("ONLINE - ", friends),
        OverviewTab::All => ("ALL Friends - ", friends),
    };
    let mut heading = String::from_str(label);
    heading.append(usize_to_string(count).as_str());
    Some(heading)
}

/// Which lists a sent friend request has to reload.
#[derive(Clone, Copy, Debug, PartialEq, Eq, Structural)]
pub enum RequestFollowup {
    /// A new request was created (status 201).
    Requests,
    /// The other member had asked already and both are friends now (status 200).
    RequestsAndFriends,
    /// Anything else is a failure.
    Failed,
}

/// The follow-up of a sent friend request by the status of the response.
pub fn friend_request_followup(status: u16) -> (f: RequestFollowup)
    ensures
        f == if status == 201 {
            RequestFollowup::Requests
        } else if status == 200 {
            RequestFollowup::RequestsAndFriends
        } else {
            RequestFollowup::Failed
        },
{
    match status {
        201 => RequestFollowup::Requests,
        200 => RequestFollowup::RequestsAndFriends,
        _ => RequestFollowup::Failed,
    }
}

/// Whether answering a friend request also changes the friends: only when
/// it was accepted.
pub fn answer_adds_friend(action: &str) -> (adds: bool)
    ensures
        adds == (action@ == "accept"@),
{
    String::from_str(action) == String::from_str("accept")
}

/// The side of a friend request that the overview shows.
#[derive(Clone, Copy, Debug, PartialEq, Eq, Structural)]
pub enum Version {
    Pending,
    Incoming,
}

impl Version {
    /// The style class of the side.
    pub fn value(&self) -> (v: String)
        ensures
            v@ == match *self {
                Version::Pending => "pending"@,
                Version::Incoming => "incoming"@,
            },
    {
        match self {
            Version::Pending => String::from_str("pending"),
            Version::Incoming => String::from_str("incoming"),
        }
    }
}

/// The messages of a chat as the chat room lists them: newest first.
pub fn messages_newest_first(thread: &MessageThread) -> (r: Vec<Message>)
    ensures
        r@ == thread@.reverse(),
{
    let n = thread.thread.len();
    let mut out: Vec<Message> = Vec::new();
    let mut i: usize = 0;
    while i < n
        invariant
            n == thread@.len(),
            0 <= i <= n,
            out@.len() == i,
            forall|j: int| 0 <= j < i ==> out@[j] == thread@[n - 1 - j],
        decreases n - i,
    {
        out.push(thread.thread[n - 1 - i].clone());
        i = i + 1;
    }
    assert(out@ =~= thread@.reverse());
    out
}

/// The posts of a channel as the channel lists them: newest first.
pub fn posts_newest_first(thread: &MultiPost) -> (r: Vec<PostDetail>)
    ensures
        r@ == thread@.reverse(),
{
    let n = thread.posts.len();
    let mut out: Vec<PostDetail> = Vec::new();
    let mut i: usize = 0;
    while i < n
        invariant
            n == thread@.len(),
            0 <= i <= n,
            out@.len() == i,
            forall|j: int| 0 <= j < i ==> out@[j] == thread@[n - 1 - j],
        decreases n - i,
    {
        out.push(thread.posts[n - 1 - i].clone());
        i = i + 1;
    }
    assert(out@ =~= thread@.reverse());
    out
}

/// Picks one of the icon names at random with `rand`'s `IndexedRandom::choose`
/// on the thread-local generator. Which one is chance; the contract states
/// only what the source shows of every outcome: nothing for an empty list,
/// else one of the names.
#[verifier::external_body]
fn choose_icon(names: &Vec<String>) -> (picked: Option<String>)
    ensures
        picked is None <==> names@.len() == 0,
        picked matches Some(p) ==> exists|i: int| 0 <= i < names@.len() && names@[i] == p,
{
    rand::seq::IndexedRandom::choose(names.as_slice(), &mut rand::rng()).cloned()
}

/// The icon of a new server when the choice came out as `picked`: the picked
/// icon name, or, when there was none to pick, the default icon in the given
/// color, written `default:<color>`.
pub fn icon_for_new_server(picked: Option<String>, fallback_color: &str) -> (icon: String)
    ensures
        icon@ == match picked {
            Some(p) => p@,
            None => "default:"@ + fallback_color@,
        },
{
    match picked {
        Some(p) => p,
        None => {
            let mut icon = String::from_str("default:");
            icon.append(fallback_color);
            icon
        },
    }
}

/// The icon of a new server: one of the icon names at random, or the default
/// icon in the given color when there are none.
pub fn random_server_icon(names: &Vec<String>, fallback_color: &str) -> (icon: String)
    ensures
        names@.len() == 0 ==> icon@ == "default:"@ + fallback_color@,
        names@.len() > 0 ==> exists|i: int| 0 <= i < names@.len() && names@[i]@ == icon@,
{
    let picked = choose_icon(names);
    icon_for_new_server(picked, fallback_color)
}

} // verus!
