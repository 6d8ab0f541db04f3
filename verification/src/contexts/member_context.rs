//! The member context: who is logged in, and their servers, friends and
//! friend requests.

use vstd::prelude::*;
use crate::models::member::Member;
use crate::models::server::{Server, MultiServer};
use crate::models::friends::{FullFriend, MultiFriend};
use crate::models::friend_request::{RequestDetailed, MultiFriendRequest};

verus! {

/// The values of a member context.
pub struct MemberState {
    pub logged_in: bool,
    pub member: Member,
    pub servers: Seq<Server>,
    pub friends: Seq<FullFriend>,
    pub requests: (Seq<RequestDetailed>, Seq<RequestDetailed>),
}

/// The member context.
pub struct MemberContext {
    pub logged_in: bool,
    pub member: Member,
    pub servers: MultiServer,
    pub friends: MultiFriend,
    pub requests: MultiFriendRequest,
}

/// An update of the member context.
pub enum MemberDispatch {
    UpdateMember(Member),
    UpdateServers(MultiServer),
    UpdateFriends(MultiFriend),
    UpdateRequests(MultiFriendRequest),
}

impl View for MemberContext {
    type V = MemberState;

    open spec fn view(&self) -> MemberState {
        MemberState {
            logged_in: self.logged_in,
            member: self.member,
            servers: self.servers@,
            friends: self.friends@,
            requests: self.requests@,
        }
    }
}

/// No friend requests either way.
pub open spec fn no_requests() -> (Seq<RequestDetailed>, Seq<RequestDetailed>) {
    (Seq::empty(), Seq::empty())
}

/// The state after an update. A new member is logged in unless it is the
/// guest placeholder, and starts with empty lists until they load; the other
/// updates replace one list.
pub open spec fn member_step(s: MemberState, action: MemberDispatch) -> MemberState {
    match action {
        MemberDispatch::UpdateMember(member) => MemberState {
            logged_in: !member.is_guest(),
            member: member,
            servers: Seq::empty(),
            friends: Seq::empty(),
            requests: no_requests(),
        },
        MemberDispatch::UpdateServers(servers) => MemberState { servers: servers@, ..s },
        MemberDispatch::UpdateFriends(friends) => MemberState { friends: friends@, ..s },
        MemberDispatch::UpdateRequests(requests) => MemberState { requests: requests@, ..s },
    }
}

/// The state before anything loaded.
pub open spec fn member_initial(s: MemberState) -> bool {
    &&& !s.logged_in
    &&& s.member.is_guest()
    &&& s.servers == Seq::<Server>::empty()
    &&& s.friends == Seq::<FullFriend>::empty()
    &&& s.requests == no_requests()
}

/// A member is logged in exactly when it is not the guest placeholder.
pub open spec fn member_consistent(s: MemberState) -> bool {
    s.logged_in == !s.member.is_guest()
}

proof fn lemma_guest_same(m: Member, guest: Member)
    requires
        guest.is_guest(),
    ensures
        m.same(guest) == m.is_guest(),
{
}

impl MemberContext {
    /// The state before anything loaded: logged out, the guest placeholder,
    /// no servers, friends or requests.
    pub fn initial() -> (c: MemberContext)
        ensures
            member_initial(c@),
    {
        MemberContext {
            logged_in: false,
            member: Member::default(),
            servers: MultiServer::default(),
            friends: MultiFriend::default(),
            requests: MultiFriendRequest { incoming: Vec::new(), outgoing: Vec::new() },
        }
    }

    /// Applies an update.
    pub fn reduce(&self, action: MemberDispatch) -> (c: MemberContext)
        ensures
            c@ == member_step(self@, action),
            action matches MemberDispatch::UpdateMember(m) ==> c.member == m && c.logged_in == !m.is_guest(),
    {
        match action {
            MemberDispatch::UpdateMember(member) => {
                let guest = Member::default();
                let logged_in = !member.equals(&guest);
                proof {
                    lemma_guest_same(member, guest);
                }
                MemberContext {
                    logged_in,
                    member,
                    servers: MultiServer::default(),
                    friends: MultiFriend::default(),
                    requests: MultiFriendRequest::default(),
                }
            },
            MemberDispatch::UpdateServers(servers) => MemberContext {
                logged_in: self.logged_in,
                member: self.member.clone(),
                servers,
                friends: self.friends.clone(),
                requests: self.requests.clone(),
            },
            MemberDispatch::UpdateFriends(friends) => MemberContext {
                logged_in: self.logged_in,
                member: self.member.clone(),
                servers: self.servers.clone(),
                friends,
                requests: self.requests.clone(),
            },
            MemberDispatch::UpdateRequests(requests) => MemberContext {
                logged_in: self.logged_in,
                member: self.member.clone(),
                servers: self.servers.clone(),
                friends: self.friends.clone(),
                requests,
            },
        }
    }

    /// Whether the member's servers, friends and requests have to be fetched
    /// after the member changed: not for the guest placeholder.
    pub fn lists_to_load(&self) -> (load: bool)
        ensures
            load == !self.member.is_guest(),
    {
        let guest = Member::default();
        proof {
            lemma_guest_same(self.member, guest);
        }
        !self.member.equals(&guest)
    }
}

/// Whether a stored login token is worth checking with the server: there is
/// one and it is not empty.
pub fn token_worth_validating(stored: &Option<String>) -> (check: bool)
    ensures
        check == match stored {
            Some(t) => t@.len() > 0,
            None => false,
        },
{
    match stored {
        Some(t) => t.as_str().unicode_len() > 0,
        None => false,
    }
}

/// Whether the member counts as logged in at start-up: a non-empty token is
/// stored and the server accepted it.
pub fn is_logged_in(stored: &Option<String>, token_accepted: bool) -> (logged_in: bool)
    ensures
        logged_in == (token_accepted && match stored {
            Some(t) => t@.len() > 0,
            None => false,
        }),
{
    token_worth_validating(stored) && token_accepted
}

/// Law: the context says the member is logged in exactly when the member is
/// not the guest placeholder, in the initial state and after every update.
pub proof fn law_member_logged_in_consistent(s: MemberState, action: MemberDispatch)
    ensures
        member_initial(s) ==> member_consistent(s),
        member_consistent(s) ==> member_consistent(member_step(s, action)),
{
}

/// Law: changing the member drops the previous member's servers, friends and
/// requests, so lists of one member never show under another.
pub proof fn law_member_change_clears_lists(s: MemberState, lists: MemberDispatch, member: MemberDispatch)
    requires
        member is UpdateMember,
    ensures
        member_step(member_step(s, lists), member) == member_step(s, member),
        member_step(s, member).servers == Seq::<Server>::empty(),
        member_step(s, member).friends == Seq::<FullFriend>::empty(),
        member_step(s, member).requests == no_requests(),
{
}

/// Law: after a login or an account change the context holds exactly the
/// member that was dispatched, with its id, so forms send that member's id;
/// it counts as logged in unless it is the guest placeholder.
pub proof fn law_member_update_holds_member(s: MemberState, m: Member)
    ensures
        member_step(s, MemberDispatch::UpdateMember(m)).member == m,
        member_step(s, MemberDispatch::UpdateMember(m)).member.id == m.id,
        member_step(s, MemberDispatch::UpdateMember(m)).logged_in <==> !m.is_guest(),
        m.id != 0 ==> member_step(s, MemberDispatch::UpdateMember(m)).logged_in,
{
}

/// Law: a list update takes effect, keeps the member and the login, and
/// touches no other list; the same update dispatched twice counts once.
pub proof fn law_member_list_update(s: MemberState, action: MemberDispatch)
    requires
        !(action is UpdateMember),
    ensures
        member_step(s, action).member == s.member,
        member_step(s, action).logged_in == s.logged_in,
        action matches MemberDispatch::UpdateServers(v) ==> member_step(s, action) == (MemberState { servers: v@, ..s }),
        action matches MemberDispatch::UpdateFriends(v) ==> member_step(s, action) == (MemberState { friends: v@, ..s }),
        action matches MemberDispatch::UpdateRequests(v) ==> member_step(s, action) == (MemberState { requests: v@, ..s }),
        member_step(member_step(s, action), action) == member_step(s, action),
{
}

/// Law: updates of different lists commute.
pub proof fn law_member_lists_commute(s: MemberState, a: MemberDispatch, b: MemberDispatch)
    requires
        !(a is UpdateMember),
        !(b is UpdateMember),
        (a is UpdateServers) != (b is UpdateServers) || (a is UpdateFriends) != (b is UpdateFriends),
    ensures
        member_step(member_step(s, a), b) == member_step(member_step(s, b), a),
{
}

} // verus!
