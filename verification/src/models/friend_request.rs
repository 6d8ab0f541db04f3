//! Friend requests between members.

use vstd::prelude::*;
use crate::models::member::Member;
use crate::text::{opt_view, clone_opt_string};
use crate::time::Timestamp;

verus! {

/// A friend request as the server stores it.
pub struct FriendRequest {
    pub sender_id: i32,
    pub receiver_id: i32,
    pub note: Option<String>,
    pub created_at: Timestamp,
}

/// A friend request with the other member.
pub struct RequestDetailed {
    pub member: Member,
    pub note: Option<String>,
    pub created_at: Timestamp,
}

impl RequestDetailed {
    /// The placeholder request.
    pub fn default() -> (r: RequestDetailed)
        ensures
            r.member.is_guest(),
            opt_view(r.note) == Some("Friend Request"@),
            r.created_at == Timestamp::spec_epoch(),
    {
        RequestDetailed {
            member: Member::default(),
            note: Some(String::from_str("Friend Request")),
            created_at: Timestamp::epoch(),
        }
    }
}

impl Clone for RequestDetailed {
    fn clone(&self) -> (r: RequestDetailed)
        ensures
            r == *self,
    {
        RequestDetailed {
            member: self.member.clone(),
            note: clone_opt_string(&self.note),
            created_at: self.created_at,
        }
    }
}

/// The friend requests of a member: those received and those sent.
pub struct MultiFriendRequest {
    pub incoming: Vec<RequestDetailed>,
    pub outgoing: Vec<RequestDetailed>,
}

impl View for MultiFriendRequest {
    type V = (Seq<RequestDetailed>, Seq<RequestDetailed>);

    open spec fn view(&self) -> (Seq<RequestDetailed>, Seq<RequestDetailed>) {
        (self.incoming@, self.outgoing@)
    }
}

impl MultiFriendRequest {
    /// No requests either way.
    pub fn default() -> (m: MultiFriendRequest)
        ensures
            m@ == (Seq::<RequestDetailed>::empty(), Seq::<RequestDetailed>::empty()),
    {
        MultiFriendRequest { incoming: Vec::new(), outgoing: Vec::new() }
    }
}

impl Clone for MultiFriendRequest {
    fn clone(&self) -> (m: MultiFriendRequest)
        ensures
            m@ == self@,
    {
        MultiFriendRequest { incoming: self.incoming.clone(), outgoing: self.outgoing.clone() }
    }
}

} // verus!
