//! Friendships of a member.

use vstd::prelude::*;
use crate::models::member::MemberShort;
use crate::time::Timestamp;

verus! {

/// A friend and since when the friendship lasts.
pub struct FullFriend {
    pub member: MemberShort,
    pub created_at: Timestamp,
}

impl FullFriend {
    /// When two friendships hold the same values.
    pub open spec fn same(self, other: FullFriend) -> bool {
        self.member.same(other.member) && self.created_at == other.created_at
    }

    /// The placeholder friendship.
    pub fn default() -> (f: FullFriend)
        ensures
            f.member.is_guest(),
            f.created_at == Timestamp::spec_epoch(),
    {
        FullFriend { member: MemberShort::default(), created_at: Timestamp::epoch() }
    }

    /// Compares two friendships field by field.
    pub fn equals(&self, other: &FullFriend) -> (r: bool)
        ensures
            r == self.same(*other),
    {
        self.member.equals(&other.member) && self.created_at == other.created_at
    }
}

impl Clone for FullFriend {
    fn clone(&self) -> (f: FullFriend)
        ensures
            f == *self,
    {
        FullFriend { member: self.member.clone(), created_at: self.created_at }
    }
}

/// The friends of a member.
pub struct MultiFriend {
    pub friends: Vec<FullFriend>,
}

impl View for MultiFriend {
    type V = Seq<FullFriend>;

    open spec fn view(&self) -> Seq<FullFriend> {
        self.friends@
    }
}

impl MultiFriend {
    /// No friends.
    pub fn default() -> (m: MultiFriend)
        ensures
            m@ == Seq::<FullFriend>::empty(),
    {
        MultiFriend { friends: Vec::new() }
    }
}

impl Clone for MultiFriend {
    fn clone(&self) -> (m: MultiFriend)
        ensures
            m@ == self@,
    {
        MultiFriend { friends: self.friends.clone() }
    }
}

} // verus!
