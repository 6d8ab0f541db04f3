//! Members: accounts, their short form in lists, and updates to them.

use vstd::prelude::*;
use crate::text::{opt_view, opt_string_eq, clone_opt_string};
use crate::time::Timestamp;

verus! {

/// The fields of an account update.
pub struct UpdateMember {
    pub username: String,
    pub password: String,
    pub email: String,
    pub avatar: Option<String>,
    pub is_admin: bool,
}

impl UpdateMember {
    /// An account update; note the order: the admin flag comes before the avatar.
    pub fn new(
        username: String,
        password: String,
        email: String,
        is_admin: bool,
        avatar: Option<String>,
    ) -> (m: UpdateMember)
        ensures
            m.username == username,
            m.password == password,
            m.email == email,
            m.is_admin == is_admin,
            m.avatar == avatar,
    {
        UpdateMember { username, password, email, avatar, is_admin }
    }
}

/// A member account.
pub struct Member {
    pub id: i32,
    pub username: String,
    pub email: String,
    pub avatar: Option<String>,
    pub is_admin: bool,
    pub created_at: Timestamp,
}

impl Member {
    /// When two members hold the same values.
    pub open spec fn same(self, other: Member) -> bool {
        &&& self.id == other.id
        &&& self.username@ == other.username@
        &&& self.email@ == other.email@
        &&& opt_view(self.avatar) == opt_view(other.avatar)
        &&& self.is_admin == other.is_admin
        &&& self.created_at == other.created_at
    }

    /// When a member is the guest placeholder that stands in before login.
    pub open spec fn is_guest(self) -> bool {
        &&& self.id == 0
        &&& self.username@ == "guest"@
        &&& self.email@ == "member.email@provider"@
        &&& self.avatar is None
        &&& !self.is_admin
        &&& self.created_at == Timestamp::spec_epoch()
    }

    pub fn new(
        id: i32,
        username: String,
        email: String,
        avatar: Option<String>,
        is_admin: bool,
        created_at: Timestamp,
    ) -> (m: Member)
        ensures
            m.id == id,
            m.username == username,
            m.email == email,
            m.avatar == avatar,
            m.is_admin == is_admin,
            m.created_at == created_at,
    {
        Member { id, username, email, avatar, is_admin, created_at }
    }

    /// The guest placeholder.
    pub fn default() -> (m: Member)
        ensures
            m.is_guest(),
    {
        Member::new(
            0,
            String::from_str("guest"),
            String::from_str("member.email@provider"),
            None,
            false,
            Timestamp::epoch(),
        )
    }

    /// Compares two members field by field.
    pub fn equals(&self, other: &Member) -> (r: bool)
        ensures
            r == self.same(*other),
    {
        self.id == other.id && self.username == other.username && self.email == other.email
            && opt_string_eq(&self.avatar, &other.avatar) && self.is_admin == other.is_admin
            && self.created_at == other.created_at
    }
}

impl Clone for Member {
    fn clone(&self) -> (m: Member)
        ensures
            m == *self,
    {
        Member {
            id: self.id,
            username: self.username.clone(),
            email: self.email.clone(),
            avatar: clone_opt_string(&self.avatar),
            is_admin: self.is_admin,
            created_at: self.created_at,
        }
    }
}

/// A member as lists show them.
pub struct MemberShort {
    pub id: i32,
    pub username: String,
    pub avatar: Option<String>,
}

impl MemberShort {
    /// When two short members hold the same values.
    pub open spec fn same(self, other: MemberShort) -> bool {
        &&& self.id == other.id
        &&& self.username@ == other.username@
        &&& opt_view(self.avatar) == opt_view(other.avatar)
    }

    /// When a short member is the guest placeholder.
    pub open spec fn is_guest(self) -> bool {
        &&& self.id == 0
        &&& self.username@ == "guest"@
        &&& self.avatar is None
    }

    pub fn new(id: i32, username: String, avatar: Option<String>) -> (m: MemberShort)
        ensures
            m.id == id,
            m.username == username,
            m.avatar == avatar,
    {
        MemberShort { id, username, avatar }
    }

    /// The guest placeholder.
    pub fn default() -> (m: MemberShort)
        ensures
            m.is_guest(),
    {
        MemberShort::new(0, String::from_str("guest"), None)
    }

    /// Compares two short members field by field.
    pub fn equals(&self, other: &MemberShort) -> (r: bool)
        ensures
            r == self.same(*other),
    {
        self.id == other.id && self.username == other.username && opt_string_eq(
            &self.avatar,
            &other.avatar,
        )
    }
}

impl Clone for MemberShort {
    fn clone(&self) -> (m: MemberShort)
        ensures
            m == *self,
    {
        MemberShort {
            id: self.id,
            username: self.username.clone(),
            avatar: clone_opt_string(&self.avatar),
        }
    }
}

/// A list of members, as a search returns it.
pub struct MultiMember {
    pub members: Vec<MemberShort>,
}

impl View for MultiMember {
    type V = Seq<MemberShort>;

    open spec fn view(&self) -> Seq<MemberShort> {
        self.members@
    }
}

impl MultiMember {
    pub fn new(members: Vec<MemberShort>) -> (m: MultiMember)
        ensures
            m@ == members@,
    {
        MultiMember { members }
    }

    /// Fourteen guest placeholders, the list shown before a search.
    pub fn default() -> (m: MultiMember)
        ensures
            m@.len() == 14,
            forall|i: int| 0 <= i < 14 ==> (#[trigger] m@[i]).is_guest(),
    {
        let mut members: Vec<MemberShort> = Vec::new();
        let mut i: usize = 1;
        while i < 15
            invariant
                1 <= i <= 15,
                members@.len() == i - 1,
                forall|j: int| 0 <= j < members@.len() ==> (#[trigger] members@[j]).is_guest(),
            decreases 15 - i,
        {
            members.push(MemberShort::default());
            i = i + 1;
        }
        MultiMember::new(members)
    }
}

} // verus!
