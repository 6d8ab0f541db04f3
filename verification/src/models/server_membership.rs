//! Memberships of members in servers.

use vstd::prelude::*;
use crate::time::Timestamp;

verus! {

/// The fields of a membership to be created.
pub struct NewServerMembership {
    pub server_id: i32,
    pub member_id: i32,
}

/// A membership of a member in a server.
pub struct ServerMembership {
    pub id: i32,
    pub server_id: i32,
    pub member_id: i32,
    pub joined_at: Timestamp,
}

} // verus!
