//! Servers: communities that members join, and the icon each one shows.

use vstd::prelude::*;
use crate::text::{opt_view, opt_string_eq, clone_opt_string, before_sep, after_sep, split_once_char, contains_char};
use crate::time::Timestamp;

verus! {

/// The fields of a server to be created.
pub struct NewServer {
    pub name: String,
    pub description: String,
    pub icon: Option<String>,
    pub owner_id: i32,
}

/// A server.
pub struct Server {
    pub id: i32,
    pub name: String,
    pub description: String,
    /// The icon, written `name:color`.
    pub icon: Option<String>,
    pub owner_id: i32,
    pub created_at: Timestamp,
}

/// The icon that a server without one shows.
pub open spec fn default_icon_name() -> Seq<char> {
    "default"@
}

/// The color of the icon that a server without one shows.
pub open spec fn default_icon_color() -> Seq<char> {
    "var(--accent-green)"@
}

/// The icon name and color that an icon text `name:color` stands for.
pub open spec fn icon_parts(icon: Seq<char>) -> (Seq<char>, Seq<char>) {
    (before_sep(icon, ':'), before_sep(after_sep(icon, ':'), ':'))
}

impl Server {
    /// When two servers hold the same values.
    pub open spec fn same(self, other: Server) -> bool {
        &&& self.id == other.id
        &&& self.name@ == other.name@
        &&& self.description@ == other.description@
        &&& opt_view(self.icon) == opt_view(other.icon)
        &&& self.owner_id == other.owner_id
        &&& self.created_at == other.created_at
    }

    /// When a server is the placeholder that stands for "no server selected".
    pub open spec fn is_placeholder(self) -> bool {
        &&& self.id == 0
        &&& self.name@ == "default"@
        &&& self.description@ == "I is Server"@
        &&& self.icon is None
        &&& self.owner_id == 0
        &&& self.created_at == Timestamp::spec_epoch()
    }

    /// When the icon text can be read: absent, or holding a `:`.
    pub open spec fn icon_readable(self) -> bool {
        match self.icon {
            Some(i) => i@.contains(':'),
            None => true,
        }
    }

    /// The icon name and color that the server shows.
    pub open spec fn icon_spec(self) -> (Seq<char>, Seq<char>) {
        match self.icon {
            Some(i) => icon_parts(i@),
            None => (default_icon_name(), default_icon_color()),
        }
    }

    pub fn new(
        id: i32,
        name: String,
        description: String,
        icon: Option<String>,
        owner_id: i32,
        created_at: Timestamp,
    ) -> (s: Server)
        ensures
            s.id == id,
            s.name == name,
            s.description == description,
            s.icon == icon,
            s.owner_id == owner_id,
            s.created_at == created_at,
    {
        Server { id, name, description, icon, owner_id, created_at }
    }

    /// The placeholder server.
    pub fn default() -> (s: Server)
        ensures
            s.is_placeholder(),
    {
        Server::new(
            0,
            String::from_str("default"),
            String::from_str("I is Server"),
            None,
            0,
            Timestamp::epoch(),
        )
    }

    /// Compares two servers field by field.
    pub fn equals(&self, other: &Server) -> (r: bool)
        ensures
            r == self.same(*other),
    {
        self.id == other.id && self.name == other.name && self.description == other.description
            && opt_string_eq(&self.icon, &other.icon) && self.owner_id == other.owner_id
            && self.created_at == other.created_at
    }

    /// Whether the icon text can be read (an icon without `:` has no color).
    pub fn has_readable_icon(&self) -> (r: bool)
        ensures
            r == self.icon_readable(),
    {
        match &self.icon {
            Some(i) => contains_char(i.as_str(), ':'),
            None => true,
        }
    }

    /// The name and color of the icon that the server shows: those of its
    /// icon text `name:color`, or the green default icon.
    pub fn icon(&self) -> (r: (String, String))
        requires
            self.icon_readable(),
        ensures
            (r.0@, r.1@) == self.icon_spec(),
    {
        match &self.icon {
            Some(i) => {
                let (name, rest) = split_once_char(i.as_str(), ':');
                let (color, _) = split_once_char(rest.as_str(), ':');
                (name, color)
            },
            None => (String::from_str("default"), String::from_str("var(--accent-green)")),
        }
    }
}

impl Clone for Server {
    fn clone(&self) -> (s: Server)
        ensures
            s == *self,
    {
        Server {
            id: self.id,
            name: self.name.clone(),
            description: self.description.clone(),
            icon: clone_opt_string(&self.icon),
            owner_id: self.owner_id,
            created_at: self.created_at,
        }
    }
}

/// The servers of a member, or those that can be discovered.
pub struct MultiServer {
    pub servers: Vec<Server>,
}

impl View for MultiServer {
    type V = Seq<Server>;

    open spec fn view(&self) -> Seq<Server> {
        self.servers@
    }
}

impl MultiServer {
    pub fn new(servers: Vec<Server>) -> (m: MultiServer)
        ensures
            m@ == servers@,
    {
        MultiServer { servers }
    }

    /// No servers.
    pub fn default() -> (m: MultiServer)
        ensures
            m@ == Seq::<Server>::empty(),
    {
        MultiServer::new(Vec::new())
    }

    /// Whether the list holds a server with the same values, which is how a
    /// member is told apart from a visitor in the discovery list.
    pub fn contains(&self, server: &Server) -> (r: bool)
        ensures
            r == exists|i: int| 0 <= i < self@.len() && (#[trigger] self@[i]).same(*server),
    {
        let mut i: usize = 0;
        while i < self.servers.len()
            invariant
                0 <= i <= self.servers.len(),
                forall|j: int| 0 <= j < i ==> !(#[trigger] self@[j]).same(*server),
            decreases self.servers.len() - i,
        {
            if self.servers[i].equals(server) {
                assert(self@[i as int].same(*server));
                return true;
            }
            i = i + 1;
        }
        false
    }
}

impl Clone for MultiServer {
    fn clone(&self) -> (m: MultiServer)
        ensures
            m@ == self@,
    {
        MultiServer { servers: self.servers.clone() }
    }
}

} // verus!
