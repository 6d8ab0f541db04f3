//! Channels: the rooms of a server where members post.

use vstd::prelude::*;
use crate::time::{Timestamp, format_created_at, us_date_time_12h};

verus! {

/// The fields of a channel to be created.
pub struct NewChannel {
    pub name: String,
    pub server_id: i32,
}

/// The values of a channel.
pub struct ChannelView {
    pub id: int,
    pub server_id: int,
    pub name: Seq<char>,
    pub created_at: Timestamp,
}

/// The placeholder channel's values.
pub open spec fn placeholder_channel() -> ChannelView {
    ChannelView { id: 0, server_id: 0, name: "default"@, created_at: Timestamp::spec_epoch() }
}

/// A channel of a server.
pub struct Channel {
    pub id: i32,
    pub server_id: i32,
    pub name: String,
    pub created_at: Timestamp,
}

impl View for Channel {
    type V = ChannelView;

    open spec fn view(&self) -> ChannelView {
        ChannelView {
            id: self.id as int,
            server_id: self.server_id as int,
            name: self.name@,
            created_at: self.created_at,
        }
    }
}

impl Channel {
    /// When two channels hold the same values.
    pub open spec fn same(self, other: Channel) -> bool {
        self@ == other@
    }

    /// When a channel is the placeholder that stands for "no channel selected",
    /// where the server's welcome page shows.
    pub open spec fn is_placeholder(self) -> bool {
        self@ == placeholder_channel()
    }

    pub fn new(id: i32, name: String, server_id: i32, created_at: Timestamp) -> (c: Channel)
        ensures
            c.id == id,
            c.name == name,
            c.server_id == server_id,
            c.created_at == created_at,
    {
        Channel { id, name, server_id, created_at }
    }

    /// The placeholder channel.
    pub fn default() -> (c: Channel)
        ensures
            c.is_placeholder(),
    {
        Channel::new(0, String::from_str("default"), 0, Timestamp::epoch())
    }

    /// When the channel was created, as `MM/DD/YYYY hh:mm AM`.
    pub fn created_at(&self) -> (s: String)
        ensures
            s@ == us_date_time_12h(
                self.created_at.parts(),
            ),
    {
        format_created_at(&self.created_at)
    }

    /// Compares two channels field by field.
    pub fn equals(&self, other: &Channel) -> (r: bool)
        ensures
            r == self.same(*other),
    {
        self.id == other.id && self.server_id == other.server_id && self.name == other.name
            && self.created_at == other.created_at
    }
}

impl Clone for Channel {
    fn clone(&self) -> (c: Channel)
        ensures
            c == *self,
    {
        Channel {
            id: self.id,
            server_id: self.server_id,
            name: self.name.clone(),
            created_at: self.created_at,
        }
    }
}

/// The channels of a server.
pub struct MultiChannel {
    pub channels: Vec<Channel>,
}

impl View for MultiChannel {
    type V = Seq<ChannelView>;

    open spec fn view(&self) -> Seq<ChannelView> {
        self.channels@.map_values(|c: Channel| c@)
    }
}

/// The nineteen placeholder channels shown while a server's channels load.
pub open spec fn placeholder_channels() -> Seq<ChannelView> {
    Seq::new(19, |i: int| placeholder_channel())
}

impl MultiChannel {
    pub fn new(channels: Vec<Channel>) -> (m: MultiChannel)
        ensures
            m.channels@ == channels@,
    {
        MultiChannel { channels }
    }

    /// Nineteen placeholder channels, the list shown while a server's
    /// channels load.
    pub fn default() -> (m: MultiChannel)
        ensures
            m@ == placeholder_channels(),
    {
        let mut channels: Vec<Channel> = Vec::new();
        let mut i: usize = 1;
        while i < 20
            invariant
                1 <= i <= 20,
                channels@.len() == i - 1,
                forall|j: int| 0 <= j < channels@.len() ==> (#[trigger] channels@[j]).is_placeholder(),
            decreases 20 - i,
        {
            channels.push(Channel::default());
            i = i + 1;
        }
        let m = MultiChannel::new(channels);
        assert(m@ =~= placeholder_channels());
        m
    }
}

impl Clone for MultiChannel {
    fn clone(&self) -> (m: MultiChannel)
        ensures
            m.channels@ == self.channels@,
            m@ == self@,
    {
        MultiChannel { channels: self.channels.clone() }
    }
}

} // verus!
