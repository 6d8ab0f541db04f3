//! The server context: the open server, its channels, the open channel and
//! its posts.

use vstd::prelude::*;
use crate::models::server::Server;
use crate::models::channel::{Channel, ChannelView, MultiChannel, placeholder_channel, placeholder_channels};
use crate::models::post::{PostDetail, MultiPost};

verus! {

/// The values of a server context.
pub struct ServerState {
    pub current_server: Server,
    pub channels: Seq<ChannelView>,
    pub current_channel: ChannelView,
    pub current_thread: Seq<PostDetail>,
}

/// The server context.
pub struct ServerContext {
    pub current_server: Server,
    pub channels: MultiChannel,
    pub current_channel: Channel,
    pub current_thread: MultiPost,
}

/// An update of the server context.
pub enum ServerDispatch {
    UpdateServer(Server),
    UpdateServerChannels(MultiChannel),
    UpdateChannel(Channel),
    UpdateChannelThread(MultiPost),
}

impl View for ServerContext {
    type V = ServerState;

    open spec fn view(&self) -> ServerState {
        ServerState {
            current_server: self.current_server,
            channels: self.channels@,
            current_channel: self.current_channel@,
            current_thread: self.current_thread@,
        }
    }
}

/// The state after an update. Opening another server resets its channels to
/// placeholders, selects no channel and shows no posts until they load; the
/// other updates replace one part.
pub open spec fn server_step(s: ServerState, action: ServerDispatch) -> ServerState {
    match action {
        ServerDispatch::UpdateServer(server) => ServerState {
            current_server: server,
            channels: placeholder_channels(),
            current_channel: placeholder_channel(),
            current_thread: Seq::empty(),
        },
        ServerDispatch::UpdateServerChannels(channels) => ServerState { channels: channels@, ..s },
        ServerDispatch::UpdateChannel(channel) => ServerState { current_channel: channel@, ..s },
        ServerDispatch::UpdateChannelThread(posts) => ServerState { current_thread: posts@, ..s },
    }
}

impl ServerContext {
    /// The state before a server is opened.
    pub fn initial() -> (c: ServerContext)
        ensures
            c@.current_server.is_placeholder(),
            c@.channels == placeholder_channels(),
            c@.current_channel == placeholder_channel(),
            c@.current_thread == Seq::<PostDetail>::empty(),
    {
        ServerContext {
            current_server: Server::default(),
            channels: MultiChannel::default(),
            current_channel: Channel::default(),
            current_thread: MultiPost::default(),
        }
    }

    /// Applies an update.
    pub fn reduce(&self, action: ServerDispatch) -> (c: ServerContext)
        ensures
            c@ == server_step(self@, action),
            action matches ServerDispatch::UpdateServer(srv) ==> c.current_server == srv,
    {
        match action {
            ServerDispatch::UpdateServer(server) => ServerContext {
                current_server: server,
                channels: MultiChannel::default(),
                current_channel: Channel::default(),
                current_thread: MultiPost::default(),
            },
            ServerDispatch::UpdateServerChannels(channels) => ServerContext {
                current_server: self.current_server.clone(),
                channels,
                current_channel: self.current_channel.clone(),
                current_thread: self.current_thread.clone(),
            },
            ServerDispatch::UpdateChannel(channel) => ServerContext {
                current_server: self.current_server.clone(),
                channels: self.channels.clone(),
                current_channel: channel,
                current_thread: self.current_thread.clone(),
            },
            ServerDispatch::UpdateChannelThread(posts) => ServerContext {
                current_server: self.current_server.clone(),
                channels: self.channels.clone(),
                current_channel: self.current_channel.clone(),
                current_thread: posts,
            },
        }
    }

    /// The server whose channels have to be fetched after the open server
    /// changed: none while the placeholder is open.
    pub fn channels_to_load(&self) -> (id: Option<i32>)
        ensures
            id == if self.current_server.is_placeholder() {
                None
            } else {
                Some(self.current_server.id)
            },
    {
        let placeholder = Server::default();
        if self.current_server.equals(&placeholder) {
            None
        } else {
            Some(self.current_server.id)
        }
    }

    /// The channel whose posts have to be fetched after the open channel
    /// changed: none while the placeholder (the welcome page) is open.
    pub fn thread_to_load(&self) -> (id: Option<i32>)
        ensures
            id == if self.current_channel.is_placeholder() {
                None
            } else {
                Some(self.current_channel.id)
            },
    {
        let placeholder = Channel::default();
        if self.current_channel.equals(&placeholder) {
            None
        } else {
            Some(self.current_channel.id)
        }
    }
}

/// Law: opening a server forgets everything of the previous one: what was
/// loaded or selected before reads as the placeholders afterwards.
pub proof fn law_server_switch_resets(s: ServerState, earlier: ServerDispatch, server: ServerDispatch)
    requires
        server is UpdateServer,
    ensures
        server_step(server_step(s, earlier), server) == server_step(s, server),
        server_step(s, server).channels == placeholder_channels(),
        server_step(s, server).current_channel == placeholder_channel(),
        server_step(s, server).current_thread == Seq::<PostDetail>::empty(),
{
}

/// Law: opening a server makes exactly that server the open one, with all
/// its values (its id, its owner, its icon), whatever was open before; so its
/// owner is told apart by the open server's owner id.
pub proof fn law_server_open_holds_server(s: ServerState, srv: Server)
    ensures
        server_step(s, ServerDispatch::UpdateServer(srv)).current_server == srv,
        server_step(s, ServerDispatch::UpdateServer(srv)).current_server.owner_id == srv.owner_id,
        server_step(s, ServerDispatch::UpdateServer(srv)).current_server.id == srv.id,
{
}

/// Law: an update within the open server takes effect, keeps the server,
/// touches no other part, and counts once when dispatched twice.
pub proof fn law_server_part_update(s: ServerState, action: ServerDispatch)
    requires
        !(action is UpdateServer),
    ensures
        server_step(s, action).current_server == s.current_server,
        action matches ServerDispatch::UpdateServerChannels(v) ==> server_step(s, action) == (ServerState { channels: v@, ..s }),
        action matches ServerDispatch::UpdateChannel(v) ==> server_step(s, action) == (ServerState { current_channel: v@, ..s }),
        action matches ServerDispatch::UpdateChannelThread(v) ==> server_step(s, action) == (ServerState { current_thread: v@, ..s }),
        server_step(server_step(s, action), action) == server_step(s, action),
{
}

/// Law: updates of different parts of the open server commute.
pub proof fn law_server_parts_commute(s: ServerState, a: ServerDispatch, b: ServerDispatch)
    requires
        !(a is UpdateServer),
        !(b is UpdateServer),
        (a is UpdateServerChannels) != (b is UpdateServerChannels) || (a is UpdateChannel) != (b is UpdateChannel),
    ensures
        server_step(server_step(s, a), b) == server_step(server_step(s, b), a),
{
}

} // verus!
