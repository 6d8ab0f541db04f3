//! The shared state of the views: what the member, the open server and the
//! open chat are, how each dispatched update changes it, and what has to be
//! fetched after a change.

pub mod chat_context;
pub mod member_context;
pub mod server_context;
