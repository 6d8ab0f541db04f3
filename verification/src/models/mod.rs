//! The entities that the chat server sends and receives.

pub mod member;
pub mod server;
pub mod channel;
pub mod message;
pub mod post;
pub mod server_membership;
pub mod friends;
pub mod friend_request;
pub mod chat;
pub mod report;
