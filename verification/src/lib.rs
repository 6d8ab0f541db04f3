//! Client-side logic of a real-time chat application: data models, the
//! reducers behind the member, server and chat contexts, request building
//! and response handling, and the decisions that the views take.

pub mod text;
pub mod api;
pub mod time;
pub mod models;
pub mod contexts;
pub mod auth;
pub mod routes;
pub mod forms;
pub mod views;
