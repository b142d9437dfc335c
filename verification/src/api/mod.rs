//! Requests to the Bilibili web API: where they go, how they are signed and
//! authenticated, and what the client makes of the replies.

pub mod actions;
pub mod client;
pub mod live;
pub mod models;
