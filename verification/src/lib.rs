//! A feedback relay: validates the notification configuration, decodes a
//! submitted form, and composes the notification that is sent upstream.

pub mod config;
pub mod errors;
pub mod notify;
pub mod request_id;
pub mod server;
pub mod submission;
pub mod text;
