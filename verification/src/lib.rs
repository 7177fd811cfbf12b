//! Control layer of a signaling gateway: the tagged command/response
//! protocol model, handler dispatch, the redirect provisioning workflow,
//! and the reactor that consumes backend lifecycle events.
//!
//! The layer decides; its surroundings act. Text parsing, network calls
//! to the backend, native callbacks and the task scheduler live outside
//! the library and exchange plain values with it.

pub mod codec;
pub mod dispatch;
pub mod dto;
pub mod entity;
pub mod error;
pub mod event;
pub mod json;
pub mod redirect;
pub mod topic;
