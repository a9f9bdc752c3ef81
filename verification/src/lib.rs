//! A shared, mutable value whose access is mediated by a single owner.
//!
//! The owner wraps a value into a shared cell and can grant or revoke
//! read/write capability to independent user handles at runtime. Every
//! access goes through one readers-writer lock protecting both the value
//! and the registry of authorized identities.

pub mod can;
pub mod can_close;
pub mod cell;
pub mod model;
pub mod protected;
