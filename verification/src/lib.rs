//! Create, read, update and delete for the single `users` table of a relational
//! store.
//!
//! The crate holds everything about the four operations that can be decided
//! without touching the network: which statement is sent and with which bound
//! parameters, how the store's answer becomes a [`user::User`] or a failure of
//! one of five kinds, and in which order a connection is acquired, used once
//! and handed back. The caller owns the pool and performs the waits.

pub mod user;
pub mod error;
pub mod statement;
pub mod reply;
pub mod repository;
pub mod driver;
pub mod operation;
pub mod model;
