//! Session core of the Falach vault frontends.
//!
//! A session is locked or unlocked. While unlocked it holds an open vault and the
//! credentials that opened it. It locks on request, on shutdown, after a time without
//! user activity, and when the frontend stays in the background too long. Every change
//! is announced to the frontend's event sink.

pub mod auto_lock;
pub mod credentials;
pub mod dto;
pub mod effects;
pub mod error;
pub mod event;
pub mod laws;
pub mod lifecycle;
pub mod outlet;
pub mod registry;
pub mod session;
pub mod state;
pub mod time;
