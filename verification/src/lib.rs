//! Core of a chat-room automation agent: an ordered registry of
//! pattern-matched command handlers, a first-match-wins dispatcher, the
//! session reconciliation rules applied at startup, and the capped
//! exponential-backoff policy for accepting room invites.
//!
//! The messaging platform itself (transport, sync, room membership queries)
//! is an external collaborator: this crate makes every decision on plain
//! values and leaves the network calls to the program around it.

pub mod dispatch;
pub mod errors;
pub mod handlers;
pub mod invite;
pub mod random;
pub mod reconcile;
pub mod response;
pub mod route;
pub mod text;
