//! Core of a cross-chain atomic-swap bridge: the transfer registry and its
//! state machine, the retry/escalation policy for failed on-chain actions,
//! and the liveness status kept for the two chain monitors.
//!
//! Chain clients, event monitors and the transport layers around them are
//! external collaborators; this crate holds the logic that decides, for each
//! incoming contract event or execution failure, how the registry changes and
//! which on-chain action is owed next.

pub mod actions;
pub mod chains;
pub mod events;
pub mod health;
pub mod runtime;
pub mod signing;
pub mod states;
pub mod types;
