//! A transfer hook that, on each intercepted token transfer, asks a separate
//! component for a random number and keeps a counter of the requests made.
//!
//! The library decides and the host acts: every handler returns the next thing
//! the host must do, together with the state to hand back with its outcome.

pub mod address;
pub mod admin;
pub mod counter;
pub mod error;
pub mod execute;
pub mod gate;
pub mod host;
pub mod instruction;
pub mod laws;
pub mod processor;
pub mod token;
