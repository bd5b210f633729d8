//! Decision logic of a "now playing" display for a music-streaming account.
//!
//! The crate holds the rules that wire a callback listener, an authorization
//! coordinator and a polling loop together. Every rule is a function from
//! plain values to plain values: the surrounding program performs the network
//! and console work and reports back what happened.

pub mod features;
pub mod token;
pub mod callback;
pub mod snapshot;
pub mod poller;
pub mod coordinator;
pub mod traces;
