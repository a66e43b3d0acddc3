//! Client side of the Kanidm authentication protocol, without the network.
//!
//! The crate holds the decisions of the protocol: which request to build, how
//! a response head changes the session, and how the negotiation moves from one
//! step to the next. Sending and receiving is left to the caller.

pub mod client;
pub mod config;
