//! The verified core of a single-endpoint HTTP forwarding proxy.
//!
//! Every inbound request is relayed, method and body unchanged, to one fixed
//! upstream URL; the upstream's response text goes back to the caller, and a
//! failed transport becomes a fixed server-error reply. This crate holds the
//! decisions of that exchange and their proofs. Reading sockets, awaiting the
//! network and starting the process are left to the program around it.

pub mod config;
pub mod forwarder;
pub mod http_stack;
pub mod laws;
pub mod message;
