//! Rendezvous relay core: a sender registers a byte stream under a
//! caller-chosen id, a receiver later claims it, and the bytes are handed
//! off directly from the one connection to the other. This crate holds the
//! verified heart of that service: the transfer registry, the single-use
//! pairing and completion signals, the drain accounting, and the expiry
//! sweep. The HTTP boundary around it lives outside the library.
#![allow(unused_imports)]

pub mod config;
pub mod errors;
pub mod payload;
pub mod protocol;
pub mod registry;
pub mod signal;
pub mod transfer;
