//! Verified core of a Zenoh-based network back end for aggregate computing
//! on ESP-IDF devices: peer identifiers, message packets, the store of the
//! latest message received from each peer, and the plain-value models of
//! the Zenoh entities that the network logic reads.

pub mod platform;
pub mod zid;
pub mod entities;
pub mod matching;
pub mod message;
pub mod latest;
pub mod store;
pub mod network;
pub mod query;
