//! Core data types of a routing node: node identifiers in a XOR metric
//! space, key material held as plain bytes, message addressing and the
//! request-building side of a routing client.

pub mod bytes;
pub mod crypto;
pub mod dht_id;
pub mod types;
pub mod routing_client;
