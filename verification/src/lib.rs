//! Verified core of a parts-catalog lookup service.
//!
//! The library covers the logic of a DigiKey client: the token-cache
//! lifecycle, the construction of provider requests, the merging of the
//! provider's result buckets into one deduplicated ranked list, and the
//! normalization of provider product records into the service's own part
//! representation. Network transport, environment reading and wire
//! (de)serialization live outside the library and hand it plain values.

pub mod aggregate;
pub mod client;
pub mod normalize;
pub mod parts;
pub mod text;
pub mod token;
