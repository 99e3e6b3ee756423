//! Dispatch core of a Portal Network node's Beacon JSON-RPC surface.
//!
//! The node's router hands every client request to a handler, which calls the
//! content store, the overlay or the beacon client and turns what came back
//! into a reply. This crate holds the part of that work that decides: given an
//! endpoint and the outcome of the collaborator call made for it, which reply
//! the client receives, or which call has to follow. The calls themselves, the
//! request queue and the reply channels belong to the program around it.

pub mod beacon;
pub mod dispatch;
pub mod hex;
pub mod json;
pub mod lookup;
pub mod peer;
pub mod reply;
pub mod routing;
pub mod store;
pub mod text;
pub mod trace;
pub mod wire;
