//! Dispatcher core of the LOCD protocol: matching of hierarchical
//! bloom-filter identifiers, request handlers, the response cache and the
//! per-peer negotiation tracker, with machine-checked contracts.

pub mod cache;
pub mod commitment;
pub mod contract;
pub mod digest;
pub mod echo;
pub mod entropy;
pub mod error;
pub mod filter;
pub mod hbfi;
pub mod identity;
pub mod index;
pub mod laws;
pub mod lut;
pub mod negotiation;
pub mod packet;
pub mod protocol;
pub mod service;
pub mod signals;
pub mod wire;
