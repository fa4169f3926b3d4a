//! Core logic of a logging TCP relay: a per-direction stream pump that
//! captures every byte it forwards, a content-addressed capture store keyed
//! by a cryptographic digest, and the coordinator rules that combine the
//! outcomes of one connection's two pumps and two persistence attempts.
//!
//! All socket and file I/O lives outside this crate; the library works on
//! plain byte buffers and events and states in its contracts exactly what is
//! forwarded, captured and stored.

pub mod digest;
pub mod direction;
pub mod hex;
pub mod pump;
pub mod relay;
pub mod store;
