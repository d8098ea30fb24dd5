//! A small reminders service: a client for a remote JSON document store with a
//! renewable bearer credential, a codec between the store's loosely typed records
//! and typed reminders, and the request pipeline (authentication gate, routing,
//! uniform response envelope) that sits in front of them.
//!
//! Everything that touches the network, the clock or the process environment is
//! left to the caller: the library decides, the caller performs.

pub mod text;
pub mod error;
pub mod reminder;
pub mod codec;
pub mod response;
pub mod store;
pub mod pipeline;
