//! A client-side session layer for a network video recorder.
//!
//! The device is driven through a native, blocking, handle-based interface.
//! This crate holds every decision of the session layer and none of the
//! native calls: each operation says which call is to be made
//! ([`native::NativeCall`]) and, given what the call returned, how the
//! session goes on ([`error::Reply`]).  The caller performs the calls.

pub mod error;
pub mod text;
pub mod time;
pub mod native;
pub mod channel;
pub mod download;
pub mod device;
pub mod common;
