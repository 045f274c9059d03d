//! Verified encoder for Launchpad X device-control messages.
//!
//! The library turns a command from a closed catalog plus raw parameter
//! bytes into a fully framed, bounds-checked SysEx byte sequence, or a
//! typed validation error.  Transmitting the bytes to a device is left to
//! the caller.

pub mod builder;
pub mod catalog;
