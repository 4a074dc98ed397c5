//! Layout engine for self-describing firmware file-information records.
//!
//! A record is built in place inside a caller-supplied byte region: a
//! fixed-size header followed by a null-terminated UCS-2 name trailer.
//! The crate computes the exact rounded record size, validates the
//! region's alignment and capacity, writes the record, and can later
//! reconstruct a typed view of a record from its bytes by scanning the
//! trailer for the terminator.

pub mod info;
pub mod layout;
pub mod region;
pub mod time;
pub mod ucs2;
