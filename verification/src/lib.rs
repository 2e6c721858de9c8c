//! Wire protocol for a display-compositor IPC.
//!
//! Every frame on the byte stream is a fixed 16-byte little-endian header
//! followed by `length - 16` payload bytes, where `length` is the total frame
//! size declared in the header.  Each message type encodes its payload with
//! one of a small set of patterns: fixed scalar records, length-prefixed byte
//! blobs, null-terminated strings, fixed-width zero-padded strings, repeated
//! fixed-size records, or an empty payload.
//!
//! Fields that carry 32-bit floats on the wire are represented here by their
//! IEEE-754 bit patterns (`u32`); string fields are represented by their raw
//! UTF-8 bytes (`Vec<u8>`).  Conversions to the platform's `f32` and `String`
//! types belong to the unverified shell around this crate.

use vstd::prelude::*;

pub mod buffer_msgs;
pub mod control_msgs;
pub mod draw_msgs;
pub mod effect_msgs;
pub mod error;
pub mod header;
pub mod input_msgs;
pub mod monitor_msgs;
pub mod query_msgs;
pub mod registry;
pub mod session;
pub mod utf8;
pub mod window_msgs;
pub mod wire;

verus! {

/// Protocol version; a compile-time constant, never exchanged on the wire.
pub const ICM_IPC_VERSION: u32 = 2;

/// Greatest number of out-of-band handles a single frame may declare.
pub const ICM_MAX_FDS_PER_MSG: usize = 4;

/// Window id that addresses the root window.
pub const ICM_WINDOW_ID_ROOT: u32 = 0;

} // verus!
