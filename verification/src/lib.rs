//! Safety and ergonomics layer over a register-based multi-touch sensor
//! protocol: bitmask-driven frame and contact decoding, a width-polymorphic
//! LED staging buffer, and a typestate device lifecycle.
//!
//! The physical transport (the vendor SDK that performs the actual
//! request/response register exchanges) is an external collaborator: every
//! operation here takes the transport's response — a status code and the raw
//! payload — as plain values, and contains the decision logic that turns them
//! into typed results.

use vstd::prelude::*;

pub mod contact;
pub mod device;
pub mod frame;
pub mod result;

verus! {

/// Capacity of a device enumeration list.
pub const MAX_DEVICES: usize = 16;

} // verus!
