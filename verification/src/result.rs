//! Mapping of transport status codes to a single opaque error.
//!
//! The transport reports one universal success sentinel and an unspecified
//! set of failure sentinels; every non-success code collapses to the one
//! `SenselError` value, so callers cannot distinguish failure causes beyond
//! "the last operation failed".

use vstd::prelude::*;

verus! {

/// The transport's universal success sentinel.
pub const SENSEL_OK: i32 = 0;

/// The single opaque device error: any non-success transport status.
#[derive(Clone, Copy, Debug, PartialEq, Eq, Structural)]
pub struct SenselError;

/// Collapses a raw transport status code to success or the opaque error.
pub fn sensel_result(status: i32) -> (r: Result<(), SenselError>)
    ensures
        r is Ok <==> status == SENSEL_OK,
{
    if status == SENSEL_OK {
        Ok(())
    } else {
        Err(SenselError)
    }
}

} // verus!
