//! Sizes of the fixed buffers that the attestation primitive works on.

use vstd::prelude::*;

verus! {

/// Number of bytes of caller-supplied context bound into a report.
pub const REPORT_DATA_SIZE: usize = 64;

/// Number of bytes of a report.
pub const REPORT_SIZE: usize = 1024;

/// Number of bytes of an attestation key identifier.
pub const TDX_UUID_SIZE: usize = 16;

} // verus!
