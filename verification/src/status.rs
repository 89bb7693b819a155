//! The exit status that the launcher hands on.

use vstd::prelude::*;

verus! {

/// The status with which the launcher ends when the child could not be
/// started.
pub const LAUNCH_FAILURE_STATUS: i32 = 1;

/// The exit code of a child read as a signed status: the same 32 bits, so a
/// code of `0x8000_0000` or more is the negative number that is `2^32` less.
pub open spec fn spec_exit_status(code: u32) -> int {
    if code < 0x8000_0000 {
        code as int
    } else {
        code - 0x1_0000_0000
    }
}

/// Reads the exit code of a child as the signed status that a process ends
/// with.
pub fn exit_status(code: u32) -> (status: i32)
    ensures
        status == spec_exit_status(code),
{
    let status: i32 = #[verifier::truncate]
    (code as i32);
    assert(status == spec_exit_status(code)) by {
        assert(code < 0x8000_0000u32 ==> (code as i32) == code) by (bit_vector);
        assert(code >= 0x8000_0000u32 ==> (code as i32) == code - 0x1_0000_0000) by (bit_vector);
    }
    status
}

} // verus!
