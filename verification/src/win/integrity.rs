//! Whether typed input can reach a target process, judged by Windows
//! integrity levels: input sent to a process running above ours is dropped
//! without any error, so the check happens before anything is typed.

use vstd::prelude::*;

verus! {

/// Medium integrity, at which a normal, non-elevated process runs.
pub const INTEGRITY_MEDIUM: u32 = 0x2000;

/// Our own integrity level, from what reading our process token gave:
/// medium when the token could not be read.
pub fn our_integrity_rid(read: Option<u32>) -> (rid: u32)
    ensures
        rid == match read {
            Some(r) => r,
            None => INTEGRITY_MEDIUM,
        },
{
    match read {
        Some(r) => r,
        None => INTEGRITY_MEDIUM,
    }
}

/// Whether the target process runs above `our_rid`, from its integrity
/// level as read: `None` when its process or token could not be opened or
/// read, which counts as higher, since a process we may not query is almost
/// always elevated relative to us.
pub fn target_is_higher(their_rid: Option<u32>, our_rid: u32) -> (higher: bool)
    ensures
        higher == match their_rid {
            Some(r) => r > our_rid,
            None => true,
        },
{
    match their_rid {
        Some(r) => r > our_rid,
        None => true,
    }
}

} // verus!
