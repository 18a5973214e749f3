//! The two macOS preconditions for synthetic keystroke delivery.

use vstd::prelude::*;

use crate::platform::BlockReason;

verus! {

/// Why a delivery attempted now would be blocked, given whether this
/// process holds the Accessibility permission and whether any process in
/// the session holds Secure Event Input. Accessibility is checked first,
/// since it blocks everything.
pub fn block_reason(accessibility_trusted: bool, secure_input_active: bool) -> (r: Option<
    BlockReason,
>)
    ensures
        r == (if !accessibility_trusted {
            Some(BlockReason::NoAccessibility)
        } else if secure_input_active {
            Some(BlockReason::SecureInput)
        } else {
            None
        }),
{
    if !accessibility_trusted {
        return Some(BlockReason::NoAccessibility);
    }
    if secure_input_active {
        return Some(BlockReason::SecureInput);
    }
    None
}

} // verus!
