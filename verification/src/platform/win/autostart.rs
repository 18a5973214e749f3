use vstd::prelude::*;

verus! {

/// Autostart through the per-user Run key is always available on Windows:
/// any executable can add itself there.
pub fn is_available() -> (b: bool)
    ensures
        b,
{
    true
}

} // verus!
