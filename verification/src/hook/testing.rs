//! A handler to try the hooking system with.
use vstd::prelude::*;

verus! {

/// The handler of the test hook: gives back its argument.
pub fn hook_handler(a: u64) -> (r: u64)
    ensures
        r == a,
{
    a
}

} // verus!
