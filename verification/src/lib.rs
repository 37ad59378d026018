//! Skeleton of a freestanding program: a named entry point that performs
//! no work and returns control to its caller unchanged.

use vstd::prelude::*;

verus! {

/// Entry point with a stable name, callable from startup code or a
/// debugger. It performs no work: it reads and writes no state and hands
/// nothing back, so a call is observably a no-op that returns at once.
pub fn hello() -> (r: ())
    ensures
        r == (),
{
}

} // verus!
