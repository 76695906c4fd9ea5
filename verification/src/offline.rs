//! The rule that the program runs on a machine without a network.

use vstd::prelude::*;

verus! {

/// Some interface is not a loopback: the machine may be on a network.
/// `loopback` tells of each interface whether it is one.
pub open spec fn is_online(loopback: Seq<bool>) -> bool {
    exists|i: int| 0 <= i < loopback.len() && !#[trigger] loopback[i]
}

/// Tells whether some network interface is active, a loopback not counting.
/// With no interface at all the machine is taken to be offline.
pub fn active_interface(loopback: &[bool]) -> (online: bool)
    ensures
        online == is_online(loopback@),
{
    let mut i: usize = 0;
    while i < loopback.len()
        invariant
            i <= loopback.len(),
            forall|k: int| 0 <= k < i ==> #[trigger] loopback@[k],
        decreases loopback.len() - i,
    {
        if !loopback[i] {
            return true;
        }
        i += 1;
    }
    false
}

} // verus!
