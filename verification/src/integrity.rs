//! The integrity hash presented to the matchmaking server.
use vstd::prelude::*;

verus! {

/// Hash sent to the matchmaking server to prove the build's integrity;
/// builds without integrity checking send an empty one.
pub fn get_integrity_hash() -> (hash: String)
    ensures
        hash@ == Seq::<char>::empty(),
{
    String::new()
}

} // verus!
