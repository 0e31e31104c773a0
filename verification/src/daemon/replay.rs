//! The interface of the replay cache.

use vstd::prelude::*;

verus! {

/// A cache of the nonces that were seen.
///
/// What a check does is described by a relation between the cache before it, the
/// nonce, the cache after it, and whether the nonce is new. A cache that does not say
/// more of itself may do anything in a check.
pub trait ReplayCache: Sized {
    /// What checking a nonce does.
    open spec fn checks(before: Self, nonce: Seq<u8>, after: Self, fresh: bool) -> bool {
        true
    }

    /// Tells whether a nonce is new, and remembers it.
    fn check_and_insert(&mut self, nonce: [u8; 16]) -> (fresh: bool)
        ensures
            Self::checks(*old(self), nonce@, *final(self), fresh),
    ;
}

} // verus!
