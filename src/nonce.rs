//! Nonce assignment for one signing account. Every submission from the
//! account takes its nonce here, so concurrent settlements never share one;
//! callers hold the sequencer behind a single lock per account.

use vstd::prelude::*;

verus! {

/// Hands out an account's nonces one at a time, in increasing order.
pub struct NonceSequencer {
    next: u64,
}

impl View for NonceSequencer {
    type V = nat;

    /// The next nonce to hand out.
    closed spec fn view(&self) -> nat {
        self.next as nat
    }
}

impl NonceSequencer {
    /// A sequencer whose first nonce is `first`.
    pub fn new(first: u64) -> (r: NonceSequencer)
        ensures
            r@ == first,
    {
        NonceSequencer { next: first }
    }

    /// Takes the next nonce; `None` once the 64-bit range is spent.
    pub fn assign(&mut self) -> (r: Option<u64>)
        ensures
            old(self)@ < u64::MAX ==> r == Some(old(self)@ as u64) && final(self)@ == old(self)@ + 1,
            old(self)@ >= u64::MAX ==> r is None && final(self)@ == old(self)@,
    {
        if self.next < u64::MAX {
            let n = self.next;
            self.next = self.next + 1;
            Some(n)
        } else {
            None
        }
    }

    /// The next nonce that `assign` would hand out.
    pub fn peek(&self) -> (r: u64)
        ensures
            r == self@,
    {
        self.next
    }
}

} // verus!
