//! Byte counter of a transfer, capped at the announced size.

use vstd::prelude::*;

verus! {

/// The highest position under an optional announced size `total`: the size
/// when one is known, the largest `u64` otherwise.
pub open spec fn cap(total: Option<u64>) -> nat {
    match total {
        Some(t) => t as nat,
        None => u64::MAX as nat,
    }
}

/// The position that follows `position` once `len` more bytes are written:
/// the sum, capped at `cap(total)`.
pub open spec fn advanced(position: nat, total: Option<u64>, len: nat) -> nat {
    if position + len <= cap(total) {
        position + len
    } else {
        cap(total)
    }
}

/// How many bytes of a transfer have been written, and how many were announced.
#[derive(Clone, Copy, Debug, PartialEq, Eq)]
pub struct Progress {
    position: u64,
    total: Option<u64>,
}

impl Progress {
    /// Bytes written so far.
    pub closed spec fn at(self) -> nat {
        self.position as nat
    }

    /// Announced size, if the server gave one.
    pub closed spec fn size(self) -> Option<u64> {
        self.total
    }

    /// The position is never past the announced size.
    #[verifier::type_invariant]
    pub open spec fn bounded(self) -> bool {
        self.at() <= cap(self.size())
    }

    /// A counter at zero for a transfer of `total` bytes (`None`: size unknown).
    pub fn new(total: Option<u64>) -> (p: Progress)
        ensures
            p.at() == 0,
            p.size() == total,
    {
        Progress { position: 0, total }
    }

    /// Bytes written so far.
    pub fn position(&self) -> (n: u64)
        ensures
            n == self.at(),
            n <= cap(self.size()),
    {
        proof {
            use_type_invariant(self);
        }
        self.position
    }

    /// Announced size, if any.
    pub fn total(&self) -> (t: Option<u64>)
        ensures
            t == self.size(),
    {
        self.total
    }

    /// Counts `len` more bytes. The position never decreases and never passes
    /// the announced size.
    pub fn advance(&mut self, len: u64)
        ensures
            final(self).size() == old(self).size(),
            final(self).at() == advanced(old(self).at(), old(self).size(), len as nat),
            old(self).at() <= final(self).at() <= cap(final(self).size()),
    {
        proof {
            use_type_invariant(&*self);
        }
        let cap: u64 = match self.total {
            Some(t) => t,
            None => u64::MAX,
        };
        let room: u64 = cap - self.position;
        if len <= room {
            self.position = self.position + len;
        } else {
            self.position = cap;
        }
    }
}

} // verus!
