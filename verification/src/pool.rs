//! The counting admission token pool: a semaphore-like primitive that bounds
//! how many actors hold a token at any instant.

use vstd::prelude::*;

verus! {

/// A bounded pool of admission tokens. `capacity` is fixed at construction;
/// `available` counts the tokens not currently held by any actor. Acquiring
/// takes one token, releasing gives back `n` tokens; the pool never holds more
/// than `capacity` tokens. The ghost counters record the totals of both
/// operations over the pool's whole history.
pub struct TokenPool {
    capacity: u32,
    available: u32,
    acquired: Ghost<nat>,
    released: Ghost<nat>,
}

impl TokenPool {
    /// The fixed number of tokens the pool was created with.
    pub closed spec fn capacity(&self) -> u32 {
        self.capacity
    }

    /// The tokens currently free to be acquired.
    pub closed spec fn available(&self) -> u32 {
        self.available
    }

    /// How many tokens have been acquired over the pool's history.
    pub closed spec fn acquired(&self) -> nat {
        self.acquired@
    }

    /// How many tokens have been released over the pool's history.
    pub closed spec fn released(&self) -> nat {
        self.released@
    }

    /// Token conservation: the free tokens never exceed the capacity, and
    /// every token ever acquired came either from the initial stock or from a
    /// release.
    pub closed spec fn wf(&self) -> bool {
        self.available <= self.capacity
        && self.available + self.acquired@ == self.capacity + self.released@
    }

    /// Creates a full pool of `capacity` tokens.
    pub fn new(capacity: u32) -> (pool: TokenPool)
        ensures
            pool.wf(),
            pool.capacity() == capacity,
            pool.available() == capacity,
            pool.acquired() == 0,
            pool.released() == 0,
    {
        TokenPool {
            capacity,
            available: capacity,
            acquired: Ghost(0),
            released: Ghost(0),
        }
    }

    /// Takes one token; the caller must know one is free (a blocking acquire
    /// is only enabled in a state where this holds).
    pub fn acquire(&mut self)
        requires
            old(self).wf(),
            old(self).available() > 0,
        ensures
            final(self).wf(),
            final(self).capacity() == old(self).capacity(),
            final(self).available() == old(self).available() - 1,
            final(self).acquired() == old(self).acquired() + 1,
            final(self).released() == old(self).released(),
    {
        self.available = self.available - 1;
        self.acquired = Ghost(self.acquired@ + 1);
    }

    /// Gives `n` tokens back. A correct client never returns more tokens than
    /// it took out, so the pool stays within its capacity.
    pub fn release(&mut self, n: u32)
        requires
            old(self).wf(),
            old(self).available() + n <= old(self).capacity(),
        ensures
            final(self).wf(),
            final(self).capacity() == old(self).capacity(),
            final(self).available() == old(self).available() + n,
            final(self).acquired() == old(self).acquired(),
            final(self).released() == old(self).released() + n,
    {
        self.available = self.available + n;
        self.released = Ghost(self.released@ + n as nat);
    }

    /// How many tokens are currently free.
    pub fn available_now(&self) -> (n: u32)
        ensures
            n == self.available(),
    {
        self.available
    }
}

/// Law: over any run, the total of tokens acquired from a pool never exceeds
/// the total of tokens released into it plus its initial capacity.
pub proof fn lemma_token_conservation(pool: &TokenPool)
    requires
        pool.wf(),
    ensures
        pool.acquired() <= pool.released() + pool.capacity(),
{
}

} // verus!
