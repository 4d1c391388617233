//! The reader/writer exclusion gate: many concurrent readers share access,
//! mutually exclusive with a single writer at a time.
//!
//! A reader's or writer's whole operation spans two atomic steps (begin and
//! end) with the simulated work between them; the runtime calls the steps
//! under the lock's exclusion, sleeps for the simulated work, and tags the
//! emitted events with the actor's identity. The algorithm prefers readers: a
//! waiting writer can be passed by newly arriving readers, an accepted
//! limitation of the modeled algorithm.

use crate::counter::ExclusionCounter;
use crate::pool::TokenPool;
use vstd::prelude::*;

verus! {

/// The exclusion-gate engine. `writer_gate` (one token) is held either by
/// the active writer or, on behalf of all active readers, by the first
/// reader; `reader_admission` (one token) serializes the reader-count
/// transition and is free again by the end of every step.
pub struct ReadWriteLock {
    active_readers: ExclusionCounter,
    writer_gate: TokenPool,
    reader_admission: TokenPool,
    writer_active: bool,
}

impl ReadWriteLock {
    /// How many readers are active right now.
    pub closed spec fn active_readers(&self) -> u32 {
        self.active_readers.value()
    }

    /// Whether a writer is active right now.
    pub closed spec fn writer_active(&self) -> bool {
        self.writer_active
    }

    /// The writer-exclusion token pool.
    pub closed spec fn writer_gate(&self) -> TokenPool {
        self.writer_gate
    }

    /// The reader-admission token pool.
    pub closed spec fn reader_admission(&self) -> TokenPool {
        self.reader_admission
    }

    /// The lock's invariant. Both pools hold one token; the writer token is
    /// out exactly when a writer is active or any reader is, so a writer and
    /// a reader are never active together; the admission token is back in
    /// the pool between steps.
    pub closed spec fn wf(&self) -> bool {
        &&& self.writer_gate.wf()
        &&& self.writer_gate.capacity() == 1
        &&& self.reader_admission.wf()
        &&& self.reader_admission.capacity() == 1
        &&& self.reader_admission.available() == 1
        &&& self.writer_gate.available()
            == (if self.writer_active || self.active_readers.value() > 0 { 0int } else { 1int })
        &&& !(self.writer_active && self.active_readers.value() > 0)
    }

    /// A read step is enabled: no writer is active. Readers never wait for
    /// one another past the momentary admission step.
    pub open spec fn can_begin_read(&self) -> bool {
        !self.writer_active()
    }

    /// A write step is enabled: the writer token is free, so no writer and
    /// no reader is active.
    pub open spec fn can_begin_write(&self) -> bool {
        !self.writer_active() && self.active_readers() == 0
    }

    /// Creates a gate with no active readers and no active writer.
    pub fn new() -> (gate: ReadWriteLock)
        ensures
            gate.wf(),
            gate.active_readers() == 0,
            !gate.writer_active(),
            gate.writer_gate().capacity() == 1,
            gate.writer_gate().available() == 1,
            gate.writer_gate().acquired() == 0,
            gate.writer_gate().released() == 0,
            gate.reader_admission().capacity() == 1,
            gate.reader_admission().available() == 1,
            gate.reader_admission().acquired() == 0,
            gate.reader_admission().released() == 0,
    {
        ReadWriteLock {
            active_readers: ExclusionCounter::new(0),
            writer_gate: TokenPool::new(1),
            reader_admission: TokenPool::new(1),
            writer_active: false,
        }
    }

    /// A reader enters. Under the admission token the reader count goes up;
    /// the first reader also takes the writer token, shutting writers out
    /// while any reader is active. Returns whether this reader was the
    /// first. A reader arriving while a writer is active blocks on the
    /// writer token, so the step is enabled only once the writer is done.
    pub fn begin_read(&mut self) -> (first_reader: bool)
        requires
            old(self).wf(),
            old(self).can_begin_read(),
            old(self).active_readers() < u32::MAX,
        ensures
            final(self).wf(),
            final(self).active_readers() == old(self).active_readers() + 1,
            first_reader == (old(self).active_readers() == 0),
            !final(self).writer_active(),
            final(self).writer_gate().available() == 0,
            first_reader ==> {
                &&& final(self).writer_gate().acquired() == old(self).writer_gate().acquired() + 1
                &&& final(self).writer_gate().released() == old(self).writer_gate().released()
                &&& final(self).writer_gate().capacity() == old(self).writer_gate().capacity()
            },
            !first_reader ==> final(self).writer_gate() == old(self).writer_gate(),
            final(self).reader_admission().available()
                == old(self).reader_admission().available(),
            final(self).reader_admission().capacity()
                == old(self).reader_admission().capacity(),
            final(self).reader_admission().acquired()
                == old(self).reader_admission().acquired() + 1,
            final(self).reader_admission().released()
                == old(self).reader_admission().released() + 1,
    {
        self.reader_admission.acquire();
        self.active_readers.increment();
        let first_reader = self.active_readers.get() == 1;
        if first_reader {
            self.writer_gate.acquire();
        }
        self.reader_admission.release(1);
        first_reader
    }

    /// A reader leaves. The reader count goes down; the last reader puts the
    /// writer token back, re-admitting writers. Returns whether this reader
    /// was the last.
    pub fn end_read(&mut self) -> (last_reader: bool)
        requires
            old(self).wf(),
            old(self).active_readers() > 0,
        ensures
            final(self).wf(),
            final(self).active_readers() == old(self).active_readers() - 1,
            last_reader == (old(self).active_readers() == 1),
            !final(self).writer_active(),
            last_reader ==> final(self).can_begin_write(),
            last_reader ==> {
                &&& final(self).writer_gate().released() == old(self).writer_gate().released() + 1
                &&& final(self).writer_gate().acquired() == old(self).writer_gate().acquired()
                &&& final(self).writer_gate().capacity() == old(self).writer_gate().capacity()
                &&& final(self).writer_gate().available() == 1
            },
            !last_reader ==> final(self).writer_gate() == old(self).writer_gate(),
            final(self).reader_admission() == old(self).reader_admission(),
    {
        self.active_readers.decrement();
        let last_reader = self.active_readers.get() == 0;
        if last_reader {
            self.writer_gate.release(1);
        }
        last_reader
    }

    /// A writer enters by taking the writer token, which it contends for
    /// with other writers and with the first reader. A writer arriving while
    /// the token is out blocks until it is free, so the step is enabled only
    /// then.
    pub fn begin_write(&mut self)
        requires
            old(self).wf(),
            old(self).can_begin_write(),
        ensures
            final(self).wf(),
            final(self).writer_active(),
            final(self).active_readers() == 0,
            final(self).writer_gate().acquired() == old(self).writer_gate().acquired() + 1,
            final(self).writer_gate().released() == old(self).writer_gate().released(),
            final(self).writer_gate().capacity() == old(self).writer_gate().capacity(),
            final(self).writer_gate().available() == 0,
            final(self).reader_admission() == old(self).reader_admission(),
    {
        self.writer_gate.acquire();
        self.writer_active = true;
    }

    /// The writer leaves, putting the writer token back.
    pub fn end_write(&mut self)
        requires
            old(self).wf(),
            old(self).writer_active(),
        ensures
            final(self).wf(),
            !final(self).writer_active(),
            final(self).active_readers() == 0,
            final(self).can_begin_write(),
            final(self).writer_gate().released() == old(self).writer_gate().released() + 1,
            final(self).writer_gate().acquired() == old(self).writer_gate().acquired(),
            final(self).writer_gate().capacity() == old(self).writer_gate().capacity(),
            final(self).writer_gate().available() == 1,
            final(self).reader_admission() == old(self).reader_admission(),
    {
        self.writer_gate.release(1);
        self.writer_active = false;
    }

    /// Whether a read step may run now; the runtime checks this before
    /// calling `begin_read` and retries once the writer is done.
    pub fn read_enabled(&self) -> (enabled: bool)
        ensures
            enabled == self.can_begin_read(),
    {
        !self.writer_active
    }

    /// Whether a write step may run now; the runtime checks this before
    /// calling `begin_write` and retries once the writer token is free.
    pub fn write_enabled(&self) -> (enabled: bool)
        ensures
            enabled == self.can_begin_write(),
    {
        !self.writer_active && self.active_readers.get() == 0
    }

    /// How many readers are active right now.
    pub fn reader_count(&self) -> (n: u32)
        ensures
            n == self.active_readers(),
    {
        self.active_readers.get()
    }

    /// Whether a writer is active right now.
    pub fn writer_is_active(&self) -> (active: bool)
        ensures
            active == self.writer_active(),
    {
        self.writer_active
    }
}

/// Law: no "writer active" interval overlaps any "reader active" interval —
/// in every reachable state, a writer and a reader are never active at once.
pub proof fn lemma_writer_reader_exclusion(gate: &ReadWriteLock)
    requires
        gate.wf(),
    ensures
        !(gate.writer_active() && gate.active_readers() > 0),
{
}

/// Law: both of the lock's token pools keep their single-token stock — each
/// is a conserving pool of capacity 1 whose free tokens never exceed 1, and
/// the admission token is back in its pool between steps.
pub proof fn lemma_gate_pools_bounded(gate: &ReadWriteLock)
    requires
        gate.wf(),
    ensures
        gate.writer_gate().wf(),
        gate.writer_gate().capacity() == 1,
        gate.writer_gate().available() <= 1,
        gate.reader_admission().wf(),
        gate.reader_admission().capacity() == 1,
        gate.reader_admission().available() == 1,
{
}

/// Law: "reader active" intervals may overlap freely — while any reader is
/// active, a further read step is always enabled.
pub proof fn lemma_readers_share(gate: &ReadWriteLock)
    requires
        gate.wf(),
        gate.active_readers() > 0,
    ensures
        gate.can_begin_read(),
{
}

} // verus!
