//! The three counters that record every comparison.
//!
//! A counter is a value that its user owns and hands, by exclusive reference,
//! to each comparison: who shares a counter, and how, shows where it is
//! handed over. The view of a counter is the number of comparisons recorded
//! so far.

use vstd::prelude::*;

verus! {

/// What a 64-bit fetch-and-add of one leaves behind: the next count, or zero
/// after the largest one.
pub open spec fn fetch_add_one(count: nat) -> nat {
    if count >= u64::MAX {
        0
    } else {
        count + 1
    }
}

/// A counter without synchronization: a plain integer that counts up and
/// must not run over.
pub struct UnsyncCounter {
    count: u64,
}

impl View for UnsyncCounter {
    type V = nat;

    closed spec fn view(&self) -> nat {
        self.count as nat
    }
}

impl UnsyncCounter {
    /// A counter that has recorded nothing.
    pub fn new() -> (counter: Self)
        ensures
            counter@ == 0,
    {
        UnsyncCounter { count: 0 }
    }

    /// Records one comparison.
    pub fn increment(&mut self)
        requires
            old(self)@ < u64::MAX,
        ensures
            final(self)@ == old(self)@ + 1,
    {
        self.count = self.count + 1;
    }

    /// The number of comparisons recorded so far.
    pub fn read(&self) -> (count: u64)
        ensures
            count == self@,
    {
        self.count
    }
}

/// Reads an unsynchronized counter.
pub fn get_unsafe_counter(counter: &UnsyncCounter) -> (count: u64)
    ensures
        count == counter@,
{
    counter.read()
}

/// A counter that keeps the one total of an atomic fetch-and-add: every
/// increment is a single step on it, one after the other, and the count after
/// the largest is zero.
pub struct AtomicCounter {
    count: u64,
}

impl View for AtomicCounter {
    type V = nat;

    closed spec fn view(&self) -> nat {
        self.count as nat
    }
}

impl AtomicCounter {
    /// A counter that has recorded nothing.
    pub fn new() -> (counter: Self)
        ensures
            counter@ == 0,
    {
        AtomicCounter { count: 0 }
    }

    /// Records one comparison. Never fails: the count wraps.
    pub fn increment(&mut self)
        ensures
            final(self)@ == fetch_add_one(old(self)@),
    {
        self.count = self.count.wrapping_add(1);
    }

    /// The number of comparisons recorded so far.
    pub fn read(&self) -> (count: u64)
        ensures
            count == self@,
    {
        self.count
    }
}

/// Reads an atomic counter.
pub fn get_atomic_counter(counter: &AtomicCounter) -> (count: u64)
    ensures
        count == counter@,
{
    counter.read()
}

/// A counter that belongs to one thread: it can be neither sent to another
/// thread nor shared with one, so its reading reflects the comparisons of its
/// own thread only.
pub struct CellCounter {
    count: u64,
    confined: std::marker::PhantomData<std::rc::Rc<()>>,
}

impl View for CellCounter {
    type V = nat;

    closed spec fn view(&self) -> nat {
        self.count as nat
    }
}

impl CellCounter {
    /// A counter that has recorded nothing.
    pub fn new() -> (counter: Self)
        ensures
            counter@ == 0,
    {
        CellCounter { count: 0, confined: std::marker::PhantomData }
    }

    /// Records one comparison.
    pub fn increment(&mut self)
        requires
            old(self)@ < u64::MAX,
        ensures
            final(self)@ == old(self)@ + 1,
    {
        self.count = self.count + 1;
    }

    /// The number of comparisons recorded so far.
    pub fn read(&self) -> (count: u64)
        ensures
            count == self@,
    {
        self.count
    }
}

/// Reads a thread's own counter.
pub fn get_cell_counter(counter: &CellCounter) -> (count: u64)
    ensures
        count == counter@,
{
    counter.read()
}

} // verus!
