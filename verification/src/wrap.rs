//! The counting values: a 64-bit scalar in a wrapper of its own size, one
//! kind of wrapper for each kind of counter.
//!
//! To compare two values of a kind is to hand over a counter of that kind,
//! by exclusive reference. The comparison has the counter take note, once,
//! and gives the order of the two scalars. Equality is a question to the
//! order, so it costs one comparison like any other.

use crate::counter::{fetch_add_one, AtomicCounter, CellCounter, UnsyncCounter};
use crate::toggle::ToggleableCounter;
use std::cmp::Ordering;
use vstd::prelude::*;
use vstd::std_specs::cmp::OrdSpec;
use vstd::std_specs::convert::FromSpec;

verus! {

/// The order of two scalars.
pub open spec fn natural_order(a: u64, b: u64) -> Ordering {
    if a < b {
        Ordering::Less
    } else if a == b {
        Ordering::Equal
    } else {
        Ordering::Greater
    }
}

/// A scalar whose comparisons are recorded in the counter of the thread that
/// compares.
pub struct WrapCellThreadLocal(u64);

impl View for WrapCellThreadLocal {
    type V = u64;

    closed spec fn view(&self) -> u64 {
        self.0
    }
}

impl From<u64> for WrapCellThreadLocal {
    /// Wraps a scalar. No counter takes note of it.
    fn from(value: u64) -> (wrapped: Self)
        ensures
            wrapped@ == value,
    {
        WrapCellThreadLocal(value)
    }
}

impl vstd::std_specs::convert::FromSpecImpl<u64> for WrapCellThreadLocal {
    open spec fn obeys_from_spec() -> bool {
        true
    }

    closed spec fn from_spec(value: u64) -> Self {
        WrapCellThreadLocal(value)
    }
}

impl WrapCellThreadLocal {
    /// Orders two values by their scalars, and has the counter take note of
    /// the comparison.
    pub fn cmp(&self, other: &Self, counter: &mut CellCounter) -> (order: Ordering)
        requires
            old(counter)@ < u64::MAX,
        ensures
            order == natural_order(self@, other@),
            final(counter)@ == old(counter)@ + 1,
    {
        counter.increment();
        self.0.cmp(&other.0)
    }

    /// The order of two values, which always exists, at the price of one
    /// comparison.
    pub fn partial_cmp(&self, other: &Self, counter: &mut CellCounter) -> (order: Option<
        Ordering,
    >)
        requires
            old(counter)@ < u64::MAX,
        ensures
            order == Some(natural_order(self@, other@)),
            final(counter)@ == old(counter)@ + 1,
    {
        Some(self.cmp(other, counter))
    }

    /// Whether two values order as equal, at the price of one comparison.
    pub fn eq(&self, other: &Self, counter: &mut CellCounter) -> (equal: bool)
        requires
            old(counter)@ < u64::MAX,
        ensures
            equal == (natural_order(self@, other@) == Ordering::Equal),
            equal == (self@ == other@),
            final(counter)@ == old(counter)@ + 1,
    {
        match self.cmp(other, counter) {
            Ordering::Equal => true,
            _ => false,
        }
    }
}

/// A scalar whose comparisons are recorded in an atomic counter.
pub struct WrapAtomic(u64);

impl View for WrapAtomic {
    type V = u64;

    closed spec fn view(&self) -> u64 {
        self.0
    }
}

impl From<u64> for WrapAtomic {
    /// Wraps a scalar. No counter takes note of it.
    fn from(value: u64) -> (wrapped: Self)
        ensures
            wrapped@ == value,
    {
        WrapAtomic(value)
    }
}

impl vstd::std_specs::convert::FromSpecImpl<u64> for WrapAtomic {
    open spec fn obeys_from_spec() -> bool {
        true
    }

    closed spec fn from_spec(value: u64) -> Self {
        WrapAtomic(value)
    }
}

impl WrapAtomic {
    /// Orders two values by their scalars, and has the counter take note of
    /// the comparison.
    pub fn cmp(&self, other: &Self, counter: &mut AtomicCounter) -> (order: Ordering)
        ensures
            order == natural_order(self@, other@),
            final(counter)@ == fetch_add_one(old(counter)@),
    {
        counter.increment();
        self.0.cmp(&other.0)
    }

    /// The order of two values, which always exists, at the price of one
    /// comparison.
    pub fn partial_cmp(&self, other: &Self, counter: &mut AtomicCounter) -> (order: Option<
        Ordering,
    >)
        ensures
            order == Some(natural_order(self@, other@)),
            final(counter)@ == fetch_add_one(old(counter)@),
    {
        Some(self.cmp(other, counter))
    }

    /// Whether two values order as equal, at the price of one comparison.
    pub fn eq(&self, other: &Self, counter: &mut AtomicCounter) -> (equal: bool)
        ensures
            equal == (natural_order(self@, other@) == Ordering::Equal),
            equal == (self@ == other@),
            final(counter)@ == fetch_add_one(old(counter)@),
    {
        match self.cmp(other, counter) {
            Ordering::Equal => true,
            _ => false,
        }
    }
}

/// A scalar whose comparisons are recorded in an unsynchronized counter.
pub struct WrapUnsafeCnt(u64);

impl View for WrapUnsafeCnt {
    type V = u64;

    closed spec fn view(&self) -> u64 {
        self.0
    }
}

impl From<u64> for WrapUnsafeCnt {
    /// Wraps a scalar. No counter takes note of it.
    fn from(value: u64) -> (wrapped: Self)
        ensures
            wrapped@ == value,
    {
        WrapUnsafeCnt(value)
    }
}

impl vstd::std_specs::convert::FromSpecImpl<u64> for WrapUnsafeCnt {
    open spec fn obeys_from_spec() -> bool {
        true
    }

    closed spec fn from_spec(value: u64) -> Self {
        WrapUnsafeCnt(value)
    }
}

impl WrapUnsafeCnt {
    /// Orders two values by their scalars, and has the counter take note of
    /// the comparison.
    pub fn cmp(&self, other: &Self, counter: &mut UnsyncCounter) -> (order: Ordering)
        requires
            old(counter)@ < u64::MAX,
        ensures
            order == natural_order(self@, other@),
            final(counter)@ == old(counter)@ + 1,
    {
        counter.increment();
        self.0.cmp(&other.0)
    }

    /// The order of two values, which always exists, at the price of one
    /// comparison.
    pub fn partial_cmp(&self, other: &Self, counter: &mut UnsyncCounter) -> (order: Option<
        Ordering,
    >)
        requires
            old(counter)@ < u64::MAX,
        ensures
            order == Some(natural_order(self@, other@)),
            final(counter)@ == old(counter)@ + 1,
    {
        Some(self.cmp(other, counter))
    }

    /// Whether two values order as equal, at the price of one comparison.
    pub fn eq(&self, other: &Self, counter: &mut UnsyncCounter) -> (equal: bool)
        requires
            old(counter)@ < u64::MAX,
        ensures
            equal == (natural_order(self@, other@) == Ordering::Equal),
            equal == (self@ == other@),
            final(counter)@ == old(counter)@ + 1,
    {
        match self.cmp(other, counter) {
            Ordering::Equal => true,
            _ => false,
        }
    }
}

/// A scalar whose comparisons are recorded in a toggleable counter, as long
/// as that counter is counting.
pub struct WrapUnsafeToggleableCnt(u64);

impl View for WrapUnsafeToggleableCnt {
    type V = u64;

    closed spec fn view(&self) -> u64 {
        self.0
    }
}

impl From<u64> for WrapUnsafeToggleableCnt {
    /// Wraps a scalar. No counter takes note of it.
    fn from(value: u64) -> (wrapped: Self)
        ensures
            wrapped@ == value,
    {
        WrapUnsafeToggleableCnt(value)
    }
}

impl vstd::std_specs::convert::FromSpecImpl<u64> for WrapUnsafeToggleableCnt {
    open spec fn obeys_from_spec() -> bool {
        true
    }

    closed spec fn from_spec(value: u64) -> Self {
        WrapUnsafeToggleableCnt(value)
    }
}

impl WrapUnsafeToggleableCnt {
    /// Orders two values by their scalars, and has the counter take note of
    /// the comparison.
    pub fn cmp(&self, other: &Self, counter: &mut ToggleableCounter) -> (order: Ordering)
        requires
            old(counter)@.enabled ==> old(counter)@.count < u64::MAX,
        ensures
            order == natural_order(self@, other@),
            final(counter)@ == old(counter)@.after_comparison(),
    {
        counter.increment();
        self.0.cmp(&other.0)
    }

    /// The order of two values, which always exists, at the price of one
    /// comparison.
    pub fn partial_cmp(&self, other: &Self, counter: &mut ToggleableCounter) -> (order: Option<
        Ordering,
    >)
        requires
            old(counter)@.enabled ==> old(counter)@.count < u64::MAX,
        ensures
            order == Some(natural_order(self@, other@)),
            final(counter)@ == old(counter)@.after_comparison(),
    {
        Some(self.cmp(other, counter))
    }

    /// Whether two values order as equal, at the price of one comparison.
    pub fn eq(&self, other: &Self, counter: &mut ToggleableCounter) -> (equal: bool)
        requires
            old(counter)@.enabled ==> old(counter)@.count < u64::MAX,
        ensures
            equal == (natural_order(self@, other@) == Ordering::Equal),
            equal == (self@ == other@),
            final(counter)@ == old(counter)@.after_comparison(),
    {
        match self.cmp(other, counter) {
            Ordering::Equal => true,
            _ => false,
        }
    }
}

/// The order is total. Every scalar equals itself; what is less one way round
/// is greater the other way round; equal scalars order alike against a third;
/// and an order that holds from `a` to `b` and from `b` to `c` holds from `a`
/// to `c`.
pub proof fn order_is_total(a: u64, b: u64, c: u64)
    ensures
        natural_order(a, a) == Ordering::Equal,
        natural_order(a, b) == Ordering::Equal <==> natural_order(b, a) == Ordering::Equal,
        natural_order(a, b) == Ordering::Less <==> natural_order(b, a) == Ordering::Greater,
        natural_order(a, b) == Ordering::Equal ==> natural_order(a, c) == natural_order(b, c),
        natural_order(a, b) == natural_order(b, c) ==> natural_order(a, c) == natural_order(a, b),
{
}

/// A wrapped scalar stands for that scalar and for no other, whatever the
/// kind of wrapper.
pub proof fn wrapping_is_injective(a: u64, b: u64)
    ensures
        WrapCellThreadLocal::from_spec(a)@ == a,
        WrapCellThreadLocal::from_spec(a) == WrapCellThreadLocal::from_spec(b) <==> a == b,
        WrapAtomic::from_spec(a)@ == a,
        WrapAtomic::from_spec(a) == WrapAtomic::from_spec(b) <==> a == b,
        WrapUnsafeCnt::from_spec(a)@ == a,
        WrapUnsafeCnt::from_spec(a) == WrapUnsafeCnt::from_spec(b) <==> a == b,
        WrapUnsafeToggleableCnt::from_spec(a)@ == a,
        WrapUnsafeToggleableCnt::from_spec(a) == WrapUnsafeToggleableCnt::from_spec(b) <==> a == b,
{
}

/// The order that a comparison of two wrapped scalars gives is the order of
/// `u64`, and it is the same for every kind of wrapper.
pub proof fn wrapped_order_is_scalar_order(a: u64, b: u64)
    ensures
        natural_order(a, b) == a.cmp_spec(&b),
        natural_order(a, b) == Ordering::Less <==> a < b,
        natural_order(a, b) == Ordering::Equal <==> a == b,
        natural_order(a, b) == Ordering::Greater <==> a > b,
        natural_order(WrapCellThreadLocal::from_spec(a)@, WrapCellThreadLocal::from_spec(b)@)
            == natural_order(a, b),
        natural_order(WrapAtomic::from_spec(a)@, WrapAtomic::from_spec(b)@)
            == natural_order(a, b),
        natural_order(WrapUnsafeCnt::from_spec(a)@, WrapUnsafeCnt::from_spec(b)@)
            == natural_order(a, b),
        natural_order(
            WrapUnsafeToggleableCnt::from_spec(a)@,
            WrapUnsafeToggleableCnt::from_spec(b)@,
        ) == natural_order(a, b),
{
}

} // verus!
