//! Counting comparisons: values whose every ordering comparison is recorded in
//! a counter, with four kinds of counter to choose from.

pub mod counter;
pub mod laws;
pub mod toggle;
pub mod wrap;

pub use counter::{
    get_atomic_counter, get_cell_counter, get_unsafe_counter, AtomicCounter, CellCounter,
    UnsyncCounter,
};
pub use toggle::{
    get_unsafe_toggleable_counter, reset_unsafe_toggleable_counter, ToggleError, ToggleGuard,
    ToggleState, ToggleableCounter,
};
pub use wrap::{
    natural_order, WrapAtomic, WrapCellThreadLocal, WrapUnsafeCnt, WrapUnsafeToggleableCnt,
};
