use comparison_counter::{WrapAtomic, WrapCellThreadLocal, WrapUnsafeCnt, WrapUnsafeToggleableCnt};
use std::mem::size_of;

#[test]
fn check_size() {
    assert_eq!(size_of::<u64>(), size_of::<WrapAtomic>());
    assert_eq!(size_of::<u64>(), size_of::<WrapUnsafeCnt>());
    assert_eq!(size_of::<u64>(), size_of::<WrapCellThreadLocal>());
}

#[test]
fn toggleable_wrapper_has_the_size_of_its_scalar() {
    assert_eq!(size_of::<u64>(), size_of::<WrapUnsafeToggleableCnt>());
    assert_eq!(8, size_of::<WrapUnsafeToggleableCnt>());
}
