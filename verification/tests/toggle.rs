use comparison_counter::{
    get_unsafe_toggleable_counter, reset_unsafe_toggleable_counter, ToggleError, ToggleGuard,
    ToggleableCounter, WrapUnsafeToggleableCnt,
};
use rand::distributions::Standard;
use rand::Rng;

fn wrap_all(orig: &[u64]) -> Vec<WrapUnsafeToggleableCnt> {
    orig.iter().map(|x| WrapUnsafeToggleableCnt::from(*x)).collect()
}

#[test]
fn guarded_sort_is_not_counted_and_the_next_one_is() {
    let vals: Vec<u64> = rand::thread_rng().sample_iter(Standard).take(10000).collect();
    let mut v = wrap_all(&vals);
    let mut counter = ToggleableCounter::new();
    v.sort_unstable_by(|a, b| a.cmp(b, &mut counter));

    let before = get_unsafe_toggleable_counter(&counter);
    assert!(before >= 9999);

    let guard = ToggleGuard::new(&mut counter);
    v.sort_unstable_by(|a, b| a.cmp(b, guard.counter));
    assert_eq!(get_unsafe_toggleable_counter(guard.counter), before);
    guard.release();
    assert_eq!(get_unsafe_toggleable_counter(&counter), before);
    assert!(counter.is_enabled());

    v.sort_unstable_by(|a, b| a.cmp(b, &mut counter));
    assert_ne!(get_unsafe_toggleable_counter(&counter), before);
    assert!(get_unsafe_toggleable_counter(&counter) >= before + 9999);
}

#[test]
fn a_second_guard_is_refused_while_the_first_is_open() {
    let mut counter = ToggleableCounter::new();
    let first = ToggleGuard::try_new(&mut counter);
    assert!(first.is_ok());
    let first = first.unwrap();
    let second = ToggleGuard::try_new(first.counter);
    assert!(matches!(second, Err(ToggleError::AlreadyOff)));
    assert!(!first.counter.is_enabled());
    assert_eq!(first.try_release(), Ok(()));
    assert!(counter.is_enabled());
}

#[test]
fn a_guard_can_be_opened_again_after_its_release() {
    let mut counter = ToggleableCounter::new();
    let guard = ToggleGuard::try_new(&mut counter).unwrap();
    guard.release();
    let again = ToggleGuard::try_new(&mut counter);
    assert!(again.is_ok());
    assert_eq!(again.unwrap().try_release(), Ok(()));
    assert!(counter.is_enabled());
}

#[test]
fn releasing_what_is_counting_is_refused() {
    let mut counter = ToggleableCounter::new();
    counter.increment();
    let guard = ToggleGuard { counter: &mut counter };
    assert_eq!(guard.try_release(), Err(ToggleError::AlreadyOn));
    assert!(counter.is_enabled());
    assert_eq!(counter.read(), 1);
}

#[test]
fn the_two_misuses_have_their_texts() {
    assert_eq!(ToggleError::AlreadyOff.message(), "already toggled off");
    assert_eq!(ToggleError::AlreadyOn.message(), "already toggled on");
}

#[test]
fn comparisons_under_a_guard_leave_the_count() {
    let mut counter = ToggleableCounter::new();
    let a = WrapUnsafeToggleableCnt::from(1);
    let b = WrapUnsafeToggleableCnt::from(2);
    a.cmp(&b, &mut counter);
    a.eq(&b, &mut counter);
    assert_eq!(counter.read(), 2);

    let guard = ToggleGuard::new(&mut counter);
    for _ in 0..5 {
        a.cmp(&b, guard.counter);
        a.partial_cmp(&b, guard.counter);
        a.eq(&b, guard.counter);
        guard.counter.increment();
    }
    assert_eq!(guard.counter.read(), 2);
    assert!(!guard.counter.is_enabled());
    guard.release();
    assert_eq!(counter.read(), 2);
}

#[test]
fn counting_goes_on_from_the_old_count_after_release() {
    let mut counter = ToggleableCounter::new();
    let a = WrapUnsafeToggleableCnt::from(10);
    let b = WrapUnsafeToggleableCnt::from(20);
    for _ in 0..3 {
        a.cmp(&b, &mut counter);
    }
    let guard = ToggleGuard::new(&mut counter);
    for _ in 0..4 {
        a.cmp(&b, guard.counter);
    }
    guard.release();
    a.cmp(&b, &mut counter);
    assert_eq!(counter.read(), 4);
    a.cmp(&b, &mut counter);
    assert_eq!(counter.read(), 5);
}

#[test]
fn reset_forgets_the_count_and_keeps_the_flag() {
    let mut counter = ToggleableCounter::new();
    counter.increment();
    counter.increment();
    assert_eq!(get_unsafe_toggleable_counter(&counter), 2);
    reset_unsafe_toggleable_counter(&mut counter);
    assert_eq!(get_unsafe_toggleable_counter(&counter), 0);
    assert!(counter.is_enabled());
    counter.increment();
    assert_eq!(counter.read(), 1);

    let guard = ToggleGuard::new(&mut counter);
    guard.counter.reset();
    assert_eq!(guard.counter.read(), 0);
    assert!(!guard.counter.is_enabled());
    guard.counter.increment();
    assert_eq!(guard.counter.read(), 0);
    guard.release();
    assert!(counter.is_enabled());
    assert_eq!(counter.read(), 0);
}

#[test]
fn a_suspended_scope_is_not_counted_and_is_followed_by_counting() {
    let mut v = wrap_all(&[5, 3, 8, 1, 9, 2, 7]);
    let mut counter = ToggleableCounter::new();
    let a = WrapUnsafeToggleableCnt::from(1);
    let b = WrapUnsafeToggleableCnt::from(2);
    a.cmp(&b, &mut counter);
    assert_eq!(counter.read(), 1);

    let sorted = counter.suspended(|held| {
        v.sort_unstable_by(|a, b| a.cmp(b, held));
        assert!(!held.is_enabled());
        v.len()
    });
    assert_eq!(sorted, 7);
    assert_eq!(counter.read(), 1);
    assert!(counter.is_enabled());

    a.cmp(&b, &mut counter);
    assert_eq!(counter.read(), 2);
}

#[test]
fn a_suspended_scope_hands_on_what_its_closure_returns() {
    let mut counter = ToggleableCounter::new();
    let a = WrapUnsafeToggleableCnt::from(4);
    let b = WrapUnsafeToggleableCnt::from(4);
    let equal = counter.suspended(|held| a.eq(&b, held));
    assert!(equal);
    assert_eq!(counter.read(), 0);
    assert!(a.eq(&b, &mut counter));
    assert_eq!(counter.read(), 1);
}
