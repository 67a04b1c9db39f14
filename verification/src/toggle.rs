//! The counter that can be told to look away, and the guard that tells it.
//!
//! A toggleable counter records a comparison only while its flag is set. A
//! guard clears the flag when it is made and sets it again when it is
//! released; in between, the counter is reached through the guard alone.
//! Clearing a cleared flag and setting a set one are misuse.

use vstd::prelude::*;

verus! {

/// The two ways of misusing the toggle.
#[derive(Debug, Clone, Copy, PartialEq, Eq, Structural)]
pub enum ToggleError {
    /// Counting was to be suspended while it already was.
    AlreadyOff,
    /// Counting was to be resumed while it was going on.
    AlreadyOn,
}

impl ToggleError {
    /// The text that names the misuse.
    pub open spec fn text(self) -> Seq<char> {
        match self {
            ToggleError::AlreadyOff => "already toggled off"@,
            ToggleError::AlreadyOn => "already toggled on"@,
        }
    }

    /// The text that names the misuse.
    pub fn message(&self) -> (message: &'static str)
        ensures
            message@ == self.text(),
    {
        match self {
            ToggleError::AlreadyOff => "already toggled off",
            ToggleError::AlreadyOn => "already toggled on",
        }
    }
}

/// What a toggleable counter stands for: the comparisons recorded so far, and
/// whether the next one will be recorded.
pub struct ToggleState {
    /// The comparisons recorded so far.
    pub count: nat,
    /// Whether counting is going on.
    pub enabled: bool,
}

impl ToggleState {
    /// The state after one comparison: recorded while counting is enabled,
    /// unnoticed while it is suspended.
    pub open spec fn after_comparison(self) -> ToggleState {
        if self.enabled {
            ToggleState { count: self.count + 1, enabled: true }
        } else {
            self
        }
    }

    /// Suspending: counting stops and the count stays, unless counting was
    /// suspended already.
    pub open spec fn suspend(self) -> Result<ToggleState, ToggleError> {
        if self.enabled {
            Ok(ToggleState { count: self.count, enabled: false })
        } else {
            Err(ToggleError::AlreadyOff)
        }
    }

    /// Resuming: counting goes on from the count that was reached, unless it
    /// was going on already.
    pub open spec fn resume(self) -> Result<ToggleState, ToggleError> {
        if self.enabled {
            Err(ToggleError::AlreadyOn)
        } else {
            Ok(ToggleState { count: self.count, enabled: true })
        }
    }
}

/// An unsynchronized counter with a flag: comparisons are recorded only while
/// the flag is set.
pub struct ToggleableCounter {
    count: u64,
    enabled: bool,
}

impl View for ToggleableCounter {
    type V = ToggleState;

    closed spec fn view(&self) -> ToggleState {
        ToggleState { count: self.count as nat, enabled: self.enabled }
    }
}

impl ToggleableCounter {
    /// A counter that has recorded nothing and is counting.
    pub fn new() -> (counter: Self)
        ensures
            counter@ == (ToggleState { count: 0, enabled: true }),
    {
        ToggleableCounter { count: 0, enabled: true }
    }

    /// Records one comparison if counting is enabled.
    pub fn increment(&mut self)
        requires
            old(self)@.enabled ==> old(self)@.count < u64::MAX,
        ensures
            final(self)@ == old(self)@.after_comparison(),
    {
        if self.enabled {
            self.count = self.count + 1;
        }
    }

    /// The number of comparisons recorded so far.
    pub fn read(&self) -> (count: u64)
        ensures
            count == self@.count,
    {
        self.count
    }

    /// Forgets the comparisons recorded so far. The flag stays as it is.
    pub fn reset(&mut self)
        ensures
            final(self)@ == (ToggleState { count: 0, enabled: old(self)@.enabled }),
    {
        self.count = 0;
    }

    /// Whether the next comparison will be recorded.
    pub fn is_enabled(&self) -> (enabled: bool)
        ensures
            enabled == self@.enabled,
    {
        self.enabled
    }
}

/// Reads a toggleable counter.
pub fn get_unsafe_toggleable_counter(counter: &ToggleableCounter) -> (count: u64)
    ensures
        count == counter@.count,
{
    counter.read()
}

/// Sets a toggleable counter back to zero, whether it is counting or not.
pub fn reset_unsafe_toggleable_counter(counter: &mut ToggleableCounter)
    ensures
        final(counter)@ == (ToggleState { count: 0, enabled: old(counter)@.enabled }),
{
    counter.reset();
}

/// Holds a counter for as long as its counting is suspended. Comparisons reach
/// the counter through the guard and go unrecorded; releasing the guard
/// hands the counter back, counting again. A guard that is dropped without
/// being released leaves the counting suspended: where the release is to
/// follow by itself, see [`ToggleableCounter::suspended`].
pub struct ToggleGuard<'a> {
    /// The counter whose counting is suspended.
    pub counter: &'a mut ToggleableCounter,
}

impl<'a> ToggleGuard<'a> {
    /// Suspends the counting of `counter`, which must be counting.
    pub fn new(counter: &'a mut ToggleableCounter) -> (guard: Self)
        requires
            old(counter)@.enabled,
        ensures
            old(counter)@.suspend() matches Ok(state) && guard.counter@ == state,
            *final(counter) == *final(guard.counter),
    {
        counter.enabled = false;
        ToggleGuard { counter }
    }

    /// Suspends the counting of `counter`, or reports that it was suspended
    /// already and leaves the counter as it was.
    pub fn try_new(counter: &'a mut ToggleableCounter) -> (outcome: Result<Self, ToggleError>)
        ensures
            old(counter)@.suspend() matches Ok(state) ==> (outcome matches Ok(guard)
                && guard.counter@ == state && *final(counter) == *final(guard.counter)),
            old(counter)@.suspend() matches Err(misuse) ==> (outcome matches Err(error)
                && error == misuse && *final(counter) == *old(counter)),
    {
        if counter.enabled {
            Ok(ToggleGuard::new(counter))
        } else {
            Err(ToggleError::AlreadyOff)
        }
    }

    /// Resumes the counting of the guarded counter, which must be suspended.
    pub fn release(self)
        requires
            !old(self.counter)@.enabled,
        ensures
            old(self.counter)@.resume() matches Ok(state) && final(self.counter)@ == state,
    {
        self.counter.enabled = true;
    }

    /// Resumes the counting of the guarded counter, or reports that it was
    /// counting already and leaves the counter as it was.
    pub fn try_release(self) -> (outcome: Result<(), ToggleError>)
        ensures
            old(self.counter)@.resume() matches Ok(state) ==> (outcome is Ok
                && final(self.counter)@ == state),
            old(self.counter)@.resume() matches Err(misuse) ==> (outcome matches Err(error)
                && error == misuse && *final(self.counter) == *old(self.counter)),
    {
        if self.counter.enabled {
            Err(ToggleError::AlreadyOn)
        } else {
            self.release();
            Ok(())
        }
    }
}

impl ToggleableCounter {
    /// Runs `scope` on the counter with its counting suspended, and resumes
    /// the counting when `scope` returns, with no call for it in `scope`. The
    /// counter must be counting, and `scope` must leave it suspended.
    pub fn suspended<R, F: FnOnce(&mut ToggleableCounter) -> R>(&mut self, scope: F) -> (result: R)
        requires
            old(self)@.enabled,
            forall|held: &mut ToggleableCounter|
                (old(self)@.suspend() matches Ok(state) && (*held)@ == state)
                    ==> #[trigger] scope.requires((held,)),
            forall|held: &mut ToggleableCounter, result: R|
                (old(self)@.suspend() matches Ok(state) && (*held)@ == state)
                    && #[trigger] scope.ensures((held,), result) ==> !(*final(held))@.enabled,
        ensures
            exists|held: &mut ToggleableCounter|
                (old(self)@.suspend() matches Ok(state) && (*held)@ == state)
                    && #[trigger] scope.ensures((held,), result)
                    && ((*final(held))@.resume() matches Ok(resumed) && final(self)@ == resumed),
    {
        let guard = ToggleGuard::new(self);
        let result = scope(guard.counter);
        guard.release();
        result
    }
}

} // verus!
