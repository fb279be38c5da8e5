use std::sync::atomic::{AtomicBool, Ordering};
use vstd::prelude::*;

verus! {

/// How long a waiting thread stays suspended before it looks at the flag
/// again, in milliseconds, unless the block was made with another bound.
pub const DEFAULT_PARK_TIMEOUT_MS: u64 = 1000;

/// What a waiting thread does after it has looked at the flag.
#[derive(Clone, Copy, Debug, PartialEq, Eq, Structural)]
pub enum WaitStep {
    /// A change has been signalled: stop waiting.
    Return,
    /// Still blocked: suspend for at most this many milliseconds, then look again.
    Park(u64),
}

/// The flag of a control block as a value: `blocked` until some variable that
/// the transaction read has changed.
#[derive(Clone, Copy, Debug, PartialEq, Eq, Structural)]
pub struct BlockState {
    pub blocked: bool,
}

impl BlockState {
    /// The state after one signal of a change, and whether that signal owes
    /// the waiting thread a wake: only the one that clears the flag does.
    pub open spec fn signalled(self) -> (BlockState, bool) {
        (BlockState { blocked: false }, self.blocked)
    }

    /// What a waiting thread does in this state, with the given bound on one
    /// suspension.
    pub open spec fn step(self, park_timeout_ms: u64) -> WaitStep {
        if self.blocked {
            WaitStep::Park(park_timeout_ms)
        } else {
            WaitStep::Return
        }
    }

    /// A fresh block: nothing has changed yet.
    pub fn new() -> (s: BlockState)
        ensures
            s.blocked,
    {
        BlockState { blocked: true }
    }

    /// The flag's value once a change has been signalled, whatever it was before.
    pub fn signalled_flag() -> (b: bool)
        ensures
            forall|s: BlockState| #[trigger] s.signalled().0 == (BlockState { blocked: b }),
    {
        false
    }

    /// Signal a change; returns whether the waiting thread is owed a wake.
    pub fn set_changed(&mut self) -> (wake: bool)
        ensures
            (*final(self), wake) == old(self).signalled(),
    {
        let wake = self.blocked;
        self.blocked = false;
        wake
    }

    /// Decide what a waiting thread does now.
    pub fn wait_step(&self, park_timeout_ms: u64) -> (step: WaitStep)
        ensures
            step == self.step(park_timeout_ms),
    {
        if self.blocked {
            WaitStep::Park(park_timeout_ms)
        } else {
            WaitStep::Return
        }
    }
}

/// The number of wakes that `n` signals in a row owe, starting from `s`.
pub open spec fn wakes_owed(s: BlockState, n: nat) -> nat
    decreases n,
{
    if n == 0 {
        0
    } else {
        let (next, wake) = s.signalled();
        (if wake { 1nat } else { 0nat }) + wakes_owed(next, (n - 1) as nat)
    }
}

/// However many times a change is signalled, at most one wake is owed: one
/// if the block was still blocked and there was at least one signal, else
/// none. After any signal a waiting thread stops waiting.
pub proof fn lemma_at_most_one_wake(s: BlockState, n: nat, park_timeout_ms: u64)
    ensures
        wakes_owed(s, n) == (if s.blocked && n > 0 { 1nat } else { 0nat }),
        wakes_owed(s, n) <= 1,
        s.signalled().0.step(park_timeout_ms) == WaitStep::Return,
    decreases n,
{
    if n > 0 {
        lemma_at_most_one_wake(s.signalled().0, (n - 1) as nat, park_timeout_ms);
    }
}

/// The shared part of a control block: the flag that other threads clear to
/// signal a change, and the bound on one suspension of the waiting thread.
///
/// The flag is an atomic; each atomic step on it is one step of `BlockState`.
/// Binding the block to its waiting thread, suspending and waking that thread
/// is the caller's part.
pub struct ControlBlock {
    blocked: AtomicBool,
    park_timeout_ms: u64,
}

impl ControlBlock {
    /// The bound on one suspension of the waiting thread, in milliseconds.
    pub closed spec fn park_timeout(&self) -> u64 {
        self.park_timeout_ms
    }

    /// The atomic flag, as an opaque value.
    pub closed spec fn flag(&self) -> AtomicBool {
        self.blocked
    }

    /// A block on which nothing has changed yet, with the default bound.
    pub fn new() -> (c: ControlBlock)
        ensures
            c.park_timeout() == DEFAULT_PARK_TIMEOUT_MS,
    {
        ControlBlock {
            blocked: AtomicBool::new(BlockState::new().blocked),
            park_timeout_ms: DEFAULT_PARK_TIMEOUT_MS,
        }
    }

    /// Change the bound on one suspension (short bounds make tests fast).
    pub fn set_park_timeout(&mut self, park_timeout_ms: u64)
        ensures
            final(self).park_timeout() == park_timeout_ms,
            final(self).flag() == old(self).flag(),
    {
        self.park_timeout_ms = park_timeout_ms;
    }

    /// The bound on one suspension, in milliseconds.
    pub fn park_timeout_ms(&self) -> (r: u64)
        ensures
            r == self.park_timeout(),
    {
        self.park_timeout_ms
    }

    /// Inform the block that a variable has changed. May be called from any
    /// thread, any number of times.
    ///
    /// Returns whether the caller must wake the waiting thread: true for the
    /// one call whose atomic swap cleared the flag, false for every other.
    /// Which call that is depends on the other threads, so the result is not
    /// stated here: the swap stores `BlockState::signalled_flag()`, and
    /// `BlockState::set_changed` states the step that it performs on the value
    /// it swapped out.
    pub fn set_changed(&self) -> (wake: bool) {
        let was_blocked = self.blocked.swap(BlockState::signalled_flag(), Ordering::SeqCst);
        let mut state = BlockState { blocked: was_blocked };
        state.set_changed()
    }

    /// Look at the flag once and decide what the waiting thread does: return,
    /// or suspend for at most `park_timeout()` milliseconds and look again.
    /// Which of the two depends on the other threads.
    pub fn wait_step(&self) -> (step: WaitStep)
        ensures
            step == WaitStep::Return || step == WaitStep::Park(self.park_timeout()),
    {
        let state = BlockState { blocked: self.blocked.load(Ordering::SeqCst) };
        state.wait_step(self.park_timeout_ms)
    }
}

} // verus!
