//! The one-shot startup guard.
//!
//! The public entry point may be invoked any number of times; the guard
//! ensures the launch sequence runs on the first invocation only. `RunGuard`
//! is the guard's state: unfired at process start, flipped irreversibly by
//! the first firing attempt. The process wraps the attempt in its one-time
//! execution gate, which serialises concurrent callers; the guard's own
//! transition is what makes every call after the first a no-op.

use vstd::prelude::*;

verus! {

/// Process-wide one-shot launch state: false until the first successful
/// invocation of the entry point, true ever after.
pub struct RunGuard {
    fired: bool,
}

impl RunGuard {
    /// Whether the guard has fired.
    pub closed spec fn spec_fired(&self) -> bool {
        self.fired
    }

    /// The guard as it stands at process start: not yet fired.
    pub fn new() -> (g: RunGuard)
        ensures
            !g.spec_fired(),
    {
        RunGuard { fired: false }
    }

    /// Attempt to fire the guard. Returns whether this attempt is the one
    /// that launches: true exactly on the first attempt, and the guard is
    /// fired from then on, irreversibly.
    pub fn try_fire(&mut self) -> (launched: bool)
        ensures
            launched == !old(self).spec_fired(),
            final(self).spec_fired(),
    {
        let launched = !self.fired;
        self.fired = true;
        launched
    }

    /// Whether the guard has fired, observably.
    pub fn has_fired(&self) -> (r: bool)
        ensures
            r == self.spec_fired(),
    {
        self.fired
    }
}

/// How many of `n` successive firing attempts launch, starting from a guard
/// whose fired-state is `fired`: each attempt launches exactly when the guard
/// has not fired yet, and leaves it fired.
pub open spec fn launches(fired: bool, n: nat) -> nat
    decreases n,
{
    if n == 0 {
        0
    } else {
        (if fired {
            0nat
        } else {
            1nat
        }) + launches(true, (n - 1) as nat)
    }
}

/// A guard that has already fired never launches again, however many
/// attempts follow.
pub proof fn lemma_fired_never_launches(n: nat)
    ensures
        launches(true, n) == 0,
    decreases n,
{
    if n > 0 {
        lemma_fired_never_launches((n - 1) as nat);
    }
}

/// Law: invoking the entry point any positive number of times from one
/// process launches the poll loop exactly once — no duplicate daemons, and
/// no immediate fetch beyond the first call's.
pub proof fn lemma_single_launch(n: nat)
    requires
        n >= 1,
    ensures
        launches(false, n) == 1,
{
    lemma_fired_never_launches((n - 1) as nat);
}

} // verus!
