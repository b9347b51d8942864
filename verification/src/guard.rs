//! The mount gate and the one-time initialization guard.
//!
//! The host's UI layer may deliver the "canvas mounted" signal more than
//! once for the same logical mount. The guard deduplicates: however many
//! times it is asked, it grants permission to run setup exactly once.

use vstd::prelude::*;

verus! {

/// Level-triggered mount signal: false until the canvas element is
/// attached to the document, true from then on. Repeated mount signals
/// leave it true.
pub struct MountGate {
    mounted: bool,
}

impl MountGate {
    pub closed spec fn is_mounted(&self) -> bool {
        self.mounted
    }

    pub fn new() -> (g: MountGate)
        ensures
            !g.is_mounted(),
    {
        MountGate { mounted: false }
    }

    /// Record one mount signal; further signals are no-ops.
    pub fn record_mount(&mut self)
        ensures
            final(self).is_mounted(),
    {
        self.mounted = true;
    }

    pub fn mounted(&self) -> (m: bool)
        ensures
            m == self.is_mounted(),
    {
        self.mounted
    }
}

/// Check-and-set guard around the one-time setup work. `try_acquire`
/// answers true exactly when setup may run, and it answers true at most
/// once over the guard's lifetime.
pub struct InitGuard {
    initialized: bool,
}

/// Number of grants handed out by `n` successive `try_acquire` calls on a
/// guard whose flag starts at `flag`.
pub open spec fn grants(flag: bool, n: nat) -> nat
    decreases n,
{
    if n == 0 {
        0
    } else {
        (if flag { 0nat } else { 1nat }) + grants(true, (n - 1) as nat)
    }
}

impl InitGuard {
    pub closed spec fn is_initialized(&self) -> bool {
        self.initialized
    }

    pub fn new() -> (g: InitGuard)
        ensures
            !g.is_initialized(),
    {
        InitGuard { initialized: false }
    }

    /// Check-and-set: grants exactly when the guard was still fresh, and
    /// leaves it marked so that no later call is granted.
    pub fn try_acquire(&mut self) -> (granted: bool)
        ensures
            granted == !old(self).is_initialized(),
            final(self).is_initialized(),
    {
        let granted = !self.initialized;
        self.initialized = true;
        granted
    }

    pub fn initialized(&self) -> (b: bool)
        ensures
            b == self.is_initialized(),
    {
        self.initialized
    }
}

/// An already-marked guard never grants again, however many times it is
/// asked.
pub proof fn lemma_marked_guard_never_grants(n: nat)
    ensures
        grants(true, n) == 0,
    decreases n,
{
    if n > 0 {
        lemma_marked_guard_never_grants((n - 1) as nat);
    }
}

/// Idempotence of the initialization guard: in any sequence of acquire
/// attempts on a fresh guard, exactly one is granted — so the setup side
/// effects it gates happen exactly once, no matter how often the mount
/// signal fires.
pub proof fn lemma_fresh_guard_grants_once(n: nat)
    requires
        n >= 1,
    ensures
        grants(false, n) == 1,
{
    lemma_marked_guard_never_grants((n - 1) as nat);
}

} // verus!
