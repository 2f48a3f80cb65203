//! Circuit breaker that pauses dependent operations once too many
//! consecutive external failures have been recorded.
use vstd::prelude::*;

use crate::common::Address;

verus! {

/// Number of consecutive failures required to trip the circuit breaker.
pub const CIRCUIT_THRESHOLD: u32 = 3;

/// Why a guardian call is refused (the contract aborts with `message()`).
#[derive(Clone, Copy, Debug, PartialEq, Eq, Structural)]
pub enum GuardianHalt {
    AlreadyInitialized,
    NotInitialized,
}

/// The abort text of each refusal.
pub open spec fn guardian_halt_message(h: GuardianHalt) -> Seq<char> {
    match h {
        GuardianHalt::AlreadyInitialized => "already initialized"@,
        GuardianHalt::NotInitialized => "not initialized"@,
    }
}

impl GuardianHalt {
    pub fn message(&self) -> (r: &'static str)
        ensures
            r@ == guardian_halt_message(*self),
    {
        match self {
            GuardianHalt::AlreadyInitialized => "already initialized",
            GuardianHalt::NotInitialized => "not initialized",
        }
    }
}

/// Instance storage of the pause guardian: `None` is an entry never written.
#[derive(Clone, Copy, Debug)]
pub struct PauseGuardian {
    pub admin: Option<Address>,
    pub paused: Option<bool>,
    pub failures: Option<u32>,
}

impl PauseGuardian {
    /// Paused flag as read by the contract (unset means not paused).
    pub open spec fn paused_flag(&self) -> bool {
        match self.paused {
            Some(p) => p,
            None => false,
        }
    }

    /// Consecutive failure counter as read by the contract (unset means 0).
    pub open spec fn failure_counter(&self) -> u32 {
        match self.failures {
            Some(n) => n,
            None => 0,
        }
    }

    /// The breaker has tripped whenever the counter reached the threshold.
    pub open spec fn breaker_consistent(&self) -> bool {
        self.failure_counter() >= CIRCUIT_THRESHOLD ==> self.paused_flag()
    }

    /// Initialize with an admin address; refused when an admin is stored.
    pub fn initialize(&mut self, admin: Address) -> (r: Result<(), GuardianHalt>)
        ensures
            old(self).admin is Some ==> r == Err::<(), GuardianHalt>(GuardianHalt::AlreadyInitialized)
                && *final(self) == *old(self),
            old(self).admin is None ==> r is Ok && *final(self) == (PauseGuardian {
                admin: Some(admin),
                paused: Some(false),
                failures: Some(0),
            }),
            old(self).breaker_consistent() ==> final(self).breaker_consistent(),
    {
        if self.admin.is_some() {
            return Err(GuardianHalt::AlreadyInitialized);
        }
        *self = PauseGuardian { admin: Some(admin), paused: Some(false), failures: Some(0) };
        Ok(())
    }

    /// Pause or unpause; unpausing also clears the failure counter.
    /// `Ok(a)` names the admin `a` whose authorization the change needs.
    pub fn set_paused(&mut self, value: bool) -> (r: Result<Address, GuardianHalt>)
        ensures
            old(self).admin is None ==> r == Err::<Address, GuardianHalt>(GuardianHalt::NotInitialized)
                && *final(self) == *old(self),
            old(self).admin matches Some(a) ==> r == Ok::<Address, GuardianHalt>(a)
                && final(self).admin == old(self).admin
                && final(self).paused == Some(value)
                && final(self).failures == (if value { old(self).failures } else { Some(0u32) }),
            old(self).breaker_consistent() ==> final(self).breaker_consistent(),
    {
        match self.admin {
            None => Err(GuardianHalt::NotInitialized),
            Some(admin) => {
                self.paused = Some(value);
                if !value {
                    self.failures = Some(0);
                }
                Ok(admin)
            },
        }
    }

    pub fn is_paused(&self) -> (r: bool)
        ensures
            r == self.paused_flag(),
    {
        match self.paused {
            Some(p) => p,
            None => false,
        }
    }

    /// Record an external failure; trips the breaker (pauses) once the
    /// counter reaches `CIRCUIT_THRESHOLD`. The counter saturates.
    pub fn record_failure(&mut self)
        ensures
            final(self).admin == old(self).admin,
            final(self).failure_counter() == (if old(self).failure_counter() == u32::MAX {
                u32::MAX as int
            } else {
                old(self).failure_counter() + 1
            }),
            final(self).failures is Some,
            final(self).paused == (if final(self).failure_counter() >= CIRCUIT_THRESHOLD {
                Some(true)
            } else {
                old(self).paused
            }),
            old(self).breaker_consistent() ==> final(self).breaker_consistent(),
    {
        let count: u32 = self.failure_count();
        let next: u32 = count.saturating_add(1);
        self.failures = Some(next);
        if next >= CIRCUIT_THRESHOLD {
            self.paused = Some(true);
        }
    }

    pub fn failure_count(&self) -> (r: u32)
        ensures
            r == self.failure_counter(),
    {
        match self.failures {
            Some(n) => n,
            None => 0,
        }
    }

    /// Clear the failure counter; `Ok(a)` names the admin who must authorize.
    pub fn reset_failures(&mut self) -> (r: Result<Address, GuardianHalt>)
        ensures
            old(self).admin is None ==> r == Err::<Address, GuardianHalt>(GuardianHalt::NotInitialized)
                && *final(self) == *old(self),
            old(self).admin matches Some(a) ==> r == Ok::<Address, GuardianHalt>(a)
                && final(self).admin == old(self).admin
                && final(self).paused == old(self).paused
                && final(self).failures == Some(0u32),
            old(self).breaker_consistent() ==> final(self).breaker_consistent(),
    {
        match self.admin {
            None => Err(GuardianHalt::NotInitialized),
            Some(admin) => {
                self.failures = Some(0);
                Ok(admin)
            },
        }
    }
}

} // verus!
