//! Upgrade registry: per-contract version history, a single time-locked
//! pending upgrade with strictly increasing versions, and subscriber lists
//! for upgrade notifications.
use vstd::prelude::*;

use crate::common::{saturating_sum, Address, Guarded};

verus! {

/// Default upgrade timelock: 48 hours.
pub const DEFAULT_UPGRADE_DELAY: u64 = 172800;
/// Shortest configurable upgrade delay: 1 hour.
pub const MIN_UPGRADE_DELAY: u64 = 3600;
/// Longest configurable upgrade delay: 30 days.
pub const MAX_UPGRADE_DELAY: u64 = 2592000;
/// The registry's own version.
pub const REGISTRY_VERSION: u32 = 1;

/// Errors the registry returns to its caller.
#[derive(Clone, Copy, Debug, PartialEq, Eq, Structural)]
pub enum Error {
    AlreadyInitialized,
    NotInitialized,
    NotAdmin,
    ContractNotFound,
    AlreadySubscribed,
    NotSubscribed,
    /// New version must be strictly greater than the current version.
    VersionNotMonotonic,
    /// A timelock delay must elapse before the upgrade executes.
    TimelockNotElapsed,
    /// An upgrade is already pending; cancel it first.
    UpgradePending,
    /// No pending upgrade to execute or cancel.
    NoPendingUpgrade,
}

pub open spec fn error_code(e: Error) -> u32 {
    match e {
        Error::AlreadyInitialized => 1,
        Error::NotInitialized => 2,
        Error::NotAdmin => 3,
        Error::ContractNotFound => 4,
        Error::AlreadySubscribed => 5,
        Error::NotSubscribed => 6,
        Error::VersionNotMonotonic => 7,
        Error::TimelockNotElapsed => 8,
        Error::UpgradePending => 9,
        Error::NoPendingUpgrade => 10,
    }
}

impl Error {
    /// The contract error code.
    pub fn code(&self) -> (r: u32)
        ensures
            1 <= r <= 10,
            r == error_code(*self),
    {
        match self {
            Error::AlreadyInitialized => 1,
            Error::NotInitialized => 2,
            Error::NotAdmin => 3,
            Error::ContractNotFound => 4,
            Error::AlreadySubscribed => 5,
            Error::NotSubscribed => 6,
            Error::VersionNotMonotonic => 7,
            Error::TimelockNotElapsed => 8,
            Error::UpgradePending => 9,
            Error::NoPendingUpgrade => 10,
        }
    }
}

/// A failed delay update: a returned error, or the range abort.
#[derive(Clone, Copy, Debug, PartialEq, Eq, Structural)]
pub enum Failure {
    Error(Error),
    DelayOutOfRange,
}

/// One recorded upgrade of a contract.
#[derive(Clone, Copy, Debug, PartialEq, Eq)]
pub struct UpgradeRecord {
    pub old_version: u32,
    pub new_version: u32,
    pub changelog_hash: [u8; 32],
    pub timestamp: u64,
    pub admin: Address,
}

/// A pending (time-locked) upgrade waiting for the delay to elapse.
#[derive(Debug, PartialEq, Eq)]
pub struct PendingUpgrade {
    /// WASM hash to apply when the timelock expires.
    pub new_wasm_hash: [u8; 32],
    /// Name of the contract whose version log the upgrade extends.
    pub contract_name: String,
    /// New version number (greater than the version current when scheduled).
    pub new_version: u32,
    pub changelog_hash: [u8; 32],
    /// Ledger timestamp at which this upgrade was scheduled.
    pub scheduled_at: u64,
    /// Earliest timestamp at which the upgrade may be executed.
    pub executable_after: u64,
    /// Admin that initiated the upgrade.
    pub admin: Address,
}

impl Clone for PendingUpgrade {
    fn clone(&self) -> (r: PendingUpgrade)
        ensures
            r == *self,
    {
        PendingUpgrade {
            new_wasm_hash: self.new_wasm_hash,
            contract_name: self.contract_name.clone(),
            new_version: self.new_version,
            changelog_hash: self.changelog_hash,
            scheduled_at: self.scheduled_at,
            executable_after: self.executable_after,
            admin: self.admin,
        }
    }
}

/// The version log of one contract name: its upgrade history and latest
/// version (both read as empty / 0 when never written).
pub struct VersionLog {
    pub history: Vec<UpgradeRecord>,
    pub latest_version: u32,
}

/// Abstract view of a version log.
pub struct LogView {
    pub history: Seq<UpgradeRecord>,
    pub latest_version: u32,
}

impl View for VersionLog {
    type V = LogView;

    open spec fn view(&self) -> LogView {
        LogView { history: self.history@, latest_version: self.latest_version }
    }
}

/// Instance storage of the registry: `None` is an entry never written.
pub struct UpgradeRegistryContract {
    pub admin: Option<Address>,
    pub pending: Option<PendingUpgrade>,
    pub upgrade_delay: Option<u64>,
}

/// Whether `subscribers` holds an address with the key of `a`.
pub open spec fn lists(subscribers: Seq<Address>, a: Address) -> bool {
    exists|j: int| 0 <= j < subscribers.len() && #[trigger] subscribers[j].key() == a.key()
}

/// `subscribers` without the entries of `a`, order kept.
pub open spec fn without(subscribers: Seq<Address>, a: Address) -> Seq<Address> {
    subscribers.filter(|x: Address| x.key() != a.key())
}

/// No address occurs twice in the list.
pub open spec fn distinct(subscribers: Seq<Address>) -> bool {
    forall|i: int, j: int|
        0 <= i < subscribers.len() && 0 <= j < subscribers.len() && i != j ==> #[trigger] subscribers[i].key()
            != #[trigger] subscribers[j].key()
}

impl VersionLog {
    /// The log as read from storage; absent entries read as empty / 0.
    pub fn load(history: Option<Vec<UpgradeRecord>>, latest_version: Option<u32>) -> (r: VersionLog)
        ensures
            r.history@ == (match history {
                Some(h) => h@,
                None => Seq::<UpgradeRecord>::empty(),
            }),
            r.latest_version == (match latest_version {
                Some(v) => v,
                None => 0u32,
            }),
    {
        VersionLog {
            history: match history {
                Some(h) => h,
                None => Vec::new(),
            },
            latest_version: match latest_version {
                Some(v) => v,
                None => 0,
            },
        }
    }

    /// Append `record` and make its new version the latest one.
    fn record(&mut self, record: UpgradeRecord)
        ensures
            final(self).history@ == old(self).history@.push(record),
            final(self).latest_version == record.new_version,
    {
        self.history.push(record);
        self.latest_version = record.new_version;
    }
}

impl UpgradeRegistryContract {
    /// Upgrade delay in force (unset reads as the 48-hour default).
    pub open spec fn delay_in_force(&self) -> u64 {
        match self.upgrade_delay {
            Some(d) => d,
            None => DEFAULT_UPGRADE_DELAY,
        }
    }

    /// State and answer of `schedule_upgrade` when the scheduled contract's
    /// latest version is `latest_version` and the ledger time is `now`.
    pub open spec fn scheduling(
        self,
        new_wasm_hash: [u8; 32],
        contract_name: String,
        new_version: u32,
        changelog_hash: [u8; 32],
        latest_version: u32,
        now: u64,
    ) -> (UpgradeRegistryContract, Guarded<Result<(), Error>>) {
        match self.admin {
            None => (self, Guarded { signer: None, outcome: Err(Error::NotInitialized) }),
            Some(admin) => if self.pending is Some {
                (self, Guarded { signer: Some(admin), outcome: Err(Error::UpgradePending) })
            } else if new_version <= latest_version {
                (self, Guarded { signer: Some(admin), outcome: Err(Error::VersionNotMonotonic) })
            } else {
                (
                    UpgradeRegistryContract {
                        pending: Some(
                            PendingUpgrade {
                                new_wasm_hash,
                                contract_name,
                                new_version,
                                changelog_hash,
                                scheduled_at: now,
                                executable_after: saturating_sum(now, self.delay_in_force()),
                                admin,
                            },
                        ),
                        ..self
                    },
                    Guarded { signer: Some(admin), outcome: Ok(()) },
                )
            },
        }
    }

    /// State, version log and answer of `execute_pending_upgrade` on the log
    /// `log` of the pending contract at ledger time `now`.
    pub open spec fn execution(self, log: LogView, now: u64) -> (
        UpgradeRegistryContract,
        LogView,
        Guarded<Result<PendingUpgrade, Error>>,
    ) {
        match self.admin {
            None => (self, log, Guarded { signer: None, outcome: Err(Error::NotInitialized) }),
            Some(admin) => match self.pending {
                None => (
                    self,
                    log,
                    Guarded { signer: Some(admin), outcome: Err(Error::NoPendingUpgrade) },
                ),
                Some(p) => if now < p.executable_after {
                    (
                        self,
                        log,
                        Guarded { signer: Some(admin), outcome: Err(Error::TimelockNotElapsed) },
                    )
                } else {
                    (
                        UpgradeRegistryContract { pending: None, ..self },
                        LogView {
                            history: log.history.push(
                                UpgradeRecord {
                                    old_version: log.latest_version,
                                    new_version: p.new_version,
                                    changelog_hash: p.changelog_hash,
                                    timestamp: now,
                                    admin,
                                },
                            ),
                            latest_version: p.new_version,
                        },
                        Guarded { signer: Some(admin), outcome: Ok(p) },
                    )
                },
            },
        }
    }

    /// Initialize with an admin; refused when an admin is stored.
    pub fn initialize(&mut self, admin: Address) -> (r: Result<(), Error>)
        ensures
            old(self).admin is Some ==> r == Err::<(), Error>(Error::AlreadyInitialized)
                && *final(self) == *old(self),
            old(self).admin is None ==> r is Ok && final(self).admin == Some(admin)
                && final(self).pending == old(self).pending
                && final(self).upgrade_delay == old(self).upgrade_delay,
    {
        if self.admin.is_some() {
            return Err(Error::AlreadyInitialized);
        }
        self.admin = Some(admin);
        Ok(())
    }

    /// Set the timelock delay of future upgrades; it must lie in
    /// [`MIN_UPGRADE_DELAY`, `MAX_UPGRADE_DELAY`]. The admin authorizes.
    pub fn set_upgrade_delay(&mut self, delay_secs: u64) -> (r: Guarded<Result<(), Failure>>)
        ensures
            old(self).admin is None ==> r.signer is None && r.outcome == Err::<(), Failure>(
                Failure::Error(Error::NotInitialized),
            ) && *final(self) == *old(self),
            old(self).admin is Some ==> r.signer == old(self).admin,
            old(self).admin is Some && (delay_secs < MIN_UPGRADE_DELAY || delay_secs
                > MAX_UPGRADE_DELAY) ==> r.outcome == Err::<(), Failure>(Failure::DelayOutOfRange)
                && *final(self) == *old(self),
            old(self).admin is Some && MIN_UPGRADE_DELAY <= delay_secs <= MAX_UPGRADE_DELAY ==> r.outcome
                is Ok && final(self).upgrade_delay == Some(delay_secs) && final(self).admin == old(self).admin && final(self).pending == old(self).pending,
    {
        match self.admin {
            None => Guarded { signer: None, outcome: Err(Failure::Error(Error::NotInitialized)) },
            Some(admin) => {
                if delay_secs < MIN_UPGRADE_DELAY || delay_secs > MAX_UPGRADE_DELAY {
                    return Guarded { signer: Some(admin), outcome: Err(Failure::DelayOutOfRange) };
                }
                self.upgrade_delay = Some(delay_secs);
                Guarded { signer: Some(admin), outcome: Ok(()) }
            },
        }
    }

    pub fn get_upgrade_delay(&self) -> (r: u64)
        ensures
            r == self.delay_in_force(),
    {
        match self.upgrade_delay {
            Some(d) => d,
            None => DEFAULT_UPGRADE_DELAY,
        }
    }

    /// Schedule an upgrade of `contract_name` to `new_version`, whose latest
    /// version is `latest_version`. Only one upgrade may be pending, the
    /// version must increase, and the upgrade becomes executable once the
    /// delay in force has elapsed. The admin authorizes.
    pub fn schedule_upgrade(
        &mut self,
        new_wasm_hash: [u8; 32],
        contract_name: String,
        new_version: u32,
        changelog_hash: [u8; 32],
        latest_version: u32,
        now: u64,
    ) -> (r: Guarded<Result<(), Error>>)
        ensures
            (*final(self), r) == old(self).scheduling(
                new_wasm_hash,
                contract_name,
                new_version,
                changelog_hash,
                latest_version,
                now,
            ),
            r.outcome is Ok ==> old(self).pending is None && new_version > latest_version,
            r.outcome is Ok ==> old(self).admin is Some && final(self).pending == Some(
                PendingUpgrade {
                    new_wasm_hash,
                    contract_name,
                    new_version,
                    changelog_hash,
                    scheduled_at: now,
                    executable_after: saturating_sum(now, old(self).delay_in_force()),
                    admin: old(self).admin->0,
                },
            ),
            r.outcome is Ok ==> final(self).admin == old(self).admin && final(self).upgrade_delay
                == old(self).upgrade_delay,
            r.outcome is Err ==> *final(self) == *old(self),
    {
        let admin = match self.admin {
            None => {
                return Guarded { signer: None, outcome: Err(Error::NotInitialized) };
            },
            Some(a) => a,
        };
        if self.pending.is_some() {
            return Guarded { signer: Some(admin), outcome: Err(Error::UpgradePending) };
        }
        if new_version <= latest_version {
            return Guarded { signer: Some(admin), outcome: Err(Error::VersionNotMonotonic) };
        }
        let delay: u64 = self.get_upgrade_delay();
        self.pending = Some(
            PendingUpgrade {
                new_wasm_hash,
                contract_name,
                new_version,
                changelog_hash,
                scheduled_at: now,
                executable_after: now.saturating_add(delay),
                admin,
            },
        );
        Guarded { signer: Some(admin), outcome: Ok(()) }
    }

    /// Execute the pending upgrade once its timelock has elapsed, recording
    /// it in `log`, the version log of the pending contract; the pending
    /// slot is cleared and the executed upgrade returned so that the host
    /// can swap the code. The admin authorizes.
    pub fn execute_pending_upgrade(&mut self, log: &mut VersionLog, now: u64) -> (r: Guarded<
        Result<PendingUpgrade, Error>,
    >)
        ensures
            (*final(self), final(log)@, r) == old(self).execution(old(log)@, now),
            r.outcome is Ok ==> old(self).admin is Some && old(self).pending is Some && r.outcome->Ok_0
                == old(self).pending->0 && now >= old(self).pending->0.executable_after,
            r.outcome is Ok ==> final(log).latest_version == old(self).pending->0.new_version
                && final(log).history@ == old(log).history@.push(
                UpgradeRecord {
                    old_version: old(log).latest_version,
                    new_version: old(self).pending->0.new_version,
                    changelog_hash: old(self).pending->0.changelog_hash,
                    timestamp: now,
                    admin: old(self).admin->0,
                },
            ),
            r.outcome is Ok ==> final(self).pending is None && final(self).admin == old(self).admin
                && final(self).upgrade_delay == old(self).upgrade_delay,
            r.outcome is Err ==> *final(self) == *old(self) && final(log)@ == old(log)@,
    {
        let admin = match self.admin {
            None => {
                return Guarded { signer: None, outcome: Err(Error::NotInitialized) };
            },
            Some(a) => a,
        };
        match self.pending.take() {
            None => Guarded { signer: Some(admin), outcome: Err(Error::NoPendingUpgrade) },
            Some(p) => {
                if now < p.executable_after {
                    self.pending = Some(p);
                    return Guarded { signer: Some(admin), outcome: Err(Error::TimelockNotElapsed) };
                }
                let record = UpgradeRecord {
                    old_version: log.latest_version,
                    new_version: p.new_version,
                    changelog_hash: p.changelog_hash,
                    timestamp: now,
                    admin,
                };
                log.record(record);
                Guarded { signer: Some(admin), outcome: Ok(p) }
            },
        }
    }

    /// Drop the pending upgrade. The admin authorizes.
    pub fn cancel_pending_upgrade(&mut self) -> (r: Guarded<Result<(), Error>>)
        ensures
            old(self).admin is None ==> r.signer is None && r.outcome == Err::<(), Error>(
                Error::NotInitialized,
            ) && *final(self) == *old(self),
            old(self).admin is Some ==> r.signer == old(self).admin,
            old(self).admin is Some && old(self).pending is None ==> r.outcome == Err::<(), Error>(
                Error::NoPendingUpgrade,
            ) && *final(self) == *old(self),
            old(self).admin is Some && old(self).pending is Some ==> r.outcome is Ok && final(self).pending is None && final(self).admin == old(self).admin && final(self).upgrade_delay
                == old(self).upgrade_delay,
    {
        match self.admin {
            None => Guarded { signer: None, outcome: Err(Error::NotInitialized) },
            Some(admin) => {
                if self.pending.is_none() {
                    return Guarded { signer: Some(admin), outcome: Err(Error::NoPendingUpgrade) };
                }
                self.pending = None;
                Guarded { signer: Some(admin), outcome: Ok(()) }
            },
        }
    }

    pub fn get_pending_upgrade(&self) -> (r: Option<PendingUpgrade>)
        ensures
            r == self.pending,
    {
        match &self.pending {
            None => None,
            Some(p) => Some(p.clone()),
        }
    }

    /// Record an immediate upgrade of the contract whose version log is
    /// `log` to `new_version` (no version check, no timelock); the host then
    /// swaps the code. The admin authorizes.
    pub fn upgrade_contract(
        &self,
        log: &mut VersionLog,
        new_version: u32,
        changelog_hash: [u8; 32],
        now: u64,
    ) -> (r: Guarded<Result<(), Error>>)
        ensures
            self.admin is None ==> r.signer is None && r.outcome == Err::<(), Error>(
                Error::NotInitialized,
            ) && final(log)@ == old(log)@,
            self.admin is Some ==> r.signer == self.admin && r.outcome is Ok
                && final(log).latest_version == new_version && final(log).history@ == old(log).history@.push(
                UpgradeRecord {
                    old_version: old(log).latest_version,
                    new_version,
                    changelog_hash,
                    timestamp: now,
                    admin: self.admin->0,
                },
            ),
    {
        match self.admin {
            None => Guarded { signer: None, outcome: Err(Error::NotInitialized) },
            Some(admin) => {
                let record = UpgradeRecord {
                    old_version: log.latest_version,
                    new_version,
                    changelog_hash,
                    timestamp: now,
                    admin,
                };
                log.record(record);
                Guarded { signer: Some(admin), outcome: Ok(()) }
            },
        }
    }

    /// Record an upgrade of an outside contract, as reported by the admin.
    pub fn register_upgrade(
        &self,
        log: &mut VersionLog,
        old_version: u32,
        new_version: u32,
        changelog_hash: [u8; 32],
        now: u64,
    ) -> (r: Guarded<Result<(), Error>>)
        ensures
            self.admin is None ==> r.signer is None && r.outcome == Err::<(), Error>(
                Error::NotInitialized,
            ) && final(log)@ == old(log)@,
            self.admin is Some ==> r.signer == self.admin && r.outcome is Ok
                && final(log).latest_version == new_version && final(log).history@ == old(log).history@.push(
                UpgradeRecord {
                    old_version,
                    new_version,
                    changelog_hash,
                    timestamp: now,
                    admin: self.admin->0,
                },
            ),
    {
        match self.admin {
            None => Guarded { signer: None, outcome: Err(Error::NotInitialized) },
            Some(admin) => {
                let record = UpgradeRecord {
                    old_version,
                    new_version,
                    changelog_hash,
                    timestamp: now,
                    admin,
                };
                log.record(record);
                Guarded { signer: Some(admin), outcome: Ok(()) }
            },
        }
    }

    /// Add `subscriber` to a contract's notification list; an address is
    /// listed at most once. The subscriber authorizes.
    pub fn subscribe(subscribers: &mut Vec<Address>, subscriber: Address) -> (r: Guarded<
        Result<(), Error>,
    >)
        ensures
            r.signer == Some(subscriber),
            lists(old(subscribers)@, subscriber) ==> r.outcome == Err::<(), Error>(
                Error::AlreadySubscribed,
            ) && final(subscribers)@ == old(subscribers)@,
            !lists(old(subscribers)@, subscriber) ==> r.outcome is Ok && final(subscribers)@ == old(subscribers)@.push(subscriber),
    {
        let mut i: usize = 0;
        while i < subscribers.len()
            invariant
                i <= subscribers@.len(),
                forall|j: int| 0 <= j < i ==> subscribers@[j].key() != subscriber.key(),
            decreases subscribers@.len() - i,
        {
            if subscribers[i] == subscriber {
                return Guarded { signer: Some(subscriber), outcome: Err(Error::AlreadySubscribed) };
            }
            i = i + 1;
        }
        subscribers.push(subscriber);
        Guarded { signer: Some(subscriber), outcome: Ok(()) }
    }

    /// Remove `subscriber` from a contract's notification list, keeping the
    /// order of the others. The subscriber authorizes.
    pub fn unsubscribe(subscribers: &mut Vec<Address>, subscriber: Address) -> (r: Guarded<
        Result<(), Error>,
    >)
        ensures
            r.signer == Some(subscriber),
            !lists(old(subscribers)@, subscriber) ==> r.outcome == Err::<(), Error>(
                Error::NotSubscribed,
            ) && final(subscribers)@ == old(subscribers)@,
            lists(old(subscribers)@, subscriber) ==> r.outcome is Ok && final(subscribers)@
                == without(old(subscribers)@, subscriber),
    {
        let ghost keep = |x: Address| x.key() != subscriber.key();
        let mut found = false;
        let mut kept: Vec<Address> = Vec::new();
        let mut i: usize = 0;
        while i < subscribers.len()
            invariant
                i <= subscribers@.len(),
                kept@ == subscribers@.take(i as int).filter(keep),
                found == lists(subscribers@.take(i as int), subscriber),
                keep == (|x: Address| x.key() != subscriber.key()),
            decreases subscribers@.len() - i,
        {
            proof {
                assert(subscribers@.take(i as int + 1) =~= subscribers@.take(i as int).push(
                    subscribers@[i as int],
                ));
                subscribers@.take(i as int).lemma_filter_push(subscribers@[i as int], keep);
                let prefix = subscribers@.take(i as int);
                let next = subscribers@.take(i as int + 1);
                if lists(prefix, subscriber) {
                    let j = choose|j: int| 0 <= j < prefix.len() && #[trigger] prefix[j].key() == subscriber.key();
                    assert(next[j].key() == subscriber.key());
                }
                if subscribers@[i as int].key() == subscriber.key() {
                    assert(next[i as int].key() == subscriber.key());
                }
            }
            if subscribers[i] != subscriber {
                kept.push(subscribers[i]);
            } else {
                found = true;
            }
            i = i + 1;
        }
        assert(subscribers@.take(subscribers@.len() as int) =~= subscribers@);
        if !found {
            return Guarded { signer: Some(subscriber), outcome: Err(Error::NotSubscribed) };
        }
        *subscribers = kept;
        Guarded { signer: Some(subscriber), outcome: Ok(()) }
    }

    /// History of a contract as read from storage (unset reads as empty).
    pub fn get_upgrade_history(history: Option<Vec<UpgradeRecord>>) -> (r: Vec<UpgradeRecord>)
        ensures
            r@ == (match history {
                Some(h) => h@,
                None => Seq::<UpgradeRecord>::empty(),
            }),
    {
        match history {
            Some(h) => h,
            None => Vec::new(),
        }
    }

    /// Latest version of a contract as read from storage (unset reads as 0).
    pub fn get_latest_version(latest_version: Option<u32>) -> (r: u32)
        ensures
            r == (match latest_version {
                Some(v) => v,
                None => 0u32,
            }),
    {
        match latest_version {
            Some(v) => v,
            None => 0,
        }
    }

    /// Subscribers of a contract as read from storage (unset reads as empty).
    pub fn get_subscribers(subscribers: Option<Vec<Address>>) -> (r: Vec<Address>)
        ensures
            r@ == (match subscribers {
                Some(s) => s@,
                None => Seq::<Address>::empty(),
            }),
    {
        match subscribers {
            Some(s) => s,
            None => Vec::new(),
        }
    }

    pub fn get_admin(&self) -> (r: Result<Address, Error>)
        ensures
            self.admin matches Some(a) ==> r == Ok::<Address, Error>(a),
            self.admin is None ==> r == Err::<Address, Error>(Error::NotInitialized),
    {
        match self.admin {
            Some(a) => Ok(a),
            None => Err(Error::NotInitialized),
        }
    }

    /// Whether a contract whose stored latest version is `latest_version`
    /// meets `min_version`.
    pub fn check_min_version(latest_version: Option<u32>, min_version: u32) -> (r: bool)
        ensures
            r == ((match latest_version {
                Some(v) => v,
                None => 0u32,
            }) >= min_version),
    {
        let latest: u32 = Self::get_latest_version(latest_version);
        latest >= min_version
    }

    /// The registry contract's own version.
    pub fn registry_version() -> (r: u32)
        ensures
            r == REGISTRY_VERSION,
    {
        REGISTRY_VERSION
    }
}

/// Scheduling and then executing an upgrade against an unchanged version
/// log: execution succeeds exactly once the delay in force at scheduling
/// time has elapsed, and then appends one record, strictly raises the
/// latest version and clears the pending slot.
pub proof fn lemma_schedule_then_execute_raises_version(
    registry: UpgradeRegistryContract,
    log: LogView,
    new_wasm_hash: [u8; 32],
    contract_name: String,
    new_version: u32,
    changelog_hash: [u8; 32],
    scheduled_at: u64,
    executed_at: u64,
)
    requires
        registry.scheduling(
            new_wasm_hash,
            contract_name,
            new_version,
            changelog_hash,
            log.latest_version,
            scheduled_at,
        ).1.outcome is Ok,
    ensures
        ({
            let scheduled = registry.scheduling(
                new_wasm_hash,
                contract_name,
                new_version,
                changelog_hash,
                log.latest_version,
                scheduled_at,
            ).0;
            let (after, log_after, answer) = scheduled.execution(log, executed_at);
            &&& answer.outcome is Ok <==> executed_at >= saturating_sum(
                scheduled_at,
                registry.delay_in_force(),
            )
            &&& answer.outcome is Ok ==> {
                &&& log_after.latest_version == new_version
                &&& log_after.latest_version > log.latest_version
                &&& log_after.history.len() == log.history.len() + 1
                &&& log_after.history.last().old_version == log.latest_version
                &&& log_after.history.last().new_version == new_version
                &&& after.pending is None
                &&& after.admin == registry.admin
            }
            &&& answer.outcome is Err ==> log_after == log && after == scheduled
        }),
{
}

/// While an upgrade is pending no other upgrade can be scheduled, and the
/// refused call changes nothing.
pub proof fn lemma_single_pending_upgrade(
    registry: UpgradeRegistryContract,
    new_wasm_hash: [u8; 32],
    contract_name: String,
    new_version: u32,
    changelog_hash: [u8; 32],
    latest_version: u32,
    now: u64,
)
    requires
        registry.admin is Some,
        registry.pending is Some,
    ensures
        registry.scheduling(
            new_wasm_hash,
            contract_name,
            new_version,
            changelog_hash,
            latest_version,
            now,
        ) == (registry, Guarded::<Result<(), Error>> {
            signer: registry.admin,
            outcome: Err(Error::UpgradePending),
        }),
{
}

/// A list from which no entry has the key of `a` is left as is by removing `a`.
proof fn lemma_without_absent(s: Seq<Address>, a: Address)
    requires
        !lists(s, a),
    ensures
        without(s, a) == s,
    decreases s.len(),
{
    reveal(Seq::filter);
    if s.len() > 0 {
        let init = s.drop_last();
        if lists(init, a) {
            let j = choose|j: int| 0 <= j < init.len() && #[trigger] init[j].key() == a.key();
            assert(s[j].key() == a.key());
        }
        assert(s[s.len() - 1].key() != a.key());
        lemma_without_absent(init, a);
    } else {
        assert(without(s, a) =~= s);
    }
}

/// Removing `a` from a distinct list leaves a distinct list.
proof fn lemma_without_distinct(s: Seq<Address>, a: Address)
    requires
        distinct(s),
    ensures
        distinct(without(s, a)),
    decreases s.len(),
{
    reveal(Seq::filter);
    if s.len() > 0 {
        let init = s.drop_last();
        let x = s.last();
        let keep = |y: Address| y.key() != a.key();
        assert(distinct(init)) by {
            assert forall|i: int, j: int|
                0 <= i < init.len() && 0 <= j < init.len() && i != j implies #[trigger] init[i].key()
                != #[trigger] init[j].key() by {
                assert(init[i] == s[i] && init[j] == s[j]);
            }
        }
        lemma_without_distinct(init, a);
        if keep(x) {
            let rest = init.filter(keep);
            assert forall|i: int| 0 <= i < rest.len() implies #[trigger] rest[i].key() != x.key() by {
                assert(rest.contains(rest[i]));
                init.lemma_filter_contains_rev(keep, rest[i]);
                let j = choose|j: int| 0 <= j < init.len() && init[j] == rest[i];
                assert(s[j] == init[j]);
                assert(s[s.len() - 1] == x);
            }
            assert(without(s, a) == rest.push(x));
            assert forall|i: int, j: int|
                0 <= i < rest.push(x).len() && 0 <= j < rest.push(x).len() && i != j
                implies #[trigger] rest.push(x)[i].key() != #[trigger] rest.push(x)[j].key() by {
                if i < rest.len() && j < rest.len() {
                    assert(rest.push(x)[i] == rest[i] && rest.push(x)[j] == rest[j]);
                } else if i < rest.len() {
                    assert(rest.push(x)[i] == rest[i]);
                } else if j < rest.len() {
                    assert(rest.push(x)[j] == rest[j]);
                }
            }
        }
    }
}

/// Unsubscribing right after a successful subscribe gives back the list
/// as it was.
pub proof fn lemma_unsubscribe_undoes_subscribe(subscribers: Seq<Address>, subscriber: Address)
    requires
        !lists(subscribers, subscriber),
    ensures
        lists(subscribers.push(subscriber), subscriber),
        without(subscribers.push(subscriber), subscriber) == subscribers,
{
    assert(subscribers.push(subscriber)[subscribers.len() as int].key() == subscriber.key());
    subscribers.lemma_filter_push(subscriber, |x: Address| x.key() != subscriber.key());
    lemma_without_absent(subscribers, subscriber);
}

/// Subscriber lists never hold an address twice: both `subscribe` and
/// `unsubscribe` keep a distinct list distinct, and an unsubscribed
/// address is no longer listed.
pub proof fn lemma_subscriber_lists_stay_distinct(subscribers: Seq<Address>, a: Address)
    requires
        distinct(subscribers),
    ensures
        !lists(subscribers, a) ==> distinct(subscribers.push(a)),
        distinct(without(subscribers, a)),
        !lists(without(subscribers, a), a),
{
    if !lists(subscribers, a) {
        let s2 = subscribers.push(a);
        assert forall|i: int, j: int|
            0 <= i < s2.len() && 0 <= j < s2.len() && i != j implies #[trigger] s2[i].key()
            != #[trigger] s2[j].key() by {
            if i < subscribers.len() && j < subscribers.len() {
                assert(s2[i] == subscribers[i] && s2[j] == subscribers[j]);
            } else if i < subscribers.len() {
                assert(s2[i] == subscribers[i]);
            } else if j < subscribers.len() {
                assert(s2[j] == subscribers[j]);
            }
        }
    }
    lemma_without_distinct(subscribers, a);
    let w = without(subscribers, a);
    if lists(w, a) {
        let j = choose|j: int| 0 <= j < w.len() && #[trigger] w[j].key() == a.key();
        subscribers.lemma_filter_pred(|x: Address| x.key() != a.key(), j);
    }
}

/// A successfully scheduled upgrade stores each argument in its own field:
/// the code hash that will be installed, the changelog hash, the contract
/// name and the version, stamped with the scheduling time, the admin, and
/// the time after which it may run.
pub proof fn lemma_schedule_records_arguments(
    registry: UpgradeRegistryContract,
    new_wasm_hash: [u8; 32],
    contract_name: String,
    new_version: u32,
    changelog_hash: [u8; 32],
    latest_version: u32,
    now: u64,
)
    requires
        registry.scheduling(
            new_wasm_hash,
            contract_name,
            new_version,
            changelog_hash,
            latest_version,
            now,
        ).1.outcome is Ok,
    ensures
        ({
            let p = registry.scheduling(
                new_wasm_hash,
                contract_name,
                new_version,
                changelog_hash,
                latest_version,
                now,
            ).0.pending;
            &&& registry.admin is Some
            &&& p is Some
            &&& p->0.new_wasm_hash == new_wasm_hash
            &&& p->0.changelog_hash == changelog_hash
            &&& p->0.contract_name == contract_name
            &&& p->0.new_version == new_version
            &&& new_version > latest_version
            &&& p->0.scheduled_at == now
            &&& p->0.admin == registry.admin->0
            &&& p->0.executable_after >= now
            &&& (now + registry.delay_in_force() <= u64::MAX ==> p->0.executable_after == now
                + registry.delay_in_force())
        }),
{
}

/// A successful execution hands back exactly the upgrade that was pending
/// and appends one record built from it: the previous latest version, the
/// pending version and changelog hash, the execution time and the admin.
pub proof fn lemma_execute_records_pending(
    registry: UpgradeRegistryContract,
    log: LogView,
    now: u64,
)
    requires
        registry.execution(log, now).2.outcome is Ok,
    ensures
        ({
            let (after, log_after, answer) = registry.execution(log, now);
            let p = registry.pending->0;
            &&& registry.admin is Some
            &&& registry.pending is Some
            &&& answer.outcome->Ok_0 == p
            &&& now >= p.executable_after
            &&& log_after.history.len() == log.history.len() + 1
            &&& log_after.history.take(log.history.len() as int) == log.history
            &&& log_after.history.last().old_version == log.latest_version
            &&& log_after.history.last().new_version == p.new_version
            &&& log_after.history.last().changelog_hash == p.changelog_hash
            &&& log_after.history.last().timestamp == now
            &&& log_after.history.last().admin == registry.admin->0
            &&& log_after.latest_version == p.new_version
            &&& after.pending is None
        }),
{
    let (after, log_after, answer) = registry.execution(log, now);
    assert(log_after.history.take(log.history.len() as int) =~= log.history);
}

} // verus!
