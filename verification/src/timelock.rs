//! Timelock controller: operations are scheduled with a bounded delay and
//! may run only inside a window that opens after the delay plus a clock
//! tolerance and closes when the operation expires.
use vstd::prelude::*;

use crate::common::{saturating_sum, Address, Guarded};

verus! {

/// Minimum delay: 48 hours.
pub const MIN_DELAY: u64 = 172800;
/// Maximum delay: 30 days.
pub const MAX_DELAY: u64 = 2592000;
/// An operation expires 14 days after it becomes ready.
pub const OPERATION_EXPIRY_SECS: u64 = 1209600;
/// Allowance for validator clock drift: 1 minute.
pub const TIMESTAMP_TOLERANCE_SECS: u64 = 60;

/// Errors the controller returns to its caller.
#[derive(Clone, Copy, Debug, PartialEq, Eq, Structural)]
pub enum Error {
    AlreadyInitialized,
    NotInitialized,
    NotAdmin,
    OperationNotFound,
    AlreadyDone,
    NotReady,
    InvalidDelay,
}

impl Error {
    /// The contract error code.
    pub fn code(&self) -> (r: u32)
        ensures
            1 <= r <= 7,
            r == error_code(*self),
    {
        match self {
            Error::AlreadyInitialized => 1,
            Error::NotInitialized => 2,
            Error::NotAdmin => 3,
            Error::OperationNotFound => 4,
            Error::AlreadyDone => 5,
            Error::NotReady => 6,
            Error::InvalidDelay => 7,
        }
    }
}

pub open spec fn error_code(e: Error) -> u32 {
    match e {
        Error::AlreadyInitialized => 1,
        Error::NotInitialized => 2,
        Error::NotAdmin => 3,
        Error::OperationNotFound => 4,
        Error::AlreadyDone => 5,
        Error::NotReady => 6,
        Error::InvalidDelay => 7,
    }
}

/// Conditions on which the controller aborts the call (see `message`).
#[derive(Clone, Copy, Debug, PartialEq, Eq, Structural)]
pub enum Halt {
    OperationNotFound,
    OperationAlreadyDone,
    OperationNotReady,
    OperationExpired,
    TimestampOverflow,
    CounterOverflow,
    NotInitialized,
}

/// The abort text of each halt.
pub open spec fn halt_message(h: Halt) -> Seq<char> {
    match h {
        Halt::OperationNotFound => "operation not found"@,
        Halt::OperationAlreadyDone => "operation already done"@,
        Halt::OperationNotReady => "operation not ready"@,
        Halt::OperationExpired => "operation expired"@,
        Halt::TimestampOverflow => "timestamp overflow"@,
        Halt::CounterOverflow => "attempt to add with overflow"@,
        Halt::NotInitialized => "not initialized"@,
    }
}

impl Halt {
    pub fn message(&self) -> (r: &'static str)
        ensures
            r@ == halt_message(*self),
    {
        match self {
            Halt::OperationNotFound => "operation not found",
            Halt::OperationAlreadyDone => "operation already done",
            Halt::OperationNotReady => "operation not ready",
            Halt::OperationExpired => "operation expired",
            Halt::TimestampOverflow => "timestamp overflow",
            Halt::CounterOverflow => "attempt to add with overflow",
            Halt::NotInitialized => "not initialized",
        }
    }
}

/// A failed `schedule`: either a returned error or an abort.
#[derive(Clone, Copy, Debug, PartialEq, Eq, Structural)]
pub enum Failure {
    Error(Error),
    Halt(Halt),
}

/// A scheduled call. `A` is the call's argument payload, carried unread.
pub struct Operation<A> {
    pub proposer: Address,
    pub target: Address,
    pub function: String,
    pub args: A,
    pub ready_at: u64,
    pub done: bool,
}

/// A freshly scheduled operation and the id it is stored under.
pub struct Scheduled<A> {
    pub operation_id: [u8; 32],
    pub operation: Operation<A>,
}

/// Instance storage of the controller: `None` is an entry never written.
#[derive(Clone, Copy, Debug)]
pub struct TimelockController {
    pub admin: Option<Address>,
    pub op_count: Option<u64>,
}

/// Byte `k` (0 = most significant) of the big-endian encoding of `count`.
pub open spec fn count_byte(count: u64, k: int) -> u8 {
    ((count >> ((7 - k) * 8)) & 0xff) as u8
}

/// Operation id for the `count`-th scheduled operation: 24 zero bytes
/// followed by `count` in big-endian order.
pub open spec fn operation_id_spec(count: u64) -> Seq<u8> {
    Seq::new(32, |i: int| if i < 24 { 0u8 } else { count_byte(count, i - 24) })
}

/// The earliest second after which an operation may run is strictly later
/// than `ready_at` plus the tolerance (saturating).
pub open spec fn ready_after(op_ready_at: u64) -> u64 {
    saturating_sum(op_ready_at, TIMESTAMP_TOLERANCE_SECS)
}

/// The second from which an operation counts as expired.
pub open spec fn expiry_of(op_ready_at: u64) -> int {
    op_ready_at + OPERATION_EXPIRY_SECS
}

/// The result of `execute` on the stored entry `op` at time `now`.
pub open spec fn execution<A>(op: Option<Operation<A>>, now: u64) -> Result<Operation<A>, Halt> {
    match op {
        None => Err(Halt::OperationNotFound),
        Some(o) => if o.done {
            Err(Halt::OperationAlreadyDone)
        } else if now <= ready_after(o.ready_at) {
            Err(Halt::OperationNotReady)
        } else if expiry_of(o.ready_at) > u64::MAX {
            Err(Halt::TimestampOverflow)
        } else if now >= expiry_of(o.ready_at) {
            Err(Halt::OperationExpired)
        } else {
            Ok(Operation { done: true, ..o })
        },
    }
}

/// The answer of `is_operation_ready` on the stored entry `op` at `now`.
pub open spec fn readiness<A>(op: Option<Operation<A>>, now: u64) -> Result<bool, Halt> {
    match op {
        None => Err(Halt::OperationNotFound),
        Some(o) => if o.done {
            Ok(false)
        } else if expiry_of(o.ready_at) > u64::MAX {
            Err(Halt::TimestampOverflow)
        } else {
            Ok(now > ready_after(o.ready_at) && now < expiry_of(o.ready_at))
        },
    }
}

/// The answer of `is_operation_expired` on the stored entry `op` at `now`.
pub open spec fn expiration<A>(op: Option<Operation<A>>, now: u64) -> Result<bool, Halt> {
    match op {
        None => Err(Halt::OperationNotFound),
        Some(o) => if o.done {
            Ok(false)
        } else if expiry_of(o.ready_at) > u64::MAX {
            Err(Halt::TimestampOverflow)
        } else {
            Ok(now >= expiry_of(o.ready_at))
        },
    }
}

/// Big-endian operation id of the `count`-th scheduled operation.
pub fn operation_id(count: u64) -> (r: [u8; 32])
    ensures
        r@ == operation_id_spec(count),
{
    let b0 = ((count >> 56u64) & 0xff) as u8;
    let b1 = ((count >> 48u64) & 0xff) as u8;
    let b2 = ((count >> 40u64) & 0xff) as u8;
    let b3 = ((count >> 32u64) & 0xff) as u8;
    let b4 = ((count >> 24u64) & 0xff) as u8;
    let b5 = ((count >> 16u64) & 0xff) as u8;
    let b6 = ((count >> 8u64) & 0xff) as u8;
    let b7 = (count & 0xff) as u8;
    let r: [u8; 32] = [
        0, 0, 0, 0, 0, 0, 0, 0, 0, 0, 0, 0, 0, 0, 0, 0,
        0, 0, 0, 0, 0, 0, 0, 0, b0, b1, b2, b3, b4, b5, b6, b7,
    ];
    proof {
        assert(count >> 0u64 == count) by (bit_vector);
        assert(r@ =~= operation_id_spec(count));
    }
    r
}

/// Distinct counters give distinct operation ids.
pub proof fn lemma_operation_id_injective(a: u64, b: u64)
    requires
        operation_id_spec(a) == operation_id_spec(b),
    ensures
        a == b,
{
    let sa = operation_id_spec(a);
    let sb = operation_id_spec(b);
    assert(sa[24] == sb[24] && sa[25] == sb[25] && sa[26] == sb[26] && sa[27] == sb[27]);
    assert(sa[28] == sb[28] && sa[29] == sb[29] && sa[30] == sb[30] && sa[31] == sb[31]);
    assert(count_byte(a, 0) == count_byte(b, 0) && count_byte(a, 1) == count_byte(b, 1));
    assert(count_byte(a, 2) == count_byte(b, 2) && count_byte(a, 3) == count_byte(b, 3));
    assert(count_byte(a, 4) == count_byte(b, 4) && count_byte(a, 5) == count_byte(b, 5));
    assert(count_byte(a, 6) == count_byte(b, 6) && count_byte(a, 7) == count_byte(b, 7));
    assert(
        ((a >> 56u64) & 0xff) as u8 == ((b >> 56u64) & 0xff) as u8
        && ((a >> 48u64) & 0xff) as u8 == ((b >> 48u64) & 0xff) as u8
        && ((a >> 40u64) & 0xff) as u8 == ((b >> 40u64) & 0xff) as u8
        && ((a >> 32u64) & 0xff) as u8 == ((b >> 32u64) & 0xff) as u8
        && ((a >> 24u64) & 0xff) as u8 == ((b >> 24u64) & 0xff) as u8
        && ((a >> 16u64) & 0xff) as u8 == ((b >> 16u64) & 0xff) as u8
        && ((a >> 8u64) & 0xff) as u8 == ((b >> 8u64) & 0xff) as u8
        && ((a >> 0u64) & 0xff) as u8 == ((b >> 0u64) & 0xff) as u8
    );
    assert(
        (((a >> 56u64) & 0xff) as u8 == ((b >> 56u64) & 0xff) as u8
        && ((a >> 48u64) & 0xff) as u8 == ((b >> 48u64) & 0xff) as u8
        && ((a >> 40u64) & 0xff) as u8 == ((b >> 40u64) & 0xff) as u8
        && ((a >> 32u64) & 0xff) as u8 == ((b >> 32u64) & 0xff) as u8
        && ((a >> 24u64) & 0xff) as u8 == ((b >> 24u64) & 0xff) as u8
        && ((a >> 16u64) & 0xff) as u8 == ((b >> 16u64) & 0xff) as u8
        && ((a >> 8u64) & 0xff) as u8 == ((b >> 8u64) & 0xff) as u8
        && ((a >> 0u64) & 0xff) as u8 == ((b >> 0u64) & 0xff) as u8) ==> a == b
    ) by (bit_vector);
}

impl TimelockController {
    /// Number of operations scheduled so far (unset reads as 0).
    pub open spec fn scheduled_count(&self) -> u64 {
        match self.op_count {
            Some(n) => n,
            None => 0,
        }
    }

    /// Initialize with an admin; refused when an admin is stored.
    pub fn initialize(&mut self, admin: Address) -> (r: Result<(), Error>)
        ensures
            old(self).admin is Some ==> r == Err::<(), Error>(Error::AlreadyInitialized)
                && *final(self) == *old(self),
            old(self).admin is None ==> r is Ok
                && *final(self) == (TimelockController { admin: Some(admin), op_count: Some(0u64) }),
    {
        if self.admin.is_some() {
            return Err(Error::AlreadyInitialized);
        }
        *self = TimelockController { admin: Some(admin), op_count: Some(0) };
        Ok(())
    }

    /// Schedule a call of `function` on `target` to become ready `delay`
    /// seconds after `now`; `caller` must authorize it.
    pub fn schedule<A>(
        &mut self,
        caller: Address,
        target: Address,
        function: String,
        args: A,
        delay: u64,
        now: u64,
    ) -> (r: Guarded<Result<Scheduled<A>, Failure>>)
        ensures
            old(self).admin is None ==> r.signer is None
                && r.outcome == Err::<Scheduled<A>, Failure>(Failure::Error(Error::NotInitialized))
                && *final(self) == *old(self),
            old(self).admin is Some && (delay < MIN_DELAY || delay > MAX_DELAY) ==> r.signer is None
                && r.outcome == Err::<Scheduled<A>, Failure>(Failure::Error(Error::InvalidDelay))
                && *final(self) == *old(self),
            old(self).admin is Some && MIN_DELAY <= delay <= MAX_DELAY ==> r.signer == Some(caller),
            old(self).admin is Some && MIN_DELAY <= delay <= MAX_DELAY && old(self).scheduled_count()
                == u64::MAX ==> r.outcome == Err::<Scheduled<A>, Failure>(
                Failure::Halt(Halt::CounterOverflow),
            ) && *final(self) == *old(self),
            old(self).admin is Some && MIN_DELAY <= delay <= MAX_DELAY && old(self).scheduled_count()
                < u64::MAX && now + delay > u64::MAX ==> r.outcome == Err::<Scheduled<A>, Failure>(
                Failure::Halt(Halt::TimestampOverflow),
            ) && *final(self) == *old(self),
            old(self).admin is Some && MIN_DELAY <= delay <= MAX_DELAY && old(self).scheduled_count()
                < u64::MAX && now + delay <= u64::MAX ==> {
                &&& r.outcome is Ok
                &&& final(self).admin == old(self).admin
                &&& final(self).op_count == Some((old(self).scheduled_count() + 1) as u64)
                &&& r.outcome->Ok_0.operation_id@ == operation_id_spec(
                    (old(self).scheduled_count() + 1) as u64,
                )
                &&& r.outcome->Ok_0.operation == (Operation {
                    proposer: caller,
                    target,
                    function,
                    args,
                    ready_at: (now + delay) as u64,
                    done: false,
                })
            },
    {
        if self.admin.is_none() {
            return Guarded { signer: None, outcome: Err(Failure::Error(Error::NotInitialized)) };
        }
        if delay < MIN_DELAY || delay > MAX_DELAY {
            return Guarded { signer: None, outcome: Err(Failure::Error(Error::InvalidDelay)) };
        }
        let count: u64 = match self.op_count {
            Some(n) => n,
            None => 0,
        };
        if count == u64::MAX {
            return Guarded { signer: Some(caller), outcome: Err(Failure::Halt(Halt::CounterOverflow)) };
        }
        let count: u64 = count + 1;
        let operation_id = operation_id(count);
        let ready_at: u64 = match now.checked_add(delay) {
            Some(t) => t,
            None => {
                return Guarded {
                    signer: Some(caller),
                    outcome: Err(Failure::Halt(Halt::TimestampOverflow)),
                };
            },
        };
        self.op_count = Some(count);
        let operation = Operation { proposer: caller, target, function, args, ready_at, done: false };
        Guarded { signer: Some(caller), outcome: Ok(Scheduled { operation_id, operation }) }
    }

    /// Run the stored operation `op` at time `now`: on success the returned
    /// operation is marked done and the host performs the call.
    pub fn execute<A>(op: Option<Operation<A>>, now: u64) -> (r: Result<Operation<A>, Halt>)
        ensures
            r == execution(op, now),
            r is Ok ==> op is Some && !op->0.done && r->Ok_0.done,
            r is Ok ==> r->Ok_0.proposer == op->0.proposer && r->Ok_0.target == op->0.target
                && r->Ok_0.function == op->0.function && r->Ok_0.args == op->0.args
                && r->Ok_0.ready_at == op->0.ready_at,
            r is Ok ==> op->0.ready_at + TIMESTAMP_TOLERANCE_SECS < now && now < op->0.ready_at
                + OPERATION_EXPIRY_SECS,
    {
        match op {
            None => Err(Halt::OperationNotFound),
            Some(o) => {
                if o.done {
                    return Err(Halt::OperationAlreadyDone);
                }
                if now <= o.ready_at.saturating_add(TIMESTAMP_TOLERANCE_SECS) {
                    return Err(Halt::OperationNotReady);
                }
                let expiry: u64 = match o.ready_at.checked_add(OPERATION_EXPIRY_SECS) {
                    Some(t) => t,
                    None => {
                        return Err(Halt::TimestampOverflow);
                    },
                };
                if now >= expiry {
                    return Err(Halt::OperationExpired);
                }
                Ok(Operation { done: true, ..o })
            },
        }
    }

    /// Cancel the stored operation `op`: `Ok(())` means the entry is removed.
    /// The admin authorizes every cancellation.
    pub fn cancel<A>(&self, op: &Option<Operation<A>>) -> (r: Guarded<Result<(), Halt>>)
        ensures
            op is None ==> r.signer is None && r.outcome == Err::<(), Halt>(Halt::OperationNotFound),
            op matches Some(o) && o.done ==> r.signer is None && r.outcome == Err::<(), Halt>(
                Halt::OperationAlreadyDone,
            ),
            op matches Some(o) && !o.done && self.admin is None ==> r.signer is None && r.outcome
                == Err::<(), Halt>(Halt::NotInitialized),
            op matches Some(o) && !o.done && self.admin is Some ==> r.outcome is Ok && r.signer
                == self.admin,
    {
        match op {
            None => Guarded { signer: None, outcome: Err(Halt::OperationNotFound) },
            Some(o) => {
                if o.done {
                    return Guarded { signer: None, outcome: Err(Halt::OperationAlreadyDone) };
                }
                match self.admin {
                    None => Guarded { signer: None, outcome: Err(Halt::NotInitialized) },
                    Some(admin) => {
                        let signer = if o.proposer != admin {
                            admin
                        } else {
                            proof {
                                Address::lemma_key_determines(o.proposer, admin);
                            }
                            o.proposer
                        };
                        Guarded { signer: Some(signer), outcome: Ok(()) }
                    },
                }
            },
        }
    }

    /// Hand the admin role to `new_admin`; the current admin authorizes.
    pub fn transfer_admin(&mut self, new_admin: Address) -> (r: Guarded<Result<(), Halt>>)
        ensures
            old(self).admin is None ==> r.signer is None && r.outcome == Err::<(), Halt>(
                Halt::NotInitialized,
            ) && *final(self) == *old(self),
            old(self).admin is Some ==> r.signer == old(self).admin && r.outcome is Ok
                && final(self).admin == Some(new_admin) && final(self).op_count == old(self).op_count,
    {
        match self.admin {
            None => Guarded { signer: None, outcome: Err(Halt::NotInitialized) },
            Some(admin) => {
                self.admin = Some(new_admin);
                Guarded { signer: Some(admin), outcome: Ok(()) }
            },
        }
    }

    /// Whether the stored operation `op` may run at `now`: not done, past
    /// `ready_at` plus the tolerance, and not yet expired.
    pub fn is_operation_ready<A>(op: &Option<Operation<A>>, now: u64) -> (r: Result<bool, Halt>)
        ensures
            r == readiness(*op, now),
            op is Some && op->0.ready_at + OPERATION_EXPIRY_SECS <= u64::MAX ==> r is Ok,
            op is Some && op->0.ready_at + OPERATION_EXPIRY_SECS <= u64::MAX ==> (r == Ok::<bool, Halt>(
                true,
            ) <==> (!op->0.done && op->0.ready_at + TIMESTAMP_TOLERANCE_SECS < now && now
                < op->0.ready_at + OPERATION_EXPIRY_SECS)),
    {
        match op {
            None => Err(Halt::OperationNotFound),
            Some(o) => {
                if o.done {
                    return Ok(false);
                }
                let ready = now > o.ready_at.saturating_add(TIMESTAMP_TOLERANCE_SECS);
                match o.ready_at.checked_add(OPERATION_EXPIRY_SECS) {
                    None => Err(Halt::TimestampOverflow),
                    Some(expiry) => Ok(ready && now < expiry),
                }
            },
        }
    }

    /// Whether the stored operation `op` has passed its expiry unexecuted.
    pub fn is_operation_expired<A>(op: &Option<Operation<A>>, now: u64) -> (r: Result<bool, Halt>)
        ensures
            r == expiration(*op, now),
            op is Some && !op->0.done && op->0.ready_at + OPERATION_EXPIRY_SECS <= u64::MAX ==> r
                == Ok::<bool, Halt>(now >= op->0.ready_at + OPERATION_EXPIRY_SECS),
            op is Some && now <= op->0.ready_at ==> r != Ok::<bool, Halt>(true),
    {
        match op {
            None => Err(Halt::OperationNotFound),
            Some(o) => {
                if o.done {
                    return Ok(false);
                }
                match o.ready_at.checked_add(OPERATION_EXPIRY_SECS) {
                    None => Err(Halt::TimestampOverflow),
                    Some(expiry) => Ok(now >= expiry),
                }
            },
        }
    }

    pub fn is_operation_done<A>(op: &Option<Operation<A>>) -> (r: bool)
        ensures
            r == (op matches Some(o) && o.done),
    {
        match op {
            Some(o) => o.done,
            None => false,
        }
    }

    pub fn get_operation<A>(op: Option<Operation<A>>) -> (r: Result<Operation<A>, Halt>)
        ensures
            op matches Some(o) ==> r == Ok::<Operation<A>, Halt>(o),
            op is None ==> r == Err::<Operation<A>, Halt>(Halt::OperationNotFound),
    {
        match op {
            Some(o) => Ok(o),
            None => Err(Halt::OperationNotFound),
        }
    }

    pub fn get_admin(&self) -> (r: Result<Address, Halt>)
        ensures
            self.admin matches Some(a) ==> r == Ok::<Address, Halt>(a),
            self.admin is None ==> r == Err::<Address, Halt>(Halt::NotInitialized),
    {
        match self.admin {
            Some(a) => Ok(a),
            None => Err(Halt::NotInitialized),
        }
    }
}

/// `execute` succeeds on exactly the entries and times for which
/// `is_operation_ready` answers `true`.
pub proof fn lemma_execute_succeeds_iff_ready<A>(op: Option<Operation<A>>, now: u64)
    ensures
        execution(op, now) is Ok <==> readiness(op, now) == Ok::<bool, Halt>(true),
{
}

/// An executed operation is done: it can never run again, and from then on
/// it is neither ready nor expired.
pub proof fn lemma_executed_operation_is_final<A>(op: Option<Operation<A>>, now: u64, later: u64)
    requires
        execution(op, now) is Ok,
    ensures
        execution(op, now)->Ok_0.done,
        execution(Some(execution(op, now)->Ok_0), later) == Err::<Operation<A>, Halt>(
            Halt::OperationAlreadyDone,
        ),
        readiness(Some(execution(op, now)->Ok_0), later) == Ok::<bool, Halt>(false),
        expiration(Some(execution(op, now)->Ok_0), later) == Ok::<bool, Halt>(false),
{
}

/// No operation is ready and expired at the same time.
pub proof fn lemma_ready_and_expired_exclusive<A>(op: Option<Operation<A>>, now: u64)
    ensures
        !(readiness(op, now) == Ok::<bool, Halt>(true) && expiration(op, now) == Ok::<bool, Halt>(
            true,
        )),
{
}

/// An operation scheduled at `scheduled_at` with an accepted delay cannot
/// run before the minimum delay and the clock tolerance have both passed.
pub proof fn lemma_no_execution_before_min_delay<A>(
    op: Operation<A>,
    scheduled_at: u64,
    delay: u64,
    now: u64,
)
    requires
        MIN_DELAY <= delay <= MAX_DELAY,
        op.ready_at == scheduled_at + delay,
        now <= scheduled_at + MIN_DELAY + TIMESTAMP_TOLERANCE_SECS,
    ensures
        execution(Some(op), now) is Err,
        readiness(Some(op), now) != Ok::<bool, Halt>(true),
{
}

/// Executing an operation changes nothing but its `done` flag: the host
/// calls the scheduled target and function with the scheduled arguments.
/// It succeeds only strictly after `ready_at` plus the tolerance and before
/// the expiry.
pub proof fn lemma_execute_only_marks_done<A>(op: Option<Operation<A>>, now: u64)
    requires
        execution(op, now) is Ok,
    ensures
        op is Some,
        !op->0.done,
        execution(op, now)->Ok_0.proposer == op->0.proposer,
        execution(op, now)->Ok_0.target == op->0.target,
        execution(op, now)->Ok_0.function == op->0.function,
        execution(op, now)->Ok_0.args == op->0.args,
        execution(op, now)->Ok_0.ready_at == op->0.ready_at,
        execution(op, now)->Ok_0.done,
        op->0.ready_at + TIMESTAMP_TOLERANCE_SECS < now < op->0.ready_at + OPERATION_EXPIRY_SECS,
{
}

/// The readiness query only aborts for a missing operation or an expiry
/// that overflows; otherwise it answers, and answers `true` exactly inside
/// the window (`ready_at` + tolerance, `ready_at` + expiry) of a pending
/// operation.
pub proof fn lemma_readiness_answers<A>(op: Option<Operation<A>>, now: u64)
    ensures
        readiness(op, now) is Err <==> (op is None || op->0.ready_at + OPERATION_EXPIRY_SECS
            > u64::MAX && !op->0.done),
        op is Some && op->0.ready_at + OPERATION_EXPIRY_SECS <= u64::MAX ==> (readiness(op, now)
            == Ok::<bool, Halt>(true) <==> (!op->0.done && op->0.ready_at + TIMESTAMP_TOLERANCE_SECS
            < now && now < op->0.ready_at + OPERATION_EXPIRY_SECS)),
        op is Some && now <= op->0.ready_at + TIMESTAMP_TOLERANCE_SECS ==> readiness(op, now)
            != Ok::<bool, Halt>(true),
{
}

/// A pending operation counts as expired exactly from `ready_at` plus the
/// expiry period on; before that, and in particular up to `ready_at`, it
/// does not.
pub proof fn lemma_expiration_answers<A>(op: Option<Operation<A>>, now: u64)
    ensures
        op is Some && !op->0.done && op->0.ready_at + OPERATION_EXPIRY_SECS <= u64::MAX ==> expiration(
            op,
            now,
        ) == Ok::<bool, Halt>(now >= op->0.ready_at + OPERATION_EXPIRY_SECS),
        op is Some && now < op->0.ready_at + OPERATION_EXPIRY_SECS ==> expiration(op, now) != Ok::<
            bool,
            Halt,
        >(true),
        op is Some && op->0.done ==> expiration(op, now) == Ok::<bool, Halt>(false),
        op is None ==> expiration(op, now) == Err::<bool, Halt>(Halt::OperationNotFound),
{
}

} // verus!
