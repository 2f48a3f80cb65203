use std::collections::HashMap;

use mentorminds::common::Address;
use mentorminds::timelock::{
    operation_id, Error, Failure, Halt, Operation, TimelockController, MAX_DELAY, MIN_DELAY,
    OPERATION_EXPIRY_SECS, TIMESTAMP_TOLERANCE_SECS,
};

fn address(tag: u8) -> Address {
    let mut strkey = [b'B'; 56];
    strkey[0] = b'G';
    strkey[55] = tag;
    Address { strkey }
}

/// Ledger stand-in: instance storage, operation entries and a clock.
struct Ledger {
    controller: TimelockController,
    ops: HashMap<[u8; 32], Operation<Vec<u32>>>,
    now: u64,
}

impl Ledger {
    fn new() -> Self {
        Ledger { controller: TimelockController { admin: None, op_count: None }, ops: HashMap::new(), now: 0 }
    }

    fn setup() -> (Ledger, Address) {
        let mut l = Ledger::new();
        let admin = address(b'a');
        l.controller.initialize(admin).unwrap();
        (l, admin)
    }

    fn schedule(&mut self, caller: Address, delay: u64) -> Result<[u8; 32], Failure> {
        let target = address(b't');
        let g = self.controller.schedule(caller, target, "noop".to_string(), Vec::new(), delay, self.now);
        let s = g.outcome?;
        assert_eq!(g.signer, Some(caller));
        self.ops.insert(s.operation_id, s.operation);
        Ok(s.operation_id)
    }

    fn execute(&mut self, id: &[u8; 32]) -> Result<(), Halt> {
        let op = self.ops.get(id).map(clone_op);
        let done = TimelockController::execute(op, self.now)?;
        self.ops.insert(*id, done);
        Ok(())
    }

    fn entry(&self, id: &[u8; 32]) -> Option<Operation<Vec<u32>>> {
        self.ops.get(id).map(clone_op)
    }
}

fn clone_op(o: &Operation<Vec<u32>>) -> Operation<Vec<u32>> {
    Operation {
        proposer: o.proposer,
        target: o.target,
        function: o.function.clone(),
        args: o.args.clone(),
        ready_at: o.ready_at,
        done: o.done,
    }
}

#[test]
fn lib_test_initialize() {
    let mut l = Ledger::new();
    let admin = address(b'a');
    l.controller.initialize(admin).unwrap();
    assert_eq!(l.controller.get_admin(), Ok(admin));
}

#[test]
fn test_execute_before_ready_at_panics() {
    let (mut l, admin) = Ledger::setup();
    let id = l.schedule(admin, MIN_DELAY).unwrap();
    // Exactly at ready_at: still blocked by the tolerance window.
    l.now += MIN_DELAY;
    let err = l.execute(&id).unwrap_err();
    assert_eq!(err, Halt::OperationNotReady);
    assert_eq!(err.message(), "operation not ready");
}

#[test]
fn test_execute_after_expiry_panics() {
    let (mut l, admin) = Ledger::setup();
    let id = l.schedule(admin, MIN_DELAY).unwrap();
    l.now += MIN_DELAY + OPERATION_EXPIRY_SECS + 1;
    let err = l.execute(&id).unwrap_err();
    assert_eq!(err, Halt::OperationExpired);
    assert_eq!(err.message(), "operation expired");
}

#[test]
fn test_is_operation_ready_respects_tolerance() {
    let (mut l, admin) = Ledger::setup();
    let id = l.schedule(admin, MIN_DELAY).unwrap();

    // At ready_at: not ready (tolerance not cleared).
    l.now += MIN_DELAY;
    assert_eq!(TimelockController::is_operation_ready(&l.entry(&id), l.now), Ok(false));

    // At ready_at + TOLERANCE: boundary, still not ready.
    l.now += TIMESTAMP_TOLERANCE_SECS;
    assert_eq!(TimelockController::is_operation_ready(&l.entry(&id), l.now), Ok(false));

    // One second past the tolerance: ready.
    l.now += 1;
    assert_eq!(TimelockController::is_operation_ready(&l.entry(&id), l.now), Ok(true));
}

#[test]
fn timelock_execute_inside_window_marks_done() {
    let (mut l, admin) = Ledger::setup();
    let id = l.schedule(admin, MIN_DELAY).unwrap();
    l.now += MIN_DELAY + TIMESTAMP_TOLERANCE_SECS + 1;
    assert!(l.execute(&id).is_ok());
    assert!(TimelockController::is_operation_done(&l.entry(&id)));
    // Running it again is refused and it is neither ready nor expired.
    assert_eq!(l.execute(&id), Err(Halt::OperationAlreadyDone));
    assert_eq!(TimelockController::is_operation_ready(&l.entry(&id), l.now), Ok(false));
    assert_eq!(TimelockController::is_operation_expired(&l.entry(&id), u64::MAX), Ok(false));
}

#[test]
fn timelock_last_second_before_expiry() {
    let (mut l, admin) = Ledger::setup();
    let id = l.schedule(admin, MIN_DELAY).unwrap();
    l.now = MIN_DELAY + OPERATION_EXPIRY_SECS - 1;
    assert_eq!(TimelockController::is_operation_expired(&l.entry(&id), l.now), Ok(false));
    assert_eq!(TimelockController::is_operation_ready(&l.entry(&id), l.now), Ok(true));
    l.now += 1;
    assert_eq!(TimelockController::is_operation_expired(&l.entry(&id), l.now), Ok(true));
    assert_eq!(TimelockController::is_operation_ready(&l.entry(&id), l.now), Ok(false));
    assert_eq!(l.execute(&id), Err(Halt::OperationExpired));
}

#[test]
fn timelock_schedule_requires_initialization() {
    let mut l = Ledger::new();
    let caller = address(b'c');
    assert_eq!(l.schedule(caller, MIN_DELAY), Err(Failure::Error(Error::NotInitialized)));
}

#[test]
fn timelock_schedule_delay_bounds() {
    let (mut l, admin) = Ledger::setup();
    let g = l.controller.schedule(admin, admin, "f".to_string(), (), MIN_DELAY - 1, 0);
    assert!(g.signer.is_none());
    assert!(matches!(g.outcome, Err(Failure::Error(Error::InvalidDelay))));
    let g = l.controller.schedule(admin, admin, "f".to_string(), (), MAX_DELAY + 1, 0);
    assert!(matches!(g.outcome, Err(Failure::Error(Error::InvalidDelay))));
    assert!(l.schedule(admin, MAX_DELAY).is_ok());
    assert!(l.schedule(admin, MIN_DELAY).is_ok());
    assert_eq!(l.controller.op_count, Some(2));
}

#[test]
fn timelock_schedule_timestamp_overflow() {
    let (mut l, admin) = Ledger::setup();
    l.now = u64::MAX - 10;
    assert_eq!(l.schedule(admin, MIN_DELAY), Err(Failure::Halt(Halt::TimestampOverflow)));
    assert_eq!(l.controller.op_count, Some(0));
    assert_eq!(Halt::TimestampOverflow.message(), "timestamp overflow");
}

#[test]
fn timelock_schedule_counter_overflow() {
    let admin = address(b'a');
    let mut c = TimelockController { admin: Some(admin), op_count: Some(u64::MAX) };
    let g = c.schedule(admin, admin, "f".to_string(), (), MIN_DELAY, 0);
    assert_eq!(g.signer, Some(admin));
    assert!(matches!(g.outcome, Err(Failure::Halt(Halt::CounterOverflow))));
    assert_eq!(c.op_count, Some(u64::MAX));
}

#[test]
fn timelock_operation_ids_are_big_endian_counters() {
    let (mut l, admin) = Ledger::setup();
    let first = l.schedule(admin, MIN_DELAY).unwrap();
    let second = l.schedule(admin, MIN_DELAY).unwrap();
    let mut expected = [0u8; 32];
    expected[31] = 1;
    assert_eq!(first, expected);
    expected[31] = 2;
    assert_eq!(second, expected);
    assert_ne!(first, second);

    let id = operation_id(0x0102_0304_0506_0708);
    assert_eq!(&id[..24], &[0u8; 24]);
    assert_eq!(&id[24..], &[1, 2, 3, 4, 5, 6, 7, 8]);
    assert_ne!(operation_id(256), operation_id(1));
}

#[test]
fn timelock_scheduled_operation_fields() {
    let (mut l, admin) = Ledger::setup();
    l.now = 1_000;
    let caller = address(b'c');
    let id = l.schedule(caller, MIN_DELAY + 5).unwrap();
    let op = TimelockController::get_operation(l.entry(&id)).unwrap();
    assert_eq!(op.proposer, caller);
    assert_eq!(op.target, address(b't'));
    assert_eq!(op.function, "noop");
    assert_eq!(op.ready_at, 1_000 + MIN_DELAY + 5);
    assert!(!op.done);
    assert_ne!(caller, admin);
}

#[test]
fn timelock_unknown_operation() {
    let (l, _admin) = Ledger::setup();
    let id = [9u8; 32];
    assert_eq!(TimelockController::is_operation_ready(&l.entry(&id), 0), Err(Halt::OperationNotFound));
    assert_eq!(TimelockController::is_operation_expired(&l.entry(&id), 0), Err(Halt::OperationNotFound));
    assert!(!TimelockController::is_operation_done(&l.entry(&id)));
    assert!(matches!(TimelockController::get_operation(l.entry(&id)), Err(Halt::OperationNotFound)));
    assert!(matches!(TimelockController::execute(l.entry(&id), 0), Err(Halt::OperationNotFound)));
    assert_eq!(Halt::OperationNotFound.message(), "operation not found");
}

#[test]
fn timelock_expiry_overflow_aborts_queries() {
    let admin = address(b'a');
    let op = Some(Operation {
        proposer: admin,
        target: admin,
        function: "f".to_string(),
        args: (),
        ready_at: u64::MAX - 100,
        done: false,
    });
    assert_eq!(TimelockController::is_operation_ready(&op, 0), Err(Halt::TimestampOverflow));
    assert_eq!(TimelockController::is_operation_expired(&op, 0), Err(Halt::TimestampOverflow));
    // Execution stops at the readiness check first.
    assert!(matches!(TimelockController::execute(op, 0), Err(Halt::OperationNotReady)));
}

#[test]
fn timelock_cancel_is_authorized_by_admin() {
    let (mut l, admin) = Ledger::setup();
    let other = address(b'o');
    let by_admin = l.schedule(admin, MIN_DELAY).unwrap();
    let by_other = l.schedule(other, MIN_DELAY).unwrap();
    let g = l.controller.cancel(&l.entry(&by_admin));
    assert_eq!(g.signer, Some(admin));
    assert_eq!(g.outcome, Ok(()));
    let g = l.controller.cancel(&l.entry(&by_other));
    assert_eq!(g.signer, Some(admin));
    assert_eq!(g.outcome, Ok(()));
    let g = l.controller.cancel(&None::<Operation<()>>);
    assert_eq!(g.outcome, Err(Halt::OperationNotFound));
    assert!(g.signer.is_none());
}

#[test]
fn timelock_cancel_done_operation_refused() {
    let (mut l, admin) = Ledger::setup();
    let id = l.schedule(admin, MIN_DELAY).unwrap();
    l.now = MIN_DELAY + TIMESTAMP_TOLERANCE_SECS + 1;
    l.execute(&id).unwrap();
    let g = l.controller.cancel(&l.entry(&id));
    assert_eq!(g.outcome, Err(Halt::OperationAlreadyDone));
    assert_eq!(Halt::OperationAlreadyDone.message(), "operation already done");
}

#[test]
fn timelock_uninitialized_admin_paths() {
    let mut c = TimelockController { admin: None, op_count: None };
    assert_eq!(c.get_admin(), Err(Halt::NotInitialized));
    let g = c.transfer_admin(address(b'n'));
    assert_eq!(g.outcome, Err(Halt::NotInitialized));
    let op = Some(Operation {
        proposer: address(b'p'),
        target: address(b'p'),
        function: "f".to_string(),
        args: (),
        ready_at: 0,
        done: false,
    });
    assert_eq!(c.cancel(&op).outcome, Err(Halt::NotInitialized));
    assert_eq!(Halt::NotInitialized.message(), "not initialized");
}

#[test]
fn timelock_transfer_admin() {
    let (mut l, admin) = Ledger::setup();
    let next = address(b'n');
    let g = l.controller.transfer_admin(next);
    assert_eq!(g.signer, Some(admin));
    assert_eq!(g.outcome, Ok(()));
    assert_eq!(l.controller.get_admin(), Ok(next));
}

#[test]
fn timelock_double_initialize_and_error_codes() {
    let (mut l, _admin) = Ledger::setup();
    assert_eq!(l.controller.initialize(address(b'z')), Err(Error::AlreadyInitialized));
    assert_eq!(l.controller.get_admin(), Ok(address(b'a')));
    let codes: Vec<u32> = [
        Error::AlreadyInitialized,
        Error::NotInitialized,
        Error::NotAdmin,
        Error::OperationNotFound,
        Error::AlreadyDone,
        Error::NotReady,
        Error::InvalidDelay,
    ]
    .iter()
    .map(|e| e.code())
    .collect();
    assert_eq!(codes, vec![1, 2, 3, 4, 5, 6, 7]);
}
