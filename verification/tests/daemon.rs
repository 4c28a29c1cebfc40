use drink_o_matic::models::{PumpJob, PumpState};
use drink_o_matic::pump_service::{
    DaemonAction, Outcome, PumpError, PumpService, Stage, WorkerState,
};

fn eight_pumps() -> PumpService {
    PumpService::new(false, vec![4, 17, 27, 22, 5, 6, 13, 19], 32)
}

fn job(pump_number: u8, duration_in_milliseconds: u64) -> PumpJob {
    PumpJob { pump_number, duration_in_milliseconds }
}

fn running(service: &PumpService) -> Vec<u8> {
    service
        .get_pump_states()
        .iter()
        .filter(|state| state.is_running)
        .map(|state| state.pump_number)
        .collect()
}

/// Steps the daemon until it waits, exits or aborts, as one that carries
/// out every piece of work without fail would. Returns what it was asked to
/// do, and checks at every step that at most one line is marked as running.
fn drain(service: &mut PumpService) -> Vec<DaemonAction> {
    let mut actions = vec![];
    loop {
        let action = service.process_queue_step(Outcome::Done);
        assert!(running(service).len() <= 1);
        actions.push(action);
        match action {
            DaemonAction::Wait | DaemonAction::Exit | DaemonAction::Abort(_) => return actions,
            _ => assert!(actions.len() < 1000),
        }
    }
}

#[test]
fn single_job_runs_for_its_duration() {
    let mut service = eight_pumps();
    assert!(service.start_daemon());
    assert_eq!(service.process_queue_step(Outcome::Done), DaemonAction::Wait);
    assert_eq!(service.get_worker_state(), WorkerState::Idle);

    assert_eq!(service.enqueue_pump(3, 50).unwrap(), vec![job(3, 1600)]);
    assert_eq!(running(&service), Vec::<u8>::new());

    assert_eq!(
        service.process_queue_step(Outcome::Done),
        DaemonAction::SetLine { pump_number: 3, value: 1 }
    );
    assert_eq!(service.get_worker_state(), WorkerState::Draining(Stage::Engaging));
    assert_eq!(running(&service), vec![3]);
    assert_eq!(service.get_pump_queue(), vec![job(3, 1600)]);

    assert_eq!(
        service.process_queue_step(Outcome::Done),
        DaemonAction::Sleep { milliseconds: 1600 }
    );
    assert_eq!(service.get_worker_state(), WorkerState::Draining(Stage::Holding));
    assert_eq!(running(&service), vec![3]);
    assert_eq!(service.get_pump_state(3), Ok(PumpState { pump_number: 3, is_running: true }));
    assert_eq!(service.get_pump_queue(), vec![job(3, 1600)]);

    assert_eq!(
        service.process_queue_step(Outcome::Done),
        DaemonAction::SetLine { pump_number: 3, value: 0 }
    );
    assert_eq!(service.get_worker_state(), WorkerState::Draining(Stage::Releasing));
    assert_eq!(running(&service), vec![3]);
    assert_eq!(service.get_pump_queue(), vec![job(3, 1600)]);

    assert_eq!(service.process_queue_step(Outcome::Done), DaemonAction::Proceed);
    assert_eq!(service.get_worker_state(), WorkerState::Idle);
    assert_eq!(running(&service), Vec::<u8>::new());
    assert_eq!(service.get_pump_state(3), Ok(PumpState { pump_number: 3, is_running: false }));
    assert_eq!(service.get_pump_queue(), vec![]);

    assert_eq!(service.process_queue_step(Outcome::Done), DaemonAction::Wait);
    assert_eq!(service.get_worker_state(), WorkerState::Idle);
    assert_eq!(running(&service), Vec::<u8>::new());
}

#[test]
fn two_jobs_run_one_after_the_other() {
    let mut service = eight_pumps();
    service.start_daemon();
    service.enqueue_pump(1, 10).unwrap();
    assert_eq!(service.enqueue_pump(2, 20).unwrap(), vec![job(1, 320), job(2, 640)]);
    let actions = drain(&mut service);
    assert_eq!(
        actions,
        vec![
            DaemonAction::SetLine { pump_number: 1, value: 1 },
            DaemonAction::Sleep { milliseconds: 320 },
            DaemonAction::SetLine { pump_number: 1, value: 0 },
            DaemonAction::Proceed,
            DaemonAction::SetLine { pump_number: 2, value: 1 },
            DaemonAction::Sleep { milliseconds: 640 },
            DaemonAction::SetLine { pump_number: 2, value: 0 },
            DaemonAction::Proceed,
            DaemonAction::Wait,
        ]
    );
    let slept: u64 = actions
        .iter()
        .map(|action| match action {
            DaemonAction::Sleep { milliseconds } => *milliseconds,
            _ => 0,
        })
        .sum();
    assert_eq!(slept, 960);
    assert_eq!(service.get_pump_queue(), vec![]);
}

#[test]
fn the_second_line_waits_while_the_first_is_held() {
    let mut service = eight_pumps();
    service.start_daemon();
    service.enqueue_pump(1, 10).unwrap();
    service.enqueue_pump(2, 20).unwrap();
    for _ in 0..3 {
        service.process_queue_step(Outcome::Done);
        assert_eq!(running(&service), vec![1]);
        assert_eq!(service.get_pump_queue(), vec![job(1, 320), job(2, 640)]);
    }
    service.process_queue_step(Outcome::Done);
    assert_eq!(running(&service), Vec::<u8>::new());
    assert_eq!(service.get_pump_queue(), vec![job(2, 640)]);
    for _ in 0..3 {
        service.process_queue_step(Outcome::Done);
        assert_eq!(running(&service), vec![2]);
        assert_eq!(service.get_pump_queue(), vec![job(2, 640)]);
    }
}

#[test]
fn jobs_enqueued_while_draining_are_taken_in_turn() {
    let mut service = eight_pumps();
    service.start_daemon();
    service.enqueue_pump(5, 1).unwrap();
    service.process_queue_step(Outcome::Done);
    service.enqueue_pump(4, 2).unwrap();
    service.process_queue_step(Outcome::Done);
    service.enqueue_pump(5, 3).unwrap();
    assert_eq!(service.get_pump_queue(), vec![job(5, 32), job(4, 64), job(5, 96)]);
    let actions = drain(&mut service);
    let sleeps: Vec<u64> = actions
        .iter()
        .filter_map(|action| match action {
            DaemonAction::Sleep { milliseconds } => Some(*milliseconds),
            _ => None,
        })
        .collect();
    assert_eq!(sleeps, vec![64, 96]);
    let lines: Vec<(u8, u8)> = actions
        .iter()
        .filter_map(|action| match action {
            DaemonAction::SetLine { pump_number, value } => Some((*pump_number, *value)),
            _ => None,
        })
        .collect();
    assert_eq!(lines, vec![(5, 0), (4, 1), (4, 0), (5, 1), (5, 0)]);
}

#[test]
fn an_inverted_relay_is_active_at_the_low_level() {
    let mut service = PumpService::new(true, vec![9, 10], 5);
    service.start_daemon();
    service.enqueue_pump(2, 4).unwrap();
    assert_eq!(
        drain(&mut service),
        vec![
            DaemonAction::SetLine { pump_number: 2, value: 0 },
            DaemonAction::Sleep { milliseconds: 20 },
            DaemonAction::SetLine { pump_number: 2, value: 1 },
            DaemonAction::Proceed,
            DaemonAction::Wait,
        ]
    );
}

#[test]
fn stop_while_idle_ends_the_daemon_at_once() {
    let mut service = eight_pumps();
    assert!(service.start_daemon());
    assert_eq!(service.process_queue_step(Outcome::Done), DaemonAction::Wait);
    assert!(service.kill_daemon());
    assert!(!service.get_run_daemon());
    assert_eq!(service.process_queue_step(Outcome::Done), DaemonAction::Exit);
    assert_eq!(service.get_worker_state(), WorkerState::Stopped);
    service.daemon_joined();
    assert_eq!(service.get_worker_state(), WorkerState::Absent);
}

#[test]
fn stop_twice_is_safe() {
    let mut service = eight_pumps();
    service.start_daemon();
    service.process_queue_step(Outcome::Done);
    assert!(service.kill_daemon());
    assert!(service.kill_daemon());
    assert_eq!(service.process_queue_step(Outcome::Done), DaemonAction::Exit);
    service.daemon_joined();
    assert!(!service.kill_daemon());
    assert!(!service.kill_daemon());
    assert_eq!(service.get_worker_state(), WorkerState::Absent);
    assert_eq!(service.process_queue_step(Outcome::Done), DaemonAction::Exit);
}

#[test]
fn stop_without_a_daemon_changes_nothing() {
    let mut service = eight_pumps();
    assert!(!service.kill_daemon());
    assert!(service.get_run_daemon());
    assert_eq!(service.get_worker_state(), WorkerState::Absent);
    service.daemon_joined();
    assert_eq!(service.get_worker_state(), WorkerState::Absent);
    service.enqueue_pump(1, 1).unwrap();
    assert!(service.start_daemon());
    assert_eq!(
        service.process_queue_step(Outcome::Done),
        DaemonAction::SetLine { pump_number: 1, value: 1 }
    );
}

#[test]
fn start_with_a_daemon_changes_nothing() {
    let mut service = eight_pumps();
    assert!(service.start_daemon());
    assert!(!service.start_daemon());
    service.enqueue_pump(1, 1).unwrap();
    service.process_queue_step(Outcome::Done);
    assert!(!service.start_daemon());
    assert_eq!(service.get_worker_state(), WorkerState::Draining(Stage::Engaging));
    service.kill_daemon();
    drain(&mut service);
    assert_eq!(service.get_worker_state(), WorkerState::Stopped);
    assert!(!service.start_daemon());
    service.daemon_joined();
    assert!(service.start_daemon());
    assert_eq!(service.get_worker_state(), WorkerState::Idle);
}

#[test]
fn a_daemon_is_let_go_of_only_once_it_has_stopped() {
    let mut service = eight_pumps();
    service.start_daemon();
    service.daemon_joined();
    assert_eq!(service.get_worker_state(), WorkerState::Idle);
    service.enqueue_pump(1, 1).unwrap();
    service.process_queue_step(Outcome::Done);
    service.daemon_joined();
    assert_eq!(service.get_worker_state(), WorkerState::Draining(Stage::Engaging));
}

#[test]
fn stop_lets_the_job_under_way_finish() {
    let mut service = eight_pumps();
    service.start_daemon();
    service.enqueue_pump(6, 2).unwrap();
    service.enqueue_pump(7, 2).unwrap();
    assert_eq!(
        service.process_queue_step(Outcome::Done),
        DaemonAction::SetLine { pump_number: 6, value: 1 }
    );
    assert!(service.kill_daemon());
    assert_eq!(
        drain(&mut service),
        vec![
            DaemonAction::Sleep { milliseconds: 64 },
            DaemonAction::SetLine { pump_number: 6, value: 0 },
            DaemonAction::Proceed,
            DaemonAction::Exit,
        ]
    );
    assert_eq!(service.get_worker_state(), WorkerState::Stopped);
    assert_eq!(service.get_pump_queue(), vec![job(7, 64)]);
    assert_eq!(running(&service), Vec::<u8>::new());
}

#[test]
fn a_restarted_daemon_runs_once_a_job_arrives() {
    let mut service = eight_pumps();
    service.start_daemon();
    service.kill_daemon();
    assert_eq!(service.process_queue_step(Outcome::Done), DaemonAction::Exit);
    service.daemon_joined();
    assert!(service.start_daemon());
    assert_eq!(service.process_queue_step(Outcome::Done), DaemonAction::Exit);
    service.daemon_joined();
    service.enqueue_pump(2, 1).unwrap();
    assert!(service.start_daemon());
    assert_eq!(
        service.process_queue_step(Outcome::Done),
        DaemonAction::SetLine { pump_number: 2, value: 1 }
    );
}

#[test]
fn a_driver_failure_halts_the_daemon_for_good() {
    let mut service = eight_pumps();
    service.start_daemon();
    service.enqueue_pump(3, 1).unwrap();
    service.enqueue_pump(4, 1).unwrap();
    service.process_queue_step(Outcome::Done);
    assert_eq!(
        service.process_queue_step(Outcome::Failed),
        DaemonAction::Abort(PumpError::DriverFailure)
    );
    assert_eq!(service.get_fault(), Some(PumpError::DriverFailure));
    assert_eq!(service.get_worker_state(), WorkerState::Draining(Stage::Engaging));
    assert_eq!(running(&service), vec![3]);
    for outcome in [Outcome::Done, Outcome::Failed, Outcome::Done] {
        assert_eq!(
            service.process_queue_step(outcome),
            DaemonAction::Abort(PumpError::DriverFailure)
        );
        assert_eq!(service.get_pump_queue(), vec![job(3, 32), job(4, 32)]);
        assert_eq!(running(&service), vec![3]);
    }
    service.kill_daemon();
    service.daemon_joined();
    assert_eq!(
        service.process_queue_step(Outcome::Done),
        DaemonAction::Abort(PumpError::DriverFailure)
    );
    assert!(!service.start_daemon());
}

#[test]
fn a_failure_to_switch_off_is_a_driver_failure() {
    let mut service = eight_pumps();
    service.start_daemon();
    service.enqueue_pump(3, 1).unwrap();
    service.process_queue_step(Outcome::Done);
    service.process_queue_step(Outcome::Done);
    assert_eq!(
        service.process_queue_step(Outcome::Done),
        DaemonAction::SetLine { pump_number: 3, value: 0 }
    );
    assert_eq!(
        service.process_queue_step(Outcome::Failed),
        DaemonAction::Abort(PumpError::DriverFailure)
    );
    assert_eq!(running(&service), vec![3]);
}

#[test]
fn a_failure_while_blocked_is_a_corrupted_lock() {
    let mut service = eight_pumps();
    service.start_daemon();
    assert_eq!(service.process_queue_step(Outcome::Done), DaemonAction::Wait);
    assert_eq!(
        service.process_queue_step(Outcome::Failed),
        DaemonAction::Abort(PumpError::LockCorruption)
    );
    assert_eq!(service.get_fault(), Some(PumpError::LockCorruption));

    let mut service = eight_pumps();
    service.start_daemon();
    service.enqueue_pump(1, 1).unwrap();
    service.process_queue_step(Outcome::Done);
    assert_eq!(
        service.process_queue_step(Outcome::Done),
        DaemonAction::Sleep { milliseconds: 32 }
    );
    assert_eq!(
        service.process_queue_step(Outcome::Failed),
        DaemonAction::Abort(PumpError::LockCorruption)
    );
    assert_eq!(running(&service), vec![1]);
}

#[test]
fn a_failure_without_a_daemon_is_no_fault() {
    let mut service = eight_pumps();
    assert_eq!(service.process_queue_step(Outcome::Failed), DaemonAction::Exit);
    assert_eq!(service.get_fault(), None);
    service.start_daemon();
    service.kill_daemon();
    assert_eq!(service.process_queue_step(Outcome::Done), DaemonAction::Exit);
    assert_eq!(service.process_queue_step(Outcome::Failed), DaemonAction::Exit);
    assert_eq!(service.get_fault(), None);
}

#[test]
fn requests_are_still_answered_after_a_fault() {
    let mut service = eight_pumps();
    service.start_daemon();
    service.enqueue_pump(1, 1).unwrap();
    service.process_queue_step(Outcome::Done);
    service.process_queue_step(Outcome::Failed);
    assert_eq!(service.enqueue_pump(2, 1).unwrap(), vec![job(1, 32), job(2, 32)]);
    assert_eq!(service.get_pump_state(1), Ok(PumpState { pump_number: 1, is_running: true }));
}

#[test]
fn completed_jobs_are_the_submitted_jobs_in_order() {
    let mut service = eight_pumps();
    service.start_daemon();
    let mut submitted = vec![];
    let mut completed = vec![];
    let requests: [(u8, u32); 9] =
        [(3, 5), (9, 1), (1, 1), (1, 0), (8, 2), (3, 1), (0, 4), (2, 9), (8, 8)];
    for (round, (pump_number, ml_to_pump)) in requests.iter().enumerate() {
        if let Ok(queue) = service.enqueue_pump(*pump_number, *ml_to_pump) {
            submitted.push(*queue.last().unwrap());
        }
        for _ in 0..round {
            let head = service.get_pump_queue().first().copied();
            let before = service.get_pump_queue().len();
            service.process_queue_step(Outcome::Done);
            if service.get_pump_queue().len() < before {
                completed.push(head.unwrap());
            }
            assert!(running(&service).len() <= 1);
        }
        let mut all = completed.clone();
        all.extend(service.get_pump_queue());
        assert_eq!(all, submitted);
    }
    drain(&mut service);
    assert_eq!(service.get_pump_queue(), vec![]);
    assert_eq!(submitted.len(), 6);
}
