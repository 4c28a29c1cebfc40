use drink_o_matic::models::{PumpJob, PumpState};
use drink_o_matic::pump_service::{PumpError, PumpService, WorkerState};

fn eight_pumps() -> PumpService {
    PumpService::new(false, vec![4, 17, 27, 22, 5, 6, 13, 19], 32)
}

fn job(pump_number: u8, duration_in_milliseconds: u64) -> PumpJob {
    PumpJob { pump_number, duration_in_milliseconds }
}

#[test]
fn a_new_service_is_idle_and_empty() {
    let service = eight_pumps();
    assert_eq!(service.get_number_of_pumps(), 8);
    assert_eq!(service.get_pump_queue(), vec![]);
    assert_eq!(service.get_worker_state(), WorkerState::Absent);
    assert_eq!(service.get_fault(), None);
    assert!(service.get_run_daemon());
    let states = service.get_pump_states();
    assert_eq!(states.len(), 8);
    for (index, state) in states.iter().enumerate() {
        assert_eq!(*state, PumpState { pump_number: index as u8 + 1, is_running: false });
    }
}

#[test]
fn a_service_without_pumps_accepts_no_job() {
    let mut service = PumpService::new(true, vec![], 10);
    assert_eq!(service.get_number_of_pumps(), 0);
    assert_eq!(service.get_pump_states(), vec![]);
    assert_eq!(service.enqueue_pump(1, 1), Err(PumpError::InvalidLine));
    assert_eq!(service.enqueue_pump(0, 1), Err(PumpError::InvalidLine));
}

#[test]
fn enqueue_appends_the_job_and_returns_the_queue() {
    let mut service = eight_pumps();
    let queue = service.enqueue_pump(3, 50).unwrap();
    assert_eq!(queue, vec![job(3, 1600)]);
    assert_eq!(service.get_pump_queue(), queue);
}

#[test]
fn enqueue_returns_the_jobs_of_other_callers_too() {
    let mut service = eight_pumps();
    assert_eq!(service.enqueue_pump(1, 10).unwrap(), vec![job(1, 320)]);
    assert_eq!(service.enqueue_pump(2, 20).unwrap(), vec![job(1, 320), job(2, 640)]);
    assert_eq!(service.get_pump_queue(), vec![job(1, 320), job(2, 640)]);
}

#[test]
fn enqueue_keeps_submission_order_across_pumps() {
    let mut service = eight_pumps();
    let requests: [(u8, u32); 6] = [(8, 1), (1, 2), (8, 3), (3, 4), (1, 5), (2, 6)];
    let mut expected = vec![];
    for (pump_number, ml_to_pump) in requests {
        expected.push(job(pump_number, ml_to_pump as u64 * 32));
        let queue = service.enqueue_pump(pump_number, ml_to_pump).unwrap();
        assert_eq!(queue.last(), expected.last());
        assert_eq!(queue, expected);
    }
}

#[test]
fn enqueue_accepts_every_pump_in_range() {
    let mut service = eight_pumps();
    for pump_number in 1..=8u8 {
        let queue = service.enqueue_pump(pump_number, 7).unwrap();
        assert_eq!(queue.last(), Some(&job(pump_number, 224)));
        assert_eq!(queue.len(), pump_number as usize);
    }
}

#[test]
fn enqueue_rejects_a_pump_out_of_range() {
    let mut service = eight_pumps();
    assert_eq!(service.enqueue_pump(9, 10), Err(PumpError::InvalidLine));
    assert_eq!(service.get_pump_queue().len(), 0);
    assert_eq!(service.enqueue_pump(0, 10), Err(PumpError::InvalidLine));
    assert_eq!(service.enqueue_pump(255, 10), Err(PumpError::InvalidLine));
    assert_eq!(service.get_pump_queue().len(), 0);
}

#[test]
fn enqueue_rejects_an_empty_volume() {
    let mut service = eight_pumps();
    assert_eq!(service.enqueue_pump(1, 0), Err(PumpError::InvalidVolume));
    assert_eq!(service.get_pump_queue().len(), 0);
}

#[test]
fn enqueue_looks_at_the_pump_before_the_volume() {
    let mut service = eight_pumps();
    assert_eq!(service.enqueue_pump(9, 0), Err(PumpError::InvalidLine));
}

#[test]
fn a_rejected_request_needs_no_duration() {
    let mut service = PumpService::new(false, vec![4, 17], u64::MAX);
    assert_eq!(service.enqueue_pump(9, 2), Err(PumpError::InvalidLine));
    assert_eq!(service.enqueue_pump(0, u32::MAX), Err(PumpError::InvalidLine));
    assert_eq!(service.enqueue_pump(1, 0), Err(PumpError::InvalidVolume));
    assert_eq!(service.get_pump_queue(), vec![]);
    assert_eq!(service.enqueue_pump(2, 1).unwrap(), vec![job(2, u64::MAX)]);
}

#[test]
fn a_rejected_request_leaves_the_queue_as_it_was() {
    let mut service = eight_pumps();
    service.enqueue_pump(2, 5).unwrap();
    service.kill_daemon();
    let before = service.get_pump_queue();
    assert_eq!(service.enqueue_pump(9, 10), Err(PumpError::InvalidLine));
    assert_eq!(service.enqueue_pump(2, 0), Err(PumpError::InvalidVolume));
    assert_eq!(service.get_pump_queue(), before);
    assert_eq!(service.get_pump_queue().len(), 1);
}

#[test]
fn enqueue_tells_the_daemon_to_run() {
    let mut service = eight_pumps();
    assert!(service.start_daemon());
    assert!(service.kill_daemon());
    assert!(!service.get_run_daemon());
    assert_eq!(service.enqueue_pump(9, 1), Err(PumpError::InvalidLine));
    assert!(!service.get_run_daemon());
    service.enqueue_pump(1, 1).unwrap();
    assert!(service.get_run_daemon());
}

#[test]
fn duration_is_volume_times_rate() {
    let mut service = PumpService::new(false, vec![1, 2], 1_000_000_007);
    assert_eq!(service.duration_for(3), Some(3_000_000_021));
    assert_eq!(service.enqueue_pump(2, 3).unwrap(), vec![job(2, 3_000_000_021)]);
    assert_eq!(service.duration_for(u32::MAX), Some(4_294_967_295u64 * 1_000_000_007));
}

#[test]
fn duration_that_does_not_fit_is_none() {
    let service = PumpService::new(false, vec![1], u64::MAX);
    assert_eq!(service.duration_for(1), Some(u64::MAX));
    assert_eq!(service.duration_for(2), None);
    assert_eq!(service.duration_for(0), Some(0));
    let service = PumpService::new(false, vec![1], 4_294_967_298);
    assert_eq!(service.duration_for(u32::MAX), None);
    let service = PumpService::new(false, vec![1], 4_294_967_297);
    assert_eq!(service.duration_for(u32::MAX), Some(u64::MAX));
}

#[test]
fn a_rate_of_zero_gives_jobs_of_no_duration() {
    let mut service = PumpService::new(false, vec![1], 0);
    assert_eq!(service.enqueue_pump(1, 9).unwrap(), vec![job(1, 0)]);
}

#[test]
fn pump_number_is_valid_from_one_to_the_count() {
    assert!(!PumpService::pump_number_is_valid(0, 8));
    assert!(PumpService::pump_number_is_valid(1, 8));
    assert!(PumpService::pump_number_is_valid(8, 8));
    assert!(!PumpService::pump_number_is_valid(9, 8));
    assert!(!PumpService::pump_number_is_valid(1, 0));
    assert!(PumpService::pump_number_is_valid(255, 255));
    assert!(!PumpService::pump_number_is_valid(0, 0));
}

#[test]
fn get_pump_state_gives_the_record_of_the_pump() {
    let service = eight_pumps();
    for pump_number in 1..=8u8 {
        assert_eq!(
            service.get_pump_state(pump_number),
            Ok(PumpState { pump_number, is_running: false })
        );
    }
}

#[test]
fn get_pump_state_rejects_a_pump_out_of_range() {
    let service = eight_pumps();
    assert_eq!(service.get_pump_state(0), Err(PumpError::InvalidLine));
    assert_eq!(service.get_pump_state(9), Err(PumpError::InvalidLine));
}

#[test]
fn pins_and_levels_follow_the_configuration() {
    let service = eight_pumps();
    assert_eq!(service.get_pin_number(1), 4);
    assert_eq!(service.get_pin_number(8), 19);
    assert_eq!(service.active_level(), 1);
    assert_eq!(service.idle_level(), 0);
    let inverted = PumpService::new(true, vec![7], 1);
    assert_eq!(inverted.active_level(), 0);
    assert_eq!(inverted.idle_level(), 1);
}

#[test]
fn a_service_can_have_255_pumps() {
    let pins: Vec<u32> = (0..255).collect();
    let mut service = PumpService::new(false, pins, 1);
    assert_eq!(service.get_number_of_pumps(), 255);
    assert_eq!(service.get_pump_states().len(), 255);
    assert_eq!(service.get_pump_state(255), Ok(PumpState { pump_number: 255, is_running: false }));
    assert_eq!(service.enqueue_pump(255, 2).unwrap(), vec![job(255, 2)]);
}
