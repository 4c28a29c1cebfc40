//! What holds of a pump service over any run of calls.
//!
//! A run is a sequence of [`Call`]s applied to a state that satisfies the
//! service's invariant. The lemmas here speak of the mathematical state
//! alone; the operations of [`crate::pump_service::PumpService`] are tied to
//! it by their contracts.

use crate::models::PumpJob;
use crate::pump_service::{
    at_most_one_running, none_running, table_shows, valid_line, DaemonAction, Outcome, PumpError,
    ServiceModel, Stage, WorkerState,
};
use vstd::prelude::*;

verus! {

/// One call on the service.
pub enum Call {
    Enqueue { pump_number: u8, ml_to_pump: u32 },
    Start,
    Kill,
    Joined,
    Step(Outcome),
}

/// The state that `call` leaves behind when made in state `m`.
pub open spec fn after(m: ServiceModel, call: Call) -> ServiceModel {
    match call {
        Call::Enqueue { pump_number, ml_to_pump } => match m.enqueue(pump_number, ml_to_pump) {
            Ok(next) => next,
            Err(_) => m,
        },
        Call::Start => m.start(),
        Call::Kill => m.kill(),
        Call::Joined => m.joined(),
        Call::Step(outcome) => m.step(outcome).0,
    }
}

/// The state that the run `calls` leaves behind when started in state `m`.
pub open spec fn after_all(m: ServiceModel, calls: Seq<Call>) -> ServiceModel
    decreases calls.len(),
{
    if calls.len() == 0 {
        m
    } else {
        after(after_all(m, calls.drop_last()), calls.last())
    }
}

/// The job that `call` submits successfully in state `m`, if any.
pub open spec fn submitted(m: ServiceModel, call: Call) -> Seq<PumpJob> {
    match call {
        Call::Enqueue { pump_number, ml_to_pump } => if m.enqueue(pump_number, ml_to_pump) is Ok {
            seq![m.job_for(pump_number, ml_to_pump)]
        } else {
            Seq::empty()
        },
        _ => Seq::empty(),
    }
}

/// The job that `call` completes in state `m`, if any: the job whose line
/// the daemon has just switched off.
pub open spec fn completed(m: ServiceModel, call: Call) -> Seq<PumpJob> {
    match call {
        Call::Step(outcome) => if m.fault is None && m.worker == WorkerState::Draining(
            Stage::Releasing,
        ) && outcome is Done {
            seq![m.pump_queue[0]]
        } else {
            Seq::empty()
        },
        _ => Seq::empty(),
    }
}

/// The jobs submitted successfully during the run, in order of submission.
pub open spec fn all_submitted(m: ServiceModel, calls: Seq<Call>) -> Seq<PumpJob>
    decreases calls.len(),
{
    if calls.len() == 0 {
        Seq::empty()
    } else {
        all_submitted(m, calls.drop_last()) + submitted(
            after_all(m, calls.drop_last()),
            calls.last(),
        )
    }
}

/// The jobs completed during the run, in order of completion.
pub open spec fn all_completed(m: ServiceModel, calls: Seq<Call>) -> Seq<PumpJob>
    decreases calls.len(),
{
    if calls.len() == 0 {
        Seq::empty()
    } else {
        all_completed(m, calls.drop_last()) + completed(
            after_all(m, calls.drop_last()),
            calls.last(),
        )
    }
}

/// A freshly configured service with at most 255 lines satisfies the
/// invariant, and none of its lines is running.
pub proof fn lemma_initial_state_is_well_formed(
    is_relay_inverted: bool,
    pump_pin_numbers: Seq<u32>,
    ms_per_ml: u64,
)
    requires
        pump_pin_numbers.len() <= u8::MAX,
    ensures
        ServiceModel::initial(is_relay_inverted, pump_pin_numbers, ms_per_ml).wf(),
        none_running(
            ServiceModel::initial(is_relay_inverted, pump_pin_numbers, ms_per_ml).pump_states,
        ),
{
}

/// Every call keeps the invariant.
pub proof fn lemma_call_keeps_invariant(m: ServiceModel, call: Call)
    requires
        m.wf(),
    ensures
        after(m, call).wf(),
{
    let next = after(m, call);
    match call {
        Call::Enqueue { pump_number, ml_to_pump } => {
            if m.enqueue(pump_number, ml_to_pump) is Ok {
                assert forall|i: int| 0 <= i < next.pump_queue.len() implies valid_line(
                    (#[trigger] next.pump_queue[i]).pump_number,
                    next.number_of_pumps(),
                ) by {
                    if i < m.pump_queue.len() {
                        assert(next.pump_queue[i] == m.pump_queue[i]);
                    }
                }
            }
        },
        Call::Start => {},
        Call::Kill => {},
        Call::Joined => {},
        Call::Step(outcome) => {
            lemma_step_keeps_invariant(m, outcome);
        },
    }
}

/// A step of the daemon keeps the invariant.
pub proof fn lemma_step_keeps_invariant(m: ServiceModel, outcome: Outcome)
    requires
        m.wf(),
    ensures
        m.step(outcome).0.wf(),
{
    let next = m.step(outcome).0;
    if m.fault is None && outcome is Done && m.worker == WorkerState::Draining(Stage::Releasing) {
        assert forall|i: int| 0 <= i < next.pump_queue.len() implies valid_line(
            (#[trigger] next.pump_queue[i]).pump_number,
            next.number_of_pumps(),
        ) by {
            assert(next.pump_queue[i] == m.pump_queue[i + 1]);
        }
    }
}

/// The invariant holds after every run.
pub proof fn lemma_run_keeps_invariant(m: ServiceModel, calls: Seq<Call>)
    requires
        m.wf(),
    ensures
        after_all(m, calls).wf(),
    decreases calls.len(),
{
    if calls.len() > 0 {
        lemma_run_keeps_invariant(m, calls.drop_last());
        lemma_call_keeps_invariant(after_all(m, calls.drop_last()), calls.last());
    }
}

/// In a state that satisfies the invariant at most one line is marked as
/// running, and a line is marked exactly while the daemon works on a job for
/// it, which is then the head of the queue.
pub proof fn lemma_at_most_one_line_runs(m: ServiceModel)
    requires
        m.wf(),
    ensures
        at_most_one_running(m.pump_states),
        forall|i: int|
            0 <= i < m.pump_states.len() ==> ((#[trigger] m.pump_states[i]).is_running <==> (
            m.worker is Draining && m.pump_queue[0].pump_number == i + 1)),
        !(m.worker is Draining) ==> none_running(m.pump_states),
{
}

/// Whatever calls are made, in whatever order, at most one line is marked as
/// running afterwards.
pub proof fn lemma_never_two_lines_at_once(m: ServiceModel, calls: Seq<Call>)
    requires
        m.wf(),
    ensures
        at_most_one_running(after_all(m, calls).pump_states),
{
    lemma_run_keeps_invariant(m, calls);
    lemma_at_most_one_line_runs(after_all(m, calls));
}

/// The queue changes at its ends only: a call leaves it as it was, adds the
/// job that it submits at the tail, or takes the job that it completes from
/// the head.
pub proof fn lemma_queue_moves_at_its_ends(m: ServiceModel, call: Call)
    requires
        m.wf(),
    ensures
        completed(m, call) + after(m, call).pump_queue == m.pump_queue + submitted(m, call),
        completed(m, call).len() + submitted(m, call).len() <= 1,
{
    assert(completed(m, call) + after(m, call).pump_queue =~= m.pump_queue + submitted(m, call));
}

/// Jobs leave in the order in which they were submitted, whatever lines they
/// target: after any run, the jobs completed during it followed by the jobs
/// still queued are the jobs queued at its start followed by the jobs
/// submitted during it.
pub proof fn lemma_jobs_complete_in_submission_order(m: ServiceModel, calls: Seq<Call>)
    requires
        m.wf(),
    ensures
        all_completed(m, calls) + after_all(m, calls).pump_queue == m.pump_queue + all_submitted(
            m,
            calls,
        ),
    decreases calls.len(),
{
    if calls.len() > 0 {
        let before = calls.drop_last();
        let mid = after_all(m, before);
        let last = calls.last();
        lemma_jobs_complete_in_submission_order(m, before);
        lemma_run_keeps_invariant(m, before);
        lemma_queue_moves_at_its_ends(mid, last);
        assert(all_completed(m, before) + (mid.pump_queue + submitted(mid, last)) =~= (
        all_completed(m, before) + mid.pump_queue) + submitted(mid, last));
    }
}

/// Of a service as it is configured, with at most 255 lines: whatever calls
/// are made, in whatever order, at most one line is marked as running, and
/// the jobs completed so far followed by the jobs still queued are exactly the
/// jobs submitted, in order of submission.
pub proof fn lemma_fresh_service_runs_in_order(
    is_relay_inverted: bool,
    pump_pin_numbers: Seq<u32>,
    ms_per_ml: u64,
    calls: Seq<Call>,
)
    requires
        pump_pin_numbers.len() <= u8::MAX,
    ensures
        ({
            let fresh = ServiceModel::initial(is_relay_inverted, pump_pin_numbers, ms_per_ml);
            &&& after_all(fresh, calls).wf()
            &&& at_most_one_running(after_all(fresh, calls).pump_states)
            &&& all_completed(fresh, calls) + after_all(fresh, calls).pump_queue == all_submitted(
                fresh,
                calls,
            )
        }),
{
    let fresh = ServiceModel::initial(is_relay_inverted, pump_pin_numbers, ms_per_ml);
    lemma_initial_state_is_well_formed(is_relay_inverted, pump_pin_numbers, ms_per_ml);
    lemma_run_keeps_invariant(fresh, calls);
    lemma_never_two_lines_at_once(fresh, calls);
    lemma_jobs_complete_in_submission_order(fresh, calls);
    assert(fresh.pump_queue + all_submitted(fresh, calls) =~= all_submitted(fresh, calls));
}

/// The daemon works on the head of the queue and on nothing else: a level is
/// written and a duration is waited out only for the job at the head of the
/// queue as the step leaves it, which is then marked as running.
pub proof fn lemma_daemon_serves_the_head(m: ServiceModel, outcome: Outcome)
    requires
        m.wf(),
    ensures
        match m.step(outcome).1 {
            DaemonAction::SetLine { pump_number, value } => {
                let next = m.step(outcome).0;
                &&& next.held_line() == Some(pump_number)
                &&& next.pump_queue[0].pump_number == pump_number
                &&& next.pump_states[pump_number - 1].is_running
                &&& value == if next.worker == WorkerState::Draining(Stage::Engaging) {
                    m.active_level()
                } else {
                    m.idle_level()
                }
            },
            DaemonAction::Sleep { milliseconds } => {
                let next = m.step(outcome).0;
                &&& next.worker == WorkerState::Draining(Stage::Holding)
                &&& next.pump_queue[0].duration_in_milliseconds == milliseconds
                &&& next.pump_states[next.pump_queue[0].pump_number - 1].is_running
            },
            _ => true,
        },
{
    lemma_step_keeps_invariant(m, outcome);
}

/// The course of a job. A daemon that stands at a boundary, is to run and
/// finds a job at the head of the queue asks for four things in turn: the
/// active level on the job's line, the job's duration, the inactive level on
/// the same line, and another step. The line is marked as running from the
/// first to the third, and in the end the job is gone and everything else is
/// as it was.
pub proof fn lemma_course_of_a_job(m: ServiceModel)
    requires
        m.wf(),
        m.fault is None,
        m.worker is Idle,
        m.run_daemon,
        m.pump_queue.len() > 0,
    ensures
        ({
            let job = m.pump_queue[0];
            let (engaging, first) = m.step(Outcome::Done);
            let (holding, second) = engaging.step(Outcome::Done);
            let (releasing, third) = holding.step(Outcome::Done);
            let (done, fourth) = releasing.step(Outcome::Done);
            &&& first == DaemonAction::SetLine {
                pump_number: job.pump_number,
                value: m.active_level(),
            }
            &&& second == DaemonAction::Sleep { milliseconds: job.duration_in_milliseconds }
            &&& third == DaemonAction::SetLine {
                pump_number: job.pump_number,
                value: m.idle_level(),
            }
            &&& fourth == DaemonAction::Proceed
            &&& engaging.held_line() == Some(job.pump_number)
            &&& holding.held_line() == Some(job.pump_number)
            &&& releasing.held_line() == Some(job.pump_number)
            &&& engaging.pump_queue == m.pump_queue
            &&& holding.pump_queue == m.pump_queue
            &&& releasing.pump_queue == m.pump_queue
            &&& done == ServiceModel { pump_queue: m.pump_queue.drop_first(), ..m }
        }),
{
    let job = m.pump_queue[0];
    assert(valid_line(job.pump_number, m.number_of_pumps()));
    let done = m.step(Outcome::Done).0.step(Outcome::Done).0.step(Outcome::Done).0.step(
        Outcome::Done,
    ).0;
    assert(done.pump_states =~= m.pump_states);
}

/// The state after `n` steps of the daemon, the work of each of which ends
/// well.
pub open spec fn after_steps(m: ServiceModel, n: nat) -> ServiceModel
    decreases n,
{
    if n == 0 {
        m
    } else {
        after_steps(m.step(Outcome::Done).0, (n - 1) as nat)
    }
}

/// The time in milliseconds that the daemon asks to sleep for during `n`
/// such steps.
pub open spec fn time_slept(m: ServiceModel, n: nat) -> int
    decreases n,
{
    if n == 0 {
        0
    } else {
        (match m.step(Outcome::Done).1 {
            DaemonAction::Sleep { milliseconds } => milliseconds as int,
            _ => 0,
        }) + time_slept(m.step(Outcome::Done).0, (n - 1) as nat)
    }
}

/// The durations of the jobs of `queue`, added up.
pub open spec fn total_duration(queue: Seq<PumpJob>) -> int
    decreases queue.len(),
{
    if queue.len() == 0 {
        0
    } else {
        queue[0].duration_in_milliseconds + total_duration(queue.drop_first())
    }
}

/// A daemon that is left to run drains the queue: from a boundary, four
/// steps per job take every job off the queue and leave everything else as
/// it was, the time slept is the time that the jobs ask for, and the next
/// step finds nothing to do and waits.
pub proof fn lemma_queue_drains(m: ServiceModel)
    requires
        m.wf(),
        m.fault is None,
        m.worker is Idle,
        m.run_daemon,
    ensures
        ({
            let drained = after_steps(m, 4 * m.pump_queue.len());
            &&& drained == ServiceModel { pump_queue: Seq::empty(), ..m }
            &&& time_slept(m, 4 * m.pump_queue.len()) == total_duration(m.pump_queue)
            &&& drained.step(Outcome::Done) == (drained, DaemonAction::Wait)
        }),
    decreases m.pump_queue.len(),
{
    if m.pump_queue.len() == 0 {
        assert(m.pump_queue =~= Seq::empty());
    } else {
        let rest = ServiceModel { pump_queue: m.pump_queue.drop_first(), ..m };
        lemma_course_of_a_job(m);
        assert(rest.wf()) by {
            assert forall|i: int| 0 <= i < rest.pump_queue.len() implies valid_line(
                (#[trigger] rest.pump_queue[i]).pump_number,
                rest.number_of_pumps(),
            ) by {
                assert(rest.pump_queue[i] == m.pump_queue[i + 1]);
            }
        }
        lemma_queue_drains(rest);
        reveal_with_fuel(after_steps, 5);
        reveal_with_fuel(time_slept, 5);
        assert(4 * m.pump_queue.len() == 4 + 4 * rest.pump_queue.len());
    }
}

/// Once the inactive level of a job's line is written, the job is gone from
/// the queue, no line is marked as running, and the daemon stands at a job
/// boundary.
pub proof fn lemma_finished_job_is_gone(m: ServiceModel)
    requires
        m.wf(),
        m.fault is None,
        m.worker == WorkerState::Draining(Stage::Releasing),
    ensures
        m.step(Outcome::Done) == (m.finish(), DaemonAction::Proceed),
        m.finish().pump_queue == m.pump_queue.drop_first(),
        !m.finish().pump_states[m.pump_queue[0].pump_number - 1].is_running,
        none_running(m.finish().pump_states),
        m.finish().worker is Idle,
{
    lemma_step_keeps_invariant(m, Outcome::Done);
}

/// A job under way runs to completion: while the daemon holds a line, its
/// steps take no notice of the stop request.
pub proof fn lemma_job_is_not_interrupted(m: ServiceModel, outcome: Outcome)
    requires
        m.wf(),
        m.worker is Draining,
    ensures
        m.step(outcome).1 == (ServiceModel { run_daemon: !m.run_daemon, ..m }).step(outcome).1,
        m.step(outcome).0 == (ServiceModel {
            run_daemon: m.run_daemon,
            ..(ServiceModel { run_daemon: !m.run_daemon, ..m }).step(outcome).0
        }),
        !(m.step(outcome).0.worker is Stopped),
        !(m.step(outcome).1 is Exit),
{
}

/// At a job boundary a stop request ends the daemon: it takes up no job and
/// returns.
pub proof fn lemma_stop_is_seen_at_boundary(m: ServiceModel)
    requires
        m.wf(),
        m.fault is None,
        m.worker is Idle,
        !m.run_daemon,
    ensures
        m.step(Outcome::Done) == (
            ServiceModel { worker: WorkerState::Stopped, ..m },
            DaemonAction::Exit,
        ),
{
}

/// Asking the daemon to stop a second time changes nothing, and a daemon is
/// let go of only once it has stopped.
pub proof fn lemma_kill_is_idempotent(m: ServiceModel)
    ensures
        m.kill().kill() == m.kill(),
        m.kill().joined().kill() == m.kill().joined(),
        m.joined().worker is Absent ==> m.worker is Absent || m.worker is Stopped,
{
}

/// A fatal error is final: once halted, the daemon answers every step with
/// the same error and changes nothing, so the line that it held stays marked
/// and the job stays at the head of the queue.
pub proof fn lemma_fault_is_final(m: ServiceModel, outcome: Outcome)
    requires
        m.wf(),
        m.fault is Some,
    ensures
        m.step(outcome) == (m, DaemonAction::Abort(m.fault->0)),
        m.fault->0 == PumpError::DriverFailure || m.fault->0 == PumpError::LockCorruption,
{
}

/// A failure halts a live daemon at once, whatever it was doing.
pub proof fn lemma_failure_halts(m: ServiceModel)
    requires
        m.wf(),
        m.fault is None,
        m.worker is Idle || m.worker is Draining,
    ensures
        m.step(Outcome::Failed) == (
            ServiceModel { fault: Some(m.failure()), ..m },
            DaemonAction::Abort(m.failure()),
        ),
        m.failure() == PumpError::DriverFailure <==> (m.worker == WorkerState::Draining(
            Stage::Engaging,
        ) || m.worker == WorkerState::Draining(Stage::Releasing)),
        m.failure() == PumpError::DriverFailure || m.failure() == PumpError::LockCorruption,
{
}

} // verus!
