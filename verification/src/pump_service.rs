//! The pump service: validation, the job queue, the state table and the
//! daemon that drains the queue.
//!
//! The service is a state machine over plain data. Callers append jobs and
//! read snapshots. The daemon is driven from outside one step at a time:
//! each step takes the outcome of the work that the previous step asked for
//! and answers with the next piece of work ([`DaemonAction`]). Whoever runs
//! the daemon performs that work (writing a line's level, sleeping, waiting
//! for a wake-up) and comes back with the outcome.

use crate::models::{PumpJob, PumpState};
use std::collections::VecDeque;
use vstd::prelude::*;

verus! {

/// Why a request was rejected, or why the daemon halted.
///
/// `InvalidLine` and `InvalidVolume` are handed back to the caller and leave
/// the service untouched. `DriverFailure` and `LockCorruption` are fatal: the
/// daemon halts where it stands and never resumes.
#[derive(Clone, Copy, Debug, PartialEq, Eq, Structural)]
pub enum PumpError {
    InvalidLine,
    InvalidVolume,
    DriverFailure,
    LockCorruption,
}

/// Where the daemon stands within the job at the head of the queue.
#[derive(Clone, Copy, Debug, PartialEq, Eq, Structural)]
pub enum Stage {
    /// The line is marked as running; its active level is being written.
    Engaging,
    /// The active level is written; the job's duration is running down.
    Holding,
    /// The duration is over; the inactive level is being written.
    Releasing,
}

/// Life cycle of the daemon.
#[derive(Clone, Copy, Debug, PartialEq, Eq, Structural)]
pub enum WorkerState {
    /// No daemon exists: none was started, or the last one was joined.
    Absent,
    /// The daemon is at a job boundary and holds no line: it has just been
    /// started, has just finished a job, or waits for a wake-up.
    Idle,
    /// The daemon is working on the job at the head of the queue.
    Draining(Stage),
    /// The daemon has seen the stop request and returned.
    Stopped,
}

/// How the work asked for by the previous step ended.
#[derive(Clone, Copy, Debug, PartialEq, Eq, Structural)]
pub enum Outcome {
    Done,
    Failed,
}

/// The work that the daemon asks for next.
#[derive(Clone, Copy, Debug, PartialEq, Eq, Structural)]
pub enum DaemonAction {
    /// Write `value` to the line of pump `pump_number`.
    SetLine { pump_number: u8, value: u8 },
    /// Block for this many milliseconds.
    Sleep { milliseconds: u64 },
    /// Block until the service is notified.
    Wait,
    /// Nothing to carry out: let go of the service and step again.
    Proceed,
    /// Leave the daemon's loop: it has stopped, or there is none.
    Exit,
    /// Terminate the process: the daemon has halted on a fatal error.
    Abort(PumpError),
}

/// `pump_number` names one of `number_of_pumps` lines, counted from one.
pub open spec fn valid_line(pump_number: u8, number_of_pumps: u8) -> bool {
    0 < pump_number <= number_of_pumps
}

/// The state table `states` lists the lines in order, counted from one, and
/// marks as running the line `held` and no other.
pub open spec fn table_shows(states: Seq<PumpState>, held: Option<u8>) -> bool {
    forall|i: int|
        0 <= i < states.len() ==> #[trigger] states[i] == (PumpState {
            pump_number: (i + 1) as u8,
            is_running: held == Some((i + 1) as u8),
        })
}

/// No two records of `states` are marked as running.
pub open spec fn at_most_one_running(states: Seq<PumpState>) -> bool {
    forall|i: int, j: int|
        0 <= i < states.len() && 0 <= j < states.len() && (#[trigger] states[i]).is_running && (
        #[trigger] states[j]).is_running ==> i == j
}

/// No record of `states` is marked as running.
pub open spec fn none_running(states: Seq<PumpState>) -> bool {
    forall|i: int| 0 <= i < states.len() ==> !(#[trigger] states[i]).is_running
}

/// Every job of `queue` targets one of `number_of_pumps` lines.
pub open spec fn jobs_in_range(queue: Seq<PumpJob>, number_of_pumps: u8) -> bool {
    forall|i: int|
        0 <= i < queue.len() ==> valid_line((#[trigger] queue[i]).pump_number, number_of_pumps)
}

/// The mathematical state of a pump service.
pub struct ServiceModel {
    pub is_relay_inverted: bool,
    pub pump_pin_numbers: Seq<u32>,
    pub ms_per_ml: u64,
    pub pump_states: Seq<PumpState>,
    pub pump_queue: Seq<PumpJob>,
    pub run_daemon: bool,
    pub worker: WorkerState,
    pub fault: Option<PumpError>,
}

impl ServiceModel {
    /// The state of a freshly configured service: every line idle, nothing
    /// queued, the daemon allowed to run but not yet started.
    pub open spec fn initial(
        is_relay_inverted: bool,
        pump_pin_numbers: Seq<u32>,
        ms_per_ml: u64,
    ) -> Self {
        ServiceModel {
            is_relay_inverted,
            pump_pin_numbers,
            ms_per_ml,
            pump_states: Seq::new(
                pump_pin_numbers.len(),
                |i: int| PumpState { pump_number: (i + 1) as u8, is_running: false },
            ),
            pump_queue: Seq::empty(),
            run_daemon: true,
            worker: WorkerState::Absent,
            fault: None,
        }
    }

    /// The number of lines, one per pin.
    pub open spec fn number_of_pumps(self) -> u8 {
        self.pump_pin_numbers.len() as u8
    }

    /// The level that switches a pump on.
    pub open spec fn active_level(self) -> u8 {
        if self.is_relay_inverted {
            0
        } else {
            1
        }
    }

    /// The level that switches a pump off.
    pub open spec fn idle_level(self) -> u8 {
        if self.is_relay_inverted {
            1
        } else {
            0
        }
    }

    /// The line that the daemon holds: that of the head job while the daemon
    /// is draining, none otherwise.
    pub open spec fn held_line(self) -> Option<u8> {
        if self.worker is Draining {
            Some(self.pump_queue[0].pump_number)
        } else {
            None
        }
    }

    /// The invariant of a service.
    ///
    /// There are at most 255 lines, the state table has one record per line
    /// in line order, a line is marked as running exactly while the daemon
    /// holds it, every queued job targets a configured line, the daemon
    /// drains only a queue that has a head, and only fatal errors halt it.
    pub open spec fn wf(self) -> bool {
        &&& self.pump_pin_numbers.len() <= u8::MAX
        &&& self.pump_states.len() == self.pump_pin_numbers.len()
        &&& table_shows(self.pump_states, self.held_line())
        &&& jobs_in_range(self.pump_queue, self.number_of_pumps())
        &&& self.worker is Draining ==> self.pump_queue.len() > 0
        &&& self.fault matches Some(e) ==> {
            &&& e == PumpError::DriverFailure || e == PumpError::LockCorruption
            &&& self.worker is Idle || self.worker is Draining
        }
    }

    /// The job that a request for `ml_to_pump` millilitres from pump
    /// `pump_number` becomes.
    pub open spec fn job_for(self, pump_number: u8, ml_to_pump: u32) -> PumpJob {
        PumpJob {
            pump_number,
            duration_in_milliseconds: (ml_to_pump * self.ms_per_ml) as u64,
        }
    }

    /// The duration of `ml_to_pump` millilitres fits the job's field.
    pub open spec fn fits(self, ml_to_pump: u32) -> bool {
        ml_to_pump * self.ms_per_ml <= u64::MAX
    }

    /// Submission of a job: rejected for a line out of range, then for an
    /// empty volume; otherwise the job joins the end of the queue and the
    /// daemon is told to run.
    pub open spec fn enqueue(self, pump_number: u8, ml_to_pump: u32) -> Result<Self, PumpError> {
        if !valid_line(pump_number, self.number_of_pumps()) {
            Err(PumpError::InvalidLine)
        } else if ml_to_pump == 0 {
            Err(PumpError::InvalidVolume)
        } else {
            Ok(
                ServiceModel {
                    pump_queue: self.pump_queue.push(self.job_for(pump_number, ml_to_pump)),
                    run_daemon: true,
                    ..self
                },
            )
        }
    }

    /// A daemon comes into being, unless there is one already.
    pub open spec fn start(self) -> Self {
        if self.worker is Absent {
            ServiceModel { worker: WorkerState::Idle, ..self }
        } else {
            self
        }
    }

    /// The daemon is asked to stop; without a daemon nothing changes.
    pub open spec fn kill(self) -> Self {
        if self.worker is Absent {
            self
        } else {
            ServiceModel { run_daemon: false, ..self }
        }
    }

    /// A daemon that has stopped is let go of.
    pub open spec fn joined(self) -> Self {
        if self.worker is Stopped {
            ServiceModel { worker: WorkerState::Absent, ..self }
        } else {
            self
        }
    }

    /// The state table with the record of `pump_number` set to `is_running`.
    pub open spec fn marked(self, pump_number: u8, is_running: bool) -> Seq<PumpState> {
        self.pump_states.update(pump_number as int - 1, PumpState { pump_number, is_running })
    }

    /// The decision at a job boundary: stop if asked to, else take up the
    /// head of the queue, else wait.
    pub open spec fn dispatch(self) -> (Self, DaemonAction) {
        if !self.run_daemon {
            (ServiceModel { worker: WorkerState::Stopped, ..self }, DaemonAction::Exit)
        } else if self.pump_queue.len() > 0 {
            let job = self.pump_queue[0];
            (
                ServiceModel {
                    worker: WorkerState::Draining(Stage::Engaging),
                    pump_states: self.marked(job.pump_number, true),
                    ..self
                },
                DaemonAction::SetLine { pump_number: job.pump_number, value: self.active_level() },
            )
        } else {
            (ServiceModel { worker: WorkerState::Idle, ..self }, DaemonAction::Wait)
        }
    }

    /// The head job is over: its line is idle again and the job is gone.
    pub open spec fn finish(self) -> Self {
        ServiceModel {
            worker: WorkerState::Idle,
            pump_states: self.marked(self.pump_queue[0].pump_number, false),
            pump_queue: self.pump_queue.drop_first(),
            ..self
        }
    }

    /// The fatal error that a failure amounts to: a driver failure while a
    /// level is being written, a corrupted lock while the daemon blocks.
    pub open spec fn failure(self) -> PumpError {
        match self.worker {
            WorkerState::Draining(Stage::Engaging) => PumpError::DriverFailure,
            WorkerState::Draining(Stage::Releasing) => PumpError::DriverFailure,
            _ => PumpError::LockCorruption,
        }
    }

    /// One step of the daemon.
    ///
    /// A halted daemon stays halted. Without a daemon, or with one that has
    /// stopped, there is nothing to do. A failure halts the daemon where it
    /// stands. Otherwise an idle daemon decides at the boundary, and a
    /// draining one moves on to the next stage of its job, the last of which
    /// ends at the boundary again. The stop request is looked at only at a
    /// boundary.
    pub open spec fn step(self, outcome: Outcome) -> (Self, DaemonAction) {
        if let Some(e) = self.fault {
            (self, DaemonAction::Abort(e))
        } else {
            match self.worker {
                WorkerState::Absent => (self, DaemonAction::Exit),
                WorkerState::Stopped => (self, DaemonAction::Exit),
                _ => if outcome is Failed {
                    (
                        ServiceModel { fault: Some(self.failure()), ..self },
                        DaemonAction::Abort(self.failure()),
                    )
                } else {
                    match self.worker {
                        WorkerState::Draining(Stage::Engaging) => (
                            ServiceModel {
                                worker: WorkerState::Draining(Stage::Holding),
                                ..self
                            },
                            DaemonAction::Sleep {
                                milliseconds: self.pump_queue[0].duration_in_milliseconds,
                            },
                        ),
                        WorkerState::Draining(Stage::Holding) => (
                            ServiceModel {
                                worker: WorkerState::Draining(Stage::Releasing),
                                ..self
                            },
                            DaemonAction::SetLine {
                                pump_number: self.pump_queue[0].pump_number,
                                value: self.idle_level(),
                            },
                        ),
                        WorkerState::Draining(Stage::Releasing) => (
                            self.finish(),
                            DaemonAction::Proceed,
                        ),
                        _ => self.dispatch(),
                    }
                },
            }
        }
    }
}

/// The pump service.
pub struct PumpService {
    is_relay_inverted: bool,
    pump_pin_numbers: Vec<u32>,
    ms_per_ml: u64,
    pump_states: Vec<PumpState>,
    pump_queue: VecDeque<PumpJob>,
    run_daemon: bool,
    worker: WorkerState,
    fault: Option<PumpError>,
}

impl View for PumpService {
    type V = ServiceModel;

    closed spec fn view(&self) -> ServiceModel {
        ServiceModel {
            is_relay_inverted: self.is_relay_inverted,
            pump_pin_numbers: self.pump_pin_numbers@,
            ms_per_ml: self.ms_per_ml,
            pump_states: self.pump_states@,
            pump_queue: self.pump_queue@,
            run_daemon: self.run_daemon,
            worker: self.worker,
            fault: self.fault,
        }
    }
}

impl PumpService {
    /// The invariant that every service keeps.
    pub open spec fn wf(&self) -> bool {
        self@.wf()
    }

    /// Configures a service for the pumps wired to `pump_pin_numbers`, in
    /// pump order, with `ms_per_ml` milliseconds of pumping per millilitre.
    pub fn new(is_relay_inverted: bool, pump_pin_numbers: Vec<u32>, ms_per_ml: u64) -> (service:
        PumpService)
        requires
            pump_pin_numbers@.len() <= u8::MAX,
        ensures
            service.wf(),
            service@ == ServiceModel::initial(is_relay_inverted, pump_pin_numbers@, ms_per_ml),
    {
        let mut pump_states: Vec<PumpState> = Vec::new();
        let mut pump_number: u8 = 0;
        while (pump_number as usize) < pump_pin_numbers.len()
            invariant
                pump_pin_numbers@.len() <= u8::MAX,
                pump_number <= pump_pin_numbers@.len(),
                pump_states@.len() == pump_number,
                forall|i: int|
                    0 <= i < pump_number ==> #[trigger] pump_states@[i] == (PumpState {
                        pump_number: (i + 1) as u8,
                        is_running: false,
                    }),
            decreases pump_pin_numbers@.len() - pump_number,
        {
            pump_number = pump_number + 1;
            pump_states.push(PumpState { pump_number, is_running: false });
        }
        let service = PumpService {
            is_relay_inverted,
            pump_pin_numbers,
            ms_per_ml,
            pump_states,
            pump_queue: VecDeque::new(),
            run_daemon: true,
            worker: WorkerState::Absent,
            fault: None,
        };
        assert(service@.pump_states =~= ServiceModel::initial(
            is_relay_inverted,
            service@.pump_pin_numbers,
            ms_per_ml,
        ).pump_states);
        service
    }

    /// The number of configured pumps.
    pub fn get_number_of_pumps(&self) -> (n: u8)
        requires
            self.wf(),
        ensures
            n == self@.number_of_pumps(),
            n == self@.pump_pin_numbers.len(),
    {
        self.pump_pin_numbers.len() as u8
    }

    /// The job that the daemon works on, if it works on one: the head of
    /// the queue while the daemon is draining.
    pub fn get_current_job(&self) -> (job: Option<PumpJob>)
        requires
            self.wf(),
        ensures
            job == if self@.worker is Draining {
                Some(self@.pump_queue[0])
            } else {
                None
            },
    {
        match self.worker {
            WorkerState::Draining(_) => Some(self.pump_queue[0]),
            _ => None,
        }
    }

    /// Where the daemon stands.
    pub fn get_worker_state(&self) -> (worker: WorkerState)
        ensures
            worker == self@.worker,
    {
        self.worker
    }

    /// The fatal error on which the daemon has halted, if it has.
    pub fn get_fault(&self) -> (fault: Option<PumpError>)
        ensures
            fault == self@.fault,
    {
        self.fault
    }

    /// Whether the daemon is to keep running when it next stands at a job
    /// boundary.
    pub fn get_run_daemon(&self) -> (run_daemon: bool)
        ensures
            run_daemon == self@.run_daemon,
    {
        self.run_daemon
    }

    /// The pin that pump `pump_number` is wired to.
    pub fn get_pin_number(&self, pump_number: u8) -> (pin_number: u32)
        requires
            self.wf(),
            valid_line(pump_number, self@.number_of_pumps()),
        ensures
            pin_number == self@.pump_pin_numbers[pump_number - 1],
    {
        self.pump_pin_numbers[pump_number as usize - 1]
    }

    /// Whether `pump_number` names one of `number_of_pumps` pumps.
    pub fn pump_number_is_valid(pump_number: u8, number_of_pumps: u8) -> (valid: bool)
        ensures
            valid == valid_line(pump_number, number_of_pumps),
    {
        pump_number > 0 && pump_number <= number_of_pumps
    }

    /// The time that pumping `ml_to_pump` millilitres takes, in
    /// milliseconds; `None` where it does not fit a job's duration.
    pub fn duration_for(&self, ml_to_pump: u32) -> (duration: Option<u64>)
        ensures
            duration is Some <==> self@.fits(ml_to_pump),
            duration matches Some(d) ==> d == ml_to_pump * self@.ms_per_ml,
    {
        (ml_to_pump as u64).checked_mul(self.ms_per_ml)
    }

    /// Schedules `ml_to_pump` millilitres from pump `pump_number`.
    ///
    /// A pump number out of range is rejected with `InvalidLine`, then an
    /// empty volume with `InvalidVolume`, whatever the rest of the request;
    /// a rejected request changes nothing. Of a request that is accepted
    /// the duration has to fit 64 bits. Otherwise the job joins the end of the queue, the daemon is
    /// told to run, and the whole queue as it then stands is returned. The
    /// caller wakes the daemon afterwards.
    pub fn enqueue_pump(&mut self, pump_number: u8, ml_to_pump: u32) -> (result: Result<
        Vec<PumpJob>,
        PumpError,
    >)
        requires
            old(self).wf(),
            valid_line(pump_number, old(self)@.number_of_pumps()) && ml_to_pump > 0 ==> old(
                self,
            )@.fits(ml_to_pump),
        ensures
            final(self).wf(),
            result is Ok <==> valid_line(pump_number, old(self)@.number_of_pumps()) && ml_to_pump
                > 0,
            match result {
                Ok(queue) => {
                    &&& old(self)@.enqueue(pump_number, ml_to_pump) == Ok::<
                        ServiceModel,
                        PumpError,
                    >(final(self)@)
                    &&& queue@ == final(self)@.pump_queue
                    &&& queue@ == old(self)@.pump_queue.push(
                        PumpJob {
                            pump_number,
                            duration_in_milliseconds: (ml_to_pump * old(self)@.ms_per_ml) as u64,
                        },
                    )
                },
                Err(e) => {
                    &&& final(self)@ == old(self)@
                    &&& old(self)@.enqueue(pump_number, ml_to_pump) == Err::<
                        ServiceModel,
                        PumpError,
                    >(e)
                    &&& e == if valid_line(pump_number, old(self)@.number_of_pumps()) {
                        PumpError::InvalidVolume
                    } else {
                        PumpError::InvalidLine
                    }
                },
            },
    {
        if !PumpService::pump_number_is_valid(pump_number, self.get_number_of_pumps()) {
            return Err(PumpError::InvalidLine);
        }
        if ml_to_pump == 0 {
            return Err(PumpError::InvalidVolume);
        }
        let duration_in_milliseconds: u64 = ml_to_pump as u64 * self.ms_per_ml;
        self.pump_queue.push_back(PumpJob { pump_number, duration_in_milliseconds });
        self.notify_daemon(false);
        Ok(self.get_pump_queue())
    }

    /// The record of pump `pump_number`, or `InvalidLine` where there is no
    /// such pump.
    pub fn get_pump_state(&self, pump_number: u8) -> (result: Result<PumpState, PumpError>)
        requires
            self.wf(),
        ensures
            match result {
                Ok(state) => {
                    &&& valid_line(pump_number, self@.number_of_pumps())
                    &&& state == self@.pump_states[pump_number - 1]
                    &&& state.pump_number == pump_number
                    &&& state.is_running == (self@.held_line() == Some(pump_number))
                },
                Err(e) => {
                    &&& !valid_line(pump_number, self@.number_of_pumps())
                    &&& e == PumpError::InvalidLine
                },
            },
    {
        if !PumpService::pump_number_is_valid(pump_number, self.get_number_of_pumps()) {
            return Err(PumpError::InvalidLine);
        }
        Ok(self.pump_states[pump_number as usize - 1])
    }

    /// The record of every pump, in pump order. At most one of them is
    /// marked as running: the line of the job that the daemon works on.
    pub fn get_pump_states(&self) -> (states: Vec<PumpState>)
        requires
            self.wf(),
        ensures
            states@ == self@.pump_states,
            states@.len() == self@.number_of_pumps(),
            table_shows(states@, self@.held_line()),
            at_most_one_running(states@),
    {
        let mut states: Vec<PumpState> = Vec::new();
        let mut i: usize = 0;
        while i < self.pump_states.len()
            invariant
                i <= self.pump_states@.len(),
                states@ == self.pump_states@.take(i as int),
            decreases self.pump_states@.len() - i,
        {
            states.push(self.pump_states[i]);
            i = i + 1;
        }
        states
    }

    /// The jobs that are waiting or under way, in submission order. The job
    /// that the daemon works on is still the first of them.
    pub fn get_pump_queue(&self) -> (queue: Vec<PumpJob>)
        ensures
            queue@ == self@.pump_queue,
    {
        let mut queue: Vec<PumpJob> = Vec::new();
        let mut i: usize = 0;
        while i < self.pump_queue.len()
            invariant
                i <= self.pump_queue@.len(),
                queue@ == self.pump_queue@.take(i as int),
            decreases self.pump_queue@.len() - i,
        {
            queue.push(self.pump_queue[i]);
            i = i + 1;
        }
        queue
    }

    /// Brings a daemon into being where there is none. Returns whether the
    /// caller is to spawn it; with a daemon already there nothing changes.
    pub fn start_daemon(&mut self) -> (spawn: bool)
        requires
            old(self).wf(),
        ensures
            final(self).wf(),
            final(self)@ == old(self)@.start(),
            spawn == (old(self)@.worker is Absent),
    {
        match self.worker {
            WorkerState::Absent => {
                self.worker = WorkerState::Idle;
                true
            },
            _ => false,
        }
    }

    /// Asks the daemon to stop. Returns whether there is a daemon, which the
    /// caller is then to wake and to wait for; without one nothing changes.
    pub fn kill_daemon(&mut self) -> (join: bool)
        requires
            old(self).wf(),
        ensures
            final(self).wf(),
            final(self)@ == old(self)@.kill(),
            join == !(old(self)@.worker is Absent),
    {
        match self.worker {
            WorkerState::Absent => false,
            _ => {
                self.notify_daemon(true);
                true
            },
        }
    }

    /// Lets go of a daemon that has returned, so that another can be
    /// started. A daemon that has not stopped stays.
    pub fn daemon_joined(&mut self)
        requires
            old(self).wf(),
        ensures
            final(self).wf(),
            final(self)@ == old(self)@.joined(),
    {
        match self.worker {
            WorkerState::Stopped => {
                self.worker = WorkerState::Absent;
            },
            _ => {},
        }
    }

    /// Sets the flag that the daemon reads at a job boundary: to stop where
    /// `kill_thread` holds, to run otherwise.
    fn notify_daemon(&mut self, kill_thread: bool)
        ensures
            final(self)@ == (ServiceModel { run_daemon: !kill_thread, ..old(self)@ }),
    {
        self.run_daemon = !kill_thread;
    }

    /// One step of the daemon: takes the outcome of the work that the last
    /// step asked for and returns the work to do next.
    ///
    /// The first step of a daemon, and the step after a wake-up, report
    /// `Done`. The lock around the service is held for the step and released
    /// while the work is carried out.
    pub fn process_queue_step(&mut self, outcome: Outcome) -> (action: DaemonAction)
        requires
            old(self).wf(),
        ensures
            final(self).wf(),
            (final(self)@, action) == old(self)@.step(outcome),
    {
        if let Some(e) = self.fault {
            return DaemonAction::Abort(e);
        }
        match self.worker {
            WorkerState::Absent => {
                return DaemonAction::Exit;
            },
            WorkerState::Stopped => {
                return DaemonAction::Exit;
            },
            _ => {},
        }
        match outcome {
            Outcome::Failed => {
                let e = self.failure();
                self.fault = Some(e);
                return DaemonAction::Abort(e);
            },
            Outcome::Done => {},
        }
        match self.worker {
            WorkerState::Draining(Stage::Engaging) => {
                self.worker = WorkerState::Draining(Stage::Holding);
                DaemonAction::Sleep { milliseconds: self.pump_queue[0].duration_in_milliseconds }
            },
            WorkerState::Draining(Stage::Holding) => {
                self.worker = WorkerState::Draining(Stage::Releasing);
                DaemonAction::SetLine {
                    pump_number: self.pump_queue[0].pump_number,
                    value: self.idle_level(),
                }
            },
            WorkerState::Draining(Stage::Releasing) => {
                self.finish_job();
                DaemonAction::Proceed
            },
            _ => self.dispatch(),
        }
    }

    /// The level that switches a pump on.
    pub fn active_level(&self) -> (value: u8)
        ensures
            value == self@.active_level(),
    {
        if self.is_relay_inverted {
            0
        } else {
            1
        }
    }

    /// The level that switches a pump off, which is also the level that a
    /// line is requested with.
    pub fn idle_level(&self) -> (value: u8)
        ensures
            value == self@.idle_level(),
    {
        if self.is_relay_inverted {
            1
        } else {
            0
        }
    }

    fn failure(&self) -> (e: PumpError)
        ensures
            e == self@.failure(),
    {
        match self.worker {
            WorkerState::Draining(Stage::Engaging) => PumpError::DriverFailure,
            WorkerState::Draining(Stage::Releasing) => PumpError::DriverFailure,
            _ => PumpError::LockCorruption,
        }
    }

    fn finish_job(&mut self)
        requires
            old(self).wf(),
            old(self)@.worker is Draining,
            old(self)@.fault is None,
        ensures
            final(self).wf(),
            final(self)@ == old(self)@.finish(),
    {
        let job = self.pump_queue[0];
        assert(valid_line(job.pump_number, self@.number_of_pumps()));
        self.pump_states.set(
            job.pump_number as usize - 1,
            PumpState { pump_number: job.pump_number, is_running: false },
        );
        let _ = self.pump_queue.pop_front();
        self.worker = WorkerState::Idle;
        assert(self@.pump_states == old(self)@.marked(job.pump_number, false));
        assert forall|i: int| 0 <= i < self@.pump_queue.len() implies valid_line(
            (#[trigger] self@.pump_queue[i]).pump_number,
            self@.number_of_pumps(),
        ) by {
            assert(self@.pump_queue[i] == old(self)@.pump_queue[i + 1]);
        }
    }

    fn dispatch(&mut self) -> (action: DaemonAction)
        requires
            old(self).wf(),
            old(self)@.worker is Idle,
            old(self)@.fault is None,
        ensures
            final(self).wf(),
            (final(self)@, action) == old(self)@.dispatch(),
    {
        if !self.run_daemon {
            self.worker = WorkerState::Stopped;
            DaemonAction::Exit
        } else if self.pump_queue.len() > 0 {
            let job = self.pump_queue[0];
            assert(valid_line(job.pump_number, self@.number_of_pumps()));
            self.pump_states.set(
                job.pump_number as usize - 1,
                PumpState { pump_number: job.pump_number, is_running: true },
            );
            self.worker = WorkerState::Draining(Stage::Engaging);
            assert(self@.pump_states == old(self)@.marked(job.pump_number, true));
            DaemonAction::SetLine { pump_number: job.pump_number, value: self.active_level() }
        } else {
            DaemonAction::Wait
        }
    }
}

} // verus!
