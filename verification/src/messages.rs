//! What the service says of its work: the lines for the log, each made from
//! a named string and the values that belong in it.

use crate::factory::LineRequest;
use crate::models::PumpJob;
use crate::pump_service::{DaemonAction, PumpError, PumpService, ServiceModel, Stage, WorkerState};
use crate::resources::ResourceService;
use crate::template::{no_fields, FieldValue, TemplateData};
use vstd::prelude::*;
use vstd::string::StringExecFns;

verus! {

/// How much a line matters.
#[derive(Clone, Copy, Debug, PartialEq, Eq, Structural)]
pub enum LogLevel {
    Debug,
    Info,
}

/// A line for the log. It has no text where its named string is missing or
/// does not render.
#[derive(Debug)]
pub struct LogLine {
    pub level: LogLevel,
    pub text: Option<String>,
}

/// Something that happens once in the life of the service.
#[derive(Clone, Copy, Debug, PartialEq, Eq, Structural)]
pub enum Notice {
    /// The lines are stand-ins without hardware.
    MockingGpio,
    /// The daemon's thread has been started.
    DaemonStarted,
    /// The daemon's thread has ended and been waited for.
    DaemonKilled,
}

/// `message` is the text `text`, or both are missing.
pub open spec fn says(message: Option<String>, text: Option<Seq<char>>) -> bool {
    match message {
        Some(message) => text == Some(message@),
        None => text is None,
    }
}

/// The fields that tell of a job: its pump and its duration.
pub open spec fn job_fields(job: PumpJob) -> Map<Seq<char>, FieldValue> {
    no_fields().insert("pump_number"@, FieldValue::Number(job.pump_number as u64)).insert(
        "milliseconds"@,
        FieldValue::Number(job.duration_in_milliseconds),
    )
}

/// The fields that tell of a level written to the line of a pump.
pub open spec fn level_fields(pump_number: u8, value: u8) -> Map<Seq<char>, FieldValue> {
    no_fields().insert("pump_number"@, FieldValue::Number(pump_number as u64)).insert(
        "value"@,
        FieldValue::Number(value as u64),
    )
}

/// The fields that tell of a chip.
pub open spec fn chip_fields(chip_name: Seq<char>) -> Map<Seq<char>, FieldValue> {
    no_fields().insert("chip_name"@, FieldValue::Text(chip_name))
}

/// The fields that tell of the request for a pump's line.
pub open spec fn line_fields(request: LineRequest) -> Map<Seq<char>, FieldValue> {
    no_fields().insert("pump_number"@, FieldValue::Number(request.pump_number as u64)).insert(
        "pin_number"@,
        FieldValue::Number(request.pin_number as u64),
    )
}

/// The name of the string that tells of `notice`.
pub open spec fn notice_name(notice: Notice) -> Seq<char> {
    match notice {
        Notice::MockingGpio => "mocking_gpio_info_message"@,
        Notice::DaemonStarted => "daemon_thread_started_message"@,
        Notice::DaemonKilled => "daemon_thread_killed_message"@,
    }
}

/// How a flag is written.
pub open spec fn flag_text(flag: bool) -> Seq<char> {
    if flag {
        "true"@
    } else {
        "false"@
    }
}

/// What is said when the daemon wakes up: a named string, and behind it the
/// flag that it finds.
pub open spec fn wake_up_text(resources: &ResourceService, run_daemon: bool) -> Option<Seq<char>> {
    match resources.resource("received_for_should_run_daemon_guard_message_template"@) {
        Some(prefix) => Some(prefix + flag_text(run_daemon)),
        None => None,
    }
}

/// What is said before the daemon takes a step: that it starts, before its
/// first step, and what it finds on waking up, after a wait. A daemon that
/// halts says neither.
pub open spec fn opening_lines(
    resources: &ResourceService,
    m: ServiceModel,
    previous: Option<DaemonAction>,
    action: DaemonAction,
) -> Seq<(LogLevel, Option<Seq<char>>)> {
    if action is Abort {
        Seq::empty()
    } else {
        match previous {
            None => seq![(LogLevel::Debug, resources.resource("starting_daemon_thread_message"@))],
            Some(DaemonAction::Wait) => seq![
                (LogLevel::Debug, wake_up_text(resources, m.run_daemon)),
            ],
            _ => Seq::empty(),
        }
    }
}

/// What is said of the work that a step asks for, in the state `m` that the
/// step leaves behind.
///
/// Before the active level is written: the job that is taken up, and the
/// level. Before the inactive level is written: the level. Before a wait:
/// that the queue is done with, and that the daemon waits. On leaving: that
/// the daemon was stopped, between jobs where the step before had finished
/// one. Of a sleep, of a step without work and of a halt nothing is said.
pub open spec fn action_lines(
    resources: &ResourceService,
    m: ServiceModel,
    previous: Option<DaemonAction>,
    action: DaemonAction,
) -> Seq<(LogLevel, Option<Seq<char>>)> {
    match action {
        DaemonAction::SetLine { pump_number, value } => if m.worker == WorkerState::Draining(
            Stage::Engaging,
        ) {
            seq![
                (
                    LogLevel::Info,
                    resources.rendered(
                        "processing_job_info_message_template"@,
                        job_fields(m.pump_queue[0]),
                    ),
                ),
                (
                    LogLevel::Debug,
                    resources.rendered(
                        "setting_pump_high_info_message_template"@,
                        level_fields(pump_number, value),
                    ),
                ),
            ]
        } else {
            seq![
                (
                    LogLevel::Debug,
                    resources.rendered(
                        "setting_pump_low_info_message_template"@,
                        level_fields(pump_number, value),
                    ),
                ),
            ]
        },
        DaemonAction::Wait => seq![
            (LogLevel::Debug, resources.resource("finished_processing_queue_info_message"@)),
            (LogLevel::Debug, resources.resource("waiting_for_should_run_daemon_guard_message"@)),
        ],
        DaemonAction::Exit => if previous == Some(DaemonAction::Proceed) {
            seq![
                (LogLevel::Debug, resources.resource("daemon_killed_while_processing_message"@)),
            ]
        } else {
            seq![(LogLevel::Debug, resources.resource("daemon_killed_message"@))]
        },
        _ => Seq::empty(),
    }
}

/// What is said at a step of the daemon.
pub open spec fn daemon_lines(
    resources: &ResourceService,
    m: ServiceModel,
    previous: Option<DaemonAction>,
    action: DaemonAction,
) -> Seq<(LogLevel, Option<Seq<char>>)> {
    opening_lines(resources, m, previous, action) + action_lines(resources, m, previous, action)
}

/// `lines` are the lines `told`, level for level and text for text.
pub open spec fn lines_say(lines: Seq<LogLine>, told: Seq<(LogLevel, Option<Seq<char>>)>) -> bool {
    &&& lines.len() == told.len()
    &&& forall|i: int|
        0 <= i < lines.len() ==> (#[trigger] lines[i]).level == told[i].0 && says(
            lines[i].text,
            told[i].1,
        )
}

/// The message that a job is scheduled.
pub fn scheduling_pump_message(resource_service: &ResourceService, job: &PumpJob) -> (message:
    Option<String>)
    ensures
        says(
            message,
            resource_service.rendered("scheduling_pump_info_message_template"@, job_fields(*job)),
        ),
{
    let data = TemplateData::new().with_number("pump_number", job.pump_number as u64).with_number(
        "milliseconds",
        job.duration_in_milliseconds,
    );
    resource_service.render_resource_template_string_by_name(
        "scheduling_pump_info_message_template",
        &data,
    )
}

/// The message that a job is taken up.
pub fn processing_job_message(resource_service: &ResourceService, job: &PumpJob) -> (message:
    Option<String>)
    ensures
        says(
            message,
            resource_service.rendered("processing_job_info_message_template"@, job_fields(*job)),
        ),
{
    let data = TemplateData::new().with_number("pump_number", job.pump_number as u64).with_number(
        "milliseconds",
        job.duration_in_milliseconds,
    );
    resource_service.render_resource_template_string_by_name(
        "processing_job_info_message_template",
        &data,
    )
}

/// The message that the level `value` is about to be written to the line of
/// pump `pump_number`: to switch it on where `active` holds, to switch it
/// off otherwise.
pub fn setting_pump_message(
    resource_service: &ResourceService,
    pump_number: u8,
    value: u8,
    active: bool,
) -> (message: Option<String>)
    ensures
        says(
            message,
            resource_service.rendered(
                if active {
                    "setting_pump_high_info_message_template"@
                } else {
                    "setting_pump_low_info_message_template"@
                },
                level_fields(pump_number, value),
            ),
        ),
{
    let data = TemplateData::new().with_number("pump_number", pump_number as u64).with_number(
        "value",
        value as u64,
    );
    if active {
        resource_service.render_resource_template_string_by_name(
            "setting_pump_high_info_message_template",
            &data,
        )
    } else {
        resource_service.render_resource_template_string_by_name(
            "setting_pump_low_info_message_template",
            &data,
        )
    }
}

/// The message that the chip named `rpi_chip_name` is about to be opened.
pub fn getting_chip_message(resource_service: &ResourceService, rpi_chip_name: &str) -> (message:
    Option<String>)
    ensures
        says(
            message,
            resource_service.rendered(
                "getting_chip_info_message_template"@,
                chip_fields(rpi_chip_name@),
            ),
        ),
{
    let data = TemplateData::new().with_text("chip_name", rpi_chip_name);
    resource_service.render_resource_template_string_by_name(
        "getting_chip_info_message_template",
        &data,
    )
}

/// The message that the line of a pump is about to be requested.
pub fn getting_line_handle_message(resource_service: &ResourceService, request: &LineRequest) -> (message:
    Option<String>)
    ensures
        says(
            message,
            resource_service.rendered(
                "getting_line_handle_info_message_template"@,
                line_fields(*request),
            ),
        ),
{
    let data = TemplateData::new().with_number(
        "pump_number",
        request.pump_number as u64,
    ).with_number("pin_number", request.pin_number as u64);
    resource_service.render_resource_template_string_by_name(
        "getting_line_handle_info_message_template",
        &data,
    )
}

/// The message that tells of `notice`.
pub fn notice_message(resource_service: &ResourceService, notice: Notice) -> (message: Option<
    String,
>)
    ensures
        says(message, resource_service.resource(notice_name(notice))),
{
    match notice {
        Notice::MockingGpio => resource_service.get_resource_string_by_name(
            "mocking_gpio_info_message",
        ),
        Notice::DaemonStarted => resource_service.get_resource_string_by_name(
            "daemon_thread_started_message",
        ),
        Notice::DaemonKilled => resource_service.get_resource_string_by_name(
            "daemon_thread_killed_message",
        ),
    }
}

/// The message with which the process ends on the fatal error `error`, where
/// there is one: there is one for a corrupted lock.
pub fn fatal_message(resource_service: &ResourceService, error: PumpError) -> (message: Option<
    String,
>)
    ensures
        says(
            message,
            if error == PumpError::LockCorruption {
                resource_service.resource("failed_to_lock_pump_states_error_message"@)
            } else {
                None
            },
        ),
{
    match error {
        PumpError::LockCorruption => resource_service.get_resource_string_by_name(
            "failed_to_lock_pump_states_error_message",
        ),
        _ => None,
    }
}

/// The message that the daemon has woken up and found the flag `run_daemon`.
pub fn wake_up_message(resource_service: &ResourceService, run_daemon: bool) -> (message: Option<
    String,
>)
    ensures
        says(message, wake_up_text(resource_service, run_daemon)),
{
    match resource_service.get_resource_string_by_name(
        "received_for_should_run_daemon_guard_message_template",
    ) {
        Some(prefix) => if run_daemon {
            Some(prefix.concat("true"))
        } else {
            Some(prefix.concat("false"))
        },
        None => None,
    }
}

/// The lines for the log at a step of the daemon: `action` is what the step
/// has just asked for, `previous` what the step before it asked for, if
/// there was one, and `pump_service` the service as the step left it.
pub fn daemon_messages(
    resource_service: &ResourceService,
    pump_service: &PumpService,
    previous: Option<DaemonAction>,
    action: DaemonAction,
) -> (lines: Vec<LogLine>)
    requires
        pump_service.wf(),
    ensures
        lines_say(lines@, daemon_lines(resource_service, pump_service@, previous, action)),
{
    let mut lines: Vec<LogLine> = Vec::new();
    let halted: bool = match action {
        DaemonAction::Abort(_) => true,
        _ => false,
    };
    if halted {
        return lines;
    }
    match previous {
        None => {
            lines.push(
                LogLine {
                    level: LogLevel::Debug,
                    text: resource_service.get_resource_string_by_name(
                        "starting_daemon_thread_message",
                    ),
                },
            );
        },
        Some(DaemonAction::Wait) => {
            lines.push(
                LogLine {
                    level: LogLevel::Debug,
                    text: wake_up_message(resource_service, pump_service.get_run_daemon()),
                },
            );
        },
        _ => {},
    }
    assert(lines_say(lines@, opening_lines(resource_service, pump_service@, previous, action)));
    let ghost opening = lines@;
    match action {
        DaemonAction::SetLine { pump_number, value } => {
            match pump_service.get_current_job() {
                Some(job) => {
                    match pump_service.get_worker_state() {
                        WorkerState::Draining(Stage::Engaging) => {
                            lines.push(
                                LogLine {
                                    level: LogLevel::Info,
                                    text: processing_job_message(resource_service, &job),
                                },
                            );
                            lines.push(
                                LogLine {
                                    level: LogLevel::Debug,
                                    text: setting_pump_message(
                                        resource_service,
                                        pump_number,
                                        value,
                                        true,
                                    ),
                                },
                            );
                        },
                        _ => {
                            lines.push(
                                LogLine {
                                    level: LogLevel::Debug,
                                    text: setting_pump_message(
                                        resource_service,
                                        pump_number,
                                        value,
                                        false,
                                    ),
                                },
                            );
                        },
                    }
                },
                None => {
                    lines.push(
                        LogLine {
                            level: LogLevel::Debug,
                            text: setting_pump_message(resource_service, pump_number, value, false),
                        },
                    );
                },
            }
        },
        DaemonAction::Wait => {
            lines.push(
                LogLine {
                    level: LogLevel::Debug,
                    text: resource_service.get_resource_string_by_name(
                        "finished_processing_queue_info_message",
                    ),
                },
            );
            lines.push(
                LogLine {
                    level: LogLevel::Debug,
                    text: resource_service.get_resource_string_by_name(
                        "waiting_for_should_run_daemon_guard_message",
                    ),
                },
            );
        },
        DaemonAction::Exit => {
            let between_jobs: bool = match previous {
                Some(DaemonAction::Proceed) => true,
                _ => false,
            };
            if between_jobs {
                lines.push(
                    LogLine {
                        level: LogLevel::Debug,
                        text: resource_service.get_resource_string_by_name(
                            "daemon_killed_while_processing_message",
                        ),
                    },
                );
            } else {
                lines.push(
                    LogLine {
                        level: LogLevel::Debug,
                        text: resource_service.get_resource_string_by_name("daemon_killed_message"),
                    },
                );
            }
        },
        _ => {},
    }
    let ghost told = action_lines(resource_service, pump_service@, previous, action);
    assert(lines@.len() == opening.len() + told.len());
    assert forall|i: int| 0 <= i < lines@.len() implies (#[trigger] lines@[i]).level
        == daemon_lines(resource_service, pump_service@, previous, action)[i].0 && says(
        lines@[i].text,
        daemon_lines(resource_service, pump_service@, previous, action)[i].1,
    ) by {
        if i < opening.len() {
            assert(lines@[i] == opening[i]);
        }
    }
    lines
}

} // verus!
