//! Requests to pump, from the text that arrives to the job in the queue,
//! and the messages that go back when a request is turned down.

use crate::messages::{job_fields, scheduling_pump_message};
use crate::models::{GenericError, PumpJob};
use crate::pump_service::{valid_line, PumpError, PumpService, ServiceModel};
use crate::resources::ResourceService;
use crate::text::{
    all_digits, chars_of, decimal_u32, lemma_decimal_value_is_not_negative, parse_decimal,
    trim_bounds, trimmed, unsigned_digits,
};
use vstd::prelude::*;

verus! {

/// Why a request was turned down.
#[derive(Clone, Copy, Debug, PartialEq, Eq, Structural)]
pub enum RequestError {
    /// The request names no volume: its text is empty or blank.
    MissingVolume,
    /// The text of the request is not a number of millilitres.
    MalformedVolume,
    /// There is no pump of that number.
    InvalidLine,
    /// The volume is zero.
    InvalidVolume,
    /// Pumping the volume would take longer than a job can say.
    DurationOverflow,
    /// The message that tells of the job cannot be made.
    MissingMessage,
}

/// A request that was accepted: the queue with the new job at its end, and
/// the message that tells of the job.
#[derive(Debug)]
pub struct Scheduled {
    pub queue: Vec<PumpJob>,
    pub message: String,
}

/// The volume that the text `input` asks for, or why it asks for none:
/// blanks at its ends do not count, what is left has to be there and to be a
/// number that fits 32 bits.
pub open spec fn requested_volume(input: Seq<char>) -> Result<u32, RequestError> {
    if trimmed(input).len() == 0 {
        Err(RequestError::MissingVolume)
    } else {
        match decimal_u32(trimmed(input)) {
            Some(ml_to_pump) => Ok(ml_to_pump),
            None => Err(RequestError::MalformedVolume),
        }
    }
}

/// Why the service in state `m` turns down a request for `ml_to_pump`
/// millilitres from pump `pump_number`, if it does: the pump number is looked
/// at first, then the volume, then the time that it takes, then the message
/// that tells of the job.
pub open spec fn refusal(
    resources: &ResourceService,
    m: ServiceModel,
    pump_number: u8,
    ml_to_pump: u32,
) -> Option<RequestError> {
    if !valid_line(pump_number, m.number_of_pumps()) {
        Some(RequestError::InvalidLine)
    } else if ml_to_pump == 0 {
        Some(RequestError::InvalidVolume)
    } else if !m.fits(ml_to_pump) {
        Some(RequestError::DurationOverflow)
    } else if scheduling_text(resources, m, pump_number, ml_to_pump) is None {
        Some(RequestError::MissingMessage)
    } else {
        None
    }
}

/// The message that tells of the job that a request becomes.
pub open spec fn scheduling_text(
    resources: &ResourceService,
    m: ServiceModel,
    pump_number: u8,
    ml_to_pump: u32,
) -> Option<Seq<char>> {
    resources.rendered(
        "scheduling_pump_info_message_template"@,
        job_fields(m.job_for(pump_number, ml_to_pump)),
    )
}

/// The name of the string that tells of `error`, where the message is one
/// of the named strings.
pub open spec fn message_name(error: RequestError) -> Option<Seq<char>> {
    match error {
        RequestError::MissingVolume => Some("expected_ml_to_pump_error_message"@),
        RequestError::MalformedVolume => Some("ml_to_pump_parse_error_message"@),
        RequestError::InvalidVolume => Some("invalid_ml_to_pump_error_message"@),
        _ => None,
    }
}

/// The message that tells of `error`, given the named strings of
/// `resources`: fixed words for a pump that does not exist, a named string
/// for a volume that is missing, malformed or zero, and none for a duration
/// out of range, for a job without message or where the named string is
/// missing.
pub open spec fn message_for(resources: &ResourceService, error: RequestError) -> Option<
    Seq<char>,
> {
    match error {
        RequestError::InvalidLine => Some("Invalid pump number"@),
        RequestError::DurationOverflow => None,
        RequestError::MissingMessage => None,
        _ => resources.resource(message_name(error)->0),
    }
}

/// Reads the volume that a request asks for.
pub fn parse_ml_to_pump(ml_to_pump_input: &str) -> (volume: Result<u32, RequestError>)
    ensures
        volume == requested_volume(ml_to_pump_input@),
{
    let chars = chars_of(ml_to_pump_input);
    let (start, end) = trim_bounds(&chars);
    if start == end {
        return Err(RequestError::MissingVolume);
    }
    proof {
        let digits = unsigned_digits(trimmed(ml_to_pump_input@));
        if all_digits(digits) {
            lemma_decimal_value_is_not_negative(digits);
        }
    }
    match parse_decimal(&chars, start, end) {
        Some(value) => if value <= u32::MAX as u64 {
            Ok(value as u32)
        } else {
            Err(RequestError::MalformedVolume)
        },
        None => Err(RequestError::MalformedVolume),
    }
}

/// Handles a request to pump: reads the volume from `ml_to_pump_input`,
/// makes the message that tells of the job and schedules the job on pump
/// `pump_number`.
///
/// The request is turned down, and the service left as it was, where the
/// text names no volume, where the service refuses the pump or the volume,
/// where the duration does not fit, or where the message cannot be made.
/// Otherwise the job joins the queue, and the queue and the message are
/// returned; the caller wakes the daemon afterwards.
pub fn pump_number_post(
    resource_service: &ResourceService,
    pump_service: &mut PumpService,
    pump_number: u8,
    ml_to_pump_input: &str,
) -> (response: Result<Scheduled, RequestError>)
    requires
        old(pump_service).wf(),
    ensures
        final(pump_service).wf(),
        match response {
            Ok(scheduled) => {
                &&& requested_volume(ml_to_pump_input@) matches Ok(ml_to_pump)
                &&& refusal(resource_service, old(pump_service)@, pump_number, ml_to_pump) is None
                &&& old(pump_service)@.enqueue(pump_number, ml_to_pump) == Ok::<
                    ServiceModel,
                    PumpError,
                >(final(pump_service)@)
                &&& scheduled.queue@ == final(pump_service)@.pump_queue
                &&& scheduling_text(
                    resource_service,
                    old(pump_service)@,
                    pump_number,
                    ml_to_pump,
                ) == Some(scheduled.message@)
            },
            Err(error) => {
                &&& final(pump_service)@ == old(pump_service)@
                &&& match requested_volume(ml_to_pump_input@) {
                    Ok(ml_to_pump) => refusal(
                        resource_service,
                        old(pump_service)@,
                        pump_number,
                        ml_to_pump,
                    ) == Some(error),
                    Err(unread) => error == unread,
                }
            },
        },
{
    let ml_to_pump = match parse_ml_to_pump(ml_to_pump_input) {
        Ok(ml_to_pump) => ml_to_pump,
        Err(error) => {
            return Err(error);
        },
    };
    if !PumpService::pump_number_is_valid(pump_number, pump_service.get_number_of_pumps()) {
        return Err(RequestError::InvalidLine);
    }
    if ml_to_pump == 0 {
        return Err(RequestError::InvalidVolume);
    }
    let duration_in_milliseconds: u64 = match pump_service.duration_for(ml_to_pump) {
        Some(duration_in_milliseconds) => duration_in_milliseconds,
        None => {
            return Err(RequestError::DurationOverflow);
        },
    };
    let job = PumpJob { pump_number, duration_in_milliseconds };
    let message: String = match scheduling_pump_message(resource_service, &job) {
        Some(message) => message,
        None => {
            return Err(RequestError::MissingMessage);
        },
    };
    match pump_service.enqueue_pump(pump_number, ml_to_pump) {
        Ok(queue) => Ok(Scheduled { queue, message }),
        Err(PumpError::InvalidLine) => Err(RequestError::InvalidLine),
        Err(_) => Err(RequestError::InvalidVolume),
    }
}

/// The body of the response that turns a request down for `error`, or
/// `None` where there is no message to send.
pub fn rejection(resource_service: &ResourceService, error: RequestError) -> (body: Option<
    GenericError,
>)
    ensures
        match body {
            Some(generic_error) => message_for(resource_service, error) == Some(
                generic_error.message@,
            ),
            None => message_for(resource_service, error) is None,
        },
{
    let message = match error {
        RequestError::MissingVolume => resource_service.get_resource_string_by_name(
            "expected_ml_to_pump_error_message",
        ),
        RequestError::MalformedVolume => resource_service.get_resource_string_by_name(
            "ml_to_pump_parse_error_message",
        ),
        RequestError::InvalidVolume => resource_service.get_resource_string_by_name(
            "invalid_ml_to_pump_error_message",
        ),
        RequestError::InvalidLine => Some("Invalid pump number".to_owned()),
        RequestError::DurationOverflow => None,
        RequestError::MissingMessage => None,
    };
    match message {
        Some(message) => Some(GenericError { message }),
        None => None,
    }
}

} // verus!
