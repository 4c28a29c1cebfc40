//! Configuration of the pump service: the settings as text, the service
//! that they describe, and the lines that it asks for.

use crate::mock::{Chip, LineHandle, LineRequestFlags};
use crate::pump_service::{PumpService, ServiceModel};
use crate::text::{
    all_digits, chars_of, decimal_u32, decimal_u64, lemma_decimal_value_is_not_negative,
    parse_decimal, parse_u64, unsigned_digits,
};
use vstd::prelude::*;
use vstd::string::StringExecFns;

verus! {

/// Why a configuration describes no service.
#[derive(Clone, Copy, Debug, PartialEq, Eq, Structural)]
pub enum ConfigError {
    /// The time per millilitre is not a number that fits 64 bits.
    InvalidRate,
    /// The pin numbers are not numbers that fit 32 bits, separated by commas.
    InvalidPinNumbers,
    /// There are more pins than pump numbers.
    TooManyPumps,
}

/// What a line is requested with.
#[derive(Clone, Copy, Debug, PartialEq, Eq, Structural)]
pub struct LineRequest {
    pub pump_number: u8,
    pub pin_number: u32,
    pub default_state: u8,
}

/// Makes pump services from their configuration.
pub struct PumpServiceFactory {}

/// The relay is inverted where the setting ends in `1`.
pub open spec fn relay_inverted(value: Seq<char>) -> bool {
    value.len() > 0 && value.last() == '1'
}

/// Where the first comma of `s` stands, or the length of `s` if it has none.
pub open spec fn first_comma(s: Seq<char>) -> int
    decreases s.len(),
{
    if s.len() == 0 || s[0] == ',' {
        0
    } else {
        1 + first_comma(s.drop_first())
    }
}

/// The pin numbers that `s` lists: numbers separated by single commas, each
/// written as a number that fits 32 bits, with nothing around them. There is
/// at least one, since the empty text is no number.
pub open spec fn pin_numbers(s: Seq<char>) -> Option<Seq<u32>>
    decreases s.len(),
{
    let comma = first_comma(s);
    match decimal_u32(s.take(comma)) {
        None => None,
        Some(pin) => if 0 <= comma < s.len() {
            match pin_numbers(s.skip(comma + 1)) {
                None => None,
                Some(rest) => Some(seq![pin] + rest),
            }
        } else {
            Some(seq![pin])
        },
    }
}

/// The pin numbers `read` followed by those that are still to come, if they
/// come.
pub open spec fn followed_by(read: Seq<u32>, rest: Option<Seq<u32>>) -> Option<Seq<u32>> {
    match rest {
        None => None,
        Some(rest) => Some(read + rest),
    }
}

/// What is wrong with a configuration, if anything: the rate is looked at
/// first, then the pin numbers, then their count.
pub open spec fn configuration_error(
    milliseconds_per_ml: Seq<char>,
    ordered_pump_pin_numbers: Seq<char>,
) -> Option<ConfigError> {
    if decimal_u64(milliseconds_per_ml) is None {
        Some(ConfigError::InvalidRate)
    } else {
        match pin_numbers(ordered_pump_pin_numbers) {
            None => Some(ConfigError::InvalidPinNumbers),
            Some(pins) => if pins.len() > u8::MAX {
                Some(ConfigError::TooManyPumps)
            } else {
                None
            },
        }
    }
}

/// The service that a configuration without error describes.
pub open spec fn configured(
    is_relay_inverted: Seq<char>,
    milliseconds_per_ml: Seq<char>,
    ordered_pump_pin_numbers: Seq<char>,
) -> ServiceModel {
    ServiceModel::initial(
        relay_inverted(is_relay_inverted),
        pin_numbers(ordered_pump_pin_numbers)->0,
        decimal_u64(milliseconds_per_ml)->0,
    )
}

/// The requests for the lines of the pumps wired to `pump_pin_numbers`: one
/// per pump, in pump order, each for the pump's pin and at the level that
/// keeps the pump off.
pub open spec fn line_requests_for(pump_pin_numbers: Seq<u32>, is_relay_inverted: bool) -> Seq<
    LineRequest,
> {
    Seq::new(
        pump_pin_numbers.len(),
        |i: int|
            LineRequest {
                pump_number: (i + 1) as u8,
                pin_number: pump_pin_numbers[i],
                default_state: if is_relay_inverted {
                    1
                } else {
                    0
                },
            },
    )
}

/// The digits that write `n` in base ten, without leading zeros.
pub open spec fn decimal_digits(n: nat) -> Seq<char>
    decreases n,
{
    if n < 10 {
        seq![digit_char(n)]
    } else {
        decimal_digits(n / 10).push(digit_char(n % 10))
    }
}

/// The digit that stands for `d`.
pub open spec fn digit_char(d: nat) -> char {
    if d == 0 {
        '0'
    } else if d == 1 {
        '1'
    } else if d == 2 {
        '2'
    } else if d == 3 {
        '3'
    } else if d == 4 {
        '4'
    } else if d == 5 {
        '5'
    } else if d == 6 {
        '6'
    } else if d == 7 {
        '7'
    } else if d == 8 {
        '8'
    } else {
        '9'
    }
}

/// The name under which the line of pump `pump_number` is requested.
pub open spec fn pump_label(pump_number: u8) -> Seq<char> {
    "Pump "@ + decimal_digits(pump_number as nat)
}

/// The first comma is where no comma comes before and a comma, or the end,
/// stands.
proof fn lemma_first_comma_found(s: Seq<char>, n: int)
    requires
        0 <= n <= s.len(),
        forall|i: int| 0 <= i < n ==> #[trigger] s[i] != ',',
        n < s.len() ==> s[n] == ',',
    ensures
        first_comma(s) == n,
    decreases s.len(),
{
    if n > 0 {
        lemma_first_comma_found(s.drop_first(), n - 1);
    }
}

fn digit_text(d: u8) -> (text: &'static str)
    requires
        d < 10,
    ensures
        text@ == seq![digit_char(d as nat)],
{
    proof {
        reveal_strlit("0");
        reveal_strlit("1");
        reveal_strlit("2");
        reveal_strlit("3");
        reveal_strlit("4");
        reveal_strlit("5");
        reveal_strlit("6");
        reveal_strlit("7");
        reveal_strlit("8");
        reveal_strlit("9");
    }
    let text = if d == 0 {
        "0"
    } else if d == 1 {
        "1"
    } else if d == 2 {
        "2"
    } else if d == 3 {
        "3"
    } else if d == 4 {
        "4"
    } else if d == 5 {
        "5"
    } else if d == 6 {
        "6"
    } else if d == 7 {
        "7"
    } else if d == 8 {
        "8"
    } else {
        "9"
    };
    text
}

impl PumpServiceFactory {
    /// Whether the setting says that the relay is inverted.
    pub fn is_relay_inverted(value: &str) -> (inverted: bool)
        ensures
            inverted == relay_inverted(value@),
    {
        let chars = chars_of(value);
        chars.len() > 0 && chars[chars.len() - 1] == '1'
    }

    /// The pin numbers that the setting lists, in order.
    pub fn pump_pin_numbers(value: &str) -> (pins: Option<Vec<u32>>)
        ensures
            match pins {
                Some(pins) => pin_numbers(value@) == Some(pins@),
                None => pin_numbers(value@) is None,
            },
    {
        let chars = chars_of(value);
        let mut pins: Vec<u32> = Vec::new();
        let mut start: usize = 0;
        assert(chars@.skip(0) == chars@);
        assert(followed_by(pins@, pin_numbers(chars@)) == pin_numbers(chars@));
        loop
            invariant
                chars@ == value@,
                start <= chars@.len(),
                pin_numbers(value@) == followed_by(pins@, pin_numbers(chars@.skip(start as int))),
            decreases chars@.len() - start,
        {
            let ghost rest = chars@.skip(start as int);
            let mut end: usize = start;
            while end < chars.len() && chars[end] != ','
                invariant
                    start <= end <= chars@.len(),
                    forall|i: int| start <= i < end ==> #[trigger] chars@[i] != ',',
                decreases chars@.len() - end,
            {
                end = end + 1;
            }
            proof {
                // What is left begins with the piece from `start` up to `end`.
                lemma_first_comma_found(rest, end - start);
                assert(rest.take(end - start) == chars@.subrange(start as int, end as int));
                let digits = unsigned_digits(rest.take(end - start));
                if all_digits(digits) {
                    lemma_decimal_value_is_not_negative(digits);
                }
            }
            let pin: u32 = match parse_decimal(&chars, start, end) {
                Some(value) => if value <= u32::MAX as u64 {
                    value as u32
                } else {
                    return None;
                },
                None => {
                    return None;
                },
            };
            pins.push(pin);
            if end == chars.len() {
                return Some(pins);
            }
            assert(rest.skip(end - start + 1) == chars@.skip(end + 1));
            start = end + 1;
        }
    }

    /// The pump service that the settings describe, or what is wrong with
    /// them: `milliseconds_per_ml` is to be a number, and
    /// `ordered_pump_pin_numbers` a list of at most 255 pin numbers
    /// separated by commas, the pin of the first pump first.
    pub fn create(
        is_relay_inverted: &str,
        milliseconds_per_ml: &str,
        ordered_pump_pin_numbers: &str,
    ) -> (service: Result<PumpService, ConfigError>)
        ensures
            match service {
                Ok(service) => {
                    &&& configuration_error(milliseconds_per_ml@, ordered_pump_pin_numbers@)
                        is None
                    &&& service.wf()
                    &&& service@ == configured(
                        is_relay_inverted@,
                        milliseconds_per_ml@,
                        ordered_pump_pin_numbers@,
                    )
                },
                Err(error) => configuration_error(milliseconds_per_ml@, ordered_pump_pin_numbers@)
                    == Some(error),
            },
    {
        let inverted = PumpServiceFactory::is_relay_inverted(is_relay_inverted);
        let ms_per_ml: u64 = match parse_u64(milliseconds_per_ml) {
            Some(ms_per_ml) => ms_per_ml,
            None => {
                return Err(ConfigError::InvalidRate);
            },
        };
        let pins: Vec<u32> = match PumpServiceFactory::pump_pin_numbers(ordered_pump_pin_numbers) {
            Some(pins) => pins,
            None => {
                return Err(ConfigError::InvalidPinNumbers);
            },
        };
        if pins.len() > u8::MAX as usize {
            return Err(ConfigError::TooManyPumps);
        }
        Ok(PumpService::new(inverted, pins, ms_per_ml))
    }

    /// The pump service that the settings describe, for settings that are
    /// in order.
    pub fn create_or_panic(
        is_relay_inverted: &str,
        milliseconds_per_ml: &str,
        ordered_pump_pin_numbers: &str,
    ) -> (service: PumpService)
        requires
            configuration_error(milliseconds_per_ml@, ordered_pump_pin_numbers@) is None,
        ensures
            service.wf(),
            service@ == configured(
                is_relay_inverted@,
                milliseconds_per_ml@,
                ordered_pump_pin_numbers@,
            ),
    {
        PumpServiceFactory::create(
            is_relay_inverted,
            milliseconds_per_ml,
            ordered_pump_pin_numbers,
        ).unwrap()
    }

    /// The requests for the lines of a service, one per pump in pump order.
    pub fn get_line_requests(pump_service: &PumpService) -> (requests: Vec<LineRequest>)
        requires
            pump_service.wf(),
        ensures
            requests@ == line_requests_for(
                pump_service@.pump_pin_numbers,
                pump_service@.is_relay_inverted,
            ),
    {
        let default_state: u8 = pump_service.idle_level();
        let number_of_pumps: u8 = pump_service.get_number_of_pumps();
        let mut requests: Vec<LineRequest> = Vec::new();
        let mut pump_number: u8 = 0;
        while pump_number < number_of_pumps
            invariant
                pump_service.wf(),
                number_of_pumps == pump_service@.pump_pin_numbers.len(),
                default_state == pump_service@.idle_level(),
                pump_number <= number_of_pumps,
                requests@.len() == pump_number,
                forall|i: int|
                    0 <= i < pump_number ==> #[trigger] requests@[i] == line_requests_for(
                        pump_service@.pump_pin_numbers,
                        pump_service@.is_relay_inverted,
                    )[i],
            decreases number_of_pumps - pump_number,
        {
            let pin_number: u32 = pump_service.get_pin_number(pump_number + 1);
            pump_number = pump_number + 1;
            requests.push(LineRequest { pump_number, pin_number, default_state });
        }
        requests
    }

    /// The name under which the line of pump `pump_number` is requested.
    pub fn get_pump_label(pump_number: u8) -> (label: String)
        ensures
            label@ == pump_label(pump_number),
    {
        let mut label: String = "Pump ".to_owned();
        let ghost n = pump_number as nat;
        assert(decimal_digits(n) =~= if n < 10 {
            seq![digit_char(n)]
        } else if n < 100 {
            seq![digit_char(n / 10), digit_char(n % 10)]
        } else {
            seq![digit_char(n / 100), digit_char(n / 10 % 10), digit_char(n % 10)]
        }) by {
            reveal_with_fuel(decimal_digits, 3);
        }
        if pump_number >= 100 {
            label.append(digit_text(pump_number / 100));
        }
        if pump_number >= 10 {
            label.append(digit_text(pump_number / 10 % 10));
        }
        label.append(digit_text(pump_number % 10));
        label
    }

    /// Requests the line of every pump of a service from the stand-in chip
    /// named `rpi_chip_name`: one handle per pump, in pump order, each on the
    /// pump's pin, as an output under the pump's label, at the level that
    /// keeps the pump off.
    pub fn get_line_handles(rpi_chip_name: &str, pump_service: &PumpService) -> (line_handles: Vec<
        LineHandle,
    >)
        requires
            pump_service.wf(),
        ensures
            line_handles@.len() == pump_service@.pump_pin_numbers.len(),
            forall|i: int|
                0 <= i < line_handles@.len() ==> {
                    let handle = #[trigger] line_handles@[i];
                    &&& handle.offset() == pump_service@.pump_pin_numbers[i]
                    &&& handle.flags() == LineRequestFlags::OUTPUT
                    &&& handle.value() == pump_service@.idle_level()
                    &&& handle.consumer() == pump_label((i + 1) as u8)
                },
    {
        let requests = PumpServiceFactory::get_line_requests(pump_service);
        let mut chip = Chip::new(rpi_chip_name).unwrap();
        let mut line_handles: Vec<LineHandle> = Vec::new();
        let mut i: usize = 0;
        while i < requests.len()
            invariant
                i <= requests@.len(),
                requests@ == line_requests_for(
                    pump_service@.pump_pin_numbers,
                    pump_service@.is_relay_inverted,
                ),
                line_handles@.len() == i,
                forall|k: int|
                    0 <= k < i ==> {
                        let handle = #[trigger] line_handles@[k];
                        &&& handle.offset() == pump_service@.pump_pin_numbers[k]
                        &&& handle.flags() == LineRequestFlags::OUTPUT
                        &&& handle.value() == pump_service@.idle_level()
                        &&& handle.consumer() == pump_label((k + 1) as u8)
                    },
            decreases requests@.len() - i,
        {
            let request = requests[i];
            let label = PumpServiceFactory::get_pump_label(request.pump_number);
            let line = chip.get_line(request.pin_number).unwrap();
            line_handles.push(
                line.request(
                    LineRequestFlags::OUTPUT,
                    request.default_state,
                    label.as_str(),
                ).unwrap(),
            );
            i = i + 1;
        }
        line_handles
    }
}

} // verus!
