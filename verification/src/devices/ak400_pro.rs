//! The AK400-class HID family: one 64-byte report per polling interval,
//! carrying power, temperature and utilisation together.
use crate::devices::{
    checksum, checksum_of, lemma_payload_sum_agrees, resolve, resolve_spec, ActionView,
    DeviceError, DriverAction, DriverEvent, DriverState, Mode, Readings, TelemetrySample,
};
use crate::monitor::cpu::{average_power_mw, energy_delta, usage_percent, Cpu, EnergyCounterState};
use crate::utils::status::{Alarm, AlarmState, TemperatureUnit};
use vstd::prelude::*;

verus! {

pub const DEFAULT_MODE: Mode = Mode::Auto;

/// Milliseconds between two reports; also the window over which power is averaged.
pub const POLLING_RATE: u64 = 750;

// The temperature limits are fixed in the device.
pub const TEMP_WARNING_C: u8 = 80;

pub const TEMP_WARNING_F: u8 = 176;

pub const TEMP_LIMIT_C: u8 = 90;

pub const TEMP_LIMIT_F: u8 = 194;

/// Size of one report.
pub const REPORT_LEN: usize = 64;

/// Offset of the two power bytes.
pub const POWER_OFFSET: usize = 8;

/// Offset of the unit flag.
pub const UNIT_OFFSET: usize = 10;

/// Offset of the four temperature bytes.
pub const TEMPERATURE_OFFSET: usize = 11;

/// Offset of the utilisation byte.
pub const USAGE_OFFSET: usize = 15;

/// Offset of the checksum byte; the checksum covers offsets 1 up to this one.
pub const CHECKSUM_OFFSET: usize = 16;

/// Offset of the terminator byte.
pub const TERMINATOR_OFFSET: usize = 17;

/// The byte that ends every report.
pub const TERMINATOR: u8 = 22;

/// Drives one AK400-class display.
#[derive(Clone, Copy, Debug, PartialEq, Eq, Structural)]
pub struct Display {
    pub fahrenheit: bool,
    pub cpu: Cpu,
}

/// The modes this family can show: it has a single page with every metric on it.
pub open spec fn supported_modes_spec() -> Seq<Mode> {
    seq![Mode::Auto]
}

/// The modes this family can show.
pub fn supported_modes() -> (modes: Vec<Mode>)
    ensures
        modes@ == supported_modes_spec(),
{
    vec![Mode::Auto]
}

/// Validates the mode the operator asked for against what this family
/// supports. Fails exactly when the mode is neither the default nor
/// supported, and names the mode in the error.
pub fn validate_mode(requested: Mode) -> (r: Result<Mode, DeviceError>)
    ensures
        r == resolve_spec(requested, DEFAULT_MODE, supported_modes_spec()),
{
    let supported = supported_modes();
    resolve(requested, DEFAULT_MODE, supported.as_slice())
}

/// On this family the default and the automatic mode both resolve to the
/// automatic mode, and every other mode is refused.
pub proof fn lemma_resolve_supported(requested: Mode)
    ensures
        resolve_spec(requested, DEFAULT_MODE, supported_modes_spec()) == (match requested {
            Mode::Default => Ok::<Mode, DeviceError>(Mode::Auto),
            Mode::Auto => Ok::<Mode, DeviceError>(Mode::Auto),
            other => Err::<Mode, DeviceError>(DeviceError::UnsupportedMode(other)),
        }),
{
    let s = supported_modes_spec();
    assert(s[0] == Mode::Auto);
}

/// The constant bytes of every report: header and command, then zeros.
pub open spec fn template_spec() -> Seq<u8> {
    Seq::new(
        64,
        |i: int|
            if i == 0 {
                16u8
            } else if i == 1 {
                104u8
            } else if i == 2 {
                1u8
            } else if i == 3 {
                2u8
            } else if i == 4 {
                11u8
            } else if i == 5 {
                1u8
            } else if i == 6 {
                2u8
            } else if i == 7 {
                5u8
            } else {
                0u8
            },
    )
}

/// The constant bytes of every report.
pub fn template() -> (report: [u8; 64])
    ensures
        report@ == template_spec(),
{
    let mut data: [u8; 64] = [0; 64];
    data[0] = 16;
    data[1] = 104;
    data[2] = 1;
    data[3] = 2;
    data[4] = 11;
    data[5] = 1;
    data[6] = 2;
    data[7] = 5;
    assert(data@ =~= template_spec());
    data
}

/// The metric fields of `sample` written over `template`: power in two
/// big-endian bytes, the unit flag, the temperature in four big-endian
/// bytes, and the utilisation. Every other byte is the template's.
pub open spec fn payload_spec(template: Seq<u8>, sample: TelemetrySample) -> Seq<u8> {
    let power = sample.power_mw as int;
    let bits = sample.temperature_bits as int;
    template.update(8, (power / 256) as u8).update(9, (power % 256) as u8).update(
        10,
        sample.temperature_unit.flag_spec(),
    ).update(11, (bits / 16777216) as u8).update(12, (bits / 65536 % 256) as u8).update(
        13,
        (bits / 256 % 256) as u8,
    ).update(14, (bits % 256) as u8).update(15, sample.usage_pct)
}

/// A report for `sample` on top of `template`: the metric fields, then the
/// checksum of offsets 1 to 15 and the terminator.
pub open spec fn encode_spec(template: Seq<u8>, sample: TelemetrySample) -> Seq<u8> {
    let body = payload_spec(template, sample);
    body.update(16, checksum_of(body, 1, 16)).update(17, 22u8)
}

/// Lays `sample` out in a report that starts from `template`.
pub fn encode(template: &[u8; 64], sample: &TelemetrySample) -> (report: [u8; 64])
    ensures
        report@ == encode_spec(template@, *sample),
        report@[16] == checksum_of(report@, 1, 16),
        report@[17] == TERMINATOR,
{
    proof {
        lemma_checksum_round_trip(template@, *sample);
    }
    let mut data: [u8; 64] = *template;
    let power: u16 = sample.power_mw;
    let bits: u32 = sample.temperature_bits;
    data[POWER_OFFSET] = (power / 256) as u8;
    data[POWER_OFFSET + 1] = (power % 256) as u8;
    data[UNIT_OFFSET] = sample.temperature_unit.flag();
    data[TEMPERATURE_OFFSET] = (bits / 16777216) as u8;
    data[TEMPERATURE_OFFSET + 1] = (bits / 65536 % 256) as u8;
    data[TEMPERATURE_OFFSET + 2] = (bits / 256 % 256) as u8;
    data[TEMPERATURE_OFFSET + 3] = (bits % 256) as u8;
    data[USAGE_OFFSET] = sample.usage_pct;
    let sum: u8 = checksum(data.as_slice(), 1, CHECKSUM_OFFSET);
    data[CHECKSUM_OFFSET] = sum;
    data[TERMINATOR_OFFSET] = TERMINATOR;
    data
}

/// Whether the checksum byte of `report` is the checksum of its payload.
pub fn checksum_is_valid(report: &[u8; 64]) -> (valid: bool)
    ensures
        valid == (report@[16] == checksum_of(report@, 1, 16)),
{
    let sum: u8 = checksum(report.as_slice(), 1, CHECKSUM_OFFSET);
    report[CHECKSUM_OFFSET] == sum
}

/// Checksum round trip: recomputing the checksum over the payload of an
/// encoded report gives the checksum byte stored in it, whatever the sample.
pub proof fn lemma_checksum_round_trip(template: Seq<u8>, sample: TelemetrySample)
    requires
        template.len() == 64,
    ensures
        encode_spec(template, sample).len() == 64,
        encode_spec(template, sample)[16] == checksum_of(encode_spec(template, sample), 1, 16),
        encode_spec(template, sample)[17] == 22,
{
    let report = encode_spec(template, sample);
    let inner = payload_spec(template, sample);
    lemma_payload_sum_agrees(report, inner, 1, 16);
}

impl Display {
    /// A driver that reports in Fahrenheit if asked to, for the given processor.
    pub fn new(fahrenheit: bool, cpu: Cpu) -> (display: Display)
        ensures
            display == (Display { fahrenheit, cpu }),
    {
        Display { fahrenheit, cpu }
    }

    /// The alarm of this family: always armed by the device itself, at the
    /// limit that belongs to the unit shown.
    pub fn alarm(&self) -> (alarm: Alarm)
        ensures
            alarm.state == AlarmState::Auto,
            alarm.temp_limit == (if self.fahrenheit {
                TEMP_LIMIT_F
            } else {
                TEMP_LIMIT_C
            }),
    {
        Alarm {
            state: AlarmState::Auto,
            temp_limit: if self.fahrenheit {
                TEMP_LIMIT_F
            } else {
                TEMP_LIMIT_C
            },
        }
    }

    /// The sample that `readings` amount to over one polling interval.
    pub open spec fn sample_spec(self, readings: Readings) -> TelemetrySample {
        TelemetrySample {
            power_mw: average_power_mw(
                energy_delta(
                    readings.prior_energy_uj as int,
                    readings.current_energy_uj as int,
                    self.cpu.rapl_max_uj as int,
                ),
                750,
            ) as u16,
            temperature_bits: readings.temperature_bits,
            temperature_unit: TemperatureUnit::of_flag(self.fahrenheit),
            usage_pct: usage_percent(readings.prior_load, readings.current_load) as u8,
        }
    }

    /// Derives the sample of one polling interval from its raw readings.
    pub fn sample(&self, readings: &Readings) -> (sample: TelemetrySample)
        ensures
            sample == self.sample_spec(*readings),
            sample.usage_pct <= 100,
    {
        let prior = EnergyCounterState {
            energy_uj: readings.prior_energy_uj,
            rapl_max_uj: self.cpu.rapl_max_uj,
        };
        TelemetrySample {
            power_mw: self.cpu.get_power(prior, readings.current_energy_uj, POLLING_RATE),
            temperature_bits: readings.temperature_bits,
            temperature_unit: TemperatureUnit::from_flag(self.fahrenheit),
            usage_pct: self.cpu.get_usage(readings.prior_load, readings.current_load),
        }
    }

    /// The driver's transition: from a state and an event to the next state
    /// and what to do. A missing energy counter stops the driver before it
    /// asks for the transport; an open, read or write failure stops it for
    /// good; each sample is answered by its report and each written report
    /// by the request for the next sample. This family has no handshake: the stream
    /// begins as soon as the transport is open.
    pub open spec fn step_spec(self, state: DriverState, event: DriverEvent) -> (
        DriverState,
        ActionView,
    ) {
        match (state, event) {
            (DriverState::Disconnected, DriverEvent::Start { vendor_id, product_id }) => {
                if self.cpu.rapl_max_uj == 0 {
                    (DriverState::Terminated, ActionView::Halt(DeviceError::EnergyUnavailable))
                } else {
                    (DriverState::Disconnected, ActionView::Open { vendor_id, product_id })
                }
            },
            (DriverState::Disconnected, DriverEvent::Opened) => (
                DriverState::Streaming,
                ActionView::Sample { interval_ms: 750 },
            ),
            (DriverState::Disconnected, DriverEvent::OpenFailed) => (
                DriverState::Terminated,
                ActionView::Halt(DeviceError::ConnectionFailed),
            ),
            (DriverState::Streaming, DriverEvent::Sampled(readings)) => (
                DriverState::Streaming,
                ActionView::Write(encode_spec(template_spec(), self.sample_spec(readings))),
            ),
            (DriverState::Streaming, DriverEvent::SampleFailed) => (
                DriverState::Terminated,
                ActionView::Halt(DeviceError::SensorUnavailable),
            ),
            (DriverState::Streaming, DriverEvent::Written) => (
                DriverState::Streaming,
                ActionView::Sample { interval_ms: 750 },
            ),
            (DriverState::Streaming, DriverEvent::WriteFailed) => (
                DriverState::Terminated,
                ActionView::Halt(DeviceError::WriteFailed),
            ),
            _ => (DriverState::Terminated, ActionView::Halt(DeviceError::UnexpectedEvent)),
        }
    }

    /// Advances the driver by one event.
    pub fn step(&self, state: DriverState, event: DriverEvent) -> (next: (
        DriverState,
        DriverAction<64>,
    ))
        ensures
            next.0 == self.step_spec(state, event).0,
            next.1@ == self.step_spec(state, event).1,
    {
        match (state, event) {
            (DriverState::Disconnected, DriverEvent::Start { vendor_id, product_id }) => {
                if self.cpu.rapl_max_uj == 0 {
                    (DriverState::Terminated, DriverAction::Halt(DeviceError::EnergyUnavailable))
                } else {
                    (DriverState::Disconnected, DriverAction::Open { vendor_id, product_id })
                }
            },
            (DriverState::Disconnected, DriverEvent::Opened) => (
                DriverState::Streaming,
                DriverAction::Sample { interval_ms: POLLING_RATE },
            ),
            (DriverState::Disconnected, DriverEvent::OpenFailed) => (
                DriverState::Terminated,
                DriverAction::Halt(DeviceError::ConnectionFailed),
            ),
            (DriverState::Streaming, DriverEvent::Sampled(readings)) => {
                let sample = self.sample(&readings);
                let base = template();
                (DriverState::Streaming, DriverAction::Write(encode(&base, &sample)))
            },
            (DriverState::Streaming, DriverEvent::SampleFailed) => (
                DriverState::Terminated,
                DriverAction::Halt(DeviceError::SensorUnavailable),
            ),
            (DriverState::Streaming, DriverEvent::Written) => (
                DriverState::Streaming,
                DriverAction::Sample { interval_ms: POLLING_RATE },
            ),
            (DriverState::Streaming, DriverEvent::WriteFailed) => (
                DriverState::Terminated,
                DriverAction::Halt(DeviceError::WriteFailed),
            ),
            _ => (DriverState::Terminated, DriverAction::Halt(DeviceError::UnexpectedEvent)),
        }
    }
}

/// Without an energy counter the driver stops before the transport is
/// opened: a start is answered by a halt that names the missing counter, and
/// no event in any state makes the driver ask for the transport.
pub proof fn lemma_no_transport_without_energy(
    display: Display,
    state: DriverState,
    event: DriverEvent,
)
    requires
        display.cpu.rapl_max_uj == 0,
    ensures
        !(display.step_spec(state, event).1 is Open),
        state == DriverState::Disconnected && event is Start ==> display.step_spec(state, event)
            == (DriverState::Terminated, ActionView::Halt(DeviceError::EnergyUnavailable)),
{
}

/// Reports follow samples one for one: the driver asks for a write only
/// while streaming and only in answer to a sample, and what it writes is
/// the report of that very sample.
pub proof fn lemma_write_answers_sample(display: Display, state: DriverState, event: DriverEvent)
    ensures
        display.step_spec(state, event).1 is Write <==> state == DriverState::Streaming
            && event is Sampled,
        state == DriverState::Streaming && event is Sampled ==> display.step_spec(state, event).1
            == ActionView::Write(
            encode_spec(template_spec(), display.sample_spec(event->Sampled_0)),
        ),
{
}

/// A stopped driver stays stopped, and asks for nothing but to halt.
pub proof fn lemma_terminated_is_final(display: Display, event: DriverEvent)
    ensures
        display.step_spec(DriverState::Terminated, event).0 == DriverState::Terminated,
        display.step_spec(DriverState::Terminated, event).1 is Halt,
{
}

} // verus!
