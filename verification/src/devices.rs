//! What the device families share: display modes, their validation, the
//! report checksum, and the vocabulary of the driver state machines.
use crate::monitor::cpu::LoadCounterState;
use crate::utils::status::TemperatureUnit;
use vstd::prelude::*;

pub mod ak400_pro;
pub mod mystique;

verus! {

/// What a device's screen renders.
#[derive(Clone, Copy, Debug, PartialEq, Eq, Structural)]
pub enum Mode {
    /// Whatever the device declares as its default.
    Default,
    /// Cycle through the metrics the device can show.
    Auto,
    Temperature,
    Usage,
    Power,
}

/// The mode that the operator names by `name`, if it names one.
pub open spec fn mode_named(name: Seq<char>) -> Option<Mode> {
    if name == "auto"@ {
        Some(Mode::Auto)
    } else if name == "temp"@ {
        Some(Mode::Temperature)
    } else if name == "usage"@ {
        Some(Mode::Usage)
    } else if name == "power"@ {
        Some(Mode::Power)
    } else {
        None
    }
}

/// Whether two strings hold the same text.
pub(crate) fn same_text(a: &str, b: &str) -> (same: bool)
    ensures
        same == (a@ == b@),
{
    let left = a.to_owned();
    let right = b.to_owned();
    left.eq(&right)
}

impl Mode {
    /// Reads a mode from the name the operator gave. `Default` has no name:
    /// it stands for the absence of a request.
    pub fn get(name: &str) -> (mode: Option<Mode>)
        ensures
            mode == mode_named(name@),
    {
        if same_text(name, "auto") {
            Some(Mode::Auto)
        } else if same_text(name, "temp") {
            Some(Mode::Temperature)
        } else if same_text(name, "usage") {
            Some(Mode::Usage)
        } else if same_text(name, "power") {
            Some(Mode::Power)
        } else {
            None
        }
    }

    /// The name under which the mode is shown to the operator.
    pub fn symbol(&self) -> (name: &'static str)
        ensures
            name@ == self.symbol_spec(),
    {
        match self {
            Mode::Default => "default",
            Mode::Auto => "auto",
            Mode::Temperature => "temp",
            Mode::Usage => "usage",
            Mode::Power => "power",
        }
    }

    /// The name under which the mode is shown to the operator.
    pub open spec fn symbol_spec(self) -> Seq<char> {
        match self {
            Mode::Default => "default"@,
            Mode::Auto => "auto"@,
            Mode::Temperature => "temp"@,
            Mode::Usage => "usage"@,
            Mode::Power => "power"@,
        }
    }
}

/// Every mode but the default is read back from the name it is shown under.
pub proof fn lemma_symbol_names_mode(mode: Mode)
    requires
        mode != Mode::Default,
    ensures
        mode_named(mode.symbol_spec()) == Some(mode),
{
    reveal_strlit("auto");
    reveal_strlit("temp");
    reveal_strlit("usage");
    reveal_strlit("power");
    assert("auto"@[0] == 'a' && "temp"@[0] == 't' && "usage"@[0] == 'u' && "power"@[0] == 'p');
}

/// Why a driver refuses to start or stops.
#[derive(Clone, Copy, Debug, PartialEq, Eq, Structural)]
pub enum DeviceError {
    /// The requested mode is not among those the device supports.
    UnsupportedMode(Mode),
    /// The host exposes no usable energy counter.
    EnergyUnavailable,
    /// A counter or the temperature sensor could not be read.
    SensorUnavailable,
    /// The transport could not be opened.
    ConnectionFailed,
    /// A report could not be written to the transport.
    WriteFailed,
    /// An event arrived that the current state does not expect.
    UnexpectedEvent,
}

/// One telemetry sample, ready to be laid out in a report.
#[derive(Clone, Copy, Debug, PartialEq, Eq, Structural)]
pub struct TelemetrySample {
    /// Average power over the last polling interval, in milliwatts.
    pub power_mw: u16,
    /// The temperature as the bit pattern of an IEEE-754 single-precision number.
    pub temperature_bits: u32,
    pub temperature_unit: TemperatureUnit,
    /// Processor utilisation in percent.
    pub usage_pct: u8,
}

/// Raw readings taken around one polling interval.
#[derive(Clone, Copy, Debug, PartialEq, Eq, Structural)]
pub struct Readings {
    /// Energy counter before the interval, in microjoules.
    pub prior_energy_uj: u64,
    /// Energy counter after the interval, in microjoules.
    pub current_energy_uj: u64,
    /// Load counters before the interval.
    pub prior_load: LoadCounterState,
    /// Load counters after the interval.
    pub current_load: LoadCounterState,
    /// Hottest sensor after the interval, in the display's unit, as the bit
    /// pattern of an IEEE-754 single-precision number.
    pub temperature_bits: u32,
}

/// Where a driver stands in its life cycle.
#[derive(Clone, Copy, Debug, PartialEq, Eq, Structural)]
pub enum DriverState {
    /// No transport yet.
    Disconnected,
    /// Transport open, handshake on its way.
    Connected,
    /// Reports are flowing.
    Streaming,
    /// Stopped for good.
    Terminated,
}

/// What the caller reports back to a driver.
#[derive(Clone, Copy, Debug, PartialEq, Eq, Structural)]
pub enum DriverEvent {
    /// The operator asks the driver to run against this device.
    Start { vendor_id: u16, product_id: u16 },
    /// The transport was opened.
    Opened,
    /// The transport could not be opened.
    OpenFailed,
    /// The last report was written.
    Written,
    /// The last report could not be written.
    WriteFailed,
    /// A polling interval has passed; these are its readings.
    Sampled(Readings),
    /// A counter or the temperature sensor could not be read.
    SampleFailed,
}

/// What a driver asks the caller to do next. `N` is the report size of the
/// device family.
#[derive(Clone, Copy, Debug, PartialEq, Eq)]
pub enum DriverAction<const N: usize> {
    /// Open the transport of this device.
    Open { vendor_id: u16, product_id: u16 },
    /// Write this report.
    Write([u8; N]),
    /// Read the counters, wait `interval_ms`, read them again and report `Sampled`.
    Sample { interval_ms: u64 },
    /// Nothing to do: the device defines no further traffic.
    Idle,
    /// Stop and report the error.
    Halt(DeviceError),
}

/// A driver's request with its report taken as a sequence of bytes.
pub enum ActionView {
    Open { vendor_id: u16, product_id: u16 },
    Write(Seq<u8>),
    Sample { interval_ms: u64 },
    Idle,
    Halt(DeviceError),
}

impl<const N: usize> View for DriverAction<N> {
    type V = ActionView;

    open spec fn view(&self) -> ActionView {
        match *self {
            DriverAction::Open { vendor_id, product_id } => ActionView::Open {
                vendor_id,
                product_id,
            },
            DriverAction::Write(report) => ActionView::Write(report@),
            DriverAction::Sample { interval_ms } => ActionView::Sample { interval_ms },
            DriverAction::Idle => ActionView::Idle,
            DriverAction::Halt(error) => ActionView::Halt(error),
        }
    }
}

/// The mode a device runs in when `requested` is asked of it: its default
/// for `Default`, the requested mode if the device supports it, and an
/// error otherwise.
pub open spec fn resolve_spec(requested: Mode, device_default: Mode, supported: Seq<Mode>) -> Result<
    Mode,
    DeviceError,
> {
    if requested == Mode::Default {
        Ok(device_default)
    } else if supported.contains(requested) {
        Ok(requested)
    } else {
        Err(DeviceError::UnsupportedMode(requested))
    }
}

/// Validates a requested display mode against what a device supports.
pub fn resolve(requested: Mode, device_default: Mode, supported: &[Mode]) -> (r: Result<
    Mode,
    DeviceError,
>)
    ensures
        r == resolve_spec(requested, device_default, supported@),
{
    if requested == Mode::Default {
        return Ok(device_default);
    }
    let mut i: usize = 0;
    while i < supported.len()
        invariant
            requested != Mode::Default,
            i <= supported@.len(),
            forall|j: int| 0 <= j < i ==> supported@[j] != requested,
        decreases supported@.len() - i,
    {
        if supported[i] == requested {
            assert(supported@[i as int] == requested);
            return Ok(requested);
        }
        i += 1;
    }
    Err(DeviceError::UnsupportedMode(requested))
}

/// Mode resolution: asking for the default gives the device's default; a
/// supported mode is kept as it is; any other mode is refused and named in
/// the error.
pub proof fn lemma_resolve(requested: Mode, device_default: Mode, supported: Seq<Mode>)
    ensures
        resolve_spec(Mode::Default, device_default, supported) == Ok::<Mode, DeviceError>(
            device_default,
        ),
        requested != Mode::Default && supported.contains(requested) ==> resolve_spec(
            requested,
            device_default,
            supported,
        ) == Ok::<Mode, DeviceError>(requested),
        requested != Mode::Default && !supported.contains(requested) ==> resolve_spec(
            requested,
            device_default,
            supported,
        ) == Err::<Mode, DeviceError>(DeviceError::UnsupportedMode(requested)),
{
}

/// Sum of the bytes at offsets `from` up to, not including, `to`.
pub open spec fn payload_sum(bytes: Seq<u8>, from: int, to: int) -> int
    decreases to - from,
{
    if from >= to {
        0
    } else {
        payload_sum(bytes, from, to - 1) + bytes[to - 1] as int
    }
}

/// The checksum byte of a payload: the sum of its bytes modulo 256.
pub open spec fn checksum_of(bytes: Seq<u8>, from: int, to: int) -> u8 {
    (payload_sum(bytes, from, to) % 256) as u8
}

/// Two byte strings that agree on a range have the same sum over it.
pub proof fn lemma_payload_sum_agrees(a: Seq<u8>, b: Seq<u8>, from: int, to: int)
    requires
        0 <= from,
        to <= a.len(),
        to <= b.len(),
        forall|i: int| from <= i < to ==> a[i] == b[i],
    ensures
        payload_sum(a, from, to) == payload_sum(b, from, to),
    decreases to - from,
{
    if from < to {
        lemma_payload_sum_agrees(a, b, from, to - 1);
    }
}

/// Computes the checksum byte over offsets `from` up to, not including, `to`.
pub fn checksum(bytes: &[u8], from: usize, to: usize) -> (c: u8)
    requires
        from <= to <= bytes@.len(),
    ensures
        c == checksum_of(bytes@, from as int, to as int),
{
    let mut acc: u32 = 0;
    let mut i: usize = from;
    while i < to
        invariant
            from <= i <= to <= bytes@.len(),
            acc < 256,
            acc == payload_sum(bytes@, from as int, i as int) % 256,
        decreases to - i,
    {
        acc = (acc + bytes[i] as u32) % 256;
        i += 1;
    }
    acc as u8
}

} // verus!
