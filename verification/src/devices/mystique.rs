//! The Mystique USB family: 48-byte transfers. Only its handshake is known;
//! what it expects per polling interval is not, so the driver opens the
//! stream and then has nothing further to send.
use crate::devices::{
    resolve, resolve_spec, ActionView, DeviceError, DriverAction, DriverEvent, DriverState, Mode,
};
use crate::monitor::cpu::Cpu;
use crate::utils::status::{Alarm, AlarmState};
use vstd::prelude::*;

verus! {

pub const DEFAULT_MODE: Mode = Mode::Temperature;

/// Milliseconds between two reports.
pub const POLLING_RATE: u64 = 750;

pub const TEMP_LIMIT_C: u8 = 90;

pub const TEMP_LIMIT_F: u8 = 194;

/// Size of one transfer.
pub const REPORT_LEN: usize = 48;

/// Number of consecutive frames that the automatic mode gives to one metric
/// before it turns to the other.
pub const AUTO_FRAMES: u64 = 8;

/// Drives one Mystique display.
#[derive(Clone, Copy, Debug, PartialEq, Eq, Structural)]
pub struct Display {
    /// The resolved mode: never `Default`, always one the device supports.
    pub mode: Mode,
    pub fahrenheit: bool,
    pub alarm: bool,
    pub cpu: Cpu,
}

/// What the whole screen is used for.
#[derive(Clone, Copy, Debug, PartialEq, Eq, Structural)]
pub enum DisplayMode {
    Monitor,
    Media,
    Recording,
}

/// What the main area of the screen shows (byte 2 of a configuration).
#[derive(Clone, Copy, Debug, PartialEq, Eq, Structural)]
pub enum MainDisplayArea {
    CPUFreq,
    Time,
    PumpSpeed,
    CPUFanSpeed,
    CPUFanSpeedAndPumpSpeed,
    Temperature,
}

/// How the main area is drawn (byte 3 of a configuration).
#[derive(Clone, Copy, Debug, PartialEq, Eq, Structural)]
pub enum StyleDispType {
    Normal,
    Ring,
    Stopwatch,
}

/// Whether the screen follows the gyroscope (byte 4 of a configuration).
#[derive(Clone, Copy, Debug, PartialEq, Eq, Structural)]
pub enum GyroEnabled {
    Off,
    On,
}

/// Fixed rotation of the screen (byte 5 of a configuration).
#[derive(Clone, Copy, Debug, PartialEq, Eq, Structural)]
pub enum ScreenRotation {
    Rotate0,
    Rotate90,
    Rotate180,
    Rotate270,
}

/// What the auxiliary area of the screen shows (byte 6 of a configuration).
#[derive(Clone, Copy, Debug, PartialEq, Eq, Structural)]
pub enum AuxDispMode {
    Voltage,
    SysMon,
    CoreData,
}

/// A screen configuration.
#[derive(Clone, Copy, Debug, PartialEq, Eq, Structural)]
pub struct ConfigureDisplay {
    pub mode: DisplayMode,
    pub main_display_area: MainDisplayArea,
    pub aux_mode: AuxDispMode,
    pub style_type: StyleDispType,
}

impl ConfigureDisplay {
    pub fn new(
        mode: DisplayMode,
        main_display_area: MainDisplayArea,
        aux_mode: AuxDispMode,
        style_type: StyleDispType,
    ) -> (config: ConfigureDisplay)
        ensures
            config == (ConfigureDisplay { mode, main_display_area, aux_mode, style_type }),
    {
        ConfigureDisplay { mode, main_display_area, aux_mode, style_type }
    }
}

/// The modes this family can show.
pub open spec fn supported_modes_spec() -> Seq<Mode> {
    seq![Mode::Auto, Mode::Temperature, Mode::Power]
}

/// The modes this family can show.
pub fn supported_modes() -> (modes: Vec<Mode>)
    ensures
        modes@ == supported_modes_spec(),
{
    vec![Mode::Auto, Mode::Temperature, Mode::Power]
}

/// The handshake: the two header bytes, then zeros.
pub open spec fn init_packet_spec() -> Seq<u8> {
    Seq::new(
        48,
        |i: int|
            if i == 0 {
                0xaau8
            } else if i == 1 {
                0x2eu8
            } else {
                0u8
            },
    )
}

/// The handshake sent once the transport is open.
pub fn init_packet() -> (packet: [u8; 48])
    ensures
        packet@ == init_packet_spec(),
{
    let mut data: [u8; 48] = [0; 48];
    data[0] = 0xaa;
    data[1] = 0x2e;
    assert(data@ =~= init_packet_spec());
    data
}

/// What frame number `frame` shows in `mode`: the automatic mode gives
/// eight frames to the temperature, the next eight to the power, and so on;
/// every other mode shows itself.
pub open spec fn frame_mode_spec(mode: Mode, frame: u64) -> Mode {
    if mode == Mode::Auto {
        if (frame / 8) % 2 == 0 {
            Mode::Temperature
        } else {
            Mode::Power
        }
    } else {
        mode
    }
}

/// Validates the mode the operator asked for against what this family
/// supports. Fails exactly when the mode is neither the default nor
/// supported, and names the mode in the error.
pub fn validate_mode(requested: Mode) -> (r: Result<Mode, DeviceError>)
    ensures
        r == resolve_spec(requested, DEFAULT_MODE, supported_modes_spec()),
{
    let supported = supported_modes();
    resolve(requested, DEFAULT_MODE, supported.as_slice())
}

/// On this family the resolved mode is what was asked for exactly when it
/// is the automatic, the temperature or the power mode; the default stands
/// for the temperature; anything else is refused.
pub proof fn lemma_resolve_supported(requested: Mode)
    ensures
        resolve_spec(requested, DEFAULT_MODE, supported_modes_spec()) == (match requested {
            Mode::Default => Ok::<Mode, DeviceError>(Mode::Temperature),
            Mode::Auto => Ok::<Mode, DeviceError>(Mode::Auto),
            Mode::Temperature => Ok::<Mode, DeviceError>(Mode::Temperature),
            Mode::Power => Ok::<Mode, DeviceError>(Mode::Power),
            Mode::Usage => Err::<Mode, DeviceError>(DeviceError::UnsupportedMode(Mode::Usage)),
        }),
{
    let s = supported_modes_spec();
    assert(s[0] == Mode::Auto && s[1] == Mode::Temperature && s[2] == Mode::Power);
}

impl Display {
    /// A driver for the requested mode. Fails exactly when the mode is not
    /// one this family supports, and names the mode in the error.
    pub fn new(mode: &Mode, fahrenheit: bool, alarm: bool, cpu: Cpu) -> (r: Result<
        Display,
        DeviceError,
    >)
        ensures
            r == (match resolve_spec(*mode, DEFAULT_MODE, supported_modes_spec()) {
                Ok(resolved) => Ok::<Display, DeviceError>(
                    (Display { mode: resolved, fahrenheit, alarm, cpu }),
                ),
                Err(error) => Err::<Display, DeviceError>(error),
            }),
    {
        match validate_mode(*mode) {
            Ok(resolved) => Ok(Display { mode: resolved, fahrenheit, alarm, cpu }),
            Err(error) => Err(error),
        }
    }

    /// The alarm of this display: armed or not as the operator chose, at
    /// the limit that belongs to the unit shown.
    pub fn alarm(&self) -> (alarm: Alarm)
        ensures
            alarm.state == (if self.alarm {
                AlarmState::On
            } else {
                AlarmState::Off
            }),
            alarm.temp_limit == (if self.fahrenheit {
                TEMP_LIMIT_F
            } else {
                TEMP_LIMIT_C
            }),
    {
        Alarm {
            state: if self.alarm {
                AlarmState::On
            } else {
                AlarmState::Off
            },
            temp_limit: if self.fahrenheit {
                TEMP_LIMIT_F
            } else {
                TEMP_LIMIT_C
            },
        }
    }

    /// The metric shown in frame number `frame`.
    pub fn frame_mode(&self, frame: u64) -> (shown: Mode)
        ensures
            shown == frame_mode_spec(self.mode, frame),
    {
        if self.mode == Mode::Auto {
            if (frame / AUTO_FRAMES) % 2 == 0 {
                Mode::Temperature
            } else {
                Mode::Power
            }
        } else {
            self.mode
        }
    }

    /// The driver's transition: from a state and an event to the next state
    /// and what to do. A missing energy counter stops the driver before it
    /// asks for the transport; an open or write failure stops it for good;
    /// the open transport is answered by the handshake, and the written
    /// handshake opens a stream on which nothing is sent.
    pub open spec fn step_spec(self, state: DriverState, event: DriverEvent) -> (
        DriverState,
        ActionView,
    ) {
        match (state, event) {
            (DriverState::Disconnected, DriverEvent::Start { vendor_id, product_id }) => {
                if self.cpu.rapl_max_uj == 0 {
                    (DriverState::Terminated, ActionView::Halt(DeviceError::EnergyUnavailable))
                } else {
                    (DriverState::Disconnected, ActionView::Open { vendor_id, product_id })
                }
            },
            (DriverState::Disconnected, DriverEvent::Opened) => (
                DriverState::Connected,
                ActionView::Write(init_packet_spec()),
            ),
            (DriverState::Disconnected, DriverEvent::OpenFailed) => (
                DriverState::Terminated,
                ActionView::Halt(DeviceError::ConnectionFailed),
            ),
            (DriverState::Connected, DriverEvent::Written) => (
                DriverState::Streaming,
                ActionView::Idle,
            ),
            (DriverState::Connected, DriverEvent::WriteFailed) => (
                DriverState::Terminated,
                ActionView::Halt(DeviceError::WriteFailed),
            ),
            _ => (DriverState::Terminated, ActionView::Halt(DeviceError::UnexpectedEvent)),
        }
    }

    /// Advances the driver by one event.
    pub fn step(&self, state: DriverState, event: DriverEvent) -> (next: (
        DriverState,
        DriverAction<48>,
    ))
        ensures
            next.0 == self.step_spec(state, event).0,
            next.1@ == self.step_spec(state, event).1,
    {
        match (state, event) {
            (DriverState::Disconnected, DriverEvent::Start { vendor_id, product_id }) => {
                if self.cpu.rapl_max_uj == 0 {
                    (DriverState::Terminated, DriverAction::Halt(DeviceError::EnergyUnavailable))
                } else {
                    (DriverState::Disconnected, DriverAction::Open { vendor_id, product_id })
                }
            },
            (DriverState::Disconnected, DriverEvent::Opened) => (
                DriverState::Connected,
                DriverAction::Write(init_packet()),
            ),
            (DriverState::Disconnected, DriverEvent::OpenFailed) => (
                DriverState::Terminated,
                DriverAction::Halt(DeviceError::ConnectionFailed),
            ),
            (DriverState::Connected, DriverEvent::Written) => (
                DriverState::Streaming,
                DriverAction::Idle,
            ),
            (DriverState::Connected, DriverEvent::WriteFailed) => (
                DriverState::Terminated,
                DriverAction::Halt(DeviceError::WriteFailed),
            ),
            _ => (DriverState::Terminated, DriverAction::Halt(DeviceError::UnexpectedEvent)),
        }
    }
}

/// The only write the driver ever asks for is the handshake, in answer to
/// the opened transport.
pub proof fn lemma_write_is_handshake(display: Display, state: DriverState, event: DriverEvent)
    ensures
        display.step_spec(state, event).1 is Write <==> state == DriverState::Disconnected
            && event is Opened,
        display.step_spec(state, event).1 is Write ==> display.step_spec(state, event).1
            == ActionView::Write(init_packet_spec()),
{
}

/// A stopped driver stays stopped, and asks for nothing but to halt.
pub proof fn lemma_terminated_is_final(display: Display, event: DriverEvent)
    ensures
        display.step_spec(DriverState::Terminated, event).0 == DriverState::Terminated,
        display.step_spec(DriverState::Terminated, event).1 is Halt,
{
}

/// A driver for this family exists only in a supported mode: whatever was
/// asked for, a driver that came into being shows the automatic, the
/// temperature or the power mode, so an unsupported request never reaches
/// the transport.
pub proof fn lemma_driver_mode_is_supported(requested: Mode)
    ensures
        match resolve_spec(requested, DEFAULT_MODE, supported_modes_spec()) {
            Ok(mode) => supported_modes_spec().contains(mode),
            Err(error) => error == DeviceError::UnsupportedMode(requested)
                && !supported_modes_spec().contains(requested),
        },
{
    let s = supported_modes_spec();
    assert(s[0] == Mode::Auto && s[1] == Mode::Temperature && s[2] == Mode::Power);
}

/// Without an energy counter the driver stops before the transport is
/// opened: a start is answered by a halt that names the missing counter, and
/// no event in any state makes the driver ask for the transport.
pub proof fn lemma_no_transport_without_energy(
    display: Display,
    state: DriverState,
    event: DriverEvent,
)
    requires
        display.cpu.rapl_max_uj == 0,
    ensures
        !(display.step_spec(state, event).1 is Open),
        state == DriverState::Disconnected && event is Start ==> display.step_spec(state, event)
            == (DriverState::Terminated, ActionView::Halt(DeviceError::EnergyUnavailable)),
{
}

} // verus!
