//! Power, temperature and utilisation derived from raw counter samples.
use vstd::prelude::*;

verus! {

/// Largest power figure a report can carry, in milliwatts.
pub const POWER_MAX_MW: u16 = 65535;

/// Why a telemetry figure cannot be produced.
#[derive(Clone, Copy, Debug, PartialEq, Eq, Structural)]
pub enum TelemetryError {
    /// The host exposes no usable energy counter: its wraparound bound is zero.
    EnergyUnavailable,
}

/// One reading of the cumulative energy counter.
#[derive(Clone, Copy, Debug, PartialEq, Eq, Structural)]
pub struct EnergyCounterState {
    /// Energy consumed so far, in microjoules.
    pub energy_uj: u64,
    /// Value at which the counter wraps around; never zero.
    pub rapl_max_uj: u64,
}

impl EnergyCounterState {
    /// A reading is usable only with a wraparound bound above zero.
    pub open spec fn wf(self) -> bool {
        self.rapl_max_uj > 0
    }
}

/// One reading of the accumulated busy and idle time of the processor.
#[derive(Clone, Copy, Debug, PartialEq, Eq, Structural)]
pub struct LoadCounterState {
    pub busy: u64,
    pub idle: u64,
}

/// The processor whose counters are sampled.
#[derive(Clone, Copy, Debug, PartialEq, Eq, Structural)]
pub struct Cpu {
    /// Wraparound bound of the energy counter, in microjoules; zero when
    /// the host does not expose the counter.
    pub rapl_max_uj: u64,
}

/// Energy consumed between two readings of a counter that wraps at `bound`.
/// A later reading below the earlier one is taken to have wrapped once.
/// Readings that no single wrap explains give zero.
pub open spec fn energy_delta(prior: int, current: int, bound: int) -> int {
    if current >= prior {
        current - prior
    } else if current + bound >= prior {
        current + bound - prior
    } else {
        0
    }
}

/// `delta_uj / elapsed_ms`, rounded to the nearest milliwatt (halves up) and
/// held to the sixteen bits of the report field. Over an empty interval any
/// consumption reads as the largest figure.
pub open spec fn average_power_mw(delta_uj: int, elapsed_ms: int) -> int {
    if elapsed_ms <= 0 {
        if delta_uj > 0 { 65535 } else { 0 }
    } else {
        let rounded = (2 * delta_uj + elapsed_ms) / (2 * elapsed_ms);
        if rounded > 65535 { 65535 } else { rounded }
    }
}

/// Counts accumulated from `prior` to `current`; zero where the counter ran backwards.
pub open spec fn counter_delta(prior: u64, current: u64) -> int {
    if current >= prior { current - prior } else { 0 }
}

/// Share of busy time between two load readings, as a whole percentage
/// rounded to nearest (halves up); zero when no time has passed.
pub open spec fn usage_percent(prior: LoadCounterState, current: LoadCounterState) -> int {
    let busy = counter_delta(prior.busy, current.busy);
    let total = busy + counter_delta(prior.idle, current.idle);
    if total == 0 { 0 } else { (200 * busy + total) / (2 * total) }
}

/// A sensor reading in thousandths of a degree Celsius, expressed in the
/// requested unit, still in thousandths.
pub open spec fn temperature_milli(sensor_milli_c: int, fahrenheit: bool) -> int {
    if fahrenheit { sensor_milli_c * 9 / 5 + 32000 } else { sensor_milli_c }
}

/// The wraparound-corrected delta of two in-range readings is never negative
/// and never exceeds the bound.
pub proof fn lemma_energy_delta_bounds(prior: int, current: int, bound: int)
    requires
        0 <= prior <= bound,
        0 <= current <= bound,
    ensures
        0 <= energy_delta(prior, current, bound) <= bound,
        current < prior ==> energy_delta(prior, current, bound) == current + bound - prior,
{
}

/// The reported power is the wraparound-corrected energy divided by the
/// elapsed time: it is never negative, and unless it saturates the field it
/// lies within half a milliwatt of the exact quotient.
pub proof fn lemma_power_consistent(prior: int, current: int, bound: int, elapsed_ms: int)
    requires
        0 <= prior <= bound,
        0 <= current <= bound,
        elapsed_ms > 0,
    ensures
        ({
            let delta = energy_delta(prior, current, bound);
            let p = average_power_mw(delta, elapsed_ms);
            &&& 0 <= p <= 65535
            &&& p < 65535 ==> 2 * p * elapsed_ms - elapsed_ms <= 2 * delta < 2 * p * elapsed_ms
                + elapsed_ms
        }),
{
    let delta = energy_delta(prior, current, bound);
    let n = 2 * delta + elapsed_ms;
    let d = 2 * elapsed_ms;
    let q = n / d;
    assert(n == d * q + n % d && 0 <= n % d < d) by {
        vstd::arithmetic::div_mod::lemma_fundamental_div_mod(n, d);
        vstd::arithmetic::div_mod::lemma_mod_bound(n, d);
    }
    assert(q >= 0) by {
        vstd::arithmetic::div_mod::lemma_div_pos_is_pos(n, d);
    }
    assert(2 * q * elapsed_ms == d * q) by (nonlinear_arith)
        requires
            d == 2 * elapsed_ms,
    ;
}

/// The usage figure is a percentage: between 0 and 100 for any two readings.
pub proof fn lemma_usage_in_range(prior: LoadCounterState, current: LoadCounterState)
    ensures
        0 <= usage_percent(prior, current) <= 100,
{
    let busy = counter_delta(prior.busy, current.busy);
    let total = busy + counter_delta(prior.idle, current.idle);
    if total != 0 {
        let n = 200 * busy + total;
        let d = 2 * total;
        assert(0 <= n / d <= 100) by (nonlinear_arith)
            requires
                0 <= busy <= total,
                total > 0,
                n == 200 * busy + total,
                d == 2 * total,
        ;
    }
}

/// The Fahrenheit figure is the Celsius figure times nine fifths plus
/// thirty-two degrees, for one and the same sensor reading.
pub proof fn lemma_fahrenheit_from_celsius(sensor_milli_c: int)
    ensures
        temperature_milli(sensor_milli_c, true) == temperature_milli(sensor_milli_c, false) * 9
            / 5 + 32000,
{
}

impl Cpu {
    /// A processor whose energy counter wraps at `rapl_max_uj`.
    pub fn new(rapl_max_uj: u64) -> (cpu: Cpu)
        ensures
            cpu.rapl_max_uj == rapl_max_uj,
    {
        Cpu { rapl_max_uj }
    }

    /// Pairs a raw counter value with the wraparound bound. Fails exactly
    /// when the bound is zero, for no power figure can be derived then.
    pub fn read_energy(&self, energy_uj: u64) -> (r: Result<EnergyCounterState, TelemetryError>)
        ensures
            self.rapl_max_uj == 0 ==> r == Err::<EnergyCounterState, TelemetryError>(
                TelemetryError::EnergyUnavailable,
            ),
            self.rapl_max_uj != 0 ==> r == Ok::<EnergyCounterState, TelemetryError>(
                (EnergyCounterState { energy_uj, rapl_max_uj: self.rapl_max_uj }),
            ),
            r is Ok ==> r->Ok_0.wf(),
    {
        if self.rapl_max_uj == 0 {
            Err(TelemetryError::EnergyUnavailable)
        } else {
            Ok(EnergyCounterState { energy_uj, rapl_max_uj: self.rapl_max_uj })
        }
    }

    /// Records the busy and idle accumulators as one load reading.
    pub fn read_instant(&self, busy: u64, idle: u64) -> (r: LoadCounterState)
        ensures
            r == (LoadCounterState { busy, idle }),
    {
        LoadCounterState { busy, idle }
    }

    /// Average power in milliwatts between the `prior` reading and the
    /// counter value `current_uj` read `elapsed_ms` later.
    pub fn get_power(&self, prior: EnergyCounterState, current_uj: u64, elapsed_ms: u64) -> (p:
        u16)
        ensures
            p == average_power_mw(
                energy_delta(prior.energy_uj as int, current_uj as int, prior.rapl_max_uj as int),
                elapsed_ms as int,
            ),
    {
        let prior_uj: u128 = prior.energy_uj as u128;
        let now_uj: u128 = current_uj as u128;
        let bound: u128 = prior.rapl_max_uj as u128;
        let delta: u128 = if now_uj >= prior_uj {
            now_uj - prior_uj
        } else if now_uj + bound >= prior_uj {
            now_uj + bound - prior_uj
        } else {
            0
        };
        if elapsed_ms == 0 {
            if delta > 0 {
                POWER_MAX_MW
            } else {
                0
            }
        } else {
            let span: u128 = elapsed_ms as u128;
            let rounded: u128 = (2 * delta + span) / (2 * span);
            if rounded > 65535 {
                POWER_MAX_MW
            } else {
                rounded as u16
            }
        }
    }

    /// The sensor reading (thousandths of a degree Celsius) in the requested
    /// unit, in thousandths of a degree.
    pub fn get_temp(&self, sensor_milli_c: u32, fahrenheit: bool) -> (t: u64)
        ensures
            t == temperature_milli(sensor_milli_c as int, fahrenheit),
    {
        let celsius: u64 = sensor_milli_c as u64;
        if fahrenheit {
            celsius * 9 / 5 + 32000
        } else {
            celsius
        }
    }

    /// Processor utilisation between two load readings, in percent.
    pub fn get_usage(&self, prior: LoadCounterState, current: LoadCounterState) -> (u: u8)
        ensures
            u == usage_percent(prior, current),
            u <= 100,
    {
        let busy: u128 = if current.busy >= prior.busy {
            (current.busy - prior.busy) as u128
        } else {
            0
        };
        let idle: u128 = if current.idle >= prior.idle {
            (current.idle - prior.idle) as u128
        } else {
            0
        };
        let total: u128 = busy + idle;
        if total == 0 {
            0
        } else {
            proof {
                lemma_usage_in_range(prior, current);
            }
            let pct: u128 = (200 * busy + total) / (2 * total);
            pct as u8
        }
    }
}

} // verus!
