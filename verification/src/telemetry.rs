use vstd::prelude::*;

verus! {

/// The largest queue length an agent accepts; keeps the queue penalty of
/// the reward within `i64` once scaled to millionths.
pub const MAX_QUEUE_LENGTH: usize = 1_000_000_000;

/// The largest speed value (in thousandths of a unit) an agent accepts;
/// keeps the weighted speed term of the reward within `i64`.
pub const SPEED_LIMIT_MILLI: i64 = 1_000_000_000;

/// One intersection's or lane's traffic state at the current tick.
///
/// Produced fresh each tick from simulator output (or synthesized with
/// the documented defaults when a reading is missing) and read, never
/// retained, by the agents. Speeds, flow and the wait-time integral are
/// fixed-point values in thousandths of the simulator's unit, so that
/// contracts can state them exactly.
#[derive(Clone, Copy, Debug, PartialEq, Eq, Structural)]
pub struct SensorData {
    /// Number of vehicles waiting.
    pub queue_length: usize,
    /// Mean speed, in thousandths of a unit (e.g. milli-km/h).
    pub avg_speed: i64,
    /// Vehicles per unit time, in thousandths.
    pub flow_rate: i64,
    /// Accumulated wait-time area, in thousandths.
    pub waiting_time_integral: i64,
}

impl SensorData {
    /// The bounds under which a snapshot can feed the reward and decision
    /// functions without any arithmetic leaving `i64`.
    pub open spec fn valid(self) -> bool {
        &&& self.queue_length <= MAX_QUEUE_LENGTH
        &&& 0 <= self.avg_speed <= SPEED_LIMIT_MILLI
        &&& 0 <= self.flow_rate
        &&& 0 <= self.waiting_time_integral
    }

    /// The documented default snapshot: all readings zero. Substituted
    /// whenever live telemetry is missing for a tick.
    pub fn new() -> (s: SensorData)
        ensures
            s == (SensorData {
                queue_length: 0,
                avg_speed: 0,
                flow_rate: 0,
                waiting_time_integral: 0,
            }),
            s.valid(),
    {
        SensorData { queue_length: 0, avg_speed: 0, flow_rate: 0, waiting_time_integral: 0 }
    }

    /// Runtime check of `valid`, for callers outside verified code.
    pub fn is_valid(&self) -> (r: bool)
        ensures
            r == self.valid(),
    {
        self.queue_length <= MAX_QUEUE_LENGTH && 0 <= self.avg_speed
            && self.avg_speed <= SPEED_LIMIT_MILLI && 0 <= self.flow_rate
            && 0 <= self.waiting_time_integral
    }
}

} // verus!
