use vstd::prelude::*;

verus! {

/// Congestion threshold as an exact fraction: a lane is congested when
/// its saturation degree exceeds `85 / 100`.
pub const CONGESTION_THRESHOLD_NUM: u64 = 85;

/// Denominator of the congestion threshold fraction.
pub const CONGESTION_THRESHOLD_DEN: u64 = 100;

/// A saturation degree as an exact rational: current occupancy over
/// rated capacity. Kept unreduced so the ratio is exactly
/// `occupancy / capacity`.
#[derive(Clone, Copy, Debug, PartialEq, Eq, Structural)]
pub struct Saturation {
    /// Numerator: vehicles currently occupying the lane.
    pub occupancy: usize,
    /// Denominator: rated maximum concurrent occupancy; positive.
    pub capacity: usize,
}

impl Saturation {
    /// The ratio rounded down to thousandths, for display and metrics.
    pub fn permille(&self) -> (r: u128)
        requires
            self.capacity >= 1,
        ensures
            r == 1000 * self.occupancy as int / self.capacity as int,
    {
        (self.occupancy as u128) * 1000 / (self.capacity as u128)
    }
}

/// Whether occupancy over capacity strictly exceeds the congestion
/// threshold: `occupancy / capacity > 85 / 100`, compared exactly as
/// `100 * occupancy > 85 * capacity`. A ratio equal to the threshold is
/// not congested.
pub open spec fn congested_spec(occupancy: int, capacity: int) -> bool {
    occupancy * CONGESTION_THRESHOLD_DEN as int > capacity * CONGESTION_THRESHOLD_NUM as int
}

/// The error a monitor constructor reports for an invalid
/// configuration.
#[derive(Clone, Copy, Debug, PartialEq, Eq, Structural)]
pub enum ConfigError {
    /// The rated capacity of the named lane was zero.
    NonPositiveCapacity { lane_id: u64 },
}

impl ConfigError {
    /// The violated constraint, as a diagnostic phrase.
    pub fn constraint(&self) -> (r: &'static str)
        ensures
            r@ == "capacity must be positive"@,
    {
        match self {
            ConfigError::NonPositiveCapacity { .. } => "capacity must be positive",
        }
    }

    /// The lane whose configuration was rejected.
    pub fn lane_id(&self) -> (r: u64)
        ensures
            *self == (ConfigError::NonPositiveCapacity { lane_id: r }),
    {
        match self {
            ConfigError::NonPositiveCapacity { lane_id } => *lane_id,
        }
    }
}

/// The ghost state of a road segment monitor.
pub ghost struct SegmentModel {
    pub lane_id: u64,
    pub name: Seq<char>,
    pub capacity: usize,
}

/// A per-lane monitor: computes the saturation degree of its lane from
/// fresh occupancy each call and reports whether the congestion
/// threshold is crossed. Stateless across ticks and never mutated.
pub struct RoadSegmentAgent {
    pub(crate) lane_id: u64,
    pub(crate) name: String,
    /// Rated maximum concurrent occupancy; positive by construction.
    pub(crate) capacity: usize,
}

impl View for RoadSegmentAgent {
    type V = SegmentModel;

    closed spec fn view(&self) -> SegmentModel {
        SegmentModel { lane_id: self.lane_id, name: self.name@, capacity: self.capacity }
    }
}

impl RoadSegmentAgent {
    /// Well-formedness: the rated capacity is positive, so the
    /// saturation ratio is always defined.
    pub open spec fn inv(self) -> bool {
        self@.capacity >= 1
    }

    /// A new monitor for `lane_id`. A zero capacity is a configuration
    /// error, rejected here so that no registered monitor can ever
    /// divide by zero.
    pub fn new(lane_id: u64, name: &str, capacity: usize) -> (r: Result<
        RoadSegmentAgent,
        ConfigError,
    >)
        ensures
            r is Ok <==> capacity >= 1,
            r is Ok ==> r->Ok_0@ == (SegmentModel { lane_id, name: name@, capacity })
                && r->Ok_0.inv(),
            r is Err ==> r->Err_0 == (ConfigError::NonPositiveCapacity { lane_id }),
    {
        if capacity >= 1 {
            Ok(
                RoadSegmentAgent {
                    lane_id,
                    name: <String as vstd::string::StringExecFns>::from_str(name),
                    capacity,
                },
            )
        } else {
            Err(ConfigError::NonPositiveCapacity { lane_id })
        }
    }

    /// The monitored lane.
    pub fn lane_id(&self) -> (r: u64)
        ensures
            r == self@.lane_id,
    {
        self.lane_id
    }

    /// The monitor's human-readable label.
    pub fn name(&self) -> (r: &String)
        ensures
            r@ == self@.name,
    {
        &self.name
    }

    /// The rated capacity.
    pub fn capacity(&self) -> (r: usize)
        ensures
            r == self@.capacity,
    {
        self.capacity
    }

    /// The saturation degree for the current occupancy, exactly
    /// `occupancy / capacity`, and whether it strictly exceeds the
    /// congestion threshold. Pure in the occupancy and the fixed
    /// capacity; no other state is consulted.
    pub fn monitor_status(&self, occupancy: usize) -> (r: (Saturation, bool))
        requires
            self.inv(),
        ensures
            r.0 == (Saturation { occupancy, capacity: self@.capacity }),
            r.1 == congested_spec(occupancy as int, self@.capacity as int),
    {
        let congested: bool = (occupancy as u128) * (CONGESTION_THRESHOLD_DEN as u128) > (
        self.capacity as u128) * (CONGESTION_THRESHOLD_NUM as u128);
        (Saturation { occupancy, capacity: self.capacity }, congested)
    }
}

/// The congestion test decides the exact rational comparison
/// `occupancy / capacity > 85 / 100`, stated over the cross products.
pub proof fn lemma_congestion_threshold(occupancy: int, capacity: int)
    requires
        capacity >= 1,
        occupancy >= 0,
    ensures
        congested_spec(occupancy, capacity) <==> 100 * occupancy > 85 * capacity,
{
}

/// Boundary of the threshold: a saturation degree exactly equal to
/// `85 / 100` is not congested.
pub proof fn lemma_congestion_boundary(occupancy: int, capacity: int)
    requires
        capacity >= 1,
        occupancy >= 0,
        100 * occupancy == 85 * capacity,
    ensures
        !congested_spec(occupancy, capacity),
{
}

} // verus!
