use crate::telemetry::{SensorData, MAX_QUEUE_LENGTH, SPEED_LIMIT_MILLI};
use vstd::prelude::*;

verus! {

/// Lower bound on the green-phase duration, in seconds. The clamp in
/// `decide_next_phase` never lets the duration fall below it.
pub const MIN_GREEN_SECS: u64 = 10;

/// Green-phase duration every agent starts with, in seconds.
pub const DEFAULT_GREEN_SECS: u64 = 30;

/// Seconds added to the green phase on an extend decision.
pub const EXTEND_STEP_SECS: u64 = 10;

/// Seconds removed from the green phase on a shorten decision.
pub const SHORTEN_STEP_SECS: u64 = 5;

/// Queue length above which an intersection counts as heavily loaded.
pub const QUEUE_THRESHOLD_HEAVY: usize = 100;

/// Queue length below which an intersection counts as lightly loaded.
pub const QUEUE_THRESHOLD_LIGHT: usize = 20;

/// Default reward weight for the speed term, in thousandths: 0.5.
pub const DEFAULT_REWARD_WEIGHT_MILLI: i64 = 500;

/// Largest magnitude accepted for the reward weight, in thousandths;
/// keeps the weighted speed term of the reward within `i64`.
pub const REWARD_WEIGHT_LIMIT_MILLI: i64 = 1_000_000;

/// Scale of reward values: rewards are reported in millionths, so that
/// the queue term (whole vehicles) and the weighted speed term
/// (thousandths times thousandths) add exactly.
pub const REWARD_SCALE_MICRO: i64 = 1_000_000;

/// The decision an agent takes for the coming phase.
#[derive(Clone, Copy, Debug, PartialEq, Eq, Structural)]
pub enum PhaseAction {
    /// Queue is heavy: lengthen the green phase.
    ExtendGreen,
    /// Queue is light: shorten the green phase toward the minimum.
    ShortenGreen,
    /// Queue is moderate: keep the current timing.
    MaintainPhase,
}

impl PhaseAction {
    /// A short human-readable rationale for the action.
    pub fn label(&self) -> (r: &'static str)
        ensures
            *self is ExtendGreen ==> r@ == "EXTEND_GREEN"@,
            *self is ShortenGreen ==> r@ == "SHORTEN_GREEN"@,
            *self is MaintainPhase ==> r@ == "MAINTAIN_PHASE"@,
    {
        match self {
            PhaseAction::ExtendGreen => "EXTEND_GREEN",
            PhaseAction::ShortenGreen => "SHORTEN_GREEN",
            PhaseAction::MaintainPhase => "MAINTAIN_PHASE",
        }
    }
}

/// The action the heuristic takes for a given queue length.
pub open spec fn action_spec(queue_length: int) -> PhaseAction {
    if queue_length > QUEUE_THRESHOLD_HEAVY as int {
        PhaseAction::ExtendGreen
    } else if queue_length < QUEUE_THRESHOLD_LIGHT as int {
        PhaseAction::ShortenGreen
    } else {
        PhaseAction::MaintainPhase
    }
}

/// The green duration after one decision on `queue_length`, starting
/// from `green` seconds. Extension saturates at `u64::MAX`; shortening
/// clamps at `MIN_GREEN_SECS`.
pub open spec fn next_green_spec(queue_length: int, green: int) -> int {
    if queue_length > QUEUE_THRESHOLD_HEAVY as int {
        if green + EXTEND_STEP_SECS as int <= u64::MAX as int {
            green + EXTEND_STEP_SECS as int
        } else {
            u64::MAX as int
        }
    } else if queue_length < QUEUE_THRESHOLD_LIGHT as int {
        if green - SHORTEN_STEP_SECS as int >= MIN_GREEN_SECS as int {
            green - SHORTEN_STEP_SECS as int
        } else {
            MIN_GREEN_SECS as int
        }
    } else {
        green
    }
}

/// The reward an agent with weight `alpha_milli` (thousandths) reports
/// for queue `queue` and a speed change from `prev_speed` to
/// `curr_speed` (both thousandths), in millionths:
/// `-(queue + alpha * (curr_speed - prev_speed))` scaled exactly.
pub open spec fn reward_spec(alpha_milli: int, queue: int, prev_speed: int, curr_speed: int) -> int {
    -(queue * REWARD_SCALE_MICRO as int + alpha_milli * (curr_speed - prev_speed))
}

/// The ghost state of a signal control agent.
pub ghost struct AgentModel {
    pub id: u64,
    pub location_name: Seq<char>,
    pub green_duration: u64,
    pub neighbor_ids: Seq<u64>,
    pub alpha_milli: int,
}

/// Well-formedness of an agent's state: the clamp invariant on the
/// green duration, and the machine bound on the reward weight.
pub open spec fn agent_model_inv(m: AgentModel) -> bool {
    &&& m.green_duration >= MIN_GREEN_SECS
    &&& -REWARD_WEIGHT_LIMIT_MILLI as int <= m.alpha_milli <= REWARD_WEIGHT_LIMIT_MILLI as int
}

/// A per-intersection signal control agent: holds the adjustable
/// green-phase duration, the identifiers of adjacent intersections for
/// future coordinated timing, and the reward weight fixed at
/// construction.
pub struct TrafficLightAgent {
    pub(crate) id: u64,
    pub(crate) location_name: String,
    /// Current green-phase duration, in seconds.
    pub(crate) current_green_duration: u64,
    pub(crate) neighbor_ids: Vec<u64>,
    /// Reward weight for the speed term, in thousandths.
    pub(crate) alpha_milli: i64,
}

impl View for TrafficLightAgent {
    type V = AgentModel;

    closed spec fn view(&self) -> AgentModel {
        AgentModel {
            id: self.id,
            location_name: self.location_name@,
            green_duration: self.current_green_duration,
            neighbor_ids: self.neighbor_ids@,
            alpha_milli: self.alpha_milli as int,
        }
    }
}

impl TrafficLightAgent {
    /// Well-formedness of this agent; established at construction and
    /// preserved by every decision.
    pub open spec fn inv(self) -> bool {
        agent_model_inv(self@)
    }

    /// A new agent with the default green duration and the default
    /// reward weight.
    pub fn new(id: u64, name: &str, neighbors: Vec<u64>) -> (agent: TrafficLightAgent)
        ensures
            agent@ == (AgentModel {
                id,
                location_name: name@,
                green_duration: DEFAULT_GREEN_SECS,
                neighbor_ids: neighbors@,
                alpha_milli: DEFAULT_REWARD_WEIGHT_MILLI as int,
            }),
            agent.inv(),
    {
        TrafficLightAgent {
            id,
            location_name: <String as vstd::string::StringExecFns>::from_str(name),
            current_green_duration: DEFAULT_GREEN_SECS,
            neighbor_ids: neighbors,
            alpha_milli: DEFAULT_REWARD_WEIGHT_MILLI,
        }
    }

    /// A new agent with an explicit reward weight, in thousandths.
    pub fn with_reward_weight(id: u64, name: &str, neighbors: Vec<u64>, alpha_milli: i64) -> (agent:
        TrafficLightAgent)
        requires
            -REWARD_WEIGHT_LIMIT_MILLI <= alpha_milli <= REWARD_WEIGHT_LIMIT_MILLI,
        ensures
            agent@ == (AgentModel {
                id,
                location_name: name@,
                green_duration: DEFAULT_GREEN_SECS,
                neighbor_ids: neighbors@,
                alpha_milli: alpha_milli as int,
            }),
            agent.inv(),
    {
        TrafficLightAgent {
            id,
            location_name: <String as vstd::string::StringExecFns>::from_str(name),
            current_green_duration: DEFAULT_GREEN_SECS,
            neighbor_ids: neighbors,
            alpha_milli,
        }
    }

    /// A new agent starting from an explicit green duration, at or
    /// above the minimum, with the default reward weight.
    pub fn with_green_duration(id: u64, name: &str, neighbors: Vec<u64>, green_secs: u64) -> (agent:
        TrafficLightAgent)
        requires
            green_secs >= MIN_GREEN_SECS,
        ensures
            agent@ == (AgentModel {
                id,
                location_name: name@,
                green_duration: green_secs,
                neighbor_ids: neighbors@,
                alpha_milli: DEFAULT_REWARD_WEIGHT_MILLI as int,
            }),
            agent.inv(),
    {
        TrafficLightAgent {
            id,
            location_name: <String as vstd::string::StringExecFns>::from_str(name),
            current_green_duration: green_secs,
            neighbor_ids: neighbors,
            alpha_milli: DEFAULT_REWARD_WEIGHT_MILLI,
        }
    }

    /// The intersection this agent controls.
    pub fn id(&self) -> (r: u64)
        ensures
            r == self@.id,
    {
        self.id
    }

    /// The agent's human-readable label.
    pub fn location_name(&self) -> (r: &String)
        ensures
            r@ == self@.location_name,
    {
        &self.location_name
    }

    /// The current green-phase duration, in seconds.
    pub fn green_duration_secs(&self) -> (r: u64)
        ensures
            r == self@.green_duration,
    {
        self.current_green_duration
    }

    /// The identifiers of adjacent intersections.
    pub fn neighbor_ids(&self) -> (r: &Vec<u64>)
        ensures
            r@ == self@.neighbor_ids,
    {
        &self.neighbor_ids
    }

    /// The reward weight, in thousandths.
    pub fn reward_weight_milli(&self) -> (r: i64)
        ensures
            r == self@.alpha_milli,
    {
        self.alpha_milli
    }

    /// Reward for the current tick, in millionths:
    /// `-(queue + alpha * (curr_speed - prev_speed))`. Pure in its
    /// arguments and the fixed weight; larger queues strictly lower it.
    pub fn calculate_reward(&self, current_queue: usize, prev_speed: i64, curr_speed: i64) -> (reward:
        i64)
        requires
            self.inv(),
            current_queue <= MAX_QUEUE_LENGTH,
            0 <= prev_speed <= SPEED_LIMIT_MILLI,
            0 <= curr_speed <= SPEED_LIMIT_MILLI,
        ensures
            reward == reward_spec(
                self@.alpha_milli,
                current_queue as int,
                prev_speed as int,
                curr_speed as int,
            ),
    {
        let queue_penalty: i64 = (current_queue as i64) * REWARD_SCALE_MICRO;
        let delta_v: i64 = curr_speed - prev_speed;
        assert(-1_000_000_000_000_000 <= self.alpha_milli * delta_v <= 1_000_000_000_000_000)
            by (nonlinear_arith)
            requires
                -REWARD_WEIGHT_LIMIT_MILLI <= self.alpha_milli <= REWARD_WEIGHT_LIMIT_MILLI,
                -SPEED_LIMIT_MILLI <= delta_v <= SPEED_LIMIT_MILLI,
        ;
        let weighted: i64 = self.alpha_milli * delta_v;
        -(queue_penalty + weighted)
    }

    /// One decision of the heuristic policy: extend the green phase on a
    /// heavy queue, shorten it (never below `MIN_GREEN_SECS`) on a light
    /// one, otherwise keep it. Returns the action taken; the new green
    /// duration is exactly `next_green_spec` of the old one.
    pub fn decide_next_phase(&mut self, sensor: &SensorData) -> (action: PhaseAction)
        requires
            old(self).inv(),
        ensures
            final(self).inv(),
            action == action_spec(sensor.queue_length as int),
            final(self)@.green_duration as int == next_green_spec(
                sensor.queue_length as int,
                old(self)@.green_duration as int,
            ),
            final(self)@ == (AgentModel {
                green_duration: final(self)@.green_duration,
                ..old(self)@
            }),
    {
        if sensor.queue_length > QUEUE_THRESHOLD_HEAVY {
            if self.current_green_duration <= u64::MAX - EXTEND_STEP_SECS {
                self.current_green_duration = self.current_green_duration + EXTEND_STEP_SECS;
            } else {
                self.current_green_duration = u64::MAX;
            }
            PhaseAction::ExtendGreen
        } else if sensor.queue_length < QUEUE_THRESHOLD_LIGHT {
            if self.current_green_duration >= MIN_GREEN_SECS + SHORTEN_STEP_SECS {
                self.current_green_duration = self.current_green_duration - SHORTEN_STEP_SECS;
            } else {
                self.current_green_duration = MIN_GREEN_SECS;
            }
            PhaseAction::ShortenGreen
        } else {
            PhaseAction::MaintainPhase
        }
    }
}

/// One decision never takes the green duration below the minimum.
pub proof fn lemma_green_floor(queue_length: int, green: int)
    requires
        green >= MIN_GREEN_SECS as int,
    ensures
        next_green_spec(queue_length, green) >= MIN_GREEN_SECS as int,
{
}

/// The green duration after a whole sequence of decisions, one per
/// queue reading, applied oldest first.
pub open spec fn green_after_decisions(queues: Seq<int>, green: int) -> int
    decreases queues.len(),
{
    if queues.len() == 0 {
        green
    } else {
        green_after_decisions(queues.drop_first(), next_green_spec(queues.first(), green))
    }
}

/// Clamp invariant: from any state at or above the minimum green time,
/// every sequence of decisions leaves the green duration at or above
/// the minimum.
pub proof fn lemma_green_never_below_min(queues: Seq<int>, green: int)
    requires
        green >= MIN_GREEN_SECS as int,
    ensures
        green_after_decisions(queues, green) >= MIN_GREEN_SECS as int,
    decreases queues.len(),
{
    if queues.len() != 0 {
        lemma_green_floor(queues.first(), green);
        lemma_green_never_below_min(queues.drop_first(), next_green_spec(queues.first(), green));
    }
}

/// Holding the queue and the previous speed fixed, a larger current
/// speed never raises the reward when the weight is non-negative (the
/// default weight is): the speed term is subtracted like the queue
/// penalty.
pub proof fn lemma_reward_nonincreasing_in_speed(
    alpha_milli: int,
    queue: int,
    prev_speed: int,
    curr_lo: int,
    curr_hi: int,
)
    requires
        alpha_milli >= 0,
        curr_lo <= curr_hi,
    ensures
        reward_spec(alpha_milli, queue, prev_speed, curr_hi) <= reward_spec(
            alpha_milli,
            queue,
            prev_speed,
            curr_lo,
        ),
{
    assert(alpha_milli * (curr_hi - prev_speed) >= alpha_milli * (curr_lo - prev_speed))
        by (nonlinear_arith)
        requires
            alpha_milli >= 0,
            curr_lo <= curr_hi,
    ;
}

/// With a non-positive weight the reward is non-decreasing in the
/// current speed: a speed increase then acts as a bonus.
pub proof fn lemma_reward_nondecreasing_in_speed(
    alpha_milli: int,
    queue: int,
    prev_speed: int,
    curr_lo: int,
    curr_hi: int,
)
    requires
        alpha_milli <= 0,
        curr_lo <= curr_hi,
    ensures
        reward_spec(alpha_milli, queue, prev_speed, curr_lo) <= reward_spec(
            alpha_milli,
            queue,
            prev_speed,
            curr_hi,
        ),
{
    assert(alpha_milli * (curr_hi - prev_speed) <= alpha_milli * (curr_lo - prev_speed))
        by (nonlinear_arith)
        requires
            alpha_milli <= 0,
            curr_lo <= curr_hi,
    ;
}

/// Holding both speeds fixed, the reward is strictly decreasing in the
/// queue length.
pub proof fn lemma_reward_strictly_decreasing_in_queue(
    alpha_milli: int,
    queue_lo: int,
    queue_hi: int,
    prev_speed: int,
    curr_speed: int,
)
    requires
        queue_lo < queue_hi,
    ensures
        reward_spec(alpha_milli, queue_hi, prev_speed, curr_speed) < reward_spec(
            alpha_milli,
            queue_lo,
            prev_speed,
            curr_speed,
        ),
{
    assert(queue_hi * REWARD_SCALE_MICRO as int > queue_lo * REWARD_SCALE_MICRO as int)
        by (nonlinear_arith)
        requires
            queue_lo < queue_hi,
    ;
}

/// Decision determinism: equal snapshots and equal agent state give the
/// same action and the same resulting green duration; the heuristic
/// consults nothing else.
pub proof fn lemma_decision_deterministic(s1: SensorData, s2: SensorData, green1: int, green2: int)
    requires
        s1 == s2,
        green1 == green2,
    ensures
        action_spec(s1.queue_length as int) == action_spec(s2.queue_length as int),
        next_green_spec(s1.queue_length as int, green1) == next_green_spec(
            s2.queue_length as int,
            green2,
        ),
{
}

} // verus!
