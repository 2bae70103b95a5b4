use crate::segment::{congested_spec, RoadSegmentAgent, Saturation, SegmentModel};
use crate::signal::{
    action_spec, agent_model_inv, next_green_spec, reward_spec, AgentModel, PhaseAction,
    TrafficLightAgent,
};
use crate::telemetry::{SensorData, SPEED_LIMIT_MILLI};
use vstd::prelude::*;

verus! {

/// A congestion broadcast for one road segment: raised each tick its
/// saturation degree exceeds the threshold.
pub struct CongestionEvent {
    /// Label of the congested segment.
    pub segment_name: String,
    /// The congested lane.
    pub lane_id: u64,
    /// The saturation degree that crossed the threshold.
    pub saturation: Saturation,
}

/// The ghost state of a congestion event.
pub ghost struct EventModel {
    pub segment_name: Seq<char>,
    pub lane_id: u64,
    pub saturation: Saturation,
}

impl View for CongestionEvent {
    type V = EventModel;

    closed spec fn view(&self) -> EventModel {
        EventModel {
            segment_name: self.segment_name@,
            lane_id: self.lane_id,
            saturation: self.saturation,
        }
    }
}

/// One agent's outcome for a tick: the action taken, the green duration
/// it left behind, and the reward reported for learning.
pub struct AgentRecord {
    /// Label of the intersection.
    pub intersection_name: String,
    /// The intersection the record is for.
    pub intersection_id: u64,
    /// The decision taken this tick.
    pub action: PhaseAction,
    /// Green duration after the decision, in seconds.
    pub green_duration: u64,
    /// Reward for this tick, in millionths.
    pub reward: i64,
}

/// The ghost state of an agent record.
pub ghost struct RecordModel {
    pub intersection_name: Seq<char>,
    pub intersection_id: u64,
    pub action: PhaseAction,
    pub green_duration: u64,
    pub reward: i64,
}

impl View for AgentRecord {
    type V = RecordModel;

    closed spec fn view(&self) -> RecordModel {
        RecordModel {
            intersection_name: self.intersection_name@,
            intersection_id: self.intersection_id,
            action: self.action,
            green_duration: self.green_duration,
            reward: self.reward,
        }
    }
}

/// Everything one tick produced: the congestion broadcasts from the
/// monitor pass, then one record per agent from the decision pass.
pub struct TickReport {
    /// Congestion events, in monitor registration order.
    pub congestion_events: Vec<CongestionEvent>,
    /// Per-agent outcomes, in agent registration order.
    pub agent_records: Vec<AgentRecord>,
}

/// The occupancy reading for monitor `i`, with the documented default
/// of zero when no reading was supplied.
pub open spec fn occupancy_at(occupancies: Seq<usize>, i: int) -> usize {
    if 0 <= i < occupancies.len() {
        occupancies[i]
    } else {
        0
    }
}

/// The telemetry snapshot for agent `j`, with the documented default
/// snapshot (all readings zero) when none was supplied.
pub open spec fn snapshot_at(telemetry: Seq<SensorData>, j: int) -> SensorData {
    if 0 <= j < telemetry.len() {
        telemetry[j]
    } else {
        SensorData { queue_length: 0, avg_speed: 0, flow_rate: 0, waiting_time_integral: 0 }
    }
}

/// The previous-tick mean speed for agent `j`, defaulting to zero.
pub open spec fn prev_speed_at(prev_speeds: Seq<i64>, j: int) -> i64 {
    if 0 <= j < prev_speeds.len() {
        prev_speeds[j]
    } else {
        0
    }
}

/// The congestion events that the first `n` monitors raise for the
/// given occupancies, in registration order: one event per congested
/// monitor, none otherwise.
pub open spec fn congestion_events_spec(
    monitors: Seq<SegmentModel>,
    occupancies: Seq<usize>,
    n: int,
) -> Seq<EventModel>
    decreases n,
{
    if n <= 0 {
        Seq::empty()
    } else {
        let prefix = congestion_events_spec(monitors, occupancies, n - 1);
        let m = monitors[n - 1];
        let occ = occupancy_at(occupancies, n - 1);
        if congested_spec(occ as int, m.capacity as int) {
            prefix.push(
                EventModel {
                    segment_name: m.name,
                    lane_id: m.lane_id,
                    saturation: Saturation { occupancy: occ, capacity: m.capacity },
                },
            )
        } else {
            prefix
        }
    }
}

/// The record agent `a` produces for snapshot `s` and previous speed
/// `prev`: the heuristic's action, the clamped new green duration, and
/// the reward computed from the same snapshot's queue and speed.
pub open spec fn agent_record_spec(a: AgentModel, s: SensorData, prev: i64) -> RecordModel {
    RecordModel {
        intersection_name: a.location_name,
        intersection_id: a.id,
        action: action_spec(s.queue_length as int),
        green_duration: next_green_spec(s.queue_length as int, a.green_duration as int) as u64,
        reward: reward_spec(a.alpha_milli, s.queue_length as int, prev as int, s.avg_speed as int) as i64,
    }
}

/// The state agent `a` is left in after its decision on snapshot `s`.
pub open spec fn agent_after_decision(a: AgentModel, s: SensorData) -> AgentModel {
    AgentModel {
        green_duration: next_green_spec(s.queue_length as int, a.green_duration as int) as u64,
        ..a
    }
}

/// Whether some agent in `agents` controls intersection `id`.
pub open spec fn contains_agent_id(agents: Seq<AgentModel>, id: u64) -> bool {
    exists|i: int| 0 <= i < agents.len() && agents[i].id == id
}

/// The coordination manager: owns every signal control agent (keyed by
/// unique intersection identifier) and every road segment monitor, and
/// drives one synchronized tick across all of them in registration
/// order. It is the sole mutator of agent state.
pub struct UrbanTrafficManager {
    pub(crate) tla_agents: Vec<TrafficLightAgent>,
    pub(crate) rsa_agents: Vec<RoadSegmentAgent>,
}

impl UrbanTrafficManager {
    /// The registered agents, as ghost state, in registration order.
    pub closed spec fn agents(self) -> Seq<AgentModel> {
        self.tla_agents@.map_values(|a: TrafficLightAgent| a@)
    }

    /// The registered monitors, as ghost state, in registration order.
    pub closed spec fn monitors(self) -> Seq<SegmentModel> {
        self.rsa_agents@.map_values(|m: RoadSegmentAgent| m@)
    }

    /// Well-formedness: intersection identifiers are unique, every
    /// agent satisfies its own invariant, and every monitor has a
    /// positive capacity.
    pub open spec fn inv(self) -> bool {
        &&& forall|i: int, j: int|
            0 <= i < j < self.agents().len() ==> self.agents()[i].id != self.agents()[j].id
        &&& forall|i: int| 0 <= i < self.agents().len() ==> agent_model_inv(#[trigger] self.agents()[i])
        &&& forall|i: int| 0 <= i < self.monitors().len() ==> (#[trigger] self.monitors()[i]).capacity >= 1
    }

    /// An empty manager: no agents, no monitors.
    pub fn new() -> (m: UrbanTrafficManager)
        ensures
            m.agents() == Seq::<AgentModel>::empty(),
            m.monitors() == Seq::<SegmentModel>::empty(),
            m.inv(),
    {
        let m = UrbanTrafficManager { tla_agents: Vec::new(), rsa_agents: Vec::new() };
        proof {
            assert(m.agents() =~= Seq::<AgentModel>::empty());
            assert(m.monitors() =~= Seq::<SegmentModel>::empty());
        }
        m
    }

    /// Number of registered agents.
    pub fn agent_count(&self) -> (r: usize)
        ensures
            r == self.agents().len(),
    {
        self.tla_agents.len()
    }

    /// Number of registered monitors.
    pub fn monitor_count(&self) -> (r: usize)
        ensures
            r == self.monitors().len(),
    {
        self.rsa_agents.len()
    }

    /// Registers `agent` unless its intersection is already registered;
    /// returns whether it was added. Keeps identifiers unique.
    pub fn register_agent(&mut self, agent: TrafficLightAgent) -> (ok: bool)
        requires
            old(self).inv(),
            agent.inv(),
        ensures
            final(self).inv(),
            ok == !contains_agent_id(old(self).agents(), agent@.id),
            ok ==> final(self).agents() == old(self).agents().push(agent@),
            !ok ==> final(self).agents() == old(self).agents(),
            final(self).monitors() == old(self).monitors(),
    {
        let n: usize = self.tla_agents.len();
        for k in 0..n
            invariant
                *self == *old(self),
                self.inv(),
                n == self.agents().len(),
                forall|i: int| 0 <= i < k ==> (#[trigger] self.agents()[i]).id != agent@.id,
        {
            if self.tla_agents[k].id() == agent.id() {
                proof {
                    assert(self.agents()[k as int] == self.tla_agents@[k as int]@);
                    assert(contains_agent_id(self.agents(), agent@.id));
                }
                return false;
            }
            proof {
                assert(self.agents()[k as int] == self.tla_agents@[k as int]@);
            }
        }
        let ghost before = self.agents();
        self.tla_agents.push(agent);
        proof {
            assert(self.agents() =~= before.push(agent@));
            assert(self.monitors() =~= old(self).monitors());
        }
        true
    }

    /// Registers one more road segment monitor at the end of the
    /// evaluation order.
    pub fn register_monitor(&mut self, monitor: RoadSegmentAgent) -> (r: ())
        requires
            old(self).inv(),
            monitor.inv(),
        ensures
            final(self).inv(),
            final(self).monitors() == old(self).monitors().push(monitor@),
            final(self).agents() == old(self).agents(),
    {
        let ghost before = self.monitors();
        self.rsa_agents.push(monitor);
        proof {
            assert(self.monitors() =~= before.push(monitor@));
            assert(self.agents() =~= old(self).agents());
        }
    }

    /// The green duration of the agent controlling `id`, if one is
    /// registered.
    pub fn green_duration_of(&self, id: u64) -> (r: Option<u64>)
        requires
            self.inv(),
        ensures
            r is Some <==> contains_agent_id(self.agents(), id),
            r is Some ==> exists|i: int|
                0 <= i < self.agents().len() && (#[trigger] self.agents()[i]).id == id
                    && self.agents()[i].green_duration == r->0,
    {
        let n: usize = self.tla_agents.len();
        for k in 0..n
            invariant
                n == self.agents().len(),
                self.inv(),
                forall|i: int| 0 <= i < k ==> (#[trigger] self.agents()[i]).id != id,
        {
            if self.tla_agents[k].id() == id {
                let green = self.tla_agents[k].green_duration_secs();
                proof {
                    assert(self.agents()[k as int] == self.tla_agents@[k as int]@);
                    assert(self.agents()[k as int].id == id && self.agents()[k
                        as int].green_duration == green);
                }
                return Some(green);
            }
            proof {
                assert(self.agents()[k as int] == self.tla_agents@[k as int]@);
            }
        }
        None
    }

    /// Registers the demonstration network: one signal agent for
    /// intersection 3 ("TL3 Gejayan", neighbor 1) and one monitor for
    /// lane 301 ("S3 Jl. Gejayan", capacity 700).
    pub fn initialize_agents(&mut self) -> (r: ())
        requires
            old(self).inv(),
        ensures
            final(self).inv(),
            !contains_agent_id(old(self).agents(), 3) ==> final(self).agents() == old(
                self,
            ).agents().push(
                AgentModel {
                    id: 3,
                    location_name: "TL3 Gejayan"@,
                    green_duration: crate::signal::DEFAULT_GREEN_SECS,
                    neighbor_ids: seq![1u64],
                    alpha_milli: crate::signal::DEFAULT_REWARD_WEIGHT_MILLI as int,
                },
            ),
            contains_agent_id(old(self).agents(), 3) ==> final(self).agents() == old(self).agents(),
            final(self).monitors() == old(self).monitors().push(
                SegmentModel { lane_id: 301, name: "S3 Jl. Gejayan"@, capacity: 700 },
            ),
    {
        let mut neighbors: Vec<u64> = Vec::new();
        neighbors.push(1);
        let tl3 = TrafficLightAgent::new(3, "TL3 Gejayan", neighbors);
        proof {
            assert(tl3@.neighbor_ids =~= seq![1u64]);
        }
        self.register_agent(tl3);
        let s3 = RoadSegmentAgent::new(301, "S3 Jl. Gejayan", 700);
        match s3 {
            Ok(monitor) => {
                self.register_monitor(monitor);
            },
            Err(_) => {
                assert(false);
            },
        }
    }

    /// One synchronized tick. Monitors are evaluated first, in
    /// registration order, each against its occupancy reading (index
    /// `i` of `occupancies`, defaulting to zero); every congested one
    /// contributes one event. Then every agent is evaluated, in
    /// registration order, against its snapshot (index `j` of
    /// `telemetry`, defaulting to the all-zero snapshot): it decides the
    /// next phase, its green duration is updated in place, and the
    /// reward is computed from the same snapshot's queue and mean speed
    /// against `prev_speeds[j]` (defaulting to zero). Nothing else about
    /// any agent or monitor changes, and no reading can abort the tick
    /// for the others.
    pub fn step(
        &mut self,
        occupancies: &Vec<usize>,
        telemetry: &Vec<SensorData>,
        prev_speeds: &Vec<i64>,
    ) -> (report: TickReport)
        requires
            old(self).inv(),
            forall|j: int| 0 <= j < telemetry@.len() ==> (#[trigger] telemetry@[j]).valid(),
            forall|j: int|
                0 <= j < prev_speeds@.len() ==> 0 <= #[trigger] prev_speeds@[j] <= SPEED_LIMIT_MILLI,
        ensures
            final(self).inv(),
            final(self).monitors() == old(self).monitors(),
            final(self).agents().len() == old(self).agents().len(),
            forall|j: int|
                0 <= j < old(self).agents().len() ==> #[trigger] final(self).agents()[j]
                    == agent_after_decision(
                    old(self).agents()[j],
                    snapshot_at(telemetry@, j),
                ),
            report.congestion_events@.map_values(|e: CongestionEvent| e@) == congestion_events_spec(
                old(self).monitors(),
                occupancies@,
                old(self).monitors().len() as int,
            ),
            report.agent_records@.len() == old(self).agents().len(),
            forall|j: int|
                0 <= j < old(self).agents().len() ==> #[trigger] report.agent_records@[j]@
                    == agent_record_spec(
                    old(self).agents()[j],
                    snapshot_at(telemetry@, j),
                    prev_speed_at(prev_speeds@, j),
                ),
    {
        let ghost monitors0 = self.monitors();
        let ghost agents0 = self.agents();

        // Monitor pass: evaluate every segment before any agent moves.
        let mut congestion_events: Vec<CongestionEvent> = Vec::new();
        let n_monitors: usize = self.rsa_agents.len();
        for i in 0..n_monitors
            invariant
                *self == *old(self),
                self.monitors() == monitors0,
                self.agents() == agents0,
                self.inv(),
                n_monitors == monitors0.len(),
                congestion_events@.map_values(|e: CongestionEvent| e@) == congestion_events_spec(
                    monitors0,
                    occupancies@,
                    i as int,
                ),
        {
            let occ: usize = if i < occupancies.len() {
                occupancies[i]
            } else {
                0
            };
            let ghost before = congestion_events@.map_values(|e: CongestionEvent| e@);
            proof {
                assert(self.monitors()[i as int] == self.rsa_agents@[i as int]@);
                assert(occ == occupancy_at(occupancies@, i as int));
            }
            let (saturation, is_congested) = self.rsa_agents[i].monitor_status(occ);
            if is_congested {
                let event = CongestionEvent {
                    segment_name: self.rsa_agents[i].name().clone(),
                    lane_id: self.rsa_agents[i].lane_id(),
                    saturation,
                };
                congestion_events.push(event);
                proof {
                    assert(congestion_events@.map_values(|e: CongestionEvent| e@) =~= before.push(
                        event@,
                    ));
                }
            }
            assert(congestion_events@.map_values(|e: CongestionEvent| e@)
                =~= congestion_events_spec(monitors0, occupancies@, i + 1));
        }

        // Decision pass: visit every agent registered at tick start
        // exactly once, in registration order.
        let mut agent_records: Vec<AgentRecord> = Vec::new();
        let n_agents: usize = self.tla_agents.len();
        for j in 0..n_agents
            invariant
                self.monitors() == monitors0,
                self.inv(),
                n_agents == agents0.len(),
                self.agents().len() == agents0.len(),
                forall|k: int| j <= k < agents0.len() ==> #[trigger] self.agents()[k] == agents0[k],
                forall|k: int|
                    0 <= k < j ==> #[trigger] self.agents()[k] == agent_after_decision(
                        agents0[k],
                        snapshot_at(telemetry@, k),
                    ),
                agent_records@.len() == j,
                forall|k: int|
                    0 <= k < j ==> #[trigger] agent_records@[k]@ == agent_record_spec(
                        agents0[k],
                        snapshot_at(telemetry@, k),
                        prev_speed_at(prev_speeds@, k),
                    ),
                forall|k: int| 0 <= k < telemetry@.len() ==> (#[trigger] telemetry@[k]).valid(),
                forall|k: int|
                    0 <= k < prev_speeds@.len() ==> 0 <= #[trigger] prev_speeds@[k]
                        <= SPEED_LIMIT_MILLI,
        {
            let snapshot: SensorData = if j < telemetry.len() {
                telemetry[j]
            } else {
                SensorData::new()
            };
            let prev_speed: i64 = if j < prev_speeds.len() {
                prev_speeds[j]
            } else {
                0
            };
            let ghost pre_vec = self.tla_agents@;
            let ghost pre_agents = self.agents();
            proof {
                assert(snapshot == snapshot_at(telemetry@, j as int));
                assert(prev_speed == prev_speed_at(prev_speeds@, j as int));
                assert(snapshot.valid());
                assert(pre_agents[j as int] == pre_vec[j as int]@);
                assert(pre_agents[j as int] == agents0[j as int]);
            }
            let action = self.tla_agents[j].decide_next_phase(&snapshot);
            proof {
                assert forall|k: int| 0 <= k < agents0.len() && k != j implies #[trigger] self
                    .agents()[k] == pre_agents[k] by {
                    assert(self.tla_agents@[k] == pre_vec[k]);
                }
                assert(self.agents()[j as int] == self.tla_agents@[j as int]@);
                assert(self.agents()[j as int] == agent_after_decision(
                    agents0[j as int],
                    snapshot,
                ));
            }
            let reward = self.tla_agents[j].calculate_reward(
                snapshot.queue_length,
                prev_speed,
                snapshot.avg_speed,
            );
            let record = AgentRecord {
                intersection_name: self.tla_agents[j].location_name().clone(),
                intersection_id: self.tla_agents[j].id(),
                action,
                green_duration: self.tla_agents[j].green_duration_secs(),
                reward,
            };
            proof {
                assert(record@ == agent_record_spec(
                    agents0[j as int],
                    snapshot,
                    prev_speed_at(prev_speeds@, j as int),
                ));
                assert forall|i1: int, i2: int|
                    0 <= i1 < i2 < self.agents().len() implies (#[trigger] self.agents()[i1]).id
                    != (#[trigger] self.agents()[i2]).id by {
                    assert(self.agents()[i1].id == pre_agents[i1].id);
                    assert(self.agents()[i2].id == pre_agents[i2].id);
                }
            }
            agent_records.push(record);
        }

        TickReport { congestion_events, agent_records }
    }
}

} // verus!
