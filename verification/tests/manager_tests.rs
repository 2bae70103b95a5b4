use urban_traffic::manager::UrbanTrafficManager;
use urban_traffic::segment::RoadSegmentAgent;
use urban_traffic::signal::PhaseAction;
use urban_traffic::signal::TrafficLightAgent;
use urban_traffic::telemetry::SensorData;

fn demo_snapshot() -> SensorData {
    SensorData {
        queue_length: 150,
        avg_speed: 20_000,
        flow_rate: 1_200_000,
        waiting_time_integral: 5_000_000,
    }
}

#[test]
fn initialization_registers_demo_network() {
    let mut manager = UrbanTrafficManager::new();
    assert_eq!(manager.agent_count(), 0);
    assert_eq!(manager.monitor_count(), 0);
    manager.initialize_agents();
    assert_eq!(manager.agent_count(), 1);
    assert_eq!(manager.monitor_count(), 1);
    assert_eq!(manager.green_duration_of(3), Some(30));
    assert_eq!(manager.green_duration_of(99), None);
}

#[test]
fn duplicate_intersection_is_not_registered() {
    let mut manager = UrbanTrafficManager::new();
    assert!(manager.register_agent(TrafficLightAgent::new(3, "TL3 Gejayan", vec![1])));
    assert!(!manager.register_agent(TrafficLightAgent::new(3, "TL3 again", vec![])));
    assert_eq!(manager.agent_count(), 1);
}

#[test]
fn tick_reports_action_duration_and_reward() {
    let mut manager = UrbanTrafficManager::new();
    manager.initialize_agents();
    let report = manager.step(&vec![600], &vec![demo_snapshot()], &vec![18_000]);

    assert_eq!(report.agent_records.len(), 1);
    let record = &report.agent_records[0];
    assert_eq!(record.intersection_name, "TL3 Gejayan");
    assert_eq!(record.intersection_id, 3);
    assert_eq!(record.action, PhaseAction::ExtendGreen);
    assert_eq!(record.green_duration, 40);
    // -(150 + 0.5 * (20.0 - 18.0)) = -151, in millionths.
    assert_eq!(record.reward, -151_000_000);
    assert_eq!(manager.green_duration_of(3), Some(40));
}

#[test]
fn congestion_event_raised_once_per_tick_while_condition_holds() {
    let mut manager = UrbanTrafficManager::new();
    manager.initialize_agents();

    let first = manager.step(&vec![600], &vec![demo_snapshot()], &vec![18_000]);
    assert_eq!(first.congestion_events.len(), 1);
    let event = &first.congestion_events[0];
    assert_eq!(event.segment_name, "S3 Jl. Gejayan");
    assert_eq!(event.lane_id, 301);
    assert_eq!(event.saturation.occupancy, 600);
    assert_eq!(event.saturation.capacity, 700);

    let second = manager.step(&vec![600], &vec![demo_snapshot()], &vec![20_000]);
    assert_eq!(second.congestion_events.len(), 1);
}

#[test]
fn no_congestion_event_below_threshold() {
    let mut manager = UrbanTrafficManager::new();
    manager.initialize_agents();
    let report = manager.step(&vec![550], &vec![demo_snapshot()], &vec![18_000]);
    assert_eq!(report.congestion_events.len(), 0);
}

#[test]
fn missing_telemetry_defaults_to_empty_snapshot() {
    let mut manager = UrbanTrafficManager::new();
    manager.initialize_agents();
    // No readings at all: the agent sees the all-zero default snapshot,
    // so the light queue shortens the green phase, and the monitor sees
    // zero occupancy.
    let report = manager.step(&vec![], &vec![], &vec![]);
    assert_eq!(report.congestion_events.len(), 0);
    assert_eq!(report.agent_records.len(), 1);
    let record = &report.agent_records[0];
    assert_eq!(record.action, PhaseAction::ShortenGreen);
    assert_eq!(record.green_duration, 25);
    assert_eq!(record.reward, 0);
}

#[test]
fn monitors_are_evaluated_in_registration_order() {
    let mut manager = UrbanTrafficManager::new();
    manager.register_monitor(RoadSegmentAgent::new(1, "S1", 100).unwrap());
    manager.register_monitor(RoadSegmentAgent::new(2, "S2", 100).unwrap());
    manager.register_monitor(RoadSegmentAgent::new(3, "S3", 100).unwrap());
    // Lanes 1 and 3 congested, lane 2 not.
    let report = manager.step(&vec![90, 10, 99], &vec![], &vec![]);
    assert_eq!(report.congestion_events.len(), 2);
    assert_eq!(report.congestion_events[0].lane_id, 1);
    assert_eq!(report.congestion_events[1].lane_id, 3);
}

#[test]
fn agents_are_evaluated_in_registration_order() {
    let mut manager = UrbanTrafficManager::new();
    manager.register_agent(TrafficLightAgent::new(8, "TL8", vec![]));
    manager.register_agent(TrafficLightAgent::new(4, "TL4", vec![]));
    let heavy = SensorData {
        queue_length: 150,
        avg_speed: 10_000,
        flow_rate: 0,
        waiting_time_integral: 0,
    };
    let light = SensorData {
        queue_length: 5,
        avg_speed: 10_000,
        flow_rate: 0,
        waiting_time_integral: 0,
    };
    let report = manager.step(&vec![], &vec![heavy, light], &vec![10_000, 10_000]);
    assert_eq!(report.agent_records.len(), 2);
    assert_eq!(report.agent_records[0].intersection_id, 8);
    assert_eq!(report.agent_records[0].action, PhaseAction::ExtendGreen);
    assert_eq!(report.agent_records[1].intersection_id, 4);
    assert_eq!(report.agent_records[1].action, PhaseAction::ShortenGreen);
}

#[test]
fn ticks_are_deterministic_given_equal_inputs() {
    let run = || {
        let mut manager = UrbanTrafficManager::new();
        manager.initialize_agents();
        let report = manager.step(&vec![600], &vec![demo_snapshot()], &vec![18_000]);
        (
            report.congestion_events.len(),
            report.agent_records[0].action,
            report.agent_records[0].green_duration,
            report.agent_records[0].reward,
        )
    };
    assert_eq!(run(), run());
}

#[test]
fn state_carries_forward_across_ticks() {
    let mut manager = UrbanTrafficManager::new();
    manager.initialize_agents();
    manager.step(&vec![0], &vec![demo_snapshot()], &vec![18_000]);
    assert_eq!(manager.green_duration_of(3), Some(40));
    let report = manager.step(&vec![0], &vec![demo_snapshot()], &vec![20_000]);
    // The second extension starts from 40, not from the default.
    assert_eq!(report.agent_records[0].green_duration, 50);
}
