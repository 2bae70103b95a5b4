use urban_traffic::segment::ConfigError;
use urban_traffic::segment::RoadSegmentAgent;

#[test]
fn saturation_below_threshold_is_not_congested() {
    // 550 / 700 = 0.7857...: under 0.85.
    let monitor = RoadSegmentAgent::new(301, "S3 Jl. Gejayan", 700).unwrap();
    let (saturation, is_congested) = monitor.monitor_status(550);
    assert_eq!(saturation.occupancy, 550);
    assert_eq!(saturation.capacity, 700);
    assert_eq!(saturation.permille(), 785);
    assert!(!is_congested);
}

#[test]
fn saturation_above_threshold_is_congested() {
    // 600 / 700 = 0.8571...: over 0.85.
    let monitor = RoadSegmentAgent::new(301, "S3 Jl. Gejayan", 700).unwrap();
    let (saturation, is_congested) = monitor.monitor_status(600);
    assert_eq!(saturation.occupancy, 600);
    assert_eq!(saturation.capacity, 700);
    assert_eq!(saturation.permille(), 857);
    assert!(is_congested);
}

#[test]
fn saturation_exactly_at_threshold_is_not_congested() {
    // 85 / 100 = 0.85 exactly: on the boundary, not congested.
    let monitor = RoadSegmentAgent::new(5, "S5", 100).unwrap();
    let (_, at_boundary) = monitor.monitor_status(85);
    assert!(!at_boundary);
    let (_, just_over) = monitor.monitor_status(86);
    assert!(just_over);
}

#[test]
fn zero_occupancy_is_not_congested() {
    let monitor = RoadSegmentAgent::new(5, "S5", 100).unwrap();
    let (saturation, is_congested) = monitor.monitor_status(0);
    assert_eq!(saturation.permille(), 0);
    assert!(!is_congested);
}

#[test]
fn zero_capacity_is_rejected_at_construction() {
    let result = RoadSegmentAgent::new(9, "S9", 0);
    match result {
        Err(ConfigError::NonPositiveCapacity { lane_id }) => {
            assert_eq!(lane_id, 9);
        }
        Ok(_) => panic!("a zero capacity must be rejected"),
    }
}

#[test]
fn config_error_diagnostic_names_the_constraint() {
    let error = match RoadSegmentAgent::new(9, "S9", 0) {
        Err(e) => e,
        Ok(_) => panic!("a zero capacity must be rejected"),
    };
    assert_eq!(error.constraint(), "capacity must be positive");
    assert_eq!(error.lane_id(), 9);
}

#[test]
fn monitor_construction_state() {
    let monitor = RoadSegmentAgent::new(301, "S3 Jl. Gejayan", 700).unwrap();
    assert_eq!(monitor.lane_id(), 301);
    assert_eq!(monitor.name(), "S3 Jl. Gejayan");
    assert_eq!(monitor.capacity(), 700);
}
