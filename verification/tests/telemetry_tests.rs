use urban_traffic::telemetry::SensorData;
use urban_traffic::telemetry::MAX_QUEUE_LENGTH;
use urban_traffic::telemetry::SPEED_LIMIT_MILLI;

#[test]
fn default_snapshot_is_all_zero() {
    let snapshot = SensorData::new();
    assert_eq!(snapshot.queue_length, 0);
    assert_eq!(snapshot.avg_speed, 0);
    assert_eq!(snapshot.flow_rate, 0);
    assert_eq!(snapshot.waiting_time_integral, 0);
    assert!(snapshot.is_valid());
}

#[test]
fn validity_bounds() {
    let ok = SensorData {
        queue_length: MAX_QUEUE_LENGTH,
        avg_speed: SPEED_LIMIT_MILLI,
        flow_rate: 0,
        waiting_time_integral: 0,
    };
    assert!(ok.is_valid());
    let too_long = SensorData { queue_length: MAX_QUEUE_LENGTH + 1, ..ok };
    assert!(!too_long.is_valid());
    let negative_speed = SensorData { avg_speed: -1, ..ok };
    assert!(!negative_speed.is_valid());
}
