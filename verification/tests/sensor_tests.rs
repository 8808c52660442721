//! Sensor behaviour: the bounded window, reading back, and the builder.
use skju::Coord;
use skju::SensorBuildError;
use skju::SensorBuilder;
use skju::SimpleFilter;
use skju::Smoothing;
use skju::VALUE_LIMIT;

fn half_smoothing_sensor(capacity: usize) -> skju::Sensor<SimpleFilter> {
    SensorBuilder::new(42, "window")
        .filter(SimpleFilter::new(Smoothing::new(1, 2)))
        .coord(Coord { x: 1, y: 2 })
        .with_capacity(capacity)
        .build()
        .unwrap()
}

#[test]
fn window_is_bounded_and_evicts_oldest() {
    // Capacity 3; after 4 writes the first write's filtered value (1.0) is
    // no longer present and the latest reflects the most recent write.
    let mut sensor = half_smoothing_sensor(3);
    sensor.write(1_000_000, 1); // stored: 1.0 (cold start)
    sensor.write(3_000_000, 2); // stored: 2.0
    sensor.write(3_000_000, 3); // stored: 2.5
    sensor.write(3_000_000, 4); // stored: 2.75, evicting 1.0

    assert_eq!(sensor.get_latest().unwrap().value, 2_750_000);

    let mut drained = Vec::new();
    while let Some(data) = sensor.read() {
        drained.push(data.value);
    }
    assert_eq!(drained, vec![2_000_000, 2_500_000, 2_750_000]);
    assert!(!drained.contains(&1_000_000));
}

#[test]
fn is_empty_tracks_writes() {
    let mut sensor = half_smoothing_sensor(2);
    assert!(sensor.is_empty());
    assert!(sensor.get_latest().is_none());
    assert!(sensor.read().is_none());
    sensor.write(5, 1);
    assert!(!sensor.is_empty());
    assert!(sensor.get_latest().is_some());
}

#[test]
fn read_pops_oldest_first() {
    let mut sensor = half_smoothing_sensor(5);
    sensor.write(10, 1);
    sensor.write(20, 2);
    let first = sensor.read().unwrap();
    assert_eq!(first.value, 10);
    assert_eq!(first.timestamp, 1);
    let second = sensor.read().unwrap();
    assert_eq!(second.value, 15); // 10 + (20 - 10) / 2
    assert_eq!(second.timestamp, 2);
    assert!(sensor.read().is_none());
}

#[test]
fn builder_accepts_fields_in_any_order() {
    let mut a = SensorBuilder::new(9, "anyorder")
        .coord(Coord { x: 3, y: 4 })
        .filter(SimpleFilter::new(Smoothing::new(1, 4)))
        .with_capacity(8)
        .build()
        .unwrap();
    let mut b = SensorBuilder::new(9, "anyorder")
        .with_capacity(8)
        .filter(SimpleFilter::new(Smoothing::new(1, 4)))
        .coord(Coord { x: 3, y: 4 })
        .build()
        .unwrap();

    assert_eq!(a.id, b.id);
    assert_eq!(a.name, b.name);
    assert_eq!(a.coord, b.coord);
    assert_eq!(a.filter, b.filter);

    a.write(400_000, 7);
    b.write(400_000, 7);
    a.write(800_000, 8);
    b.write(800_000, 8);
    assert_eq!(a.get_latest().unwrap(), b.get_latest().unwrap());
}

#[test]
fn builder_keeps_identity_and_coordinate() {
    let mut sensor = SensorBuilder::new(31, "Sensor Delta")
        .filter(SimpleFilter::new(Smoothing::new(3, 7)))
        .coord(Coord { x: -5, y: 11 })
        .with_capacity(2)
        .build()
        .unwrap();
    assert_eq!(sensor.id, 31);
    assert_eq!(sensor.name, "Sensor Delta");
    assert_eq!(sensor.coord, Coord { x: -5, y: 11 });
    sensor.write(1, 1);
    let out = sensor.get_latest().unwrap();
    assert_eq!(out.sensor_id, 31);
    assert_eq!(out.sensor_name, "Sensor Delta");
    assert_eq!(out.sensor_coord, Coord { x: -5, y: 11 });
}

#[test]
fn build_errors_name_the_missing_field() {
    // Construction completeness is enforced by the builder's types: a
    // builder missing a field has no `build` at all. The error values a
    // dynamic check would report remain distinct and well-formed.
    assert_eq!(SensorBuildError::MissingCoord, SensorBuildError::MissingCoord);
    assert_ne!(SensorBuildError::MissingCoord, SensorBuildError::MissingCapacity);
    assert_ne!(SensorBuildError::MissingCapacity, SensorBuildError::MissingFilter);
    assert_ne!(SensorBuildError::MissingFilter, SensorBuildError::MissingCoord);
}

#[test]
fn extreme_values_stay_exact() {
    let mut sensor = half_smoothing_sensor(2);
    sensor.write(VALUE_LIMIT, 1);
    assert_eq!(sensor.get_latest().unwrap().value, VALUE_LIMIT);
    sensor.write(-VALUE_LIMIT, 2);
    // VALUE_LIMIT + (-VALUE_LIMIT - VALUE_LIMIT) / 2 == 0
    assert_eq!(sensor.get_latest().unwrap().value, 0);
}
