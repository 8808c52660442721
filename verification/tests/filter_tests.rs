//! Filter behaviour: cold start, steady state, and cascade coupling.
//! Values are fixed-point integers in millionths.
use skju::Coord;
use skju::FilterContext;
use skju::LowPassFilter;
use skju::MultiPoleExponentialLowPass;
use skju::SensorBuilder;
use skju::SensorData;
use skju::SimpleFilter;
use skju::Smoothing;
use std::collections::VecDeque;

#[test]
fn filter_with_no_readings() {
    let mut filter = SimpleFilter::new(Smoothing::new(1, 10));
    let raw_value = 500_000;
    let capacity = 100;
    let readings = VecDeque::with_capacity(capacity);
    let context = FilterContext {
        capacity,
        raw_value,
        readings: &readings,
        timestamp: 4242,
    };

    assert_eq!(filter.apply(&context), raw_value);
}

#[test]
fn filter_with_readings() {
    let capacity = 100;
    let raw_value = 500_000;
    let last_filtered_value = 200_000;
    let smoothing_1 = Smoothing::new(1, 10);
    let smoothing_2 = Smoothing::new(2, 10);
    let mut filter_1 = SimpleFilter::new(smoothing_1);
    let mut filter_2 = SimpleFilter::new(smoothing_2);
    let mut readings = VecDeque::with_capacity(capacity);

    let expected_1 = last_filtered_value + 1 * (raw_value - last_filtered_value) / 10;
    let expected_2 = last_filtered_value + 2 * (raw_value - last_filtered_value) / 10;

    readings.push_back(SensorData {
        timestamp: 4242,
        value: last_filtered_value,
    });

    let context = FilterContext {
        capacity,
        raw_value,
        readings: &readings,
        timestamp: 4242,
    };

    assert_eq!(filter_1.apply(&context), expected_1);
    assert_eq!(filter_2.apply(&context), expected_2);
}

#[test]
fn single_pole_cold_start_passes_raw_through() {
    // Smoothing 1/2, capacity 10: the first-ever write of 1.0 yields 1.0.
    let built = SensorBuilder::new(1, "cold")
        .filter(SimpleFilter::new(Smoothing::new(1, 2)))
        .coord(Coord { x: 0, y: 0 })
        .with_capacity(10)
        .build();
    let mut sensor = built.unwrap();
    sensor.write(1_000_000, 1);
    let latest = sensor.get_latest().unwrap();
    assert_eq!(latest.value, 1_000_000);
    assert_eq!(latest.timestamp, 1);
}

#[test]
fn single_pole_steady_state() {
    // After the cold start at 1.0: write 2.0 gives 1.0 + 0.5*(2.0-1.0) = 1.5,
    // then write 0.0 gives 1.5 + 0.5*(0.0-1.5) = 0.75.
    let built = SensorBuilder::new(1, "steady")
        .filter(SimpleFilter::new(Smoothing::new(1, 2)))
        .coord(Coord { x: 0, y: 0 })
        .with_capacity(10)
        .build();
    let mut sensor = built.unwrap();
    sensor.write(1_000_000, 1);
    sensor.write(2_000_000, 2);
    assert_eq!(sensor.get_latest().unwrap().value, 1_500_000);
    sensor.write(0, 3);
    assert_eq!(sensor.get_latest().unwrap().value, 750_000);
}

#[test]
fn cascade_is_sequentially_coupled() {
    // Two stages, smoothing 1/2. Cold start on 1.0 seeds both stages to 1.0
    // and outputs 1.0. The next write of 2.0 updates stage 0 to 1.5 and
    // stage 1 from that *same-call* value: 1.0 + 0.5*(1.5-1.0) = 1.25. An
    // independent cascade would have produced 1.0 instead.
    let built = SensorBuilder::new(1, "cascade")
        .filter(MultiPoleExponentialLowPass::new(2, Smoothing::new(1, 2)))
        .coord(Coord { x: 0, y: 0 })
        .with_capacity(10)
        .build();
    let mut sensor = built.unwrap();
    sensor.write(1_000_000, 1);
    assert_eq!(sensor.get_latest().unwrap().value, 1_000_000);
    sensor.write(2_000_000, 2);
    let coupled = sensor.get_latest().unwrap().value;
    assert_eq!(coupled, 1_250_000);
    let naive_independent = 1_000_000;
    assert_ne!(coupled, naive_independent);
}

#[test]
fn cascade_with_zero_stages_is_identity() {
    let built = SensorBuilder::new(1, "zero")
        .filter(MultiPoleExponentialLowPass::new(0, Smoothing::new(1, 2)))
        .coord(Coord { x: 0, y: 0 })
        .with_capacity(4)
        .build();
    let mut sensor = built.unwrap();
    sensor.write(123_456, 9);
    assert_eq!(sensor.get_latest().unwrap().value, 123_456);
    sensor.write(-654_321, 10);
    assert_eq!(sensor.get_latest().unwrap().value, -654_321);
}
