//! Streaming sensor telemetry: per-sensor low-pass filtering over a bounded
//! window of readings, validated sensor construction, and an all-or-nothing
//! fleet snapshot aggregator.
//!
//! Reading values and coordinates are carried as fixed-point integers: a
//! caller picks a unit (such as millionths) and converts at the boundary.
//! The smoothing coefficient of a filter is an exact rational in `(0, 1)`.
mod common;
mod filter;
mod pipeline;
mod sensor;

pub use common::Coord;
pub use common::FilterContext;
pub use common::LowPassFilter;
pub use common::SensorConfig;
pub use common::SensorData;
pub use common::SensorOutput;
pub use common::Smoothing;
pub use common::VALUE_LIMIT;
pub use filter::multi_pole_exp_filter::MultiPoleExponentialLowPass;
pub use filter::simple_filter::SimpleFilter;
pub use pipeline::AggregatorAction;
pub use pipeline::StreamEvent;
pub use pipeline::WorkerAction;
pub use pipeline::aggregate_snapshots;
pub use pipeline::aggregator_step;
pub use pipeline::create_sensor_from_config;
pub use pipeline::get_default_sensors;
pub use pipeline::worker_step;
pub use sensor::NoCapacity;
pub use sensor::NoCoord;
pub use sensor::NoFilter;
pub use sensor::Sensor;
pub use sensor::SensorBuildError;
pub use sensor::SensorBuilder;
pub use sensor::WithCapacity;
pub use sensor::WithCoord;
pub use sensor::WithFilter;
