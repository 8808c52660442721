//! Decision logic of the ingestion workers and the snapshot aggregator, and
//! the startup wiring that turns configuration records into sensors.
//!
//! The loops themselves live with the caller, who performs the waiting and
//! the stream and sink I/O; the functions here decide, from the shared stop
//! flag and what one poll observed, what happens next.
use crate::common::Coord;
use crate::common::SensorConfig;
use crate::common::SensorData;
use crate::common::SensorOutput;
use crate::common::Smoothing;
use crate::filter::multi_pole_exp_filter::MultiPoleExponentialLowPass;
use crate::sensor::Sensor;
use crate::sensor::SensorBuilder;
use vstd::prelude::*;

verus! {

/// What one poll of a sensor's raw-reading stream observed.
#[derive(Clone, Copy, Debug, PartialEq, Eq, Structural)]
pub enum StreamEvent {
    /// Nothing newly appended.
    NoNewData,
    /// One newly appended record, already parsed.
    Record(SensorData),
    /// The stream could not be read.
    ReadFailed,
    /// A newly appended record could not be parsed.
    Malformed,
}

/// What an ingestion worker does in reaction to one poll.
#[derive(Clone, Copy, Debug, PartialEq, Eq, Structural)]
pub enum WorkerAction {
    /// Stop cleanly: the shared stop flag was set.
    Exit,
    /// Wait one poll interval, then poll again.
    Sleep,
    /// Feed the record into the sensor, then wait one poll interval.
    WriteThenSleep(SensorData),
    /// Report the fatal error and set the shared stop flag.
    FailStop,
}

/// The worker protocol: exit once the stop flag is set; otherwise sleep on
/// an idle stream, write a parsed record through, and treat a read or parse
/// failure as fatal for the whole fleet.
pub open spec fn worker_step_spec(stop_set: bool, event: StreamEvent) -> WorkerAction {
    if stop_set {
        WorkerAction::Exit
    } else {
        match event {
            StreamEvent::NoNewData => WorkerAction::Sleep,
            StreamEvent::Record(data) => WorkerAction::WriteThenSleep(data),
            StreamEvent::ReadFailed => WorkerAction::FailStop,
            StreamEvent::Malformed => WorkerAction::FailStop,
        }
    }
}

/// Decide one step of an ingestion worker's loop.
pub fn worker_step(stop_set: bool, event: StreamEvent) -> (a: WorkerAction)
    ensures
        a == worker_step_spec(stop_set, event),
{
    if stop_set {
        WorkerAction::Exit
    } else {
        match event {
            StreamEvent::NoNewData => WorkerAction::Sleep,
            StreamEvent::Record(data) => WorkerAction::WriteThenSleep(data),
            StreamEvent::ReadFailed => WorkerAction::FailStop,
            StreamEvent::Malformed => WorkerAction::FailStop,
        }
    }
}

/// Once the stop flag is set every worker exits on its very next poll,
/// whatever its stream shows; and while the flag is clear, a worker that
/// sees a failed read or a malformed record answers with the action that
/// sets the flag for everyone (fail together, never silently degrade).
pub proof fn lemma_fail_together(event: StreamEvent)
    ensures
        worker_step_spec(true, event) == WorkerAction::Exit,
        worker_step_spec(false, StreamEvent::ReadFailed) == WorkerAction::FailStop,
        worker_step_spec(false, StreamEvent::Malformed) == WorkerAction::FailStop,
{
}

/// Collapse one tick's polled values into an all-or-nothing snapshot: the
/// full ordered list if every sensor had a latest value, and nothing at all
/// if even one had none.
pub fn aggregate_snapshots(polled: Vec<Option<SensorOutput>>) -> (r: Option<Vec<SensorOutput>>)
    ensures
        r is Some <==> (forall|i: int| 0 <= i < polled@.len() ==> (#[trigger] polled@[i]) is Some),
        r matches Some(v) ==> ({
            &&& v@.len() == polled@.len()
            &&& forall|i: int| 0 <= i < polled@.len() ==> Some(#[trigger] v@[i]) == polled@[i]
        }),
{
    let n: usize = polled.len();
    let mut collected: Vec<SensorOutput> = Vec::new();
    let mut i: usize = 0;
    while i < n
        invariant
            i <= n,
            n == polled@.len(),
            collected@.len() == i,
            forall|j: int| 0 <= j < i ==> Some(#[trigger] collected@[j]) == polled@[j],
        decreases n - i,
    {
        let entry: &Option<SensorOutput> = &polled[i];
        match entry {
            Some(out) => collected.push(out.clone()),
            None => {
                return None;
            },
        }
        i = i + 1;
    }
    proof {
        assert forall|j: int| 0 <= j < polled@.len() implies (#[trigger] polled@[j]) is Some by {
            assert(Some(collected@[j]) == polled@[j]);
        }
    }
    Some(collected)
}

/// What the aggregator does in one tick.
#[derive(Debug, PartialEq)]
pub enum AggregatorAction {
    /// Stop cleanly: the shared stop flag was set.
    Exit,
    /// Emit this full, ordered fleet snapshot to the sink, then sleep.
    Emit(Vec<SensorOutput>),
    /// Some sensor has no data yet: emit nothing this tick, just sleep.
    Skip,
}

/// Decide one tick of the aggregator's loop: exit once the stop flag is
/// set, else emit the fleet snapshot exactly when every sensor answered.
pub fn aggregator_step(stop_set: bool, polled: Vec<Option<SensorOutput>>) -> (a: AggregatorAction)
    ensures
        stop_set ==> a is Exit,
        !stop_set ==> (a is Skip <==> !(forall|i: int|
            0 <= i < polled@.len() ==> (#[trigger] polled@[i]) is Some)),
        !stop_set ==> (a matches AggregatorAction::Emit(v) ==> ({
            &&& v@.len() == polled@.len()
            &&& forall|i: int| 0 <= i < polled@.len() ==> Some(#[trigger] v@[i]) == polled@[i]
        })),
        !stop_set ==> !(a is Exit),
    {
    if stop_set {
        return AggregatorAction::Exit;
    }
    match aggregate_snapshots(polled) {
        Some(snapshots) => AggregatorAction::Emit(snapshots),
        None => AggregatorAction::Skip,
    }
}

/// Wire one configuration record into a ready sensor: a three-stage
/// cascaded exponential filter with smoothing 1/10, over a window of 100
/// readings.
pub fn create_sensor_from_config(sensor_config: SensorConfig) -> (s: Sensor<
    MultiPoleExponentialLowPass,
>)
    ensures
        s.wf(),
        s.spec_id() == sensor_config.id,
        s.spec_name() == sensor_config.name@,
        s.spec_coord() == sensor_config.coord,
        s.spec_capacity() == 100,
        s.spec_filter().spec_stages() == 3,
        s.spec_filter().spec_smoothing() == (Smoothing { num: 1, den: 10 }),
        s.spec_filter().memory() == Seq::<int>::empty(),
        s.window() == Seq::<SensorData>::empty(),
{
    let capacity: usize = 100;
    let smoothing = Smoothing::new(1, 10);
    let number_of_stages: u8 = 3;

    let built = SensorBuilder::new(sensor_config.id, sensor_config.name.as_str()).coord(
        sensor_config.coord,
    ).filter(MultiPoleExponentialLowPass::new(number_of_stages, smoothing)).with_capacity(
        capacity,
    ).build();
    built.unwrap()
}

/// The fleet used when no configuration was persisted yet: three sensors
/// with fixed identities and coordinates (in millionths).
pub fn get_default_sensors() -> (sensors: Vec<SensorConfig>)
    ensures
        sensors@.len() == 3,
        sensors@[0].id == 1 && sensors@[0].name@ == "Sensor Alpha"@ && sensors@[0].coord == (Coord {
            x: 12_500_000,
            y: 34_800_000,
        }),
        sensors@[1].id == 2 && sensors@[1].name@ == "Sensor Beta"@ && sensors@[1].coord == (Coord {
            x: 18_200_000,
            y: 29_100_000,
        }),
        sensors@[2].id == 3 && sensors@[2].name@ == "Sensor Gamma"@ && sensors@[2].coord == (Coord {
            x: 25_700_000,
            y: 40_300_000,
        }),
{
    let mut sensors: Vec<SensorConfig> = Vec::new();
    sensors.push(
        SensorConfig {
            id: 1,
            name: "Sensor Alpha".to_owned(),
            coord: Coord { x: 12_500_000, y: 34_800_000 },
        },
    );
    sensors.push(
        SensorConfig {
            id: 2,
            name: "Sensor Beta".to_owned(),
            coord: Coord { x: 18_200_000, y: 29_100_000 },
        },
    );
    sensors.push(
        SensorConfig {
            id: 3,
            name: "Sensor Gamma".to_owned(),
            coord: Coord { x: 25_700_000, y: 40_300_000 },
        },
    );
    sensors
}

} // verus!
