//! The sensor: a bounded window of filtered readings behind one filter
//! instance, and the builder that assembles a sensor only once identity,
//! coordinate, filter and capacity are all supplied.
use crate::common::Coord;
use crate::common::FilterContext;
use crate::common::LowPassFilter;
use crate::common::SensorData;
use crate::common::SensorOutput;
use crate::common::in_range;
use crate::common::values;
use std::collections::VecDeque;
use vstd::prelude::*;

verus! {

/// Marker holding a supplied coordinate.
pub struct WithCoord(pub Coord);

/// Marker for a builder still missing its coordinate.
pub struct NoCoord;

/// Marker holding a supplied filter instance.
pub struct WithFilter<T: LowPassFilter>(pub T);

/// Marker for a builder still missing its filter.
pub struct NoFilter;

/// Marker holding a supplied window capacity.
pub struct WithCapacity(pub usize);

/// Marker for a builder still missing its capacity.
pub struct NoCapacity;

/// Why building a sensor failed: the field that was not supplied.
#[derive(Debug, Clone, PartialEq, Eq, Structural)]
pub enum SensorBuildError {
    MissingCoord,
    MissingCapacity,
    MissingFilter,
}

/// A sensor: its identity, one filter instance, and a bounded window of
/// filtered readings (oldest evicted first once the capacity is reached).
pub struct Sensor<T: LowPassFilter> {
    pub id: u64,
    pub name: String,
    pub coord: Coord,
    pub filter: T,
    capacity: usize,
    readings: VecDeque<SensorData>,
}

/// Accumulates the required sensor fields in any order; the type parameters
/// record which of filter, coordinate and capacity have been supplied, so an
/// incomplete builder cannot build.
pub struct SensorBuilder<F, U, C> {
    id: u64,
    name: String,
    coord: U,
    filter: F,
    capacity: C,
    readings: Option<VecDeque<SensorData>>,
}

impl<F, U, C> SensorBuilder<F, U, C> {
    /// The identity supplied at builder creation.
    pub closed spec fn spec_id(&self) -> u64 {
        self.id
    }

    /// The name supplied at builder creation.
    pub closed spec fn spec_name(&self) -> Seq<char> {
        self.name@
    }

    /// The coordinate field in its current state.
    pub closed spec fn coord_state(&self) -> U {
        self.coord
    }

    /// The filter field in its current state.
    pub closed spec fn filter_state(&self) -> F {
        self.filter
    }

    /// The capacity field in its current state.
    pub closed spec fn capacity_state(&self) -> C {
        self.capacity
    }

    /// The window prepared for the sensor, if capacity was supplied already.
    pub closed spec fn readings_state(&self) -> Option<Seq<SensorData>> {
        match self.readings {
            Some(r) => Some(r@),
            None => None,
        }
    }
}

impl SensorBuilder<NoFilter, NoCoord, NoCapacity> {
    /// Start building a sensor from its identity; coordinate, filter and
    /// capacity are still to be supplied, in any order.
    pub fn new(id: u64, name: &str) -> (r: SensorBuilder<NoFilter, NoCoord, NoCapacity>)
        ensures
            r.spec_id() == id,
            r.spec_name() == name@,
            r.readings_state() is None,
    {
        SensorBuilder {
            id,
            name: name.to_owned(),
            coord: NoCoord,
            filter: NoFilter,
            capacity: NoCapacity,
            readings: None,
        }
    }
}

impl<U, C> SensorBuilder<NoFilter, U, C> {
    /// Supply the filter instance.
    pub fn filter<T: LowPassFilter>(self, filter: T) -> (r: SensorBuilder<WithFilter<T>, U, C>)
        ensures
            r.spec_id() == self.spec_id(),
            r.spec_name() == self.spec_name(),
            r.coord_state() == self.coord_state(),
            r.filter_state() == (WithFilter(filter)),
            r.capacity_state() == self.capacity_state(),
            r.readings_state() == self.readings_state(),
    {
        SensorBuilder {
            id: self.id,
            name: self.name,
            coord: self.coord,
            capacity: self.capacity,
            readings: self.readings,
            filter: WithFilter(filter),
        }
    }
}

impl<F, C> SensorBuilder<F, NoCoord, C> {
    /// Supply the coordinate.
    pub fn coord(self, coord: Coord) -> (r: SensorBuilder<F, WithCoord, C>)
        ensures
            r.spec_id() == self.spec_id(),
            r.spec_name() == self.spec_name(),
            r.coord_state() == (WithCoord(coord)),
            r.filter_state() == self.filter_state(),
            r.capacity_state() == self.capacity_state(),
            r.readings_state() == self.readings_state(),
    {
        SensorBuilder {
            id: self.id,
            name: self.name,
            coord: WithCoord(coord),
            capacity: self.capacity,
            readings: self.readings,
            filter: self.filter,
        }
    }
}

impl<F, U> SensorBuilder<F, U, NoCapacity> {
    /// Supply the window capacity and prepare an empty window sized to it.
    pub fn with_capacity(self, capacity: usize) -> (r: SensorBuilder<F, U, WithCapacity>)
        ensures
            r.spec_id() == self.spec_id(),
            r.spec_name() == self.spec_name(),
            r.coord_state() == self.coord_state(),
            r.filter_state() == self.filter_state(),
            r.capacity_state() == (WithCapacity(capacity)),
            r.readings_state() == Some(Seq::<SensorData>::empty()),
    {
        SensorBuilder {
            id: self.id,
            name: self.name,
            coord: self.coord,
            filter: self.filter,
            capacity: WithCapacity(capacity),
            readings: Some(VecDeque::with_capacity(capacity)),
        }
    }
}

impl<T: LowPassFilter> SensorBuilder<WithFilter<T>, WithCoord, WithCapacity> {
    /// The supplied coordinate.
    pub open spec fn spec_coord(&self) -> Coord {
        self.coord_state().0
    }

    /// The supplied filter instance.
    pub open spec fn spec_filter(&self) -> T {
        self.filter_state().0
    }

    /// The supplied window capacity.
    pub open spec fn spec_capacity(&self) -> usize {
        self.capacity_state().0
    }

    /// Assemble the sensor. Every required field was supplied (the types of
    /// this builder state say so), so construction always succeeds; the
    /// sensor starts from the prepared window, carrying exactly the supplied
    /// identity, coordinate, filter and capacity, whatever the order the
    /// fields were supplied in.
    pub fn build(self) -> (r: Result<Sensor<T>, SensorBuildError>)
        ensures
            r matches Ok(s) && ({
                &&& s.spec_id() == self.spec_id()
                &&& s.spec_name() == self.spec_name()
                &&& s.spec_coord() == self.spec_coord()
                &&& s.spec_filter() == self.spec_filter()
                &&& s.spec_capacity() == self.spec_capacity()
                &&& s.window() == match self.readings_state() {
                    Some(w) => w,
                    None => Seq::<SensorData>::empty(),
                }
            }),
    {
        let readings: VecDeque<SensorData> = match self.readings {
            Some(r) => r,
            None => VecDeque::new(),
        };
        Ok(
            Sensor {
                id: self.id,
                name: self.name,
                coord: self.coord.0,
                filter: self.filter.0,
                capacity: self.capacity.0,
                readings,
            },
        )
    }
}

/// The window after inserting `entry`: the single oldest entry is evicted
/// first exactly when the window is at capacity.
pub open spec fn window_after(w: Seq<SensorData>, capacity: usize, entry: SensorData) -> Seq<
    SensorData,
> {
    if w.len() == capacity {
        w.subrange(1, w.len() as int).push(entry)
    } else {
        w.push(entry)
    }
}

/// Inserting into a bounded window keeps it bounded: the length never passes
/// the capacity, the new entry is the latest, and at capacity the oldest
/// entry is dropped while every other entry shifts down one place.
pub proof fn lemma_window_after_bounds(w: Seq<SensorData>, capacity: usize, entry: SensorData)
    requires
        w.len() <= capacity,
        1 <= capacity,
    ensures
        window_after(w, capacity, entry).len() <= capacity,
        window_after(w, capacity, entry).last() == entry,
        window_after(w, capacity, entry).len() == if w.len() == capacity {
            capacity as int
        } else {
            w.len() + 1 as int
        },
        w.len() == capacity ==> forall|i: int|
            0 <= i < capacity - 1 ==> window_after(w, capacity, entry)[i] == w[i + 1],
{
}

/// The window after inserting a whole sequence of entries, oldest first.
pub open spec fn window_after_all(
    w: Seq<SensorData>,
    capacity: usize,
    entries: Seq<SensorData>,
) -> Seq<SensorData>
    decreases entries.len(),
{
    if entries.len() == 0 {
        w
    } else {
        window_after_all(window_after(w, capacity, entries[0]), capacity, entries.drop_first())
    }
}

/// A bounded window stays bounded under any number of insertions: the
/// length grows by one per insertion only until it reaches the capacity,
/// where it stays (the oldest entry leaving on each further insertion), and
/// the latest entry always reflects the most recent insertion.
pub proof fn lemma_bounded_window(w: Seq<SensorData>, capacity: usize, entries: Seq<SensorData>)
    requires
        w.len() <= capacity,
        1 <= capacity,
    ensures
        window_after_all(w, capacity, entries).len() == if w.len() + entries.len() <= capacity {
            (w.len() + entries.len()) as int
        } else {
            capacity as int
        },
        entries.len() > 0 ==> window_after_all(w, capacity, entries).last() == entries.last(),
    decreases entries.len(),
{
    if entries.len() > 0 {
        lemma_window_after_bounds(w, capacity, entries[0]);
        lemma_bounded_window(window_after(w, capacity, entries[0]), capacity, entries.drop_first());
        if entries.len() > 1 {
            assert(entries.drop_first().last() == entries.last());
        }
    }
}

/// In full: after any number of insertions the window holds exactly the
/// newest entries of "old window, then insertions in order" that fit the
/// capacity; everything older has been evicted.
pub proof fn lemma_window_is_newest_suffix(
    w: Seq<SensorData>,
    capacity: usize,
    entries: Seq<SensorData>,
)
    requires
        w.len() <= capacity,
        1 <= capacity,
    ensures
        window_after_all(w, capacity, entries) =~= (w + entries).skip(
            if w.len() + entries.len() <= capacity {
                0
            } else {
                (w.len() + entries.len() - capacity) as int
            },
        ),
    decreases entries.len(),
{
    if entries.len() == 0 {
        assert(w + entries =~= w);
    } else {
        let e0 = entries[0];
        let rest = entries.drop_first();
        let w1 = window_after(w, capacity, e0);
        lemma_window_after_bounds(w, capacity, e0);
        lemma_window_is_newest_suffix(w1, capacity, rest);
        if w.len() == capacity {
            assert(w1 + rest =~= (w + entries).skip(1));
        } else {
            assert(w1 + rest =~= w + entries);
        }
    }
}

impl<T: LowPassFilter> Sensor<T> {
    /// The sensor's identity, for use in specifications.
    pub closed spec fn spec_id(&self) -> u64 {
        self.id
    }

    /// The sensor's name, for use in specifications.
    pub closed spec fn spec_name(&self) -> Seq<char> {
        self.name@
    }

    /// The sensor's coordinate, for use in specifications.
    pub closed spec fn spec_coord(&self) -> Coord {
        self.coord
    }

    /// The sensor's filter instance, for use in specifications.
    pub closed spec fn spec_filter(&self) -> T {
        self.filter
    }

    /// The fixed window capacity.
    pub closed spec fn spec_capacity(&self) -> usize {
        self.capacity
    }

    /// The current window of filtered readings, oldest first.
    pub closed spec fn window(&self) -> Seq<SensorData> {
        self.readings@
    }

    /// The sensor's invariant: a well-formed filter, a usable capacity, and
    /// a window that is bounded by it and holds only in-range values.
    pub open spec fn wf(&self) -> bool {
        &&& self.spec_filter().wf()
        &&& 1 <= self.spec_capacity()
        &&& self.window().len() <= self.spec_capacity()
        &&& forall|i: int|
            0 <= i < self.window().len() ==> in_range((#[trigger] self.window()[i]).value as int)
    }

    /// True exactly when no reading has been stored yet.
    pub fn is_empty(&self) -> (r: bool)
        ensures
            r <==> self.window().len() == 0,
    {
        self.readings.len() == 0
    }

    /// Ingest one raw reading: apply the filter to it under the current
    /// window, evict the oldest entry if the window is at capacity, and
    /// append the filtered reading.
    pub fn write(&mut self, value: i64, timestamp: u128)
        requires
            old(self).wf(),
            in_range(value as int),
        ensures
            final(self).wf(),
            final(self).spec_id() == old(self).spec_id(),
            final(self).spec_name() == old(self).spec_name(),
            final(self).spec_coord() == old(self).spec_coord(),
            final(self).spec_capacity() == old(self).spec_capacity(),
            final(self).window().len() >= 1,
            final(self).window().last().timestamp == timestamp,
            old(self).spec_filter().applied(
                values(old(self).window()),
                value as int,
                final(self).spec_filter(),
                final(self).window().last().value as int,
            ),
            final(self).window() == window_after(
                old(self).window(),
                old(self).spec_capacity(),
                final(self).window().last(),
            ),
    {
        let out: i64;
        {
            let context = FilterContext {
                readings: &self.readings,
                raw_value: value,
                timestamp,
                capacity: self.capacity,
            };
            out = self.filter.apply(&context);
        }
        let entry = SensorData { value: out, timestamp };
        if self.readings.len() == self.capacity {
            self.readings.pop_front();
        }
        self.readings.push_back(entry);
    }

    /// The most recently appended filtered reading wrapped with the sensor's
    /// identity, or nothing while the window is empty. The sensor itself is
    /// left untouched.
    pub fn get_latest(&mut self) -> (r: Option<SensorOutput>)
        ensures
            *final(self) == *old(self),
            r is None <==> old(self).window().len() == 0,
            r matches Some(out) ==> ({
                &&& out.sensor_id == old(self).spec_id()
                &&& out.sensor_name@ == old(self).spec_name()
                &&& out.sensor_coord == old(self).spec_coord()
                &&& out.value == old(self).window().last().value
                &&& out.timestamp == old(self).window().last().timestamp
            }),
    {
        let n: usize = self.readings.len();
        if n == 0 {
            None
        } else {
            let latest: &SensorData = &self.readings[n - 1];
            Some(
                SensorOutput {
                    sensor_id: self.id,
                    sensor_name: self.name.clone(),
                    sensor_coord: Coord { x: self.coord.x, y: self.coord.y },
                    value: latest.value,
                    timestamp: latest.timestamp,
                },
            )
        }
    }

    /// Take the oldest stored reading out of the window, if any.
    pub fn read(&mut self) -> (r: Option<SensorData>)
        ensures
            final(self).spec_id() == old(self).spec_id(),
            final(self).spec_name() == old(self).spec_name(),
            final(self).spec_coord() == old(self).spec_coord(),
            final(self).spec_capacity() == old(self).spec_capacity(),
            final(self).spec_filter() == old(self).spec_filter(),
            old(self).window().len() == 0 ==> r is None
                && final(self).window() == old(self).window(),
            old(self).window().len() > 0 ==> r == Some(old(self).window()[0])
                && final(self).window() == old(self).window().subrange(
                    1,
                    old(self).window().len() as int,
                ),
            old(self).wf() ==> final(self).wf(),
    {
        self.readings.pop_front()
    }
}

} // verus!
