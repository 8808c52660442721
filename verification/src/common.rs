//! Shared value types of the library: fixed-point reading values, sensor
//! identity and output records, and the low-pass filter capability.
use std::collections::VecDeque;
use vstd::prelude::*;

verus! {

/// Largest magnitude a reading value (in the caller's fixed-point unit) may
/// have. Keeping values inside this bound lets every filter step be computed
/// exactly in 64-bit arithmetic.
pub const VALUE_LIMIT: i64 = 1_000_000_000_000_000_000;

/// A value is in range when its magnitude is at most `VALUE_LIMIT`.
pub open spec fn in_range(v: int) -> bool {
    -(VALUE_LIMIT as int) <= v <= VALUE_LIMIT as int
}

/// Smoothing coefficient of a low-pass filter: the exact rational
/// `num / den`, required to lie strictly between 0 and 1.
#[derive(Clone, Copy, Debug, PartialEq, Eq, Structural)]
pub struct Smoothing {
    pub num: u32,
    pub den: u32,
}

impl Smoothing {
    /// The coefficient lies strictly between 0 and 1.
    pub open spec fn wf(self) -> bool {
        0 < self.num < self.den
    }

    pub fn new(num: u32, den: u32) -> (s: Smoothing)
        requires
            0 < num < den,
        ensures
            s.num == num,
            s.den == den,
            s.wf(),
    {
        Smoothing { num, den }
    }
}

/// One exponential smoothing step: `prev + smoothing * (raw - prev)`, the
/// scaled difference divided out exactly, rounded toward the previous value.
pub open spec fn lp_step_spec(s: Smoothing, prev: int, raw: int) -> int {
    if raw >= prev {
        prev + (s.num as int) * (raw - prev) / (s.den as int)
    } else {
        prev - (s.num as int) * (prev - raw) / (s.den as int)
    }
}

/// A smoothing step never leaves the interval spanned by the previous value
/// and the raw input.
pub proof fn lemma_lp_step_between(s: Smoothing, prev: int, raw: int)
    requires
        s.wf(),
    ensures
        raw >= prev ==> prev <= lp_step_spec(s, prev, raw) <= raw,
        raw < prev ==> raw <= lp_step_spec(s, prev, raw) <= prev,
{
    if raw >= prev {
        let d = raw - prev;
        assert(0 <= (s.num as int) * d / (s.den as int) <= d) by (nonlinear_arith)
            requires
                0 < s.num < s.den,
                d >= 0,
        ;
    } else {
        let d = prev - raw;
        assert(0 <= (s.num as int) * d / (s.den as int) <= d) by (nonlinear_arith)
            requires
                0 < s.num < s.den,
                d >= 0,
        ;
    }
}

/// Executable form of one smoothing step; exact with respect to
/// `lp_step_spec`.
pub fn lp_step(s: Smoothing, prev: i64, raw: i64) -> (r: i64)
    requires
        s.wf(),
        in_range(prev as int),
        in_range(raw as int),
    ensures
        r as int == lp_step_spec(s, prev as int, raw as int),
        in_range(r as int),
{
    proof {
        lemma_lp_step_between(s, prev as int, raw as int);
    }
    if raw >= prev {
        let d: i64 = raw - prev;
        proof {
            assert((s.num as int) * (d as int) <= 4294967295 * 2000000000000000000)
                by (nonlinear_arith)
                requires
                    s.num as int <= 4294967295,
                    0 <= d as int <= 2000000000000000000,
            ;
        }
        let scaled: u128 = (s.num as u128) * (d as u128) / (s.den as u128);
        let delta: i64 = scaled as i64;
        prev + delta
    } else {
        let d: i64 = prev - raw;
        proof {
            assert((s.num as int) * (d as int) <= 4294967295 * 2000000000000000000)
                by (nonlinear_arith)
                requires
                    s.num as int <= 4294967295,
                    0 <= d as int <= 2000000000000000000,
            ;
        }
        let scaled: u128 = (s.num as u128) * (d as u128) / (s.den as u128);
        let delta: i64 = scaled as i64;
        prev - delta
    }
}

/// A 2D coordinate of a sensor, in the caller's fixed-point unit.
#[derive(Clone, Copy, Debug, PartialEq, Eq, Structural)]
pub struct Coord {
    pub x: i64,
    pub y: i64,
}

/// Identity of one sensor as configured at startup.
#[derive(Clone, Debug, PartialEq)]
pub struct SensorConfig {
    pub id: u64,
    pub name: String,
    pub coord: Coord,
}

/// One filtered (or raw) reading: a fixed-point value and its timestamp.
#[derive(Clone, Copy, Debug, PartialEq, Eq, Structural)]
pub struct SensorData {
    pub value: i64,
    pub timestamp: u128,
}

/// A sensor's latest filtered value wrapped with its identity, as emitted in
/// a fleet snapshot.
#[derive(Debug, PartialEq)]
pub struct SensorOutput {
    pub sensor_id: u64,
    pub sensor_name: String,
    pub sensor_coord: Coord,
    pub value: i64,
    pub timestamp: u128,
}

impl Clone for SensorOutput {
    fn clone(&self) -> (r: Self)
        ensures
            r == *self,
    {
        SensorOutput {
            sensor_id: self.sensor_id,
            sensor_name: self.sensor_name.clone(),
            sensor_coord: self.sensor_coord,
            value: self.value,
            timestamp: self.timestamp,
        }
    }
}

/// The values stored in a window of readings, as mathematical integers.
pub open spec fn values(readings: Seq<SensorData>) -> Seq<int> {
    Seq::new(readings.len(), |i: int| readings[i].value as int)
}

/// Everything a filter may look at during one application: the sensor's
/// current window, the new raw value with its timestamp, and the window's
/// capacity. Built per write and never stored.
pub struct FilterContext<'a> {
    pub readings: &'a VecDeque<SensorData>,
    pub raw_value: i64,
    pub timestamp: u128,
    pub capacity: usize,
}

impl<'a> FilterContext<'a> {
    /// The raw value and every stored value are in range.
    pub open spec fn wf(&self) -> bool {
        &&& in_range(self.raw_value as int)
        &&& forall|i: int|
            0 <= i < self.readings@.len() ==> in_range(
                (#[trigger] self.readings@[i]).value as int,
            )
    }
}

/// The low-pass filter capability: one operation producing a new filtered
/// value from the raw input and the current retained window. A filter may
/// keep private memory across calls; its exact behaviour is pinned by the
/// `applied` relation that each variant defines over its own model.
pub trait LowPassFilter: Sized {
    /// The filter's private memory is well formed.
    spec fn wf(&self) -> bool;

    /// Applying the filter to `raw` under `window` turns it into `next` and
    /// outputs `out`. Each variant defines this to determine `next` and
    /// `out` exactly.
    spec fn applied(&self, window: Seq<int>, raw: int, next: Self, out: int) -> bool;

    /// Apply the filter once. The new memory and the result are exactly the
    /// ones the variant's model gives; outputs stay in range.
    fn apply(&mut self, context: &FilterContext<'_>) -> (r: i64)
        requires
            old(self).wf(),
            context.wf(),
        ensures
            old(self).applied(
                values(context.readings@),
                context.raw_value as int,
                *final(self),
                r as int,
            ),
            final(self).wf(),
            in_range(r as int),
    ;
}

} // verus!
