//! Single-pole exponential low-pass filter.
use crate::common::FilterContext;
use crate::common::LowPassFilter;
use crate::common::Smoothing;
use crate::common::lp_step;
use crate::common::lp_step_spec;
use crate::common::values;
use vstd::prelude::*;

verus! {

/// A single-pole exponential filter: no memory beyond its smoothing
/// coefficient. The first-ever sample of an empty window passes through
/// unfiltered (cold start).
#[derive(Clone, Copy, Debug, PartialEq, Eq, Structural)]
pub struct SimpleFilter {
    pub smoothing: Smoothing,
}

impl SimpleFilter {
    pub fn new(smoothing: Smoothing) -> (f: SimpleFilter)
        ensures
            f.smoothing == smoothing,
    {
        SimpleFilter { smoothing }
    }

    /// What one application outputs: the raw input itself on an empty
    /// window, else one smoothing step from the last stored value.
    pub open spec fn out_spec(&self, window: Seq<int>, raw: int) -> int {
        if window.len() == 0 {
            raw
        } else {
            lp_step_spec(self.smoothing, window.last(), raw)
        }
    }
}

impl LowPassFilter for SimpleFilter {
    open spec fn wf(&self) -> bool {
        self.smoothing.wf()
    }

    open spec fn applied(&self, window: Seq<int>, raw: int, next: Self, out: int) -> bool {
        &&& next == *self
        &&& out == self.out_spec(window, raw)
    }

    fn apply(&mut self, context: &FilterContext<'_>) -> (r: i64) {
        let n: usize = context.readings.len();
        if n == 0 {
            assert(values(context.readings@).len() == 0);
            context.raw_value
        } else {
            let last: i64 = context.readings[n - 1].value;
            assert(last as int == values(context.readings@).last());
            lp_step(self.smoothing, last, context.raw_value)
        }
    }
}

/// Cold start of the single-pole filter: on an empty window the first-ever
/// sample passes through unfiltered, and the filter itself is unchanged.
pub proof fn lemma_cold_start(f: SimpleFilter, w: Seq<int>, raw: int, next: SimpleFilter, out: int)
    requires
        w.len() == 0,
        f.applied(w, raw, next, out),
    ensures
        out == raw,
        next == f,
{
}

/// Steady state of the single-pole filter: once the window holds a value,
/// each further sample moves the last stored value toward the raw input by
/// exactly the smoothing fraction of their difference.
pub proof fn lemma_steady_state(
    f: SimpleFilter,
    w: Seq<int>,
    raw: int,
    next: SimpleFilter,
    out: int,
)
    requires
        w.len() > 0,
        f.applied(w, raw, next, out),
    ensures
        out == lp_step_spec(f.smoothing, w.last(), raw),
        next == f,
{
}

} // verus!
