//! N-stage cascaded exponential low-pass filter.
use crate::common::FilterContext;
use crate::common::LowPassFilter;
use crate::common::Smoothing;
use crate::common::in_range;
use crate::common::lp_step;
use crate::common::lp_step_spec;
use crate::common::values;
use vstd::prelude::*;

verus! {

/// The value of stage `i` after one cascade pass over the retained stage
/// values `prev` with raw input `raw`: stage 0 smooths the raw input, and
/// every later stage smooths the value stage `i - 1` produced in the *same*
/// pass.
pub open spec fn cascade_stage(s: Smoothing, prev: Seq<int>, raw: int, i: int) -> int
    decreases i,
{
    if i <= 0 {
        lp_step_spec(s, prev[0], raw)
    } else {
        lp_step_spec(s, prev[i], cascade_stage(s, prev, raw, i - 1))
    }
}

/// All stage values after one cascade pass.
pub open spec fn cascade_seq(s: Smoothing, prev: Seq<int>, raw: int) -> Seq<int> {
    Seq::new(prev.len(), |i: int| cascade_stage(s, prev, raw, i))
}

/// An N-stage cascaded exponential filter. It privately retains one value
/// per stage; on the first-ever call the stages are all seeded to the
/// window's last stored value, or to the raw input if the window is empty.
pub struct MultiPoleExponentialLowPass {
    pub stages: u8,
    pub smoothing: Smoothing,
    prev_stages: Vec<i64>,
}

impl MultiPoleExponentialLowPass {
    /// The retained per-stage values, as mathematical integers; empty until
    /// the first application.
    pub closed spec fn memory(&self) -> Seq<int> {
        Seq::new(self.prev_stages@.len(), |i: int| self.prev_stages@[i] as int)
    }

    /// The configured stage count, for use in specifications.
    pub closed spec fn spec_stages(&self) -> u8 {
        self.stages
    }

    /// The configured smoothing coefficient, for use in specifications.
    pub closed spec fn spec_smoothing(&self) -> Smoothing {
        self.smoothing
    }

    /// The stage values one application starts from: the retained ones, or
    /// on the first call one seed per stage (cold start).
    pub open spec fn seeded(&self, window: Seq<int>, raw: int) -> Seq<int> {
        if self.memory().len() == 0 {
            Seq::new(
                self.spec_stages() as nat,
                |i: int| if window.len() == 0 { raw } else { window.last() },
            )
        } else {
            self.memory()
        }
    }

    /// The retained stage values after one application.
    pub open spec fn next_memory(&self, window: Seq<int>, raw: int) -> Seq<int> {
        cascade_seq(self.spec_smoothing(), self.seeded(window, raw), raw)
    }

    /// What one application outputs: the last stage's new value, or the raw
    /// input itself for a filter of zero stages.
    pub open spec fn out_spec(&self, window: Seq<int>, raw: int) -> int {
        if self.spec_stages() == 0 {
            raw
        } else {
            self.next_memory(window, raw).last()
        }
    }

    pub fn new(stages: u8, smoothing: Smoothing) -> (f: MultiPoleExponentialLowPass)
        ensures
            f.spec_stages() == stages,
            f.spec_smoothing() == smoothing,
            f.memory() == Seq::<int>::empty(),
            smoothing.wf() ==> f.wf(),
    {
        let f = MultiPoleExponentialLowPass { stages, smoothing, prev_stages: Vec::new() };
        proof {
            assert(f.memory() =~= Seq::<int>::empty());
        }
        f
    }
}

impl LowPassFilter for MultiPoleExponentialLowPass {
    open spec fn wf(&self) -> bool {
        &&& self.spec_smoothing().wf()
        &&& (self.memory().len() == 0 || self.memory().len() == self.spec_stages() as nat)
        &&& forall|i: int| 0 <= i < self.memory().len() ==> in_range(#[trigger] self.memory()[i])
    }

    open spec fn applied(&self, window: Seq<int>, raw: int, next: Self, out: int) -> bool {
        &&& next.spec_stages() == self.spec_stages()
        &&& next.spec_smoothing() == self.spec_smoothing()
        &&& next.memory() == self.next_memory(window, raw)
        &&& out == self.out_spec(window, raw)
    }

    fn apply(&mut self, context: &FilterContext<'_>) -> (r: i64) {
        let ghost window = values(context.readings@);
        let ghost raw = context.raw_value as int;

        if self.prev_stages.len() == 0 {
            let n: usize = context.readings.len();
            let seed: i64 = if n == 0 {
                context.raw_value
            } else {
                context.readings[n - 1].value
            };
            assert(n > 0 ==> seed as int == window.last());
            let target: usize = self.stages as usize;
            let mut filled: Vec<i64> = Vec::new();
            let mut i: usize = 0;
            while i < target
                invariant
                    i <= target,
                    filled@.len() == i,
                    forall|j: int| 0 <= j < i ==> #[trigger] filled@[j] == seed,
                decreases target - i,
            {
                filled.push(seed);
                i = i + 1;
            }
            self.prev_stages = filled;
        }
        proof {
            assert(self.memory() =~= old(self).seeded(window, raw));
        }

        let ghost mem = old(self).seeded(window, raw);
        let s: Smoothing = self.smoothing;
        let n: usize = self.prev_stages.len();
        let mut new_stages: Vec<i64> = Vec::new();
        let mut result: i64 = context.raw_value;
        let mut i: usize = 0;
        while i < n
            invariant
                i <= n,
                s.wf(),
                s == self.smoothing,
                n == self.prev_stages@.len(),
                mem == self.memory(),
                in_range(raw),
                raw == context.raw_value as int,
                forall|j: int| 0 <= j < n ==> in_range(#[trigger] mem[j]),
                new_stages@.len() == i,
                forall|j: int|
                    0 <= j < i ==> #[trigger] new_stages@[j] as int == cascade_stage(
                        s,
                        mem,
                        raw,
                        j,
                    ),
                forall|j: int| 0 <= j < i ==> in_range(#[trigger] new_stages@[j] as int),
                if i == 0 {
                    result == context.raw_value
                } else {
                    result == new_stages@[i - 1]
                },
            decreases n - i,
        {
            let input: i64 = if i == 0 {
                context.raw_value
            } else {
                new_stages[i - 1]
            };
            let prev_i: i64 = self.prev_stages[i];
            assert(prev_i as int == mem[i as int]);
            let ns: i64 = lp_step(s, prev_i, input);
            assert(ns as int == cascade_stage(s, mem, raw, i as int));
            new_stages.push(ns);
            result = ns;
            i = i + 1;
        }
        self.prev_stages = new_stages;
        proof {
            assert(self.memory() =~= cascade_seq(s, mem, raw));
            if old(self).spec_stages() != 0 {
                assert(mem.len() == old(self).spec_stages() as nat);
                assert(result as int == self.memory().last());
            }
        }
        result
    }
}

/// Cold start of the cascade: a filter whose memory is still empty seeds
/// every stage to the window's last stored value, or to the raw input when
/// the window is empty too.
pub proof fn lemma_cascade_cold_start(
    f: MultiPoleExponentialLowPass,
    w: Seq<int>,
    raw: int,
)
    requires
        f.memory().len() == 0,
    ensures
        f.seeded(w, raw).len() == f.spec_stages() as nat,
        forall|i: int|
            0 <= i < f.spec_stages() as nat ==> #[trigger] f.seeded(w, raw)[i] == if w.len()
                == 0 {
                raw
            } else {
                w.last()
            },
{
}

/// Sequential cascade coupling: stage `i` consumes the value stage `i - 1`
/// produced in the *same* pass (not that stage's value from the previous
/// call), which gives steeper attenuation than an independent cascade.
pub proof fn lemma_cascade_coupling(s: Smoothing, prev: Seq<int>, raw: int, i: int)
    requires
        1 <= i < prev.len(),
    ensures
        cascade_stage(s, prev, raw, i) == lp_step_spec(s, prev[i], cascade_stage(s, prev, raw, i - 1)),
{
}

} // verus!
