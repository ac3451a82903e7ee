use vstd::prelude::*;

use crate::transform::Transform;
use crate::transform::Echo;

verus! {

/// The bit pattern of binary64 +0.0, the neutral output reported during
/// warm-up and when the variance estimate degenerates.
pub const ZERO_BITS: u64 = 0;

/// The largest bit pattern of a binary64 value that compares strictly greater
/// than +0.0: positive infinity, 0x7FF0_0000_0000_0000.
pub const POS_INFINITY_BITS: u64 = 0x7FF0_0000_0000_0000;

/// True exactly of the bit patterns whose binary64 value compares strictly
/// greater than +0.0: the positive subnormal and normal numbers and positive
/// infinity. Both zeroes, every negative value and every NaN (whose
/// comparisons are all false) lie outside this range.
pub open spec fn f64_bits_pos(bits: u64) -> bool {
    1 <= bits <= POS_INFINITY_BITS
}

/// Abstract state of a [`TrendFlex`] indicator.
#[verifier::ext_equal]
pub struct TrendFlexModel<T> {
    /// State of the owned upstream transform.
    pub upstream: T,
    /// The window length fixed at construction.
    pub window_len: usize,
    /// The upstream's previous output, the filter's one-sample memory.
    pub last_val: u64,
    /// The previous adaptive mean-square estimate.
    pub last_m: u64,
    /// The stored past filter outputs, oldest first.
    pub filts: Seq<u64>,
    /// The most recently produced output.
    pub out: u64,
    /// True between the two halves of an update step.
    pub mid_step: bool,
}

impl<T: Transform> TrendFlexModel<T> {
    /// Well-formedness: a positive window, a well-formed upstream, and a
    /// history that holds at most `window_len` entries between the halves of
    /// a step and at most `window_len + 1` entries otherwise.
    pub open spec fn wf(self) -> bool {
        &&& self.window_len >= 1
        &&& self.upstream.wf()
        &&& if self.mid_step {
            self.filts.len() <= self.window_len
        } else {
            self.filts.len() <= self.window_len + 1
        }
    }
}

/// The state a freshly constructed indicator starts from.
pub open spec fn init_model<T: Transform>(upstream: T, window_len: usize) -> TrendFlexModel<T> {
    TrendFlexModel {
        upstream,
        window_len,
        last_val: ZERO_BITS,
        last_m: ZERO_BITS,
        filts: Seq::empty(),
        out: ZERO_BITS,
        mid_step: false,
    }
}

/// The operands of one filter step, reported by [`TrendFlex::begin_update`].
/// The caller computes from them, in binary64 arithmetic,
/// `c1 * (val + prev) / 2 + b1 * filt1 + c3 * filt2` (dropping the terms whose
/// operand is absent), with the coefficients derived from the window length.
#[derive(Clone, Copy, PartialEq, Eq, Structural)]
pub struct FiltOperands {
    /// The upstream's output for the sample just absorbed.
    pub val: u64,
    /// The upstream's previous output; on the very first sample, `val`
    /// itself, which bootstraps the filter's one-sample memory.
    pub prev: u64,
    /// The most recent stored filter output, if any.
    pub filt1: Option<u64>,
    /// The second most recent stored filter output, if any.
    pub filt2: Option<u64>,
}

/// The history after the eviction that opens a step: when the queue has grown
/// past `window_len` entries, the oldest one leaves.
pub open spec fn evict_spec(filts: Seq<u64>, window_len: usize) -> Seq<u64> {
    if filts.len() > window_len {
        filts.drop_first()
    } else {
        filts
    }
}

/// The state after the first half of an update step: the upstream has
/// absorbed the sample, the one-sample memory was bootstrapped on the very
/// first sample and now holds the upstream's new output, and the oldest
/// history entry was evicted if the queue had grown past `window_len`.
pub open spec fn begin_model<T: Transform>(m: TrendFlexModel<T>, raw: u64) -> TrendFlexModel<T> {
    TrendFlexModel {
        upstream: m.upstream.next(raw),
        last_val: m.upstream.next(raw).output(),
        filts: evict_spec(m.filts, m.window_len),
        mid_step: true,
        ..m
    }
}

/// The filter operands that the first half of a step reports: the upstream's
/// new output, the bootstrapped one-sample memory, and the last two entries
/// of the post-eviction history.
pub open spec fn begin_ops_model<T: Transform>(m: TrendFlexModel<T>, raw: u64) -> FiltOperands {
    let v = m.upstream.next(raw).output();
    let q = evict_spec(m.filts, m.window_len);
    FiltOperands {
        val: v,
        prev: if m.filts.len() == 0 { v } else { m.last_val },
        filt1: if q.len() >= 1 { Some(q[q.len() - 1]) } else { None },
        filt2: if q.len() >= 2 { Some(q[q.len() - 2]) } else { None },
    }
}

/// The state after the second half of an update step: the new filter value
/// joins the history, the mean-square estimate is replaced, and the output is
/// the normalized drift — forced to +0.0 while the history is still shorter
/// than the window (warm-up) and when the mean-square bits are not a strictly
/// positive binary64 value (degenerate variance).
pub open spec fn finish_model<T: Transform>(
    m: TrendFlexModel<T>,
    filt: u64,
    ms0: u64,
    norm: u64,
) -> TrendFlexModel<T> {
    TrendFlexModel {
        filts: m.filts.push(filt),
        last_m: ms0,
        out: if m.filts.len() + 1 < m.window_len {
            ZERO_BITS
        } else if f64_bits_pos(ms0) {
            norm
        } else {
            ZERO_BITS
        },
        mid_step: false,
        ..m
    }
}

/// One whole update step: the first half applied to the sample, the second
/// half applied to the arithmetic's results.
pub open spec fn step_model<T: Transform>(
    m: TrendFlexModel<T>,
    raw: u64,
    filt: u64,
    ms0: u64,
    norm: u64,
) -> TrendFlexModel<T> {
    finish_model(begin_model(m, raw), filt, ms0, norm)
}

/// A TrendFlex indicator over binary64 bit patterns. It owns an upstream
/// transform, feeds every incoming sample through it first, and applies a
/// two-pole recursive filter, a windowed-difference accumulation and an
/// adaptive variance normalization to the upstream's output.
///
/// The indicator itself performs no binary64 arithmetic: each sample is
/// processed by a [`Self::begin_update`] call, which advances the upstream,
/// maintains the history queue and reports the filter's operands, followed by
/// a [`Self::finish_update`] call that takes the arithmetic's results and
/// commits them.
#[derive(Clone)]
pub struct TrendFlex<T> {
    /// The owned upstream transform, consulted before any other computation.
    pub upstream: T,
    /// The window length, positive and fixed at construction.
    pub window_len: usize,
    /// The upstream's previous output.
    pub last_val: u64,
    /// The previous adaptive mean-square estimate.
    pub last_m: u64,
    /// Past filter outputs, oldest first; never longer than
    /// `window_len + 1` outside a step.
    pub q_filts: Vec<u64>,
    /// The most recently produced output.
    pub out: u64,
    /// True after `begin_update` until the matching `finish_update`.
    pub mid_step: bool,
}

impl<T: Transform> View for TrendFlex<T> {
    type V = TrendFlexModel<T>;

    open spec fn view(&self) -> TrendFlexModel<T> {
        TrendFlexModel {
            upstream: self.upstream,
            window_len: self.window_len,
            last_val: self.last_val,
            last_m: self.last_m,
            filts: self.q_filts@,
            out: self.out,
            mid_step: self.mid_step,
        }
    }
}

impl<T: Transform> TrendFlex<T> {
    /// Create a new TrendFlex indicator with a chained upstream transform and
    /// a given sliding window length. A window length of zero is rejected
    /// here: the filter coefficients and the difference-sum normalization
    /// divide by it.
    pub fn new(upstream: T, window_len: usize) -> (r: Self)
        requires
            upstream.wf(),
            window_len >= 1,
        ensures
            r@ == init_model(upstream, window_len),
            r@.wf(),
    {
        let r = TrendFlex {
            upstream,
            window_len,
            last_val: 0,
            last_m: 0,
            q_filts: Vec::new(),
            out: 0,
            mid_step: false,
        };
        proof {
            assert(r@ =~= init_model(r.upstream, window_len));
        }
        r
    }

    /// The first half of an update step. It feeds the sample to the upstream
    /// transform and reads back its output, bootstraps the one-sample memory
    /// on the very first sample, evicts the oldest history entry once the
    /// queue has grown past `window_len`, and reports the operands of the
    /// filter recursion. The caller computes the filter value, the windowed
    /// difference sum and the mean-square estimate in binary64 arithmetic and
    /// hands the results to [`Self::finish_update`].
    pub fn begin_update(&mut self, raw: u64) -> (ops: FiltOperands)
        requires
            old(self)@.wf(),
            !old(self)@.mid_step,
        ensures
            final(self)@ == begin_model(old(self)@, raw),
            ops == begin_ops_model(old(self)@, raw),
            final(self)@.wf(),
    {
        self.upstream.update(raw);
        let v = self.upstream.last();
        if self.q_filts.len() == 0 {
            self.last_val = v;
        }
        if self.q_filts.len() > self.window_len {
            self.q_filts.remove(0);
            proof {
                assert(self.q_filts@ =~= old(self).q_filts@.drop_first());
            }
        }
        let l = self.q_filts.len();
        let prev = self.last_val;
        let filt1 = if l >= 1 { Some(self.q_filts[l - 1]) } else { None };
        let filt2 = if l >= 2 { Some(self.q_filts[l - 2]) } else { None };
        self.last_val = v;
        self.mid_step = true;
        proof {
            assert(self@ =~= begin_model(old(self)@, raw));
        }
        FiltOperands { val: v, prev, filt1, filt2 }
    }

    /// The second half of an update step. `filt` is the filter value computed
    /// from the operands that [`Self::begin_update`] reported, `ms0` the new
    /// adaptive mean-square estimate, and `norm` the drift normalized by the
    /// estimate's square root. The filter value joins the history and the
    /// estimate is stored; the output becomes `norm`, except that it is
    /// forced to the +0.0 pattern while the history is still shorter than the
    /// window (warm-up) and whenever the `ms0` bits are not a strictly
    /// positive binary64 value (degenerate variance, which would otherwise
    /// put a NaN or an infinity in the output).
    pub fn finish_update(&mut self, filt: u64, ms0: u64, norm: u64)
        requires
            old(self)@.wf(),
            old(self)@.mid_step,
        ensures
            final(self)@ == finish_model(old(self)@, filt, ms0, norm),
            final(self)@.wf(),
    {
        self.q_filts.push(filt);
        self.last_m = ms0;
        if self.q_filts.len() < self.window_len {
            self.out = ZERO_BITS;
        } else if 1 <= ms0 && ms0 <= POS_INFINITY_BITS {
            self.out = norm;
        } else {
            self.out = ZERO_BITS;
        }
        self.mid_step = false;
        proof {
            assert(self@ =~= finish_model(old(self)@, filt, ms0, norm));
        }
    }

    /// Report the most recently produced output. A pure query: repeated calls
    /// without an intervening update return the same value.
    pub fn last(&self) -> (r: u64)
        ensures
            r == self@.out,
    {
        self.out
    }
}

impl TrendFlex<Echo> {
    /// Create a new TrendFlex indicator with a given window length, supplying
    /// the identity transform as the upstream.
    pub fn new_final(window_len: usize) -> (r: Self)
        requires
            window_len >= 1,
        ensures
            r@ == init_model(Echo { val: 0u64 }, window_len),
            r@.wf(),
    {
        Self::new(Echo::new(), window_len)
    }
}

/// One sample's worth of data for a whole update step: the raw sample handed
/// to `begin_update` and the three arithmetic results handed to
/// `finish_update`.
#[derive(Clone, Copy, PartialEq, Eq, Structural)]
pub struct StepData {
    /// The raw incoming sample.
    pub raw: u64,
    /// The filter value computed from the reported operands.
    pub filt: u64,
    /// The new adaptive mean-square estimate.
    pub ms0: u64,
    /// The drift normalized by the estimate's square root.
    pub norm: u64,
}

/// The state reached by running one whole update step per element of `steps`,
/// in order, from `m`.
pub open spec fn run_model<T: Transform>(m: TrendFlexModel<T>, steps: Seq<StepData>) -> TrendFlexModel<T>
    decreases steps.len(),
{
    if steps.len() == 0 {
        m
    } else {
        run_model(
            step_model(m, steps[0].raw, steps[0].filt, steps[0].ms0, steps[0].norm),
            steps.drop_first(),
        )
    }
}

/// A whole update step preserves well-formedness; in particular the history
/// never holds more than `window_len + 1` entries once the step is complete,
/// and it grows by exactly one entry per step until it reaches that bound.
pub proof fn lemma_step_bounded<T: Transform>(
    m: TrendFlexModel<T>,
    raw: u64,
    filt: u64,
    ms0: u64,
    norm: u64,
)
    requires
        m.wf(),
        !m.mid_step,
    ensures
        step_model(m, raw, filt, ms0, norm).wf(),
        !step_model(m, raw, filt, ms0, norm).mid_step,
        step_model(m, raw, filt, ms0, norm).filts.len() <= m.window_len + 1,
        step_model(m, raw, filt, ms0, norm).filts.len() == if m.filts.len() <= m.window_len {
            m.filts.len() + 1
        } else {
            m.filts.len()
        },
        step_model(m, raw, filt, ms0, norm).window_len == m.window_len,
{
    m.upstream.next_preserves_wf(raw);
}

/// Determinism: the state reached by a run is a function of the initial state
/// and of the per-sample data alone; two equal states fed equal samples and
/// equal arithmetic results stay equal forever.
pub proof fn lemma_run_deterministic<T: Transform>(
    m1: TrendFlexModel<T>,
    m2: TrendFlexModel<T>,
    steps: Seq<StepData>,
)
    requires
        m1 == m2,
    ensures
        run_model(m1, steps) == run_model(m2, steps),
{
}

/// A run preserves well-formedness and its history grows by at most one entry
/// per step.
pub proof fn lemma_run_bounded<T: Transform>(m: TrendFlexModel<T>, steps: Seq<StepData>)
    requires
        m.wf(),
        !m.mid_step,
    ensures
        run_model(m, steps).wf(),
        !run_model(m, steps).mid_step,
        run_model(m, steps).window_len == m.window_len,
        run_model(m, steps).filts.len() <= m.filts.len() + steps.len(),
    decreases steps.len(),
{
    if steps.len() > 0 {
        let m2 = step_model(m, steps[0].raw, steps[0].filt, steps[0].ms0, steps[0].norm);
        lemma_step_bounded(m, steps[0].raw, steps[0].filt, steps[0].ms0, steps[0].norm);
        lemma_run_bounded(m2, steps.drop_first());
    }
}

/// Warm-up zeroing: from a state whose output is the +0.0 pattern and whose
/// history is short enough that the run cannot fill the window, every step of
/// the run leaves the output at the +0.0 pattern, whatever the samples and
/// whatever results the arithmetic produced.
pub proof fn lemma_warmup_run<T: Transform>(m: TrendFlexModel<T>, steps: Seq<StepData>)
    requires
        m.wf(),
        !m.mid_step,
        m.out == ZERO_BITS,
        m.filts.len() + steps.len() < m.window_len,
    ensures
        run_model(m, steps).out == ZERO_BITS,
        run_model(m, steps).filts.len() == m.filts.len() + steps.len(),
    decreases steps.len(),
{
    if steps.len() > 0 {
        let m2 = step_model(m, steps[0].raw, steps[0].filt, steps[0].ms0, steps[0].norm);
        lemma_step_bounded(m, steps[0].raw, steps[0].filt, steps[0].ms0, steps[0].norm);
        lemma_warmup_run(m2, steps.drop_first());
    }
}

/// Warm-up zeroing from construction: while fewer than `window_len` samples
/// have been absorbed, the reported output is the bit pattern of +0.0,
/// regardless of the input values and of the arithmetic's results.
pub proof fn lemma_warmup_zero<T: Transform>(upstream: T, window_len: usize, steps: Seq<StepData>)
    requires
        upstream.wf(),
        window_len >= 1,
        steps.len() < window_len,
    ensures
        run_model(init_model(upstream, window_len), steps).out == ZERO_BITS,
        run_model(init_model(upstream, window_len), steps).filts.len() == steps.len(),
{
    lemma_warmup_run(init_model(upstream, window_len), steps);
}

/// Degenerate-variance guard: when the mean-square bits handed to the second
/// half of a step are not a strictly positive binary64 value — both zeroes,
/// every negative value and every NaN — the step's output is the bit pattern
/// of +0.0; otherwise it is either that pattern (warm-up) or exactly the
/// normalized drift the arithmetic supplied.
pub proof fn lemma_variance_guard<T: Transform>(
    m: TrendFlexModel<T>,
    filt: u64,
    ms0: u64,
    norm: u64,
)
    ensures
        !f64_bits_pos(ms0) ==> finish_model(m, filt, ms0, norm).out == ZERO_BITS,
        finish_model(m, filt, ms0, norm).out == ZERO_BITS || finish_model(
            m,
            filt,
            ms0,
            norm,
        ).out == norm,
{
}

/// Identity pass-through: an indicator built on any fresh identity transform
/// runs exactly as one built by the convenience constructor, which supplies
/// such a transform itself; identical inputs give identical output sequences.
pub proof fn lemma_identity_default_equivalent(e: Echo, window_len: usize, steps: Seq<StepData>)
    requires
        e.val == 0,
    ensures
        run_model(init_model(e, window_len), steps) == run_model(
            init_model(Echo { val: 0u64 }, window_len),
            steps,
        ),
{
    assert(e == (Echo { val: 0u64 }));
}

} // verus!
