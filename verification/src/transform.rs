use vstd::prelude::*;

verus! {

/// A streaming transform: it consumes one sample per call and republishes its
/// most recent output. Samples and outputs are the bit patterns of binary64
/// numbers. Transforms chain by ownership: a downstream transform owns its
/// upstream one and feeds it first.
pub trait Transform: Sized {
    /// Well-formedness of the transform's state.
    spec fn wf(&self) -> bool;

    /// The output that `last` currently reports.
    spec fn output(&self) -> u64;

    /// The state after absorbing one sample: every transform advances as a
    /// function of its current state and the sample alone.
    spec fn next(&self, raw: u64) -> Self;

    /// Absorbing a sample preserves well-formedness.
    proof fn next_preserves_wf(&self, raw: u64)
        requires
            self.wf(),
        ensures
            self.next(raw).wf(),
        ;

    /// Consume one sample, advancing the state exactly once.
    fn update(&mut self, raw: u64)
        requires
            old(self).wf(),
        ensures
            *final(self) == old(self).next(raw),
            final(self).wf(),
        ;

    /// Report the most recently produced output. A pure query: repeated calls
    /// without an intervening `update` return the same value.
    fn last(&self) -> (r: u64)
        requires
            self.wf(),
        ensures
            r == self.output(),
        ;
}

/// The identity transform: it republishes its input unchanged. It is the
/// default upstream of a standalone indicator.
#[derive(Clone, PartialEq, Eq, Structural)]
pub struct Echo {
    /// The last sample received, initially the bit pattern of +0.0.
    pub val: u64,
}

impl Echo {
    /// Create an identity transform whose output starts at the bit pattern
    /// of +0.0.
    pub fn new() -> (r: Echo)
        ensures
            r == (Echo { val: 0u64 }),
    {
        Echo { val: 0 }
    }
}

impl Transform for Echo {
    open spec fn wf(&self) -> bool {
        true
    }

    open spec fn output(&self) -> u64 {
        self.val
    }

    open spec fn next(&self, raw: u64) -> Echo {
        Echo { val: raw }
    }

    proof fn next_preserves_wf(&self, raw: u64) {
    }

    fn update(&mut self, raw: u64) {
        self.val = raw;
    }

    fn last(&self) -> (r: u64) {
        self.val
    }
}

} // verus!
