//! Fixed-capacity ring of speed samples with a running mean.
//!
//! The mean always divides by the full capacity: slots that have not been
//! overwritten since the last reset still count as zero, so after a reset
//! the average "decays in" instead of jumping.

use vstd::prelude::*;

verus! {

/// Sum of a sequence of samples.
pub open spec fn seq_sum(s: Seq<u64>) -> nat
    decreases s.len(),
{
    if s.len() == 0 {
        0
    } else {
        seq_sum(s.drop_last()) + s.last() as nat
    }
}

/// Replacing one slot changes the sum by the difference of the values.
pub proof fn lemma_seq_sum_update(s: Seq<u64>, i: int, v: u64)
    requires
        0 <= i < s.len(),
    ensures
        seq_sum(s.update(i, v)) + s[i] == seq_sum(s) + v,
    decreases s.len(),
{
    if i == s.len() - 1 {
        assert(s.update(i, v).drop_last() =~= s.drop_last());
    } else {
        assert(s.update(i, v).drop_last() =~= s.drop_last().update(i, v));
        assert(s.update(i, v).last() == s.last());
        lemma_seq_sum_update(s.drop_last(), i, v);
    }
}

/// A sequence of zeros sums to zero.
pub proof fn lemma_seq_sum_zeros(s: Seq<u64>)
    requires
        forall|i: int| 0 <= i < s.len() ==> s[i] == 0,
    ensures
        seq_sum(s) == 0,
    decreases s.len(),
{
    if s.len() > 0 {
        lemma_seq_sum_zeros(s.drop_last());
    }
}

/// The sum of `n` samples is at most `n` times the largest value.
pub proof fn lemma_seq_sum_upper_bound(s: Seq<u64>)
    ensures
        seq_sum(s) <= s.len() * u64::MAX,
    decreases s.len(),
{
    if s.len() > 0 {
        lemma_seq_sum_upper_bound(s.drop_last());
        assert((s.len() - 1) * u64::MAX + u64::MAX == s.len() * u64::MAX) by (nonlinear_arith);
    }
}

/// After `reset()` followed by a single `add(v)`, the average divides `v`
/// by the full capacity `N`: the untouched zero slots still count toward
/// the denominator, so the mean "decays in" after a reset.
pub proof fn lemma_average_after_reset_add<const N: usize>(b: AverageBuffer<N>, v: u64)
    requires
        N >= 1,
        b.samples() == Seq::new(N as nat, |i: int| 0u64),
        b.cursor() == 0,
    ensures
        seq_sum(b.samples().update(0, v)) / (N as nat) == v as nat / (N as nat),
{
    lemma_seq_sum_zeros(b.samples());
    lemma_seq_sum_update(b.samples(), 0, v);
}

/// Ring of the `N` most recent samples, plus the write cursor.
pub struct AverageBuffer<const N: usize> {
    samples: Vec<u64>,
    si: usize,
}

impl<const N: usize> AverageBuffer<N> {
    pub closed spec fn samples(&self) -> Seq<u64> {
        self.samples@
    }

    pub closed spec fn cursor(&self) -> nat {
        self.si as nat
    }

    pub open spec fn wf(&self) -> bool {
        &&& self.samples().len() == N
        &&& self.cursor() < N
    }

    /// The mean over all `N` slots, rounded toward zero.
    pub open spec fn spec_avg(&self) -> nat {
        seq_sum(self.samples()) / (N as nat)
    }

    pub fn new() -> (r: AverageBuffer<N>)
        requires
            N >= 1,
        ensures
            r.wf(),
            r.cursor() == 0,
            r.samples() == Seq::new(N as nat, |i: int| 0u64),
    {
        let mut samples: Vec<u64> = Vec::new();
        let mut i: usize = 0;
        while i < N
            invariant
                i <= N,
                samples@ =~= Seq::new(i as nat, |j: int| 0u64),
            decreases N - i,
        {
            samples.push(0);
            i = i + 1;
        }
        proof {
            assert(samples@ =~= Seq::new(N as nat, |j: int| 0u64));
        }
        AverageBuffer { samples, si: 0 }
    }

    /// Overwrites the slot under the cursor and advances it modulo `N`.
    pub fn add(&mut self, v: u64)
        requires
            old(self).wf(),
        ensures
            final(self).wf(),
            final(self).samples() == old(self).samples().update(old(self).cursor() as int, v),
            final(self).cursor() == (old(self).cursor() + 1) % (N as nat),
    {
        self.samples.set(self.si, v);
        self.si = (self.si + 1) % N;
    }

    /// Zeroes every slot and rewinds the cursor, discarding the smoothing
    /// history (used when the fix is lost).
    pub fn reset(&mut self)
        requires
            old(self).wf(),
        ensures
            final(self).wf(),
            final(self).cursor() == 0,
            final(self).samples() == Seq::new(N as nat, |i: int| 0u64),
    {
        let mut i: usize = 0;
        while i < self.samples.len()
            invariant
                old(self).wf(),
                self.samples@.len() == N,
                i <= N,
                forall|j: int| 0 <= j < i ==> self.samples@[j] == 0u64,
            decreases N - i,
        {
            self.samples.set(i, 0);
            i = i + 1;
        }
        self.si = 0;
        proof {
            assert(self.samples@ =~= Seq::new(N as nat, |j: int| 0u64));
        }
    }

    /// The arithmetic mean of all `N` slots, zeros included.
    pub fn avg_value(&self) -> (r: u64)
        requires
            self.wf(),
        ensures
            r == self.spec_avg(),
    {
        let mut acc: u128 = 0;
        let mut i: usize = 0;
        while i < N
            invariant
                self.wf(),
                i <= N,
                acc == seq_sum(self.samples@.take(i as int)),
                acc <= i * (u64::MAX as nat),
            decreases N - i,
        {
            proof {
                assert(self.samples@.take(i + 1).drop_last() =~= self.samples@.take(i as int));
                assert(i * (u64::MAX as nat) + u64::MAX == (i + 1) * (u64::MAX as nat))
                    by (nonlinear_arith);
                assert((i + 1) * (u64::MAX as nat) < u128::MAX) by (nonlinear_arith)
                    requires
                        i + 1 <= usize::MAX,
                ;
            }
            acc = acc + self.samples[i] as u128;
            i = i + 1;
        }
        proof {
            assert(self.samples@.take(N as int) =~= self.samples@);
            assert(seq_sum(self.samples@) / (N as nat) <= u64::MAX) by (nonlinear_arith)
                requires
                    N >= 1,
                    seq_sum(self.samples@) <= (N as nat) * (u64::MAX as nat),
            ;
        }
        (acc / (N as u128)) as u64
    }
}

} // verus!
