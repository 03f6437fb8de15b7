use std::collections::VecDeque;
use vstd::prelude::*;

use crate::pcm_sample::PcmSample;

verus! {

/// What a decimator of factor `n` yields from the stream `s`:
/// `s[n-1], s[2n-1], s[3n-1], ...`, one value per full group of `n`.
pub open spec fn decimated(s: Seq<PcmSample>, n: nat) -> Seq<PcmSample>
    decreases s.len(),
{
    if n == 0 || s.len() < n {
        Seq::empty()
    } else {
        seq![s[n - 1]] + decimated(s.skip(n as int), n)
    }
}

/// A streaming downsampler: it keeps every `n`-th sample of the stream fed
/// to it, carrying an incomplete group over to the next `extend`.
pub struct DownSampleRate {
    down_scale: usize,
    samples: VecDeque<PcmSample>,
}

impl View for DownSampleRate {
    type V = Seq<PcmSample>;

    /// The samples waiting to be decimated, oldest first.
    closed spec fn view(&self) -> Seq<PcmSample> {
        self.samples@
    }
}

impl DownSampleRate {
    /// The decimation factor.
    pub closed spec fn factor(&self) -> nat {
        self.down_scale as nat
    }

    pub fn new(down_scale: usize) -> (r: Self)
        requires
            down_scale >= 1,
        ensures
            r.factor() == down_scale,
            r@ == Seq::<PcmSample>::empty(),
    {
        DownSampleRate { down_scale, samples: VecDeque::new() }
    }

    pub fn extend(&mut self, data: Vec<PcmSample>)
        ensures
            final(self).factor() == old(self).factor(),
            final(self)@ == old(self)@ + data@,
    {
        self.extend_from_slice(data.as_slice());
    }

    pub fn extend_from_slice(&mut self, data: &[PcmSample])
        ensures
            final(self).factor() == old(self).factor(),
            final(self)@ == old(self)@ + data@,
    {
        let ghost start = self.samples@;
        let mut i: usize = 0;
        while i < data.len()
            invariant
                i <= data@.len(),
                self.down_scale == old(self).down_scale,
                start == old(self).samples@,
                self.samples@ == start + data@.subrange(0, i as int),
            decreases data@.len() - i,
        {
            self.samples.push_back(data[i]);
            proof {
                assert(data@.subrange(0, i + 1) =~= data@.subrange(0, i as int).push(data@[i as int]));
            }
            i = i + 1;
        }
        assert(data@.subrange(0, data@.len() as int) =~= data@);
    }

    /// Takes the next group of `factor()` samples and yields its last one;
    /// yields nothing, and keeps the queue, while the group is incomplete.
    pub fn next(&mut self) -> (r: Option<PcmSample>)
        requires
            old(self).factor() >= 1,
        ensures
            final(self).factor() == old(self).factor(),
            old(self)@.len() < old(self).factor() <==> r is None,
            r is None ==> final(self)@ == old(self)@,
            r matches Some(x) ==> {
                &&& x == old(self)@[old(self).factor() - 1]
                &&& final(self)@ == old(self)@.skip(old(self).factor() as int)
            },
            decimated(old(self)@, old(self).factor()) == match r {
                Some(x) => seq![x] + decimated(final(self)@, final(self).factor()),
                None => Seq::<PcmSample>::empty(),
            },
    {
        if self.samples.len() < self.down_scale {
            return None;
        }
        let ghost start = self.samples@;
        let mut k: usize = 0;
        while k < self.down_scale - 1
            invariant
                k <= self.down_scale - 1,
                self.down_scale == old(self).down_scale,
                self.down_scale >= 1,
                start == old(self).samples@,
                start.len() >= self.down_scale,
                self.samples@ == start.skip(k as int),
            decreases self.down_scale - 1 - k,
        {
            self.samples.pop_front();
            assert(start.skip(k as int).subrange(1, start.len() - k) =~= start.skip(k + 1));
            k = k + 1;
        }
        let r = self.samples.pop_front();
        assert(start.skip(k as int).subrange(1, start.len() - k) =~= start.skip(k + 1));
        r
    }
}

/// With factor 1 a decimator passes the stream through unchanged.
pub proof fn lemma_factor_one_identity(s: Seq<PcmSample>)
    ensures
        decimated(s, 1) == s,
    decreases s.len(),
{
    if s.len() > 0 {
        lemma_factor_one_identity(s.skip(1));
        assert(seq![s[0]] + s.skip(1) =~= s);
    }
}

/// Decimation does not depend on where the stream was cut into batches:
/// once a whole number of groups has been taken from the front, the rest of
/// the stream is decimated as if it came alone.
pub proof fn lemma_decimated_split(a: Seq<PcmSample>, b: Seq<PcmSample>, n: nat)
    requires
        n >= 1,
        a.len() % n == 0,
    ensures
        decimated(a + b, n) == decimated(a, n) + decimated(b, n),
    decreases a.len(),
{
    if a.len() == 0 {
        assert(a + b =~= b);
        assert(decimated(a, n) =~= Seq::<PcmSample>::empty());
        assert(Seq::<PcmSample>::empty() + decimated(b, n) =~= decimated(b, n));
    } else {
        assert(a.len() >= n) by {
            vstd::arithmetic::div_mod::lemma_mod_is_zero(a.len() as nat, n);
        }
        let a2 = a.skip(n as int);
        assert(a2.len() % n == 0) by {
            vstd::arithmetic::div_mod::lemma_mod_sub_multiples_vanish(a.len() as int, n as int);
        }
        lemma_decimated_split(a2, b, n);
        assert((a + b).skip(n as int) =~= a2 + b);
        assert((a + b)[n - 1] == a[n - 1]);
        assert(seq![a[n - 1]] + (decimated(a2, n) + decimated(b, n)) =~= (seq![a[n - 1]]
            + decimated(a2, n)) + decimated(b, n));
    }
}

} // verus!
