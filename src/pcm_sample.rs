use vstd::prelude::*;

verus! {

/// Largest magnitude of a square of a 16-bit amplitude: `(-32768)^2`.
pub const MAX_SQUARE: u64 = 1073741824;

/// One mono audio sample, held as its signed 16-bit PCM amplitude
/// (full scale is 32767, i.e. an amplitude of 1.0).
#[derive(Debug, Clone, Copy, PartialEq, Eq, Structural)]
pub struct PcmSample(pub i16);

impl PcmSample {
    pub fn new(value: i16) -> (r: Self)
        ensures
            r.0 == value,
    {
        PcmSample(value)
    }

    pub fn as_i16_pcm(&self) -> (r: i16)
        ensures
            r == self.0,
    {
        self.0
    }

    /// The squared amplitude of this sample.
    pub open spec fn square(self) -> int {
        (self.0 as int) * (self.0 as int)
    }
}

/// Energy of a run of samples: the sum of their squared amplitudes
/// (not divided by the length).
pub open spec fn energy(s: Seq<PcmSample>) -> int
    decreases s.len(),
{
    if s.len() == 0 {
        0
    } else {
        energy(s.drop_last()) + s.last().square()
    }
}

proof fn lemma_square_bounds(x: PcmSample)
    ensures
        0 <= x.square() <= MAX_SQUARE,
{
    let v = x.0 as int;
    assert(0 <= v * v <= 1073741824) by (nonlinear_arith)
        requires
            -32768 <= v <= 32767,
    ;
}

/// Computes the energy of `chunk` exactly.
pub fn window_energy(chunk: &[PcmSample]) -> (r: u128)
    ensures
        r == energy(chunk@),
{
    let mut sum: u128 = 0;
    let mut i: usize = 0;
    while i < chunk.len()
        invariant
            i <= chunk@.len(),
            sum == energy(chunk@.subrange(0, i as int)),
            sum <= i * (MAX_SQUARE as int),
        decreases chunk@.len() - i,
    {
        let x = chunk[i];
        proof {
            lemma_square_bounds(x);
            assert(chunk@.subrange(0, i + 1).drop_last() =~= chunk@.subrange(0, i as int));
        }
        let v = x.0 as i64;
        let sq = (v * v) as u128;
        sum = sum + sq;
        i = i + 1;
    }
    assert(chunk@.subrange(0, chunk@.len() as int) =~= chunk@);
    sum
}

/// A window is silent when its energy lies strictly below `threshold`;
/// a window whose energy equals the threshold counts as voiced.
pub fn is_silence(chunk: &[PcmSample], threshold: u64) -> (r: bool)
    ensures
        r == (energy(chunk@) < threshold),
{
    window_energy(chunk) < threshold as u128
}

} // verus!
