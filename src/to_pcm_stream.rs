use vstd::prelude::*;

use crate::audio_codec::AudioCodec;
use crate::pcm_sample::PcmSample;

verus! {

/// What one decoding pass over a chunk of compressed audio produced.
pub struct FFmpegExecutionResult {
    /// The samples past the resume offset that the pass was given.
    pub data: Vec<PcmSample>,
    /// How many samples the stream held in all, counted from its start.
    pub last_sample_no: usize,
    /// The codec found, `Unknown` where none was.
    pub codec: AudioCodec,
    /// The sample rate found, 0 where none was.
    pub sample_rate: u32,
}

/// The part of `frame` that lies at or past the stream offset `resume_from`,
/// where `frame` starts at the stream offset `first_no`.
pub open spec fn unseen_part(frame: Seq<PcmSample>, first_no: nat, resume_from: nat) -> Seq<
    PcmSample,
> {
    if resume_from <= first_no {
        frame
    } else if resume_from - first_no >= frame.len() {
        Seq::empty()
    } else {
        frame.skip(resume_from - first_no)
    }
}

/// Appends to `out` the samples of a decoded frame that an earlier pass has
/// not handed out yet, and returns the stream offset just past the frame.
pub fn collect_new_samples(
    frame: &[PcmSample],
    first_no: usize,
    resume_from: usize,
    out: &mut Vec<PcmSample>,
) -> (next_no: usize)
    requires
        first_no + frame@.len() <= usize::MAX,
    ensures
        next_no == first_no + frame@.len(),
        final(out)@ == old(out)@ + unseen_part(frame@, first_no as nat, resume_from as nat),
{
    let mut sample_no = first_no;
    let mut i: usize = 0;
    while i < frame.len()
        invariant
            i <= frame@.len(),
            sample_no == first_no + i,
            first_no + frame@.len() <= usize::MAX,
            out@ == old(out)@ + unseen_part(
                frame@.take(i as int),
                first_no as nat,
                resume_from as nat,
            ),
        decreases frame@.len() - i,
    {
        if sample_no >= resume_from {
            out.push(frame[i]);
        }
        proof {
            let f = frame@;
            let (a, r) = (first_no as nat, resume_from as nat);
            if r <= a {
                assert(f.take(i + 1) =~= f.take(i as int).push(f[i as int]));
            } else if r - a >= i + 1 {
                assert(unseen_part(f.take(i + 1), a, r) =~= Seq::<PcmSample>::empty());
                assert(unseen_part(f.take(i as int), a, r) =~= Seq::<PcmSample>::empty());
            } else if r - a == i {
                assert(unseen_part(f.take(i as int), a, r) =~= Seq::<PcmSample>::empty());
                assert(unseen_part(f.take(i + 1), a, r) =~= seq![f[i as int]]);
            } else {
                assert(unseen_part(f.take(i + 1), a, r) =~= unseen_part(f.take(i as int), a, r).push(
                    f[i as int],
                ));
            }
            assert(out@ =~= old(out)@ + unseen_part(f.take(i + 1), a, r));
        }
        sample_no = sample_no + 1;
        i = i + 1;
    }
    assert(frame@.take(frame@.len() as int) =~= frame@);
    sample_no
}

/// What a decoding client remembers between chunks of one stream: how many
/// samples it has handed out, and the codec and rate seen so far.
pub struct ToPcmStream {
    last_sample_number: usize,
    codec: u8,
    sample_rate: u32,
}

impl ToPcmStream {
    /// Samples of the stream handed out so far.
    pub closed spec fn resume_offset(&self) -> nat {
        self.last_sample_number as nat
    }

    /// Code of the codec seen so far (0 while none was).
    pub closed spec fn codec_code(&self) -> u8 {
        self.codec
    }

    /// Sample rate seen so far (0 while none was).
    pub closed spec fn rate(&self) -> u32 {
        self.sample_rate
    }

    pub fn new() -> (r: Self)
        ensures
            r.resume_offset() == 0,
            r.codec_code() == 0,
            r.rate() == 0,
    {
        ToPcmStream { last_sample_number: 0, codec: 0, sample_rate: 0 }
    }

    pub fn get_codec(&self) -> (r: AudioCodec)
        ensures
            r == AudioCodec::from_code(self.codec_code()),
    {
        AudioCodec::from_u8(self.codec)
    }

    pub fn get_sample_rate(&self) -> (r: Option<u32>)
        ensures
            self.rate() == 0 ==> r is None,
            self.rate() != 0 ==> r == Some(self.rate()),
    {
        if self.sample_rate == 0 {
            return None;
        }
        Some(self.sample_rate)
    }

    /// The stream offset to hand the next decoding pass.
    pub fn last_sample_number(&self) -> (r: usize)
        ensures
            r == self.resume_offset(),
    {
        self.last_sample_number
    }

    /// Takes in a decoding pass: the offset moves to the pass's sample count,
    /// a codec or rate found replaces the one kept (an `Unknown` codec or a
    /// zero rate leaves it as it was), and the new samples are returned.
    pub fn apply_result(&mut self, result: FFmpegExecutionResult) -> (r: Vec<PcmSample>)
        ensures
            r@ == result.data@,
            final(self).resume_offset() == result.last_sample_no,
            final(self).codec_code() == if result.codec is Unknown {
                old(self).codec_code()
            } else {
                result.codec.code()
            },
            final(self).rate() == if result.sample_rate == 0 {
                old(self).rate()
            } else {
                result.sample_rate
            },
    {
        self.last_sample_number = result.last_sample_no;
        if result.codec.is_some() {
            self.codec = result.codec.to_u8();
        }
        if result.sample_rate > 0 {
            self.sample_rate = result.sample_rate;
        }
        result.data
    }
}

impl Default for ToPcmStream {
    fn default() -> (r: Self)
        ensures
            r.resume_offset() == 0,
            r.codec_code() == 0,
            r.rate() == 0,
    {
        Self::new()
    }
}

} // verus!
