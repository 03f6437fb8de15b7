use vstd::prelude::*;

use crate::pcm_sample::{energy, is_silence, PcmSample};

verus! {

/// Where the detector stands in the stream.
#[derive(Debug, Clone, Copy)]
pub enum DetectionModel {
    /// Background noise: silent windows are trimmed from the front.
    Silence,
    /// An utterance is in progress; `silence_detected` is the buffer offset
    /// where the current run of silent windows began, if one has begun.
    VoiceStarted { silence_detected: Option<usize> },
}

impl Default for DetectionModel {
    fn default() -> (r: Self)
        ensures
            r is Silence,
    {
        DetectionModel::Silence
    }
}

/// The detector as a mathematical value.
pub struct EngineState {
    /// Samples per second; 0 while unknown.
    pub rate: nat,
    /// Samples in one 20 ms window.
    pub window: nat,
    /// Samples of trailing silence that close an utterance (3 s).
    pub run_len: nat,
    /// Energy below which a window is silent.
    pub threshold: int,
    /// The samples not consumed yet.
    pub buffer: Seq<PcmSample>,
    /// Offset in `buffer` up to which windows have been classified.
    pub cursor: nat,
    pub mode: DetectionModel,
    /// The most recently trimmed silent window, kept as left context for
    /// the next utterance.
    pub lead_in: Option<Seq<PcmSample>>,
    /// Finished utterances, in the order they were closed.
    pub output: Seq<Seq<PcmSample>>,
}

/// Samples in a 20 ms window at `rate` samples per second, rounded to the
/// nearest integer (halves round up).
pub open spec fn window_for(rate: nat) -> nat {
    ((rate + 25) / 50) as nat
}

/// Samples kept after the detected speech when an utterance closes (200 ms).
pub open spec fn pad_of(s: EngineState) -> nat {
    10 * s.window
}

/// The lead-in as a (possibly empty) run of samples.
pub open spec fn lead_of(s: EngineState) -> Seq<PcmSample> {
    match s.lead_in {
        Some(l) => l,
        None => Seq::empty(),
    }
}

impl EngineState {
    pub open spec fn wf(self) -> bool {
        &&& self.rate <= u32::MAX
        &&& self.window == window_for(self.rate)
        &&& self.run_len == 3 * self.rate
        &&& self.cursor <= self.buffer.len()
        &&& self.mode is Silence ==> self.cursor == 0
        &&& (self.mode matches DetectionModel::VoiceStarted { silence_detected: Some(st) } ==> st
            <= self.cursor)
    }

    /// A full unclassified window is waiting, and windows can be classified.
    pub open spec fn window_ready(self) -> bool {
        self.window > 0 && self.cursor + self.window <= self.buffer.len()
    }

    /// The window at the cursor is silent.
    pub open spec fn window_silent(self) -> bool {
        energy(self.buffer.subrange(self.cursor as int, (self.cursor + self.window) as int)) < self.threshold
    }
}

/// Closes the utterance whose last window ends at `end`: the body runs up to
/// `end - run_len + pad`, the old lead-in is put before it, and everything up to
/// `end` leaves the buffer.
pub open spec fn close(s: EngineState, end: nat) -> EngineState {
    let cut = end - (s.run_len - pad_of(s));
    EngineState {
        buffer: s.buffer.skip(end as int),
        cursor: 0,
        mode: DetectionModel::Silence,
        lead_in: None,
        output: s.output.push(lead_of(s) + s.buffer.take(cut)),
        ..s
    }
}

/// Classifies the window at the cursor and moves the state machine on.
pub open spec fn step(s: EngineState) -> EngineState {
    let end = s.cursor + s.window;
    let silent = s.window_silent();
    match s.mode {
        DetectionModel::Silence => if silent {
            EngineState {
                buffer: s.buffer.skip(end as int),
                cursor: 0,
                lead_in: Some(s.buffer.take(end as int)),
                ..s
            }
        } else {
            EngineState {
                mode: DetectionModel::VoiceStarted { silence_detected: None },
                cursor: end,
                ..s
            }
        },
        DetectionModel::VoiceStarted { silence_detected: None } => if silent {
            EngineState {
                mode: DetectionModel::VoiceStarted { silence_detected: Some(s.cursor as usize) },
                cursor: end,
                ..s
            }
        } else {
            EngineState { cursor: end, ..s }
        },
        DetectionModel::VoiceStarted { silence_detected: Some(start) } => if !silent {
            EngineState {
                mode: DetectionModel::VoiceStarted { silence_detected: None },
                cursor: end,
                ..s
            }
        } else if s.cursor - start >= s.run_len {
            close(s, end)
        } else {
            EngineState { cursor: end, ..s }
        },
    }
}

/// Classifies windows until less than a full window is left unclassified.
pub open spec fn run(s: EngineState) -> EngineState
    decreases s.buffer.len() - s.cursor,
{
    if s.wf() && s.window_ready() {
        proof {
            lemma_step_wf(s);
        }
        run(step(s))
    } else {
        s
    }
}

proof fn lemma_pad_fits(s: EngineState)
    requires
        s.wf(),
        s.window > 0,
    ensures
        pad_of(s) <= s.run_len,
        s.window <= 85899346,
{
    let r = s.rate as int;
    let w = s.window as int;
    assert(50 * w <= r + 25 && r + 25 < 50 * w + 50) by (nonlinear_arith)
        requires
            w == (r + 25) / 50,
            r >= 0,
    ;
}

/// One step keeps the state well formed and consumes at least one window.
pub proof fn lemma_step_wf(s: EngineState)
    requires
        s.wf(),
        s.window_ready(),
    ensures
        step(s).wf(),
        step(s).buffer.len() - step(s).cursor <= s.buffer.len() - s.cursor - s.window,
        step(s).rate == s.rate,
        step(s).threshold == s.threshold,
{
    lemma_pad_fits(s);
}



/// A window whose energy equals the threshold exactly is voiced: in silence
/// it starts an utterance and trims nothing.
pub proof fn lemma_energy_at_threshold_is_voiced(s: EngineState)
    requires
        s.wf(),
        s.window_ready(),
        s.mode is Silence,
        energy(s.buffer.subrange(s.cursor as int, (s.cursor + s.window) as int)) == s.threshold,
    ensures
        step(s).mode == (DetectionModel::VoiceStarted { silence_detected: None }),
        step(s).buffer == s.buffer,
        step(s).lead_in == s.lead_in,
{
}

/// No sample is lost or duplicated by a step. What is left is a suffix of
/// the buffer, and the prefix taken off is either empty; or the trimmed
/// silent window, which becomes the only lead-in; or the body of the one new
/// utterance (which starts with the old lead-in) followed by the stale part
/// of the silence run.
pub proof fn lemma_step_accounts_for_samples(s: EngineState)
    requires
        s.wf(),
        s.window_ready(),
    ensures
        ({
            let t = step(s);
            let k = s.buffer.len() - t.buffer.len();
            &&& 0 <= k <= s.buffer.len()
            &&& s.buffer == s.buffer.take(k) + t.buffer
            &&& {
                ||| k == 0 && t.output == s.output && t.lead_in == s.lead_in
                ||| k > 0 && t.output == s.output && t.lead_in == Some(s.buffer.take(k))
                ||| k > 0 && t.lead_in is None && pad_of(s) <= s.run_len <= k && t.output
                    == s.output.push(lead_of(s) + s.buffer.take(k - (s.run_len - pad_of(s))))
            }
        }),
{
    lemma_pad_fits(s);
    let t = step(s);
    let k = s.buffer.len() - t.buffer.len();
    assert(s.buffer =~= s.buffer.take(k) + t.buffer);
}

/// Over any number of steps the buffer only loses a prefix, and finished
/// utterances are only added after those already there, never changed.
pub proof fn lemma_run_keeps_order(s: EngineState)
    requires
        s.wf(),
    ensures
        run(s).wf(),
        run(s).buffer.len() <= s.buffer.len(),
        s.buffer == s.buffer.take(s.buffer.len() - run(s).buffer.len()) + run(s).buffer,
        s.output.len() <= run(s).output.len(),
        run(s).output.take(s.output.len() as int) == s.output,
    decreases s.buffer.len() - s.cursor,
{
    if s.window_ready() {
        lemma_step_wf(s);
        lemma_step_accounts_for_samples(s);
        let t = step(s);
        lemma_run_keeps_order(t);
        let k = s.buffer.len() - t.buffer.len();
        let j = t.buffer.len() - run(t).buffer.len();
        assert(s.buffer.take(s.buffer.len() - run(s).buffer.len()) =~= s.buffer.take(k)
            + t.buffer.take(j));
        assert(run(s).output.take(s.output.len() as int) =~= s.output);
    } else {
        assert(s.buffer.take(0) + s.buffer =~= s.buffer);
        assert(s.output.take(s.output.len() as int) =~= s.output);
    }
}

/// Splits a stream of samples into utterances: runs of speech bounded by
/// silence, found by the energy of consecutive 20 ms windows.
///
/// Finished utterances are handed out newest first: `try_get_chunk` takes
/// the one closed most recently.
pub struct VoiceDetector {
    sample_rate: u32,
    samples_amount_20ms: usize,
    current_stream: Vec<PcmSample>,
    pos: usize,
    out_put: Vec<Vec<PcmSample>>,
    silence_threshold: u64,
    silence_duration_in_samples: u64,
    mode: DetectionModel,
    prev_chunk: Option<Vec<PcmSample>>,
}

impl View for VoiceDetector {
    type V = EngineState;

    closed spec fn view(&self) -> EngineState {
        EngineState {
            rate: self.sample_rate as nat,
            window: self.samples_amount_20ms as nat,
            run_len: self.silence_duration_in_samples as nat,
            threshold: self.silence_threshold as int,
            buffer: self.current_stream@,
            cursor: self.pos as nat,
            mode: self.mode,
            lead_in: match self.prev_chunk {
                Some(v) => Some(v@),
                None => None,
            },
            output: self.out_put@.map_values(|v: Vec<PcmSample>| v@),
        }
    }
}

impl VoiceDetector {
    /// A detector that calls a window silent when its energy (sum of squared
    /// 16-bit amplitudes) lies below `silence_threshold`. The sample rate is
    /// unknown until `set_sample_rate` is called; until then samples are only
    /// buffered.
    pub fn new(silence_threshold: u64) -> (r: Self)
        ensures
            r@.wf(),
            r@.rate == 0,
            r@.window == 0,
            r@.run_len == 0,
            r@.threshold == silence_threshold,
            r@.buffer == Seq::<PcmSample>::empty(),
            r@.cursor == 0,
            r@.mode is Silence,
            r@.lead_in is None,
            r@.output == Seq::<Seq<PcmSample>>::empty(),
    {
        let r = VoiceDetector {
            sample_rate: 0,
            samples_amount_20ms: 0,
            current_stream: Vec::new(),
            pos: 0,
            out_put: Vec::new(),
            silence_threshold,
            silence_duration_in_samples: 0,
            mode: DetectionModel::Silence,
            prev_chunk: None,
        };
        assert(r@.output =~= Seq::<Seq<PcmSample>>::empty());
        r
    }

    pub fn is_silence(&self) -> (r: bool)
        ensures
            r == (self@.mode is Silence),
    {
        match self.mode {
            DetectionModel::Silence => true,
            _ => false,
        }
    }

    pub fn get_sample_rate(&self) -> (r: u32)
        ensures
            r == self@.rate,
    {
        self.sample_rate
    }

    /// Samples in one 20 ms window at the current rate.
    pub fn window_size(&self) -> (r: usize)
        ensures
            r == self@.window,
    {
        self.samples_amount_20ms
    }

    /// Samples of trailing silence that close an utterance at the current rate.
    pub fn silence_run_threshold(&self) -> (r: u64)
        ensures
            r == self@.run_len,
    {
        self.silence_duration_in_samples
    }

    /// Sets the input rate, and with it the window size and the length of
    /// silence that closes an utterance. Windows already classified stay so.
    pub fn set_sample_rate(&mut self, sample_rate: u32)
        requires
            old(self)@.wf(),
        ensures
            final(self)@.wf(),
            final(self)@ == (EngineState {
                rate: sample_rate as nat,
                window: window_for(sample_rate as nat),
                run_len: (3 * sample_rate) as nat,
                ..old(self)@
            }),
    {
        if self.sample_rate == sample_rate {
            return;
        }
        self.sample_rate = sample_rate;
        self.samples_amount_20ms = ((sample_rate as u64 + 25) / 50) as usize;
        self.silence_duration_in_samples = sample_rate as u64 * 3;
    }

    /// Takes the most recently finished utterance, if any.
    pub fn try_get_chunk(&mut self) -> (r: Option<Vec<PcmSample>>)
        requires
            old(self)@.wf(),
        ensures
            final(self)@.wf(),
            old(self)@.output.len() == 0 ==> r is None && final(self)@ == old(self)@,
            old(self)@.output.len() > 0 ==> (r matches Some(v) && v@ == old(self)@.output.last()
                && final(self)@ == (EngineState {
                output: old(self)@.output.drop_last(),
                ..old(self)@
            })),
    {
        let r = self.out_put.pop();
        proof {
            if old(self)@.output.len() > 0 {
                assert(self@.output =~= old(self)@.output.drop_last());
            }
        }
        r
    }

    /// Adds samples to the buffer, then classifies every full window.
    pub fn append_frames(&mut self, samples: &[PcmSample])
        requires
            old(self)@.wf(),
        ensures
            final(self)@.wf(),
            final(self)@ == run(EngineState { buffer: old(self)@.buffer + samples@, ..old(self)@ }),
    {
        let mut i: usize = 0;
        while i < samples.len()
            invariant
                i <= samples@.len(),
                self@ == (EngineState {
                    buffer: old(self)@.buffer + samples@.subrange(0, i as int),
                    ..old(self)@
                }),
            decreases samples@.len() - i,
        {
            self.current_stream.push(samples[i]);
            proof {
                assert(old(self)@.buffer + samples@.subrange(0, i + 1) =~= (old(self)@.buffer
                    + samples@.subrange(0, i as int)).push(samples@[i as int]));
            }
            i = i + 1;
        }
        assert(samples@.subrange(0, samples@.len() as int) =~= samples@);
        self.detect_silence();
    }

    fn detect_silence(&mut self)
        requires
            old(self)@.wf(),
        ensures
            final(self)@.wf(),
            final(self)@ == run(old(self)@),
    {
        while self.samples_amount_20ms > 0 && self.samples_amount_20ms <= self.current_stream.len()
            - self.pos
            invariant
                self@.wf(),
                run(self@) == run(old(self)@),
            decreases self.current_stream@.len() - self.pos,
        {
            proof {
                lemma_step_wf(self@);
            }
            self.process_window();
        }
    }

    /// Classifies the window at the cursor.
    fn process_window(&mut self)
        requires
            old(self)@.wf(),
            old(self)@.window_ready(),
        ensures
            final(self)@ == step(old(self)@),
    {
        proof {
            lemma_step_wf(self@);
            lemma_pad_fits(self@);
        }
        // the buffer's length bounds the window's end
        let buffered = self.current_stream.len();
        assert(self.pos + self.samples_amount_20ms <= buffered);
        let end_of_chunk = self.pos + self.samples_amount_20ms;
        let silent = is_silence(
            &self.current_stream.as_slice()[self.pos..end_of_chunk],
            self.silence_threshold,
        );
        match self.mode {
            DetectionModel::Silence => {
                if silent {
                    self.delete_first_chunk_of_silence(end_of_chunk);
                } else {
                    self.mode = DetectionModel::VoiceStarted { silence_detected: None };
                    self.pos = end_of_chunk;
                }
            },
            DetectionModel::VoiceStarted { silence_detected } => match silence_detected {
                Some(silence_pos) => {
                    if silent {
                        if (self.pos - silence_pos) as u64 >= self.silence_duration_in_samples {
                            self.create_output(end_of_chunk);
                        } else {
                            self.pos = end_of_chunk;
                        }
                    } else {
                        self.mode = DetectionModel::VoiceStarted { silence_detected: None };
                        self.pos = end_of_chunk;
                    }
                },
                None => {
                    if silent {
                        self.mode = DetectionModel::VoiceStarted {
                            silence_detected: Some(self.pos),
                        };
                    }
                    self.pos = end_of_chunk;
                },
            },
        }
    }

    fn delete_first_chunk_of_silence(&mut self, to: usize)
        requires
            to <= old(self)@.buffer.len(),
        ensures
            final(self)@ == (EngineState {
                buffer: old(self)@.buffer.skip(to as int),
                cursor: 0,
                mode: DetectionModel::Silence,
                lead_in: Some(old(self)@.buffer.take(to as int)),
                ..old(self)@
            }),
    {
        let mut chunk = self.current_stream.split_off(to);
        std::mem::swap(&mut self.current_stream, &mut chunk);
        self.prev_chunk = Some(chunk);
        self.pos = 0;
        self.mode = DetectionModel::Silence;
    }

    fn create_output(&mut self, to: usize)
        requires
            old(self)@.wf(),
            old(self)@.window > 0,
            pad_of(old(self)@) <= old(self)@.run_len,
            old(self)@.run_len <= to <= old(self)@.buffer.len(),
        ensures
            final(self)@ == close(old(self)@, to as nat),
    {
        let extra_silence = self.samples_amount_20ms * 10;
        let keep = (self.silence_duration_in_samples - extra_silence as u64) as usize;
        let cut = to - keep;
        let mut body = self.current_stream.split_off(cut);
        std::mem::swap(&mut self.current_stream, &mut body);
        let rest = self.current_stream.split_off(keep);
        self.current_stream = rest;
        let mut lead: Option<Vec<PcmSample>> = None;
        std::mem::swap(&mut self.prev_chunk, &mut lead);
        let item = match lead {
            Some(mut result) => {
                result.append(&mut body);
                result
            },
            None => body,
        };
        self.out_put.push(item);
        self.pos = 0;
        self.mode = DetectionModel::Silence;
        proof {
            let s = old(self)@;
            assert(self@.buffer =~= s.buffer.skip(to as int));
            assert(self@.output =~= s.output.push(lead_of(s) + s.buffer.take(cut as int)));
        }
    }
}

} // verus!
