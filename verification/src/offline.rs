//! The offline pipeline WAV -> preset -> WAV, as a state machine.
//!
//! A run first applies the preset, then flushes the engine's stream state
//! (timestamp 0, the input's sample rate), then feeds the engine
//! interleaved 16-bit PCM, processed in place, in blocks of at most 512
//! frames. The engine answers each block with the number of bytes that it
//! wrote back; during its warm-up that is zero and the samples stay in its
//! FIFO. The pipeline keeps the output on the input's time line: it takes
//! the usable, whole-frame part of each processed block and pads the rest
//! with silence. With `keep_tail` it then feeds up to 16 blocks of silence
//! to drain the FIFO (the reverb tail). The caller runs the engine; this
//! module decides what to call it with and what to keep of its answers.
use vstd::prelude::*;
use crate::text::{dec_text, push_dec_u64};

verus! {

/// Frames per engine block; the engine's internal buffers are sized for
/// small blocks.
pub const CHUNK_FRAMES: usize = 512;

/// Number of silent blocks fed after the input to drain the engine FIFO.
pub const TAIL_BLOCKS: usize = 16;

/// Channel count that the engine accepts.
pub const ENGINE_CHANNELS: usize = 2;

/// Sample-format flag of a `Process` call: 16-bit integer PCM.
pub const PCM16_FLAG: usize = 0x10;

/// Errors of the offline pipeline.
#[derive(PartialEq, Eq, Structural, Clone, Copy, Debug)]
pub enum PipelineError {
    /// The preset engine only takes stereo input; the channel count given.
    StereoOnly(usize),
    /// The engine refused the block that starts at this frame.
    ProcessFailed(usize),
}

/// The scalar arguments of one engine `Process` call, in call order (the
/// buffer and the `written` out-pointer go between them).
#[derive(PartialEq, Eq, Structural, Clone, Copy, Debug)]
pub struct ProcessArgs {
    /// Size of the block in bytes.
    pub byte_len: usize,
    /// Third argument, unused on this path.
    pub unused3: usize,
    /// Fifth argument, unused on this path.
    pub unused5: usize,
    /// Sample rate of the stream.
    pub sample_rate: usize,
    /// Interleaved channel count.
    pub channels: usize,
    /// Sample-format flag (16-bit PCM).
    pub bits: usize,
    /// Flag that must be zero.
    pub flag: usize,
    /// Trailing argument, zero.
    pub p10: usize,
    /// Trailing argument, zero.
    pub p11: usize,
}

/// The arguments of the `Process` call on a block of `samples` samples.
pub open spec fn process_args(sample_rate: u32, samples: int) -> ProcessArgs {
    ProcessArgs {
        byte_len: (samples * 2) as usize,
        unused3: 0,
        unused5: 0,
        sample_rate: sample_rate as usize,
        channels: ENGINE_CHANNELS,
        bits: PCM16_FLAG,
        flag: 0,
        p10: 0,
        p11: 0,
    }
}

/// Builds the arguments of the `Process` call on a block of `samples`
/// samples.
pub fn process_args_for(sample_rate: u32, samples: usize) -> (r: ProcessArgs)
    requires
        samples <= CHUNK_FRAMES * 2,
    ensures
        r == process_args(sample_rate, samples as int),
{
    ProcessArgs {
        byte_len: samples * 2,
        unused3: 0,
        unused5: 0,
        sample_rate: sample_rate as usize,
        channels: ENGINE_CHANNELS,
        bits: PCM16_FLAG,
        flag: 0,
        p10: 0,
        p11: 0,
    }
}

/// Where a run stands before its blocks.
#[derive(PartialEq, Eq, Structural, Clone, Copy, Debug)]
pub enum Stage {
    /// The preset is not applied yet.
    ApplyPreset,
    /// The preset is applied; the stream state is not flushed yet.
    Flush,
    /// Blocks are being fed.
    Stream,
}

/// What the caller has to do next.
#[derive(Debug)]
pub enum Step {
    /// Apply `preset` (load it and take the processing interface).
    ApplyPreset { preset: i32 },
    /// Flush the stream state with timestamp `pts` at `sample_rate`.
    Flush { pts: i64, sample_rate: u32 },
    /// Process `block` (the input samples from frame `start_frame` on) in
    /// place, with `args`.
    Process { start_frame: usize, block: Vec<i16>, args: ProcessArgs },
    /// Feed drain block number `index` (`block`, silence) in place, with
    /// `args`.
    Drain { index: usize, block: Vec<i16>, args: ProcessArgs },
    /// Nothing is left to do.
    Done,
}

/// State of one offline run.
pub struct OfflinePipeline {
    /// Interleaved channel count (the engine accepts 2).
    pub chans: usize,
    /// Sample rate of the input.
    pub sample_rate: u32,
    /// The preset to apply.
    pub preset: i32,
    /// Where the run stands before its blocks.
    pub stage: Stage,
    /// Interleaved 16-bit input samples.
    pub input: Vec<i16>,
    /// Whole frames of input.
    pub total_frames: usize,
    /// First frame not processed yet.
    pub offset_frame: usize,
    /// Output samples on the input's time line.
    pub out: Vec<i16>,
    /// The engine's answers to the input blocks so far: bytes reported as
    /// written, and the block as the engine left it.
    pub answers: Ghost<Seq<(u32, Seq<i16>)>>,
    /// Whether to drain the engine after the input.
    pub keep_tail: bool,
    /// Usable samples of each drain block, in order.
    pub tail: Vec<Vec<i16>>,
    /// Whether the engine refused a drain block (draining stops there).
    pub drain_stopped: bool,
}

/// `min(written / 2, n)` rounded down to whole frames: the samples of an
/// `n`-sample block that the engine reports as written back.
pub open spec fn usable_samples(written: int, n: int, chans: int) -> int {
    let u = if written / 2 < n {
        written / 2
    } else {
        n
    };
    u - u % chans
}

/// Frames in the block that starts at `offset`.
pub open spec fn block_frames(offset: int, total: int) -> int {
    if total - offset < CHUNK_FRAMES {
        total - offset
    } else {
        CHUNK_FRAMES as int
    }
}

/// `n` copies of the zero sample.
pub open spec fn zeros(n: int) -> Seq<i16> {
    Seq::new(n as nat, |k: int| 0i16)
}

/// What a processed block adds to the output: its usable samples, then
/// silence up to its length.
pub open spec fn kept_block(written: u32, block: Seq<i16>) -> Seq<i16> {
    let u = usable_samples(written as int, block.len() as int, 2);
    block.take(u) + zeros(block.len() - u)
}

/// The output on the input's time line that the engine's answers to the
/// input blocks give, in order.
pub open spec fn main_output(answers: Seq<(u32, Seq<i16>)>) -> Seq<i16>
    decreases answers.len(),
{
    if answers.len() == 0 {
        Seq::empty()
    } else {
        main_output(answers.drop_last()) + kept_block(answers.last().0, answers.last().1)
    }
}

impl OfflinePipeline {
    /// The engine's answers to the input blocks so far, in order.
    pub closed spec fn engine_answers(&self) -> Seq<(u32, Seq<i16>)> {
        self.answers@
    }

    /// The pipeline's invariant.
    pub open spec fn wf(&self) -> bool {
        &&& self.chans == ENGINE_CHANNELS
        &&& self.input@.len() <= usize::MAX
        &&& (self.input@.len() == self.total_frames * 2 || self.input@.len() == self.total_frames * 2
            + 1)
        &&& self.offset_frame <= self.total_frames
        &&& self.out@.len() == self.offset_frame * 2
        &&& self.out@ == main_output(self.engine_answers())
        &&& self.stage != Stage::Stream ==> self.offset_frame == 0 && self.engine_answers().len() == 0
            && self.tail@.len() == 0 && !self.drain_stopped
        &&& self.tail@.len() <= TAIL_BLOCKS
        &&& self.tail@.len() > 0 ==> self.offset_frame == self.total_frames
        &&& !self.keep_tail ==> self.tail@.len() == 0 && !self.drain_stopped
        &&& forall|b: int|
            0 <= b < self.tail@.len() ==> (#[trigger] self.tail@[b])@.len() <= CHUNK_FRAMES * 2
                && self.tail@[b]@.len() % 2 == 0
    }

    /// Steps left: the setup calls not made, input frames not processed,
    /// plus drain blocks not fed.
    pub open spec fn remaining(&self) -> int {
        (match self.stage {
            Stage::ApplyPreset => 2int,
            Stage::Flush => 1int,
            Stage::Stream => 0int,
        }) + (self.total_frames - self.offset_frame) + if self.keep_tail && !self.drain_stopped {
            TAIL_BLOCKS - self.tail@.len()
        } else {
            0
        }
    }

    /// Whether the input still has unprocessed frames.
    pub open spec fn in_main_phase(&self) -> bool {
        self.stage == Stage::Stream && self.offset_frame < self.total_frames
    }

    /// Whether the next step is a drain block.
    pub open spec fn in_drain_phase(&self) -> bool {
        &&& self.stage == Stage::Stream
        &&& self.offset_frame >= self.total_frames
        &&& self.keep_tail
        &&& !self.drain_stopped
        &&& self.tail@.len() < TAIL_BLOCKS
    }

    /// Whether the run is over.
    pub open spec fn finished(&self) -> bool {
        &&& self.stage == Stage::Stream
        &&& !self.in_main_phase()
        &&& !self.in_drain_phase()
    }

    /// Starts a run of preset `preset` on `input` (interleaved, `channels`
    /// channels, a count of 0 counting as 1, at `sample_rate`). Only stereo
    /// input is accepted.
    pub fn new(input: Vec<i16>, channels: u16, sample_rate: u32, preset: i32, keep_tail: bool) -> (r:
        Result<OfflinePipeline, PipelineError>)
        ensures
            channels != 2 ==> r == Err::<OfflinePipeline, PipelineError>(
                PipelineError::StereoOnly(if channels == 0 {
                    1usize
                } else {
                    channels as usize
                }),
            ),
            channels == 2 ==> (r matches Ok(p) && p.wf() && p.input@ == input@ && p.stage
                == Stage::ApplyPreset && p.sample_rate == sample_rate && p.preset == preset
                && p.keep_tail == keep_tail),
    {
        let chans: usize = if channels == 0 {
            1
        } else {
            channels as usize
        };
        if chans != ENGINE_CHANNELS {
            return Err(PipelineError::StereoOnly(chans));
        }
        let total = input.len() / 2;
        Ok(
            OfflinePipeline {
                chans: ENGINE_CHANNELS,
                sample_rate,
                preset,
                stage: Stage::ApplyPreset,
                input,
                total_frames: total,
                offset_frame: 0,
                out: Vec::new(),
                answers: Ghost(Seq::empty()),
                keep_tail,
                tail: Vec::new(),
                drain_stopped: false,
            },
        )
    }
}

/// The first `n` samples of `v`.
fn prefix_of(v: &Vec<i16>, n: usize) -> (r: Vec<i16>)
    requires
        n <= v@.len(),
    ensures
        r@ == v@.take(n as int),
{
    let mut out: Vec<i16> = Vec::new();
    let mut i: usize = 0;
    while i < n
        invariant
            i <= n <= v@.len(),
            out@ == v@.take(i as int),
        decreases n - i,
    {
        out.push(v[i]);
        i = i + 1;
        assert(out@ =~= v@.take(i as int));
    }
    out
}

/// The samples `v[lo..hi]`.
fn slice_of(v: &Vec<i16>, lo: usize, hi: usize) -> (r: Vec<i16>)
    requires
        lo <= hi <= v@.len(),
    ensures
        r@ == v@.subrange(lo as int, hi as int),
{
    let mut out: Vec<i16> = Vec::new();
    let mut i: usize = lo;
    while i < hi
        invariant
            lo <= i <= hi <= v@.len(),
            out@ == v@.subrange(lo as int, i as int),
        decreases hi - i,
    {
        out.push(v[i]);
        i = i + 1;
        assert(out@ =~= v@.subrange(lo as int, i as int));
    }
    out
}

/// `n` zero samples.
fn silence(n: usize) -> (r: Vec<i16>)
    ensures
        r@ == zeros(n as int),
{
    let mut out: Vec<i16> = Vec::new();
    let mut k: usize = 0;
    while k < n
        invariant
            k <= n,
            out@ == zeros(k as int),
        decreases n - k,
    {
        out.push(0);
        k = k + 1;
        assert(out@ =~= zeros(k as int));
    }
    out
}

/// `min(written / 2, n)` rounded down to whole frames of `chans` samples.
pub fn usable_samples_of(written: u32, n: usize, chans: usize) -> (r: usize)
    requires
        chans > 0,
    ensures
        r as int == usable_samples(written as int, n as int, chans as int),
        r <= n,
        r % chans == 0,
{
    let half = (written / 2) as usize;
    let u = if half < n {
        half
    } else {
        n
    };
    proof {
        vstd::arithmetic::div_mod::lemma_fundamental_div_mod(u as int, chans as int);
        vstd::arithmetic::div_mod::lemma_remainder(u as int, chans as int);
        vstd::arithmetic::div_mod::lemma_mod_multiples_basic((u / chans) as int, chans as int);
        vstd::arithmetic::mul::lemma_mul_is_commutative((u / chans) as int, chans as int);
    }
    u - u % chans
}

/// The first `u` samples of `processed`, then silence up to its length.
fn padded_block(processed: &Vec<i16>, u: usize) -> (r: Vec<i16>)
    requires
        u <= processed@.len(),
    ensures
        r@ == processed@.take(u as int) + zeros(processed@.len() - u),
{
    let n = processed.len();
    let mut out = prefix_of(processed, u);
    let ghost mid = out@;
    let mut j: usize = u;
    assert(out@ =~= mid + zeros(0));
    while j < n
        invariant
            u <= j <= n,
            n == processed@.len(),
            out@ == mid + zeros(j - u),
        decreases n - j,
    {
        out.push(0);
        j = j + 1;
        assert(out@ =~= mid + zeros(j - u));
    }
    out
}

impl OfflinePipeline {
    /// What to do next: apply the preset, flush, the next input block, the
    /// next drain block, or nothing. When nothing is left, the output
    /// covers every whole input frame.
    pub fn next_step(&self) -> (r: Step)
        requires
            self.wf(),
        ensures
            self.stage == Stage::ApplyPreset ==> r == (Step::ApplyPreset { preset: self.preset }),
            self.stage == Stage::Flush ==> r == (Step::Flush { pts: 0, sample_rate: self.sample_rate }),
            self.in_main_phase() ==> (r matches Step::Process { start_frame, block, args }
                && start_frame == self.offset_frame && block@ == self.input@.subrange(
                self.offset_frame * 2,
                (self.offset_frame + block_frames(self.offset_frame as int, self.total_frames as int))
                    * 2,
            ) && args == process_args(self.sample_rate, block@.len() as int)),
            self.in_drain_phase() ==> (r matches Step::Drain { index, block, args } && index
                == self.tail@.len() && block@ == zeros(CHUNK_FRAMES * 2) && args == process_args(
                self.sample_rate,
                CHUNK_FRAMES * 2,
            )),
            self.finished() ==> r is Done,
            r is Done ==> self.finished() && self.out@.len() == self.total_frames * 2,
    {
        match self.stage {
            Stage::ApplyPreset => {
                return Step::ApplyPreset { preset: self.preset };
            },
            Stage::Flush => {
                return Step::Flush { pts: 0, sample_rate: self.sample_rate };
            },
            Stage::Stream => {},
        }
        if self.offset_frame < self.total_frames {
            let left = self.total_frames - self.offset_frame;
            let frames = if left < CHUNK_FRAMES {
                left
            } else {
                CHUNK_FRAMES
            };
            let block = slice_of(&self.input, self.offset_frame * 2, (self.offset_frame + frames) * 2);
            let args = process_args_for(self.sample_rate, frames * 2);
            Step::Process { start_frame: self.offset_frame, block, args }
        } else if self.keep_tail && !self.drain_stopped && self.tail.len() < TAIL_BLOCKS {
            let block = silence(CHUNK_FRAMES * 2);
            let args = process_args_for(self.sample_rate, CHUNK_FRAMES * 2);
            Step::Drain { index: self.tail.len(), block, args }
        } else {
            Step::Done
        }
    }

    /// Records that the setup call that `next_step` gave (applying the
    /// preset, then the flush) was made.
    pub fn on_setup_done(&mut self)
        requires
            old(self).wf(),
            old(self).stage != Stage::Stream,
        ensures
            final(self).wf(),
            old(self).stage == Stage::ApplyPreset ==> final(self).stage == Stage::Flush,
            old(self).stage == Stage::Flush ==> final(self).stage == Stage::Stream,
            0 <= final(self).remaining() < old(self).remaining(),
            final(self).chans == old(self).chans,
            final(self).sample_rate == old(self).sample_rate,
            final(self).preset == old(self).preset,
            final(self).input@ == old(self).input@,
            final(self).total_frames == old(self).total_frames,
            final(self).offset_frame == old(self).offset_frame,
            final(self).out@ == old(self).out@,
            final(self).engine_answers() == old(self).engine_answers(),
            final(self).keep_tail == old(self).keep_tail,
            final(self).tail@ == old(self).tail@,
            final(self).drain_stopped == old(self).drain_stopped,
    {
        if self.stage == Stage::ApplyPreset {
            self.stage = Stage::Flush;
        } else {
            self.stage = Stage::Stream;
        }
    }

    /// Takes the engine's answer to the block that `next_step` gave:
    /// whether it succeeded, the bytes it reports as written, and the block
    /// as the engine left it.
    ///
    /// For an input block, a failure is an error; otherwise the usable
    /// samples are kept and the rest of the block is padded with silence.
    /// For a drain block, a failure ends the draining; otherwise the usable
    /// samples become the next tail block.
    pub fn on_processed(&mut self, ok: bool, written: u32, processed: Vec<i16>) -> (r: Result<
        (),
        PipelineError,
    >)
        requires
            old(self).wf(),
            old(self).in_main_phase() || old(self).in_drain_phase(),
            old(self).in_main_phase() ==> processed@.len() == block_frames(
                old(self).offset_frame as int,
                old(self).total_frames as int,
            ) * 2,
            !old(self).in_main_phase() ==> processed@.len() == CHUNK_FRAMES * 2,
        ensures
            final(self).wf(),
            final(self).chans == old(self).chans,
            final(self).sample_rate == old(self).sample_rate,
            final(self).preset == old(self).preset,
            final(self).stage == old(self).stage,
            final(self).input@ == old(self).input@,
            final(self).total_frames == old(self).total_frames,
            final(self).keep_tail == old(self).keep_tail,
            r is Ok ==> 0 <= final(self).remaining() < old(self).remaining(),
            old(self).in_main_phase() && !ok ==> r == Err::<(), PipelineError>(
                PipelineError::ProcessFailed(old(self).offset_frame),
            ) && final(self).offset_frame == old(self).offset_frame && final(self).out@ == old(
                self,
            ).out@ && final(self).engine_answers() == old(self).engine_answers() && final(self).tail@ == old(
                self,
            ).tail@ && final(self).drain_stopped == old(self).drain_stopped,
            old(self).in_main_phase() && ok ==> ({
                let n = processed@.len() as int;
                &&& r is Ok
                &&& final(self).out@ == old(self).out@ + kept_block(written, processed@)
                &&& final(self).engine_answers() == old(self).engine_answers().push((written, processed@))
                &&& final(self).offset_frame == old(self).offset_frame + n / 2
                &&& final(self).tail@ == old(self).tail@
                &&& final(self).drain_stopped == old(self).drain_stopped
            }),
            !old(self).in_main_phase() && !ok ==> r is Ok && final(self).drain_stopped
                && final(self).out@ == old(self).out@ && final(self).engine_answers() == old(
                self,
            ).engine_answers() && final(self).tail@ == old(self).tail@ && final(self).offset_frame == old(
                self,
            ).offset_frame,
            !old(self).in_main_phase() && ok ==> ({
                let u = usable_samples(written as int, CHUNK_FRAMES * 2, 2);
                &&& r is Ok
                &&& final(self).tail@.len() == old(self).tail@.len() + 1
                &&& forall|b: int|
                    0 <= b < old(self).tail@.len() ==> #[trigger] final(self).tail@[b]
                        == old(self).tail@[b]
                &&& final(self).tail@[old(self).tail@.len() as int]@ == processed@.take(u)
                &&& final(self).out@ == old(self).out@
                &&& final(self).engine_answers() == old(self).engine_answers()
                &&& final(self).offset_frame == old(self).offset_frame
                &&& final(self).drain_stopped == old(self).drain_stopped
            }),
    {
        if self.offset_frame < self.total_frames {
            if !ok {
                return Err(PipelineError::ProcessFailed(self.offset_frame));
            }
            let n = processed.len();
            let u = usable_samples_of(written, n, 2);
            let mut extra = padded_block(&processed, u);
            let ghost before = self.engine_answers();
            self.out.append(&mut extra);
            self.offset_frame = self.offset_frame + n / 2;
            proof {
                let now = before.push((written, processed@));
                assert(now.drop_last() =~= before);
                self.answers = Ghost(now);
            }
            Ok(())
        } else {
            if !ok {
                self.drain_stopped = true;
                return Ok(());
            }
            let u = usable_samples_of(written, processed.len(), 2);
            let kept = prefix_of(&processed, u);
            self.tail.push(kept);
            Ok(())
        }
    }
}

/// Total number of samples in the tail blocks.
pub open spec fn tail_samples(tail: Seq<Vec<i16>>) -> int
    decreases tail.len(),
{
    if tail.len() == 0 {
        0
    } else {
        tail_samples(tail.drop_last()) + tail.last()@.len()
    }
}

proof fn lemma_tail_samples_bound(tail: Seq<Vec<i16>>)
    requires
        forall|b: int|
            0 <= b < tail.len() ==> (#[trigger] tail[b])@.len() <= CHUNK_FRAMES * 2 && tail[b]@.len()
                % 2 == 0,
    ensures
        0 <= tail_samples(tail) <= tail.len() * (CHUNK_FRAMES * 2),
        tail_samples(tail) % 2 == 0,
    decreases tail.len(),
{
    if tail.len() > 0 {
        let t = tail.drop_last();
        assert forall|b: int| 0 <= b < t.len() implies (#[trigger] t[b])@.len() <= CHUNK_FRAMES * 2
            && t[b]@.len() % 2 == 0 by {
            assert(t[b] == tail[b]);
        }
        lemma_tail_samples_bound(t);
        assert(tail.last() == tail[tail.len() - 1]);
        let k = CHUNK_FRAMES * 2;
        let m = t.len();
        assert((m + 1) * k == m * k + k) by (nonlinear_arith);
    }
}

/// Every input block holds between one and `CHUNK_FRAMES` whole frames.
pub proof fn lemma_block_size(offset: int, total: int)
    requires
        0 <= offset < total,
    ensures
        1 <= block_frames(offset, total) <= CHUNK_FRAMES,
        offset + block_frames(offset, total) <= total,
{
}

/// The engine's answer never yields more than the block it was given, and
/// always a whole number of frames.
pub proof fn lemma_usable_within_block(written: int, n: int)
    requires
        0 <= written,
        0 <= n,
    ensures
        0 <= usable_samples(written, n, 2) <= n,
        usable_samples(written, n, 2) % 2 == 0,
{
}

/// When a run is over, the output covers exactly the whole input frames;
/// without `keep_tail` there is no tail, and with it the tail holds at most
/// `TAIL_BLOCKS` blocks of `CHUNK_FRAMES` frames, in whole frames.
pub proof fn lemma_finished_run_lengths(p: &OfflinePipeline)
    requires
        p.wf(),
        p.finished(),
    ensures
        p.out@.len() == p.total_frames * 2,
        p.input@.len() - p.out@.len() <= 1,
        !p.keep_tail ==> tail_samples(p.tail@) == 0,
        0 <= tail_samples(p.tail@) <= TAIL_BLOCKS * (CHUNK_FRAMES * 2),
        tail_samples(p.tail@) % 2 == 0,
{
    lemma_tail_samples_bound(p.tail@);
}

/// `keep_tail` only appends: two finished runs on the same input, one
/// without and one with `keep_tail`, that got the same answers from the
/// engine to their input blocks hold the same output on the input's time
/// line. The first has no tail; the tail of the second is at most
/// `TAIL_BLOCKS` blocks of at most `CHUNK_FRAMES` whole frames each.
pub proof fn lemma_keep_tail_only_appends(plain: &OfflinePipeline, tailed: &OfflinePipeline)
    requires
        plain.wf(),
        tailed.wf(),
        plain.finished(),
        tailed.finished(),
        !plain.keep_tail,
        tailed.keep_tail,
        plain.input@ == tailed.input@,
        plain.engine_answers() == tailed.engine_answers(),
    ensures
        plain.out@ == tailed.out@,
        plain.out@.len() == plain.total_frames * 2,
        plain.tail@.len() == 0,
        tailed.tail@.len() <= TAIL_BLOCKS,
        forall|b: int|
            0 <= b < tailed.tail@.len() ==> (#[trigger] tailed.tail@[b])@.len() <= CHUNK_FRAMES * 2
                && tailed.tail@[b]@.len() % 2 == 0,
        0 <= tail_samples(tailed.tail@) <= TAIL_BLOCKS * (CHUNK_FRAMES * 2),
        tail_samples(tailed.tail@) % 2 == 0,
{
    lemma_finished_run_lengths(plain);
    lemma_finished_run_lengths(tailed);
}

/// The message of a pipeline error.
pub open spec fn pipeline_error_text(e: PipelineError) -> Seq<char> {
    match e {
        PipelineError::StereoOnly(c) => "预设引擎仅支持立体声输入，当前 "@ + dec_text(c as int)
            + " 声道（可先将文件转为立体声）"@,
        PipelineError::ProcessFailed(f) => "Process 在帧 "@ + dec_text(f as int) + " 处失败"@,
    }
}

/// The message of a pipeline error.
pub fn pipeline_error_message(e: PipelineError) -> (r: String)
    ensures
        r@ == pipeline_error_text(e),
{
    match e {
        PipelineError::StereoOnly(c) => {
            let mut s = String::from_str("预设引擎仅支持立体声输入，当前 ");
            push_dec_u64(&mut s, c as u64);
            s.append(" 声道（可先将文件转为立体声）");
            s
        },
        PipelineError::ProcessFailed(f) => {
            let mut s = String::from_str("Process 在帧 ");
            push_dec_u64(&mut s, f as u64);
            s.append(" 处失败");
            s
        },
    }
}

/// One WAV sample as read at its bit depth: an integer with the value of
/// full scale (the caller divides), or the bits of a 32-bit float.
#[derive(PartialEq, Eq, Structural, Clone, Copy, Debug)]
pub enum SampleCode {
    /// `value / full_scale` is the normalized sample.
    Scaled { value: i32, full_scale: u32 },
    /// IEEE-754 single-precision bits.
    FloatBits(u32),
}

/// How a raw sample `v` (as the WAV reader returns it widened to `i32`) is
/// read at `bits` bits per sample; `None` for an unsupported depth.
///
/// 8-bit samples are unsigned with offset 128; 16-bit samples are the low
/// 16 bits, signed; 24-bit samples are the low 24 bits, sign-extended;
/// 32-bit samples are float bits.
pub open spec fn sample_code(bits: u16, v: i32) -> Option<SampleCode> {
    if bits == 8 {
        Some(SampleCode::Scaled { value: ((v & 0xFF) - 128) as i32, full_scale: 128 })
    } else if bits == 16 {
        Some(SampleCode::Scaled { value: (v as i16) as i32, full_scale: 32768 })
    } else if bits == 24 {
        let x = v & 0xFFFFFF;
        Some(
            SampleCode::Scaled {
                value: (if x >= 0x800000 {
                    x - 0x1000000
                } else {
                    x as int
                }) as i32,
                full_scale: 8388608,
            },
        )
    } else if bits == 32 {
        Some(SampleCode::FloatBits(v as u32))
    } else {
        None
    }
}

/// What each bit depth reads a raw sample as: a 16-bit or 24-bit sample
/// in its signed range is its own value over full scale 2^15 or 2^23; an
/// 8-bit sample is read by its low byte as offset binary around 128 over
/// full scale 128 (a byte 0..=255, or a signed -128..=-1 as its byte); the
/// bits of a 32-bit sample are kept as float bits; any other depth is
/// refused. Every scaled value lies in `[-full_scale, full_scale)`.
pub proof fn lemma_sample_code_values(bits: u16, v: i32)
    ensures
        bits == 16 && -32768 <= v <= 32767 ==> sample_code(bits, v) == Some(
            SampleCode::Scaled { value: v, full_scale: 32768 },
        ),
        bits == 24 && -8388608 <= v <= 8388607 ==> sample_code(bits, v) == Some(
            SampleCode::Scaled { value: v, full_scale: 8388608 },
        ),
        bits == 8 && 0 <= v <= 255 ==> sample_code(bits, v) == Some(
            SampleCode::Scaled { value: (v - 128) as i32, full_scale: 128 },
        ),
        bits == 8 && -128 <= v < 0 ==> sample_code(bits, v) == Some(
            SampleCode::Scaled { value: (v + 128) as i32, full_scale: 128 },
        ),
        bits == 32 && v >= 0 ==> sample_code(bits, v) == Some(SampleCode::FloatBits(v as u32)),
        bits == 32 && v < 0 ==> sample_code(bits, v) == Some(
            SampleCode::FloatBits((v + 0x1_0000_0000int) as u32),
        ),
        !(bits == 8 || bits == 16 || bits == 24 || bits == 32) ==> sample_code(bits, v) is None,
        sample_code(bits, v) matches Some(SampleCode::Scaled { value, full_scale }) ==> -full_scale
            <= value < full_scale,
{
    if bits == 16 {
        assert(-32768 <= v <= 32767 ==> (v as i16) as i32 == v) by (bit_vector);
        assert(-32768 <= (v as i16) as i32 <= 32767) by (bit_vector);
    } else if bits == 24 {
        let x = v & 0xFFFFFF;
        assert(0 <= x <= 0xFFFFFF) by (bit_vector)
            requires
                x == v & 0xFFFFFF,
        ;
        assert(0 <= v <= 8388607 ==> x == v) by (bit_vector)
            requires
                x == v & 0xFFFFFF,
        ;
        assert(-8388608 <= v < 0 ==> x == v + 0x1000000) by (bit_vector)
            requires
                x == v & 0xFFFFFF,
        ;
    } else if bits == 8 {
        assert(0 <= v <= 255 ==> v & 0xFF == v) by (bit_vector);
        assert(-128 <= v < 0 ==> v & 0xFF == v + 256) by (bit_vector);
        assert(0 <= v & 0xFF <= 255) by (bit_vector);
    } else if bits == 32 {
        assert(v >= 0 ==> v as u32 == v) by (bit_vector);
        assert(v < 0 ==> v as u32 == v + 0x1_0000_0000int) by (bit_vector);
    }
}

/// Reads one raw sample at the file's bit depth; `Err(bits)` for a depth
/// other than 8, 16, 24 and 32.
pub fn decode_sample(bits: u16, v: i32) -> (r: Result<SampleCode, u16>)
    ensures
        match sample_code(bits, v) {
            Some(c) => r == Ok::<SampleCode, u16>(c),
            None => r == Err::<SampleCode, u16>(bits),
        },
{
    if bits == 8 {
        let b = (v & 0xFF) as u8;
        assert(0 <= (v & 0xFF) <= 0xFF) by (bit_vector);
        Ok(SampleCode::Scaled { value: (b as i32) - 128, full_scale: 128 })
    } else if bits == 16 {
        Ok(SampleCode::Scaled { value: (v as i16) as i32, full_scale: 32768 })
    } else if bits == 24 {
        let x = v & 0xFFFFFF;
        let signed = if x & 0x800000 != 0 {
            x | !0xFFFFFF
        } else {
            x
        };
        assert(0 <= x <= 0xFFFFFF) by (bit_vector)
            requires
                x == v & 0xFFFFFF,
        ;
        assert((x & 0x800000 != 0) == (x >= 0x800000)) by (bit_vector)
            requires
                0 <= x <= 0xFFFFFF,
        ;
        assert(x >= 0x800000 ==> (x | !0xFFFFFF) == x - 0x1000000) by (bit_vector)
            requires
                0 <= x <= 0xFFFFFF,
        ;
        Ok(SampleCode::Scaled { value: signed, full_scale: 8388608 })
    } else if bits == 32 {
        Ok(SampleCode::FloatBits(v as u32))
    } else {
        Err(bits)
    }
}

/// The message for an unsupported bit depth.
pub open spec fn unsupported_bits_text(bits: u16) -> Seq<char> {
    "不支持的位深 "@ + dec_text(bits as int)
}

/// The message for an unsupported bit depth.
pub fn unsupported_bits_message(bits: u16) -> (r: String)
    ensures
        r@ == unsupported_bits_text(bits),
{
    let mut s = String::from_str("不支持的位深 ");
    push_dec_u64(&mut s, bits as u64);
    s
}

} // verus!
