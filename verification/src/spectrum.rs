//! The spectrum of the current track: fixed-size frames of magnitudes, one
//! frame per `1/fps` seconds of sound, computed elsewhere and looked up here
//! by playback time.
//!
//! A background job computes the frames. Each job carries the generation it
//! was started under; what it sends arrives through a channel and is
//! committed only while that generation is still the current one.

use std::sync::mpsc::Receiver;
use std::sync::mpsc::Sender;
use vstd::prelude::*;

verus! {

/// Frames per second of sound.
pub const DEFAULT_FPS: usize = 60;

#[verifier::external_type_specification]
#[verifier::external_body]
#[verifier::reject_recursive_types(T)]
pub struct ExReceiver<T>(Receiver<T>);

#[verifier::external_type_specification]
#[verifier::external_body]
#[verifier::reject_recursive_types(T)]
pub struct ExSender<T>(Sender<T>);

/// What a background job hands back: the frames one after another, the
/// length of one frame, and the generation the job was started under. An
/// empty buffer reports a failed job.
pub struct SpectrumResult<T> {
    pub buffer: Vec<T>,
    pub frame_size: usize,
    pub generation: u64,
}

/// The generation after `generation`; after the last one counting starts
/// over.
pub open spec fn next_generation(generation: u64) -> u64 {
    if generation == u64::MAX {
        0
    } else {
        (generation + 1) as u64
    }
}

/// The mathematical value of a [`Spectrum`], with its transitions.
pub struct SpectrumModel<T> {
    pub inner: Seq<T>,
    pub frame_size: nat,
    pub fps: nat,
    pub processing: bool,
    pub generation: u64,
}

impl<T> SpectrumModel<T> {
    /// While a job is awaited there are no frames.
    pub open spec fn wf(self) -> bool {
        self.processing ==> self.inner.len() == 0 && self.frame_size == 0
    }

    /// No frames, and no job awaited.
    pub open spec fn silent() -> SpectrumModel<T> {
        SpectrumModel {
            inner: Seq::empty(),
            frame_size: 0,
            fps: DEFAULT_FPS as nat,
            processing: false,
            generation: 0,
        }
    }

    /// A new job is awaited: the frames are gone and the generation moves on.
    pub open spec fn begin(self) -> SpectrumModel<T> {
        SpectrumModel {
            inner: Seq::empty(),
            frame_size: 0,
            processing: true,
            generation: next_generation(self.generation),
            ..self
        }
    }

    /// Whether a result of `generation` comes from the job started last.
    pub open spec fn accepts(self, generation: u64) -> bool {
        generation == self.generation
    }

    /// A result arrived. One of another generation is dropped; a failed one
    /// leaves silence; any other one becomes the frames.
    pub open spec fn commit(self, result: SpectrumResult<T>) -> SpectrumModel<T> {
        if !self.accepts(result.generation) {
            self
        } else if result.buffer@.len() == 0 {
            SpectrumModel { inner: Seq::empty(), frame_size: 0, processing: false, ..self }
        } else {
            SpectrumModel {
                inner: result.buffer@,
                frame_size: result.frame_size as nat,
                processing: false,
                ..self
            }
        }
    }

    /// The channel was looked at once.
    pub open spec fn poll(self, pending: Option<SpectrumResult<T>>) -> SpectrumModel<T> {
        match pending {
            Some(result) => self.commit(result),
            None => self,
        }
    }

    /// The number of the frame that is due `elapsed_ms` milliseconds into
    /// the track.
    pub open spec fn frame_index(self, elapsed_ms: nat) -> nat {
        elapsed_ms * self.fps / 1000
    }

    /// Where that frame starts in the buffer.
    pub open spec fn frame_offset(self, elapsed_ms: nat) -> nat {
        self.frame_size * self.frame_index(elapsed_ms)
    }

    /// Whether the buffer holds the whole frame that is due at `elapsed_ms`.
    pub open spec fn has_frame(self, elapsed_ms: nat) -> bool {
        &&& !self.processing
        &&& self.frame_size > 0
        &&& self.frame_offset(elapsed_ms) + self.frame_size <= self.inner.len()
    }

    /// The frame that is due at `elapsed_ms`, or nothing where there is none.
    pub open spec fn current_frame(self, elapsed_ms: nat) -> Seq<T> {
        if self.has_frame(elapsed_ms) {
            self.inner.subrange(
                self.frame_offset(elapsed_ms) as int,
                (self.frame_offset(elapsed_ms) + self.frame_size) as int,
            )
        } else {
            Seq::empty()
        }
    }
}

/// The frames of the current track, and the receiving end of the channel
/// through which background jobs deliver them.
#[verifier::reject_recursive_types(T)]
pub struct Spectrum<T> {
    inner: Vec<T>,
    size: usize,
    fps: usize,
    processing: bool,
    generation: u64,
    receiver: Receiver<SpectrumResult<T>>,
    sender: Sender<SpectrumResult<T>>,
}

impl<T> View for Spectrum<T> {
    type V = SpectrumModel<T>;

    closed spec fn view(&self) -> SpectrumModel<T> {
        SpectrumModel {
            inner: self.inner@,
            frame_size: self.size as nat,
            fps: self.fps as nat,
            processing: self.processing,
            generation: self.generation,
        }
    }
}

impl<T> Spectrum<T> {
    #[verifier::type_invariant]
    pub open spec fn inv(self) -> bool {
        self@.wf()
    }
}

/// Makes a channel with `std::sync::mpsc::channel`. Nothing is claimed of
/// its two ends.
#[verifier::external_body]
fn open_channel<T>() -> (ends: (Sender<SpectrumResult<T>>, Receiver<SpectrumResult<T>>)) {
    std::sync::mpsc::channel()
}

/// Makes another sending end with `Sender::clone`. Nothing is claimed of it.
#[verifier::external_body]
fn clone_sender<T>(sender: &Sender<SpectrumResult<T>>) -> (copy: Sender<SpectrumResult<T>>) {
    sender.clone()
}

/// Looks into the channel with `Receiver::try_recv`, without waiting. What
/// comes back depends on what the jobs have sent so far, so nothing is
/// claimed of it.
#[verifier::external_body]
fn try_receive<T>(receiver: &Receiver<SpectrumResult<T>>) -> (pending: Option<
    SpectrumResult<T>,
>) {
    receiver.try_recv().ok()
}

/// The length of one frame for sound sampled `sample_rate` times a second
/// per channel: a whole number of samples, or none where `fps` does not
/// divide the rate.
pub fn frame_size_for(sample_rate: u32, fps: u32) -> (size: Option<usize>)
    ensures
        size is Some <==> fps > 0 && sample_rate as int % fps as int == 0,
        size matches Some(samples) ==> samples == sample_rate as int / fps as int,
{
    if fps == 0 || sample_rate % fps != 0 {
        None
    } else {
        Some((sample_rate / fps) as usize)
    }
}

/// How the samples of a file are cut into frames: the samples of one channel
/// that make a frame, the samples of all channels that make a block, and the
/// number of whole blocks.
#[derive(Clone, Copy, Debug, PartialEq, Eq, Structural)]
pub struct FramePlan {
    pub frame_size: usize,
    pub block_len: usize,
    pub frames: usize,
}

/// Whether sound of this shape can be cut into frames: there is a channel,
/// `fps` divides the rate into frames of at least one sample, and a block
/// can be indexed.
pub open spec fn can_plan(channels: nat, sample_rate: nat, fps: nat) -> bool {
    &&& channels > 0
    &&& fps > 0
    &&& sample_rate % fps == 0
    &&& sample_rate >= fps
    &&& (sample_rate / fps) * channels <= usize::MAX
}

/// Cuts `total_samples` interleaved samples into frames, or says that sound
/// of this shape cannot be cut.
pub fn plan_frames(total_samples: usize, channels: u16, sample_rate: u32, fps: u32) -> (plan:
    Option<FramePlan>)
    ensures
        plan is Some <==> can_plan(channels as nat, sample_rate as nat, fps as nat),
        plan matches Some(cut) ==> {
            &&& cut.frame_size == sample_rate as int / fps as int
            &&& cut.block_len == cut.frame_size * channels
            &&& cut.block_len > 0
            &&& cut.frames == total_samples as int / cut.block_len as int
        },
{
    if channels == 0 || fps == 0 || sample_rate % fps != 0 || sample_rate < fps {
        return None;
    }
    assert(1 <= sample_rate / fps <= sample_rate) by (nonlinear_arith)
        requires
            sample_rate >= fps > 0,
    ;
    let frame_size: u64 = (sample_rate / fps) as u64;
    assert(frame_size * channels <= u64::MAX && frame_size * channels >= 1) by (nonlinear_arith)
        requires
            1 <= frame_size <= u32::MAX,
            1 <= channels <= u16::MAX,
    ;
    let block_len: u64 = frame_size * channels as u64;
    if block_len > usize::MAX as u64 {
        return None;
    }
    assert(frame_size <= block_len) by (nonlinear_arith)
        requires
            block_len == frame_size * channels,
            channels >= 1,
            frame_size >= 0,
    ;
    Some(
        FramePlan {
            frame_size: frame_size as usize,
            block_len: block_len as usize,
            frames: total_samples / (block_len as usize),
        },
    )
}

/// Whether frame number `frame` lies wholly inside `len` interleaved
/// samples.
pub open spec fn frame_inside(len: nat, channels: nat, frame_size: nat, frame: nat) -> bool {
    channels > 0 && (frame + 1) * (frame_size * channels) <= len
}

/// The samples of the first channel that make frame number `frame`; none
/// where that frame does not lie wholly inside `samples`.
pub fn channel_frame<T: Copy>(
    samples: &Vec<T>,
    channels: usize,
    frame_size: usize,
    frame: usize,
) -> (block: Option<Vec<T>>)
    ensures
        block is Some <==> frame_inside(
            samples@.len(),
            channels as nat,
            frame_size as nat,
            frame as nat,
        ),
        block matches Some(taken) ==> {
            &&& taken@.len() == frame_size
            &&& forall|i: int|
                0 <= i < frame_size ==> #[trigger] taken@[i] == samples@[(frame * frame_size + i)
                    * channels]
        },
{
    let len = samples.len();
    if channels == 0 {
        return None;
    }
    assert(frame_size * channels <= u128::MAX) by (nonlinear_arith)
        requires
            frame_size <= u64::MAX,
            channels <= u64::MAX,
    ;
    let block_len: u128 = (frame_size as u128) * (channels as u128);
    if block_len > len as u128 {
        assert((frame + 1) * block_len >= block_len) by (nonlinear_arith)
            requires
                frame >= 0,
                block_len >= 0,
        ;
        return None;
    }
    assert(block_len <= (frame + 1) * block_len <= u128::MAX) by (nonlinear_arith)
        requires
            0 <= frame <= u64::MAX,
            0 <= block_len <= u64::MAX,
    ;
    let end: u128 = (frame as u128 + 1) * block_len;
    if end > len as u128 {
        return None;
    }
    let start: usize = (end - block_len) as usize;
    assert(start == frame * block_len) by (nonlinear_arith)
        requires
            end == (frame + 1) * block_len,
            start == end - block_len,
    ;
    let mut taken: Vec<T> = Vec::new();
    let mut i: usize = 0;
    while i < frame_size
        invariant
            i <= frame_size,
            channels > 0,
            block_len == frame_size * channels,
            start == frame * block_len,
            len == samples@.len(),
            start + block_len <= len,
            taken@.len() == i,
            forall|j: int|
                0 <= j < i ==> #[trigger] taken@[j] == samples@[(frame * frame_size + j)
                    * channels],
        decreases frame_size - i,
    {
        assert(i * channels + channels <= frame_size * channels && i * channels >= 0)
            by (nonlinear_arith)
            requires
                0 <= i < frame_size,
                channels > 0,
        ;
        assert((frame * frame_size + i) * channels == frame * (frame_size * channels) + i
            * channels) by (nonlinear_arith);
        let index = start + i * channels;
        taken.push(samples[index]);
        i += 1;
    }
    Some(taken)
}

impl<T: Copy> Spectrum<T> {
    /// No frames, no job awaited, and a channel of its own.
    pub fn new() -> (spectrum: Self)
        ensures
            spectrum@ == SpectrumModel::<T>::silent(),
    {
        let (sender, receiver) = open_channel();
        Spectrum {
            inner: Vec::new(),
            size: 0,
            fps: DEFAULT_FPS,
            processing: false,
            generation: 0,
            receiver,
            sender,
        }
    }

    /// Drops the frames and moves on to the next generation, under which
    /// the caller starts the job for the new track.
    pub fn begin(&mut self) -> (generation: u64)
        ensures
            final(self)@ == old(self)@.begin(),
            generation == final(self)@.generation,
    {
        proof {
            use_type_invariant(&*self);
        }
        self.inner = Vec::new();
        self.size = 0;
        self.processing = true;
        self.generation = if self.generation == u64::MAX {
            0
        } else {
            self.generation + 1
        };
        self.generation
    }

    /// A sending end for a background job.
    pub fn sender(&self) -> (sender: Sender<SpectrumResult<T>>) {
        clone_sender(&self.sender)
    }

    /// Takes in the result of a job, if it is the job started last. Returns
    /// whether it was that job's.
    pub fn commit(&mut self, result: SpectrumResult<T>) -> (accepted: bool)
        ensures
            final(self)@ == old(self)@.commit(result),
            accepted == old(self)@.accepts(result.generation),
    {
        proof {
            use_type_invariant(&*self);
        }
        if result.generation != self.generation {
            return false;
        }
        self.processing = false;
        if result.buffer.len() == 0 {
            self.inner = Vec::new();
            self.size = 0;
        } else {
            self.inner = result.buffer;
            self.size = result.frame_size;
        }
        true
    }

    /// What a job has sent, if anything has arrived: at most one result per
    /// call, without waiting.
    pub(crate) fn receive(&self) -> (pending: Option<SpectrumResult<T>>) {
        try_receive(&self.receiver)
    }

    /// Takes in what a look into the channel brought.
    pub fn poll(&mut self, pending: Option<SpectrumResult<T>>)
        ensures
            final(self)@ == old(self)@.poll(pending),
    {
        match pending {
            Some(result) => {
                self.commit(result);
            },
            None => {},
        }
    }

    /// Looks into the channel once, without waiting, and takes in what is
    /// there. Whatever arrived, the frames are as [`Spectrum::poll`] leaves
    /// them for it.
    pub fn update(&mut self)
        ensures
            exists|pending: Option<SpectrumResult<T>>|
                final(self)@ == #[trigger] old(self)@.poll(pending),
    {
        let pending = self.receive();
        let ghost arrived = pending;
        self.poll(pending);
        assert(self@ == old(self)@.poll(arrived));
    }

    /// The frame that is due `elapsed_ms` milliseconds into the track:
    /// empty while a job is awaited and wherever the buffer does not hold
    /// the whole frame.
    pub fn current_frame(&self, elapsed_ms: u64) -> (frame: Vec<T>)
        ensures
            frame@ == self@.current_frame(elapsed_ms as nat),
    {
        if self.processing || self.size == 0 {
            return Vec::new();
        }
        let len = self.inner.len();
        assert(elapsed_ms * self.fps <= u128::MAX) by (nonlinear_arith)
            requires
                elapsed_ms <= u64::MAX,
                self.fps <= u64::MAX,
        ;
        let index: u128 = (elapsed_ms as u128) * (self.fps as u128) / 1000;
        assert(index == self@.frame_index(elapsed_ms as nat));
        if index > len as u128 {
            assert(self.size * index >= index) by (nonlinear_arith)
                requires
                    self.size >= 1,
                    index >= 0,
            ;
            return Vec::new();
        }
        assert(self.size * index <= u128::MAX) by (nonlinear_arith)
            requires
                self.size <= u64::MAX,
                index <= u64::MAX,
        ;
        let offset: u128 = (self.size as u128) * index;
        if offset > len as u128 || offset + self.size as u128 > len as u128 {
            return Vec::new();
        }
        let start = offset as usize;
        let end = start + self.size;
        let mut frame: Vec<T> = Vec::new();
        let mut i = start;
        while i < end
            invariant
                start <= i <= end <= self.inner.len(),
                frame@ == self.inner@.subrange(start as int, i as int),
            decreases end - i,
        {
            frame.push(self.inner[i]);
            i += 1;
        }
        frame
    }

    /// The length of one frame.
    pub fn frame_size(&self) -> (size: usize)
        ensures
            size == self@.frame_size,
    {
        self.size
    }

    /// Frames per second of sound.
    pub fn fps(&self) -> (fps: usize)
        ensures
            fps == self@.fps,
    {
        self.fps
    }

    /// Whether the job for the current track is still awaited.
    pub fn is_processing(&self) -> (processing: bool)
        ensures
            processing == self@.processing,
    {
        self.processing
    }

    /// The generation of the job started last.
    pub fn generation(&self) -> (generation: u64)
        ensures
            generation == self@.generation,
    {
        self.generation
    }

    /// How many magnitudes the buffer holds.
    pub fn len(&self) -> (len: usize)
        ensures
            len == self@.inner.len(),
    {
        self.inner.len()
    }
}

/// The generation after a generation differs from it, and is the next
/// number as long as there is one.
pub proof fn lemma_generation_moves_on(generation: u64)
    ensures
        next_generation(generation) != generation,
        generation < u64::MAX ==> next_generation(generation) == generation + 1,
{
}

/// Every transition leads from a valid spectrum to a valid spectrum.
pub proof fn lemma_spectrum_stays_valid<T>(
    spectrum: SpectrumModel<T>,
    result: SpectrumResult<T>,
    pending: Option<SpectrumResult<T>>,
)
    requires
        spectrum.wf(),
    ensures
        SpectrumModel::<T>::silent().wf(),
        spectrum.begin().wf(),
        spectrum.commit(result).wf(),
        spectrum.poll(pending).wf(),
{
}

/// A result that does not carry the generation of the job started last
/// changes nothing.
pub proof fn lemma_stale_result_is_dropped<T>(spectrum: SpectrumModel<T>, result: SpectrumResult<T>)
    requires
        result.generation != spectrum.generation,
    ensures
        spectrum.commit(result) == spectrum,
{
}

/// Once a new job has begun, what the job before it sends changes nothing.
pub proof fn lemma_superseded_job_is_dropped<T>(
    spectrum: SpectrumModel<T>,
    result: SpectrumResult<T>,
)
    requires
        result.generation == spectrum.generation,
    ensures
        spectrum.begin().commit(result) == spectrum.begin(),
{
}

/// There is no frame while a job is awaited, nor where the frame that is due
/// does not lie wholly inside the buffer.
pub proof fn lemma_no_frame_without_data<T>(spectrum: SpectrumModel<T>, elapsed_ms: nat)
    requires
        spectrum.processing || spectrum.frame_size == 0 || spectrum.frame_offset(elapsed_ms)
            + spectrum.frame_size > spectrum.inner.len(),
    ensures
        spectrum.current_frame(elapsed_ms) == Seq::<T>::empty(),
{
}

/// A frame, where there is one, is one whole frame of the buffer.
pub proof fn lemma_frame_is_whole<T>(spectrum: SpectrumModel<T>, elapsed_ms: nat)
    requires
        spectrum.has_frame(elapsed_ms),
    ensures
        spectrum.current_frame(elapsed_ms).len() == spectrum.frame_size,
        forall|i: int|
            0 <= i < spectrum.frame_size ==> #[trigger] spectrum.current_frame(elapsed_ms)[i]
                == spectrum.inner[spectrum.frame_offset(elapsed_ms) + i],
{
}

} // verus!
