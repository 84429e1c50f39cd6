use vstd::prelude::*;

verus! {

/// One full-scale audio unit (1.0) in 32-bit fixed point: samples are `i64`
/// values where `SAMPLE_UNIT` is full positive amplitude.
pub const SAMPLE_UNIT: i64 = 0x1_0000_0000;

/// Whether processing must keep up with a real-time deadline or runs offline.
#[derive(Copy, Clone, PartialEq, Eq, Structural, Debug)]
pub enum ProcessingMode {
    /// Must respond in real time.
    Realtime,
    /// Processing is offline (e.g. rendering in a DAW).
    Offline,
}

impl Default for ProcessingMode {
    fn default() -> (r: Self)
        ensures
            r == ProcessingMode::Realtime,
    {
        ProcessingMode::Realtime
    }
}

/// Session-wide configuration, immutable for the duration of one setup.
///
/// `time_step` is the duration of one sample in seconds, scaled by 2^32
/// (so a 48 kHz session has `time_step == (1 << 32) / 48000`).
#[derive(Copy, Clone, PartialEq, Eq, Structural, Debug)]
pub struct ProcessingInfo {
    pub sample_rate: u32,
    pub time_step: u64,
    pub processing_mode: ProcessingMode,
}

impl Default for ProcessingInfo {
    fn default() -> (r: Self)
        ensures
            r.sample_rate == 0,
            r.time_step == 0,
            r.processing_mode == ProcessingMode::Realtime,
    {
        ProcessingInfo { sample_rate: 0, time_step: 0, processing_mode: ProcessingMode::Realtime }
    }
}

/// Per-call timing context: a monotonically increasing sample count, the
/// elapsed time in seconds scaled by 2^32, and a flag that tells whether the
/// processing function is called at a fixed (`false`) or variable (`true`)
/// pace.
#[derive(Copy, Clone, PartialEq, Eq, Structural, Debug)]
pub struct SampleInfo {
    pub sample_count: u64,
    pub time: u64,
    pub jitter: bool,
}

impl Default for SampleInfo {
    fn default() -> (r: Self)
        ensures
            r.sample_count == 0,
            r.time == 0,
            !r.jitter,
    {
        SampleInfo { sample_count: 0, time: 0, jitter: false }
    }
}

/// `a + b` wrapped to the 64-bit signed range (two's-complement addition).
pub open spec fn wadd(a: i64, b: i64) -> i64 {
    if a + b > i64::MAX {
        (a + b - 0x1_0000_0000_0000_0000) as i64
    } else if a + b < i64::MIN {
        (a + b + 0x1_0000_0000_0000_0000) as i64
    } else {
        (a + b) as i64
    }
}

/// The wrapped sum of every input sample whose index is congruent to channel
/// `c` modulo `width`, taken in index order. This is the value channel `c`
/// holds after an input of mismatched length is spread across the port.
pub open spec fn channel_mix(input: Seq<i64>, width: int, c: int) -> i64
    decreases input.len(),
{
    if input.len() == 0 {
        0
    } else {
        let rest = channel_mix(input.drop_last(), width, c);
        if (input.len() - 1) % width == c {
            wadd(rest, input.last())
        } else {
            rest
        }
    }
}

/// An input of length zero leaves nothing on any channel: the mix is silence.
pub proof fn lemma_empty_input_silence(width: int, c: int)
    ensures
        channel_mix(Seq::<i64>::empty(), width, c) == 0,
{
}

/// When the port is at least as wide as the input, each input index `i` is
/// its own residue modulo the width, so channel `c` receives exactly
/// `input[c]` when `c` indexes the input and stays silent otherwise.
pub proof fn lemma_sparse_mix(input: Seq<i64>, width: int, c: int)
    requires
        input.len() <= width,
        0 <= c < width,
    ensures
        channel_mix(input, width, c) == if c < input.len() {
            input[c]
        } else {
            0
        },
    decreases input.len(),
{
    if input.len() > 0 {
        lemma_sparse_mix(input.drop_last(), width, c);
        vstd::arithmetic::div_mod::lemma_small_mod((input.len() - 1) as nat, width as nat);
    }
}

/// Adds two samples with two's-complement wraparound.
pub fn mix_sample(a: i64, b: i64) -> (r: i64)
    ensures
        r == wadd(a, b),
{
    a.wrapping_add(b)
}

/// A connection point for sending audio from one component to another,
/// holding one sample per channel at a time. The width is fixed at
/// construction.
pub struct AudioPort {
    channels: Vec<i64>,
}

impl View for AudioPort {
    type V = Seq<i64>;

    closed spec fn view(&self) -> Seq<i64> {
        self.channels@
    }
}

impl AudioPort {
    /// Creates an `AudioPort` with the given number of channels, all silent.
    pub fn new(channels: usize) -> (r: AudioPort)
        ensures
            r@.len() == channels,
            forall|c: int| 0 <= c < r@.len() ==> r@[c] == 0,
    {
        let mut buf: Vec<i64> = Vec::new();
        let mut i: usize = 0;
        while i < channels
            invariant
                i <= channels,
                buf@.len() == i,
                forall|c: int| 0 <= c < i ==> buf@[c] == 0,
            decreases channels - i,
        {
            buf.push(0);
            i += 1;
        }
        AudioPort { channels: buf }
    }

    /// Loads one frame of input and spreads it across the port's channels.
    ///
    /// An empty input silences the port; a mono input is broadcast to every
    /// channel; an input of matching width is copied; any other length is
    /// spread by index modulo the width, with wrapped contributions
    /// accumulated so that several input indices can land on one channel.
    pub fn take_input(&mut self, sample: &[i64])
        ensures
            final(self)@.len() == old(self)@.len(),
            sample@.len() == 0 ==> forall|c: int|
                0 <= c < final(self)@.len() ==> final(self)@[c] == 0,
            sample@.len() == 1 ==> forall|c: int|
                0 <= c < final(self)@.len() ==> final(self)@[c] == sample@[0],
            sample@.len() != 1 && sample@.len() == old(self)@.len() ==> final(self)@ == sample@,
            sample@.len() != 1 && sample@.len() != old(self)@.len() ==> forall|c: int|
                0 <= c < final(self)@.len() ==> final(self)@[c] == channel_mix(
                    sample@,
                    old(self)@.len() as int,
                    c,
                ),
    {
        let width = self.channels.len();
        if sample.len() == 1 {
            let v = sample[0];
            let mut c: usize = 0;
            while c < width
                invariant
                    c <= width,
                    self.channels@.len() == width,
                    forall|j: int| 0 <= j < c ==> self.channels@[j] == v,
                decreases width - c,
            {
                self.channels[c] = v;
                c += 1;
            }
        } else if sample.len() == width {
            let mut c: usize = 0;
            while c < width
                invariant
                    c <= width,
                    sample@.len() == width,
                    self.channels@.len() == width,
                    forall|j: int| 0 <= j < c ==> self.channels@[j] == sample@[j],
                decreases width - c,
            {
                self.channels[c] = sample[c];
                c += 1;
            }
            assert(self.channels@ =~= sample@);
        } else {
            if width == 0 {
                return ;
            }
            let mut c: usize = 0;
            while c < width
                invariant
                    c <= width,
                    self.channels@.len() == width,
                    forall|j: int| 0 <= j < c ==> self.channels@[j] == 0,
                decreases width - c,
            {
                self.channels[c] = 0;
                c += 1;
            }
            let mut i: usize = 0;
            while i < sample.len()
                invariant
                    i <= sample@.len(),
                    0 < width,
                    self.channels@.len() == width,
                    forall|j: int| 0 <= j < width ==> self.channels@[j] == channel_mix(
                        sample@.take(i as int),
                        width as int,
                        j,
                    ),
                decreases sample@.len() - i,
            {
                let ch = i % width;
                proof {
                    assert(sample@.take(i + 1).drop_last() =~= sample@.take(i as int));
                    assert(sample@.take(i + 1).last() == sample@[i as int]);
                }
                let mixed = mix_sample(self.channels[ch], sample[i]);
                self.channels[ch] = mixed;
                i += 1;
            }
            proof {
                assert(sample@.take(sample@.len() as int) =~= sample@);
            }
        }
    }

    /// Broadcasts one mono sample to every channel of the port.
    pub fn take_input_mono(&mut self, sample: i64)
        ensures
            final(self)@.len() == old(self)@.len(),
            forall|c: int| 0 <= c < final(self)@.len() ==> final(self)@[c] == sample,
    {
        let width = self.channels.len();
        let mut c: usize = 0;
        while c < width
            invariant
                c <= width,
                self.channels@.len() == width,
                forall|j: int| 0 <= j < c ==> self.channels@[j] == sample,
            decreases width - c,
        {
            self.channels[c] = sample;
            c += 1;
        }
    }

    /// Takes input from another port, as `take_input` of its channels.
    pub fn take_input_from_port(&mut self, port: &AudioPort)
        ensures
            final(self)@.len() == old(self)@.len(),
            port@.len() == 1 ==> forall|c: int|
                0 <= c < final(self)@.len() ==> final(self)@[c] == port@[0],
            port@.len() != 1 && port@.len() == old(self)@.len() ==> final(self)@ == port@,
            port@.len() != 1 && port@.len() != old(self)@.len() ==> forall|c: int|
                0 <= c < final(self)@.len() ==> final(self)@[c] == channel_mix(
                    port@,
                    old(self)@.len() as int,
                    c,
                ),
    {
        self.take_input(port.channels.as_slice());
    }

    /// The current frame, one sample per channel.
    pub fn channels(&self) -> (r: &[i64])
        ensures
            r@ == self@,
    {
        self.channels.as_slice()
    }

    /// Fills all channels with silence.
    pub fn reset(&mut self)
        ensures
            final(self)@.len() == old(self)@.len(),
            forall|c: int| 0 <= c < final(self)@.len() ==> final(self)@[c] == 0,
    {
        self.take_input_mono(0);
    }
}

} // verus!
