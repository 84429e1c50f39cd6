use vstd::prelude::*;

use crate::audio::{mix_sample, wadd, ProcessingInfo, SampleInfo};
use crate::device::{Device, DeviceInfo, NamedAudioPort, NamedMidiPort};
use crate::dsp::oscillator::{phase_step, waveform_sample, OscilatorConfig, Oscillator, WaveForm};
use crate::dsp::{note_freq, note_to_freq};
use crate::midi::{MidiMessage, MidiMessageContent};
use crate::util::voice::{
    drops_inactive, is_stealing_choice, mix_after, processor_after, released_processor_after,
    reset_processor_after,
    voice_pressed, voice_released, Voice, VoiceManager, VoiceProcessor, VoiceState,
};

verus! {

/// The detune factor the demo patch applies to its second oscillator: about
/// a tenth of a semitone sharp (2^(0.1/12)), in 32-bit fixed point.
pub const DEMO_DETUNE: u64 = 4319847788;

/// Per-voice synthesis state of the demo synthesizer: two oscillators and
/// the voice's base frequency in 32-bit fixed-point hertz.
pub struct SynthVoice {
    pub osc1: Oscillator,
    pub osc2: Oscillator,
    pub freq: u64,
}

impl Default for SynthVoice {
    fn default() -> (r: Self)
        ensures
            r.osc1.phase == 0,
            r.osc2.phase == 0,
            r.freq == 0,
    {
        SynthVoice { osc1: Oscillator::default(), osc2: Oscillator::default(), freq: 0 }
    }
}

/// The demo synthesizer's patch: one waveform per oscillator and the factor
/// (32-bit fixed point) by which the second oscillator is detuned against
/// the first.
#[derive(Copy, Clone, PartialEq, Eq, Structural, Debug)]
pub struct SynthPreset {
    pub osc1_waveform: WaveForm,
    pub osc2_waveform: WaveForm,
    pub detune: u64,
}

impl Default for SynthPreset {
    fn default() -> (r: Self)
        ensures
            r.osc1_waveform == WaveForm::Sine,
            r.osc2_waveform == WaveForm::Sine,
            r.detune == 0,
    {
        SynthPreset {
            osc1_waveform: WaveForm::Sine,
            osc2_waveform: WaveForm::Sine,
            detune: 0,
        }
    }
}

/// A 32-bit fixed-point frequency scaled by a 32-bit fixed-point factor,
/// truncated to 64 bits.
pub open spec fn scaled_freq(freq: u64, factor: u64) -> u64 {
    (((freq as int) * (factor as int) / 0x1_0000_0000) % 0x1_0000_0000_0000_0000) as u64
}

/// Scales a frequency by a fixed-point factor (e.g. a detune).
fn apply_detune(freq: u64, factor: u64) -> (r: u64)
    ensures
        r == scaled_freq(freq, factor),
{
    proof {
        vstd::arithmetic::mul::lemma_mul_upper_bound(
            freq as int,
            u64::MAX as int,
            factor as int,
            u64::MAX as int,
        );
    }
    let wide: u128 = (freq as u128) * (factor as u128) / 0x1_0000_0000;
    proof {
        vstd::arithmetic::div_mod::lemma_mod_pos_bound(wide as int, 0x1_0000_0000_0000_0000);
    }
    let low: u128 = wide % 0x1_0000_0000_0000_0000;
    low as u64
}

/// The contribution a waveform makes to the mix at `phase`: its sample, or
/// silence for the sine, which the integer core does not render.
pub open spec fn sample_or_silence(w: WaveForm, phase: u64) -> i64 {
    match waveform_sample(w, phase) {
        Some(s) => s,
        None => 0,
    }
}

/// Drives `SynthVoice`s: on a press the voice's frequency is derived from
/// its note, and each frame both oscillators advance and their samples are
/// averaged.
pub struct SynthProcessor {
    pub preset: SynthPreset,
    pub sample_rate: u32,
    pub time_step: u64,
}

impl VoiceProcessor<SynthVoice> for SynthProcessor {
    /// Both oscillators advanced by one time step, at the voice's base
    /// frequency and its detuned copy.
    open spec fn spec_voice_data(&self, voice: Voice<SynthVoice>, info: SampleInfo) -> SynthVoice {
        SynthVoice {
            osc1: Oscillator {
                phase: phase_step(voice.data.osc1.phase, voice.data.freq, self.time_step),
            },
            osc2: Oscillator {
                phase: phase_step(
                    voice.data.osc2.phase,
                    scaled_freq(voice.data.freq, self.preset.detune),
                    self.time_step,
                ),
            },
            freq: voice.data.freq,
        }
    }

    /// The average of the two oscillators' samples at their advanced phases.
    open spec fn spec_sample(&self, voice: Voice<SynthVoice>, info: SampleInfo) -> i64 {
        let advanced = self.spec_voice_data(voice, info);
        (wadd(
            sample_or_silence(self.preset.osc1_waveform, advanced.osc1.phase),
            sample_or_silence(self.preset.osc2_waveform, advanced.osc2.phase),
        ) / 2) as i64
    }

    /// Processing a voice leaves the processor itself as it was.
    open spec fn spec_processed(&self, voice: Voice<SynthVoice>, info: SampleInfo) -> Self {
        *self
    }

    fn process_voice(&mut self, voice: &mut Voice<SynthVoice>, info: SampleInfo) -> (s: i64) {
        let osc1 = OscilatorConfig { waveform: self.preset.osc1_waveform, freq: voice.data.freq };
        let osc2 = OscilatorConfig {
            waveform: self.preset.osc2_waveform,
            freq: apply_detune(voice.data.freq, self.preset.detune),
        };
        let s1 = match voice.data.osc1.process(osc1, self.time_step) {
            Some(v) => v,
            None => 0,
        };
        let s2 = match voice.data.osc2.process(osc2, self.time_step) {
            Some(v) => v,
            None => 0,
        };
        mix_sample(s1, s2) / 2
    }

    /// A press derives the voice's base frequency from its note; notes past
    /// the MIDI range are left silent. The oscillators keep their phases.
    open spec fn spec_on_data(&self, voice: Voice<SynthVoice>, info: SampleInfo) -> SynthVoice {
        SynthVoice {
            osc1: voice.data.osc1,
            osc2: voice.data.osc2,
            freq: if voice.note < 128 {
                note_freq(voice.note as int) as u64
            } else {
                0
            },
        }
    }

    fn voice_on(&mut self, voice: &mut Voice<SynthVoice>, info: SampleInfo) {
        if voice.note < 128 {
            voice.data.freq = note_to_freq(voice.note);
        } else {
            voice.data.freq = 0;
        }
    }

    fn check_inactive(&mut self, voice: &Voice<SynthVoice>, info: SampleInfo) -> (r: bool) {
        voice.state != VoiceState::Pressed
    }

    fn voice_off(&mut self, voice: &mut Voice<SynthVoice>, info: SampleInfo) {
    }
}

/// The demo processor's `voice_off` hook does nothing, so a whole pool
/// reset leaves the processor exactly as it was.
proof fn lemma_reset_keeps_synth_processor(
    p: SynthProcessor,
    vs: Seq<Voice<SynthVoice>>,
    i: int,
    info: SampleInfo,
)
    ensures
        reset_processor_after(p, vs, i, info) == p,
    decreases i,
{
    if i > 0 {
        lemma_reset_keeps_synth_processor(p, vs, i - 1, info);
    }
}

/// How one drained MIDI message moves a voice pool and its processor on: a
/// NoteOn presses its note into the slot the stealing policy picks, with
/// the payload and processor state the `voice_on` hook leaves behind (on an
/// empty pool it does nothing); a NoteOff releases every voice holding its
/// note, running `voice_off` on each in slot order; any other message
/// leaves both alone.
pub open spec fn message_applied<T, E: VoiceProcessor<T>>(
    pre: Seq<Voice<T>>,
    pre_proc: E,
    m: MidiMessage,
    info: SampleInfo,
    post: Seq<Voice<T>>,
    post_proc: E,
) -> bool {
    match m.message {
        MidiMessageContent::NoteOn(e) => {
            if pre.len() == 0 {
                post == pre && post_proc == pre_proc
            } else {
                exists|i: int|
                    {
                        &&& #[trigger] is_stealing_choice(pre, i)
                        &&& post.len() == pre.len()
                        &&& post[i].state == VoiceState::Pressed
                        &&& post[i].note == e.note as u32
                        &&& post[i].velocity == e.velocity as u32
                        &&& post[i].press_time == info.time
                        &&& post[i].release_time == 0
                        &&& post[i].data == pre_proc.spec_on_data(
                            voice_pressed(pre[i], e.note as u32, e.velocity as u32, info),
                            info,
                        )
                        &&& post_proc == pre_proc.spec_on_processed(
                            voice_pressed(pre[i], e.note as u32, e.velocity as u32, info),
                            info,
                        )
                        &&& forall|j: int|
                            0 <= j < pre.len() && j != i ==> #[trigger] post[j] == pre[j]
                    }
            }
        },
        MidiMessageContent::NoteOff(e) => {
            &&& post.len() == pre.len()
            &&& post_proc == released_processor_after(
                pre_proc,
                pre,
                e.note as u32,
                pre.len() as int,
                info,
            )
            &&& forall|j: int|
                0 <= j < pre.len() ==> {
                    let ov = pre[j];
                    let nv = #[trigger] post[j];
                    if ov.note == e.note as u32 {
                        nv.state == VoiceState::Released && nv.release_time == info.time
                            && nv.note == ov.note && nv.velocity == ov.velocity && nv.press_time
                            == ov.press_time && nv.data == released_processor_after(
                            pre_proc,
                            pre,
                            e.note as u32,
                            j,
                            info,
                        ).spec_off_data(voice_released(ov, info), info)
                    } else {
                        nv == ov
                    }
                }
        },
        _ => post == pre && post_proc == pre_proc,
    }
}

/// Whether `pools` and `procs` are matching chains of voice pools and
/// processor states that drain `msgs` step by step: `msgs` is a MIDI port's
/// view (newest arrival first), so step `k` of the chains applies
/// `msgs[msgs.len() - 1 - k]` — the messages land oldest first, in arrival
/// order.
pub open spec fn drain_chain_ok<T, E: VoiceProcessor<T>>(
    pools: Seq<Seq<Voice<T>>>,
    procs: Seq<E>,
    msgs: Seq<MidiMessage>,
    info: SampleInfo,
) -> bool {
    &&& 1 <= pools.len() <= msgs.len() + 1
    &&& procs.len() == pools.len()
    &&& forall|k: int|
        0 <= k < pools.len() - 1 ==> message_applied(
            pools[k],
            procs[k],
            msgs[msgs.len() - 1 - k],
            info,
            #[trigger] pools[k + 1],
            procs[k + 1],
        )
}

/// The pool `post` and processor `post_proc` are reached from `pre` and
/// `pre_proc` by applying every queued message in arrival order: matching
/// chains of pools and processor states start there, drain all of `msgs`
/// one message per step, and end at `post` and `post_proc`. Every step is a
/// function of the state before it, so the end state is determined.
pub open spec fn messages_applied<T, E: VoiceProcessor<T>>(
    pre: Seq<Voice<T>>,
    pre_proc: E,
    msgs: Seq<MidiMessage>,
    info: SampleInfo,
    post: Seq<Voice<T>>,
    post_proc: E,
) -> bool {
    exists|pools: Seq<Seq<Voice<T>>>, procs: Seq<E>|
        #![trigger drain_chain_ok(pools, procs, msgs, info)]
        (drain_chain_ok(pools, procs, msgs, info) && pools.len() == msgs.len() + 1
            && pools.first() == pre && pools.last() == post && procs.first() == pre_proc
            && procs.last() == post_proc)
}

/// A small reference instrument behind the device contract: one mono audio
/// output, one MIDI input, and a 30-voice pool driven by the demo synthesis
/// processor with a lightly detuned pair of saws.
pub struct DemoDevice {
    pub info: DeviceInfo,
    pub output: NamedAudioPort,
    pub midiin: NamedMidiPort,
    pub voice_mgr: VoiceManager<SynthVoice>,
    pub proc: SynthProcessor,
}

impl DemoDevice {
    /// Creates the demo device with a silent output and an idle pool.
    pub fn new() -> (r: DemoDevice)
        ensures
            r.info.name@ == "Demo Synth"@,
            r.info.type_identifier@ == "synthi_sam_demo_synth"@,
            r.output.port@.len() == 1,
            r.output.port@[0] == 0,
            r.midiin.port@.len() == 0,
            r.voice_mgr.voices@.len() == 30,
            forall|i: int|
                0 <= i < 30 ==> (#[trigger] r.voice_mgr.voices@[i]).state == VoiceState::Inactive,
            r.proc.preset.osc1_waveform == WaveForm::Saw,
            r.proc.preset.osc2_waveform == WaveForm::Saw,
            r.proc.preset.detune == DEMO_DETUNE,
            r.proc.sample_rate == 0,
            r.proc.time_step == 0,
    {
        DemoDevice {
            info: DeviceInfo {
                name: "Demo Synth".to_string(),
                type_identifier: "synthi_sam_demo_synth".to_string(),
            },
            output: NamedAudioPort::new("Mono Out", "mono_out", 1),
            midiin: NamedMidiPort::new("MIDI In", "midi_in"),
            voice_mgr: VoiceManager::new(30),
            proc: SynthProcessor {
                preset: SynthPreset {
                    osc1_waveform: WaveForm::Saw,
                    osc2_waveform: WaveForm::Saw,
                    detune: DEMO_DETUNE,
                },
                sample_rate: 0,
                time_step: 0,
            },
        }
    }
}

impl Device for DemoDevice {
    fn info(&self) -> (r: &DeviceInfo)
        ensures
            r == &self.info,
    {
        &self.info
    }

    fn setup(&mut self, info: ProcessingInfo)
        ensures
            final(self).output.port@.len() == old(self).output.port@.len(),
            forall|c: int|
                0 <= c < final(self).output.port@.len() ==> final(self).output.port@[c] == 0,
            final(self).midiin.port@.len() == 0,
            final(self).proc.sample_rate == info.sample_rate,
            final(self).proc.time_step == info.time_step,
            final(self).proc.preset == old(self).proc.preset,
            final(self).info == old(self).info,
            final(self).voice_mgr.voices@.len() == old(self).voice_mgr.voices@.len(),
            forall|i: int|
                0 <= i < final(self).voice_mgr.voices@.len()
                    ==> (#[trigger] final(self).voice_mgr.voices@[i]).state
                    == VoiceState::Inactive,
    {
        self.output.port.reset();
        self.midiin.port.reset();
        let start = SampleInfo { sample_count: 0, time: 0, jitter: false };
        self.voice_mgr.reset(&mut self.proc, start);
        proof {
            lemma_reset_keeps_synth_processor(
                old(self).proc,
                old(self).voice_mgr.voices@,
                old(self).voice_mgr.voices@.len() as int,
                start,
            );
        }
        self.proc.sample_rate = info.sample_rate;
        self.proc.time_step = info.time_step;
    }

    fn process(&mut self, info: SampleInfo)
        ensures
            final(self).midiin.port@.len() == 0,
            final(self).output.port@.len() == old(self).output.port@.len(),
            exists|mid: Seq<Voice<SynthVoice>>, pmid: SynthProcessor|
                #![trigger messages_applied(old(self).voice_mgr.voices@, old(self).proc, old(self).midiin.port@, info, mid, pmid)]
                {
                    &&& messages_applied(
                        old(self).voice_mgr.voices@,
                        old(self).proc,
                        old(self).midiin.port@,
                        info,
                        mid,
                        pmid,
                    )
                    &&& final(self).voice_mgr.voices@.len() == mid.len()
                    &&& final(self).proc == processor_after(pmid, mid, mid.len() as int, info)
                    &&& forall|j: int|
                        0 <= j < mid.len() ==> {
                            let mv = mid[j];
                            let nv = #[trigger] final(self).voice_mgr.voices@[j];
                            &&& nv.note == mv.note
                            &&& nv.velocity == mv.velocity
                            &&& nv.press_time == mv.press_time
                            &&& nv.release_time == mv.release_time
                            &&& (mv.state == VoiceState::Inactive ==> nv == mv)
                            &&& (mv.state != VoiceState::Inactive ==> nv.state == (
                            if drops_inactive(pmid, mid, j, info) {
                                VoiceState::Inactive
                            } else {
                                mv.state
                            }))
                            &&& (mv.state != VoiceState::Inactive ==> nv.data == processor_after(
                                pmid,
                                mid,
                                j,
                                info,
                            ).spec_voice_data(mv, info))
                        }
                    &&& forall|c: int|
                        0 <= c < final(self).output.port@.len() ==> final(self).output.port@[c]
                            == mix_after(pmid, mid, mid.len() as int, info)
                },
            (old(self).midiin.port@.len() == 0 && (forall|i: int|
                0 <= i < old(self).voice_mgr.voices@.len()
                    ==> (#[trigger] old(self).voice_mgr.voices@[i]).state
                    == VoiceState::Inactive)) ==> forall|c: int|
                0 <= c < final(self).output.port@.len() ==> final(self).output.port@[c] == 0,
            forall|c1: int, c2: int|
                0 <= c1 < final(self).output.port@.len() && 0 <= c2
                    < final(self).output.port@.len() ==> final(self).output.port@[c1]
                    == final(self).output.port@[c2],
    {
        let ghost q = old(self).midiin.port@;
        let ghost mut chain: Seq<Seq<Voice<SynthVoice>>> = seq![old(self).voice_mgr.voices@];
        let ghost mut procs: Seq<SynthProcessor> = seq![old(self).proc];
        proof {
            assert(q.take(q.len() as int) =~= q);
        }
        loop
            invariant
                q == old(self).midiin.port@,
                self.midiin.port@.len() <= q.len(),
                self.midiin.port@ == q.take(self.midiin.port@.len() as int),
                chain.len() == q.len() - self.midiin.port@.len() + 1,
                chain.first() == old(self).voice_mgr.voices@,
                chain.last() == self.voice_mgr.voices@,
                procs.first() == old(self).proc,
                procs.last() == self.proc,
                drain_chain_ok(chain, procs, q, info),
                old(self).midiin.port@.len() == 0 ==> (self.midiin.port@ == old(
                    self,
                ).midiin.port@ && self.voice_mgr.voices@ == old(self).voice_mgr.voices@),
                self.output.port@.len() == old(self).output.port@.len(),
            ensures
                self.midiin.port@.len() == 0,
                messages_applied(
                    old(self).voice_mgr.voices@,
                    old(self).proc,
                    old(self).midiin.port@,
                    info,
                    self.voice_mgr.voices@,
                    self.proc,
                ),
                old(self).midiin.port@.len() == 0 ==> self.voice_mgr.voices@ == old(
                    self,
                ).voice_mgr.voices@,
                self.output.port@.len() == old(self).output.port@.len(),
            decreases self.midiin.port@.len(),
        {
            let ghost remaining = self.midiin.port@;
            let popped = self.midiin.port.pop();
            match popped {
                Some(msg) => {
                    let ghost pool_before = self.voice_mgr.voices@;
                    let ghost proc_before = self.proc;
                    match &msg.message {
                        MidiMessageContent::NoteOn(note) => {
                            if self.voice_mgr.voices.len() > 0 {
                                self.voice_mgr.press_note(
                                    &mut self.proc,
                                    note.note as u32,
                                    note.velocity as u32,
                                    info,
                                );
                            }
                        },
                        MidiMessageContent::NoteOff(note) => {
                            self.voice_mgr.release_note(&mut self.proc, note.note as u32, info);
                        },
                        _ => {},
                    }
                    proof {
                        let r = remaining.len() as int;
                        assert(q.take(r).drop_last() =~= q.take(r - 1));
                        assert(msg == q[r - 1]);
                        assert(message_applied(
                            pool_before,
                            proc_before,
                            msg,
                            info,
                            self.voice_mgr.voices@,
                            self.proc,
                        ));
                        let grown = chain.push(self.voice_mgr.voices@);
                        let grown_procs = procs.push(self.proc);
                        assert(grown.last() == self.voice_mgr.voices@);
                        assert(grown_procs.last() == self.proc);
                        assert(forall|k: int| 0 <= k < chain.len() ==> grown[k] == chain[k]);
                        assert(forall|k: int|
                            0 <= k < procs.len() ==> grown_procs[k] == procs[k]);
                        assert(q[q.len() - 1 - (grown.len() - 2)] == q[r - 1]);
                        assert(drain_chain_ok(grown, grown_procs, q, info));
                        chain = grown;
                        procs = grown_procs;
                    }
                },
                None => {
                    proof {
                        assert(chain.len() == q.len() + 1);
                        assert(messages_applied(
                            old(self).voice_mgr.voices@,
                            old(self).proc,
                            q,
                            info,
                            self.voice_mgr.voices@,
                            self.proc,
                        ));
                    }
                    break ;
                },
            }
        }
        let ghost drained_pool = self.voice_mgr.voices@;
        let ghost drained_proc = self.proc;
        let mix = self.voice_mgr.process_voices(&mut self.proc, info);
        self.output.port.take_input_mono(mix);
        proof {
            assert(mix == mix_after(
                drained_proc,
                drained_pool,
                drained_pool.len() as int,
                info,
            ));
        }
    }

    fn recieve_midi(&mut self, msg: MidiMessage, info: SampleInfo, port: usize)
        ensures
            port == 0 ==> final(self).midiin.port@ == seq![msg] + old(self).midiin.port@,
            port != 0 ==> *final(self) == *old(self),
    {
        if port == 0 {
            self.midiin.port.queue(msg);
        }
    }

    fn audio_input_port(&self, index: usize) -> (r: Option<&NamedAudioPort>)
        ensures
            r is None,
    {
        None
    }

    fn audio_output_port(&self, index: usize) -> (r: Option<&NamedAudioPort>)
        ensures
            index == 0 ==> r == Some(&self.output),
            index != 0 ==> r is None,
    {
        if index == 0 {
            Some(&self.output)
        } else {
            None
        }
    }

    fn midi_input_port(&self, index: usize) -> (r: Option<&NamedMidiPort>)
        ensures
            index == 0 ==> r == Some(&self.midiin),
            index != 0 ==> r is None,
    {
        if index == 0 {
            Some(&self.midiin)
        } else {
            None
        }
    }

    fn midi_output_port(&self, index: usize) -> (r: Option<&NamedMidiPort>)
        ensures
            r is None,
    {
        None
    }
}

} // verus!
