use vstd::prelude::*;

use crate::audio::{mix_sample, wadd, SampleInfo};

verus! {

/// The life cycle of one voice: `Inactive` → `Pressed` → `Released` →
/// `Inactive`.
#[derive(Copy, Clone, PartialEq, Eq, Structural, Debug)]
pub enum VoiceState {
    Inactive,
    Pressed,
    Released,
}

impl Default for VoiceState {
    fn default() -> (r: Self)
        ensures
            r == VoiceState::Inactive,
    {
        VoiceState::Inactive
    }
}

/// One note-instance's synthesis state inside the polyphonic pool, with a
/// caller-defined payload `T` for the instrument's own per-voice data.
pub struct Voice<T> {
    pub state: VoiceState,
    pub note: u32,
    pub velocity: u32,
    pub press_time: u64,
    pub release_time: u64,
    pub data: T,
}

impl<T: Default> Default for Voice<T> {
    fn default() -> (r: Self)
        ensures
            r.state == VoiceState::Inactive,
            r.note == 0,
            r.velocity == 0,
            r.press_time == 0,
            r.release_time == 0,
    {
        Voice {
            state: VoiceState::Inactive,
            note: 0,
            velocity: 0,
            press_time: 0,
            release_time: 0,
            data: T::default(),
        }
    }
}

/// The injected synthesis strategy: how a voice sounds, decoupled from how
/// the pool is managed. The hooks may rework the voice's payload and the
/// processor's own state, but the pool-managed fields (state, note,
/// velocity, times) belong to the manager and are left as they are.
///
/// Spec functions pin what every hook computes, so that a whole frame is a
/// function of the pool and the processor: an implementation states the
/// sample each voice contributes, the payload and processor state each hook
/// leaves behind, and when a voice may fall back to `Inactive`. The
/// lifecycle hooks and the liveness check carry default spec bodies (do
/// nothing; a voice dies once it is no longer pressed); the methods
/// themselves have no default bodies, since each implementation proves its
/// body against its own spec functions.
pub trait VoiceProcessor<T>: Sized {
    /// The sample `process_voice` returns, from the processor and voice it
    /// starts from.
    spec fn spec_sample(&self, voice: Voice<T>, info: SampleInfo) -> i64;

    /// The processor state `process_voice` leaves behind.
    spec fn spec_processed(&self, voice: Voice<T>, info: SampleInfo) -> Self;

    /// The voice payload `process_voice` leaves behind.
    spec fn spec_voice_data(&self, voice: Voice<T>, info: SampleInfo) -> T;

    /// The processor state `voice_on` leaves behind; by default the hook
    /// does nothing.
    open spec fn spec_on_processed(&self, voice: Voice<T>, info: SampleInfo) -> Self {
        *self
    }

    /// The voice payload `voice_on` leaves behind; by default the hook does
    /// nothing.
    open spec fn spec_on_data(&self, voice: Voice<T>, info: SampleInfo) -> T {
        voice.data
    }

    /// The processor state `voice_off` leaves behind; by default the hook
    /// does nothing.
    open spec fn spec_off_processed(&self, voice: Voice<T>, info: SampleInfo) -> Self {
        *self
    }

    /// The voice payload `voice_off` leaves behind; by default the hook
    /// does nothing.
    open spec fn spec_off_data(&self, voice: Voice<T>, info: SampleInfo) -> T {
        voice.data
    }

    /// What `check_inactive` answers; by default a voice dies as soon as it
    /// is no longer pressed.
    open spec fn spec_check_inactive(&self, voice: Voice<T>, info: SampleInfo) -> bool {
        voice.state != VoiceState::Pressed
    }

    /// Called when a note was pressed and assigned to `voice`, as
    /// `spec_on_processed` and `spec_on_data` describe it.
    fn voice_on(&mut self, voice: &mut Voice<T>, info: SampleInfo)
        ensures
            final(voice).state == old(voice).state,
            final(voice).note == old(voice).note,
            final(voice).velocity == old(voice).velocity,
            final(voice).press_time == old(voice).press_time,
            final(voice).release_time == old(voice).release_time,
            *final(self) == old(self).spec_on_processed(*old(voice), info),
            final(voice).data == old(self).spec_on_data(*old(voice), info),
    ;

    /// Produces this voice's contribution to the current frame's mix, as
    /// `spec_sample`, `spec_processed` and `spec_voice_data` describe it.
    fn process_voice(&mut self, voice: &mut Voice<T>, info: SampleInfo) -> (s: i64)
        ensures
            final(voice).state == old(voice).state,
            final(voice).note == old(voice).note,
            final(voice).velocity == old(voice).velocity,
            final(voice).press_time == old(voice).press_time,
            final(voice).release_time == old(voice).release_time,
            s == old(self).spec_sample(*old(voice), info),
            *final(self) == old(self).spec_processed(*old(voice), info),
            final(voice).data == old(self).spec_voice_data(*old(voice), info),
    ;

    /// Whether the voice may fall back to `Inactive` now, as
    /// `spec_check_inactive` describes it. The check may not rework the
    /// processor, so that the frame mix stays a function of the pool.
    fn check_inactive(&mut self, voice: &Voice<T>, info: SampleInfo) -> (r: bool)
        ensures
            r == old(self).spec_check_inactive(*voice, info),
            *final(self) == *old(self),
    ;

    /// Called when a voice was released or silenced, as
    /// `spec_off_processed` and `spec_off_data` describe it.
    fn voice_off(&mut self, voice: &mut Voice<T>, info: SampleInfo)
        ensures
            final(voice).state == old(voice).state,
            final(voice).note == old(voice).note,
            final(voice).velocity == old(voice).velocity,
            final(voice).press_time == old(voice).press_time,
            final(voice).release_time == old(voice).release_time,
            *final(self) == old(self).spec_off_processed(*old(voice), info),
            final(voice).data == old(self).spec_off_data(*old(voice), info),
    ;
}

/// The voice as the manager hands it to `voice_on`: freshly pressed, with
/// its previous payload.
pub open spec fn voice_pressed<T>(v: Voice<T>, note: u32, velocity: u32, info: SampleInfo) -> Voice<
    T,
> {
    Voice {
        state: VoiceState::Pressed,
        note,
        velocity,
        press_time: info.time,
        release_time: 0,
        data: v.data,
    }
}

/// The voice as the manager hands it to `voice_off` on a release.
pub open spec fn voice_released<T>(v: Voice<T>, info: SampleInfo) -> Voice<T> {
    Voice { state: VoiceState::Released, release_time: info.time, ..v }
}

/// The voice as the manager hands it to `voice_off` during a pool reset.
pub open spec fn voice_silenced<T>(v: Voice<T>, info: SampleInfo) -> Voice<T> {
    Voice { state: VoiceState::Inactive, release_time: info.time, ..v }
}

/// The processor's state once `release_note` has walked the first `i`
/// slots: each slot holding `note`, in slot order, runs the `voice_off`
/// hook.
pub open spec fn released_processor_after<T, E: VoiceProcessor<T>>(
    proc: E,
    vs: Seq<Voice<T>>,
    note: u32,
    i: int,
    info: SampleInfo,
) -> E
    decreases i,
{
    if i <= 0 {
        proc
    } else {
        let p = released_processor_after(proc, vs, note, i - 1, info);
        if vs[i - 1].note == note {
            p.spec_off_processed(voice_released(vs[i - 1], info), info)
        } else {
            p
        }
    }
}

/// The processor's state once `reset` has walked the first `i` slots: every
/// slot, in slot order, runs the `voice_off` hook.
pub open spec fn reset_processor_after<T, E: VoiceProcessor<T>>(
    proc: E,
    vs: Seq<Voice<T>>,
    i: int,
    info: SampleInfo,
) -> E
    decreases i,
{
    if i <= 0 {
        proc
    } else {
        reset_processor_after(proc, vs, i - 1, info).spec_off_processed(
            voice_silenced(vs[i - 1], info),
            info,
        )
    }
}

/// The processor's state once the first `i` slots of `vs` have been
/// processed for one frame: each non-inactive slot, in slot order, moves it
/// on by `spec_processed`; inactive slots are skipped.
pub open spec fn processor_after<T, E: VoiceProcessor<T>>(
    proc: E,
    vs: Seq<Voice<T>>,
    i: int,
    info: SampleInfo,
) -> E
    decreases i,
{
    if i <= 0 {
        proc
    } else {
        let p = processor_after(proc, vs, i - 1, info);
        if vs[i - 1].state == VoiceState::Inactive {
            p
        } else {
            p.spec_processed(vs[i - 1], info)
        }
    }
}

/// The frame mix of the first `i` slots of `vs`: the wrapped sum, in slot
/// order, of `spec_sample` over the non-inactive slots, each taken at the
/// processor state reached by then. Plain summation, no per-voice gain.
pub open spec fn mix_after<T, E: VoiceProcessor<T>>(
    proc: E,
    vs: Seq<Voice<T>>,
    i: int,
    info: SampleInfo,
) -> i64
    decreases i,
{
    if i <= 0 {
        0
    } else {
        let m = mix_after(proc, vs, i - 1, info);
        if vs[i - 1].state == VoiceState::Inactive {
            m
        } else {
            wadd(m, processor_after(proc, vs, i - 1, info).spec_sample(vs[i - 1], info))
        }
    }
}

/// Whether slot `i` falls back to `Inactive` this frame: what
/// `check_inactive` answers for the voice as `process_voice` left it, at
/// the processor state reached just after it.
pub open spec fn drops_inactive<T, E: VoiceProcessor<T>>(
    proc: E,
    vs: Seq<Voice<T>>,
    i: int,
    info: SampleInfo,
) -> bool {
    let ov = vs[i];
    let checked = Voice {
        data: processor_after(proc, vs, i, info).spec_voice_data(ov, info),
        ..ov
    };
    processor_after(proc, vs, i + 1, info).spec_check_inactive(checked, info)
}

/// Whether any slot of `vs` is in state `st`.
pub open spec fn has_state<T>(vs: Seq<Voice<T>>, st: VoiceState) -> bool {
    exists|i: int| 0 <= i < vs.len() && (#[trigger] vs[i]).state == st
}

/// Whether slot `r` is the one the stealing policy picks from `vs`, in
/// strict priority order: the first `Inactive` slot; else the `Released`
/// slot with the smallest release time (the first such on a tie); else the
/// slot with the smallest press time (the first such on a tie).
pub open spec fn is_stealing_choice<T>(vs: Seq<Voice<T>>, r: int) -> bool {
    &&& 0 <= r < vs.len()
    &&& if has_state(vs, VoiceState::Inactive) {
        &&& vs[r].state == VoiceState::Inactive
        &&& forall|j: int| 0 <= j < r ==> (#[trigger] vs[j]).state != VoiceState::Inactive
    } else if has_state(vs, VoiceState::Released) {
        &&& vs[r].state == VoiceState::Released
        &&& forall|j: int|
            0 <= j < vs.len() && (#[trigger] vs[j]).state == VoiceState::Released
                ==> vs[r].release_time <= vs[j].release_time
        &&& forall|j: int|
            0 <= j < r && (#[trigger] vs[j]).state == VoiceState::Released
                ==> vs[r].release_time < vs[j].release_time
    } else {
        &&& forall|j: int|
            0 <= j < vs.len() ==> vs[r].press_time <= (#[trigger] vs[j]).press_time
        &&& forall|j: int| 0 <= j < r ==> vs[r].press_time < (#[trigger] vs[j]).press_time
    }
}

/// The stealing policy is deterministic: two slots that both satisfy it are
/// the same slot.
pub proof fn lemma_stealing_choice_unique<T>(vs: Seq<Voice<T>>, r1: int, r2: int)
    requires
        is_stealing_choice(vs, r1),
        is_stealing_choice(vs, r2),
    ensures
        r1 == r2,
{
}

/// A fixed-capacity polyphony pool. The slot index is a voice's stable
/// identity for the pool's lifetime; exhaustion is resolved by stealing,
/// never by refusal.
pub struct VoiceManager<T> {
    pub voices: Vec<Voice<T>>,
}

impl<T: Default> VoiceManager<T> {
    /// Creates a pool with `size` voices, all inactive.
    pub fn new(size: usize) -> (r: VoiceManager<T>)
        ensures
            r.voices@.len() == size,
            forall|i: int|
                0 <= i < size ==> {
                    let v = #[trigger] r.voices@[i];
                    v.state == VoiceState::Inactive && v.note == 0 && v.velocity == 0
                        && v.press_time == 0 && v.release_time == 0
                },
    {
        let mut mgr: VoiceManager<T> = VoiceManager { voices: Vec::new() };
        let mut i: usize = 0;
        while i < size
            invariant
                i <= size,
                mgr.voices@.len() == i,
                forall|k: int|
                    0 <= k < i ==> {
                        let v = #[trigger] mgr.voices@[k];
                        v.state == VoiceState::Inactive && v.note == 0 && v.velocity == 0
                            && v.press_time == 0 && v.release_time == 0
                    },
            decreases size - i,
        {
            let voice: Voice<T> = Voice::default();
            mgr.voices.push(voice);
            i += 1;
        }
        mgr
    }

    /// Forces every voice to `Inactive`, stamping the release time and
    /// notifying the processor; used at setup to silence the pool.
    pub fn reset<E: VoiceProcessor<T>>(&mut self, proc: &mut E, info: SampleInfo)
        ensures
            final(self).voices@.len() == old(self).voices@.len(),
            *final(proc) == reset_processor_after(
                *old(proc),
                old(self).voices@,
                old(self).voices@.len() as int,
                info,
            ),
            forall|j: int|
                0 <= j < old(self).voices@.len() ==> {
                    let ov = old(self).voices@[j];
                    let nv = #[trigger] final(self).voices@[j];
                    &&& nv.state == VoiceState::Inactive
                    &&& nv.release_time == info.time
                    &&& nv.note == ov.note
                    &&& nv.velocity == ov.velocity
                    &&& nv.press_time == ov.press_time
                    &&& nv.data == reset_processor_after(
                        *old(proc),
                        old(self).voices@,
                        j,
                        info,
                    ).spec_off_data(voice_silenced(ov, info), info)
                },
    {
        let n = self.voices.len();
        let mut i: usize = 0;
        while i < n
            invariant
                i <= n,
                self.voices@.len() == n,
                n == old(self).voices@.len(),
                *proc == reset_processor_after(*old(proc), old(self).voices@, i as int, info),
                forall|j: int|
                    i <= j < n ==> #[trigger] self.voices@[j] == old(self).voices@[j],
                forall|j: int|
                    0 <= j < i ==> {
                        let ov = old(self).voices@[j];
                        let nv = #[trigger] self.voices@[j];
                        &&& nv.state == VoiceState::Inactive
                        &&& nv.release_time == info.time
                        &&& nv.note == ov.note
                        &&& nv.velocity == ov.velocity
                        &&& nv.press_time == ov.press_time
                        &&& nv.data == reset_processor_after(
                            *old(proc),
                            old(self).voices@,
                            j,
                            info,
                        ).spec_off_data(voice_silenced(ov, info), info)
                    },
            decreases n - i,
        {
            let voice = &mut self.voices[i];
            voice.state = VoiceState::Inactive;
            voice.release_time = info.time;
            proc.voice_off(voice, info);
            i += 1;
        }
    }

    /// The slot the stealing policy picks for the next pressed note.
    fn find_next_slot(&self) -> (r: usize)
        requires
            self.voices@.len() > 0,
        ensures
            is_stealing_choice(self.voices@, r as int),
    {
        let n = self.voices.len();
        let mut i: usize = 0;
        while i < n
            invariant
                i <= n,
                n == self.voices@.len(),
                forall|j: int|
                    0 <= j < i ==> (#[trigger] self.voices@[j]).state != VoiceState::Inactive,
            decreases n - i,
        {
            if self.voices[i].state == VoiceState::Inactive {
                return i;
            }
            i += 1;
        }
        let mut best: usize = 0;
        let mut found = false;
        let mut idx: usize = 0;
        while idx < n
            invariant
                idx <= n,
                n == self.voices@.len(),
                forall|j: int|
                    0 <= j < n ==> (#[trigger] self.voices@[j]).state != VoiceState::Inactive,
                found ==> best < idx,
                found ==> self.voices@[best as int].state == VoiceState::Released,
                found ==> forall|j: int|
                    0 <= j < idx && (#[trigger] self.voices@[j]).state == VoiceState::Released
                        ==> self.voices@[best as int].release_time <= self.voices@[j].release_time,
                found ==> forall|j: int|
                    0 <= j < best && (#[trigger] self.voices@[j]).state == VoiceState::Released
                        ==> self.voices@[best as int].release_time < self.voices@[j].release_time,
                !found ==> forall|j: int|
                    0 <= j < idx ==> (#[trigger] self.voices@[j]).state != VoiceState::Released,
            decreases n - idx,
        {
            if self.voices[idx].state == VoiceState::Released && (!found
                || self.voices[idx].release_time < self.voices[best].release_time) {
                best = idx;
                found = true;
            }
            idx += 1;
        }
        if found {
            return best;
        }
        let mut best2: usize = 0;
        let mut k: usize = 1;
        while k < n
            invariant
                1 <= k <= n,
                n == self.voices@.len(),
                best2 < k,
                forall|j: int|
                    0 <= j < k ==> self.voices@[best2 as int].press_time
                        <= (#[trigger] self.voices@[j]).press_time,
                forall|j: int|
                    0 <= j < best2 ==> self.voices@[best2 as int].press_time
                        < (#[trigger] self.voices@[j]).press_time,
            decreases n - k,
        {
            if self.voices[k].press_time < self.voices[best2].press_time {
                best2 = k;
            }
            k += 1;
        }
        best2
    }

    /// Assigns `note` to the slot the stealing policy picks: the voice is
    /// pressed with the given velocity, its press time stamped from `info`,
    /// and the processor's `voice_on` hook is invoked on it.
    pub fn press_note<E: VoiceProcessor<T>>(
        &mut self,
        proc: &mut E,
        note: u32,
        velocity: u32,
        info: SampleInfo,
    )
        requires
            old(self).voices@.len() > 0,
        ensures
            final(self).voices@.len() == old(self).voices@.len(),
            exists|i: int|
                {
                    &&& #[trigger] is_stealing_choice(old(self).voices@, i)
                    &&& final(self).voices@[i].state == VoiceState::Pressed
                    &&& final(self).voices@[i].note == note
                    &&& final(self).voices@[i].velocity == velocity
                    &&& final(self).voices@[i].press_time == info.time
                    &&& final(self).voices@[i].release_time == 0
                    &&& final(self).voices@[i].data == old(proc).spec_on_data(
                        voice_pressed(old(self).voices@[i], note, velocity, info),
                        info,
                    )
                    &&& *final(proc) == old(proc).spec_on_processed(
                        voice_pressed(old(self).voices@[i], note, velocity, info),
                        info,
                    )
                    &&& forall|j: int|
                        0 <= j < old(self).voices@.len() && j != i
                            ==> #[trigger] final(self).voices@[j] == old(self).voices@[j]
                },
    {
        let index = self.find_next_slot();
        let voice = &mut self.voices[index];
        voice.note = note;
        voice.velocity = velocity;
        voice.state = VoiceState::Pressed;
        voice.press_time = info.time;
        voice.release_time = 0;
        proc.voice_on(voice, info);
    }

    /// Releases every voice currently holding `note` (any count, not
    /// exclusive): each transitions to `Released`, its release time stamped
    /// from `info`, and the processor's `voice_off` hook is invoked on it.
    pub fn release_note<E: VoiceProcessor<T>>(&mut self, proc: &mut E, note: u32, info: SampleInfo)
        ensures
            final(self).voices@.len() == old(self).voices@.len(),
            *final(proc) == released_processor_after(
                *old(proc),
                old(self).voices@,
                note,
                old(self).voices@.len() as int,
                info,
            ),
            forall|j: int|
                0 <= j < old(self).voices@.len() ==> {
                    let ov = old(self).voices@[j];
                    let nv = #[trigger] final(self).voices@[j];
                    if ov.note == note {
                        nv.state == VoiceState::Released && nv.release_time == info.time
                            && nv.note == ov.note && nv.velocity == ov.velocity && nv.press_time
                            == ov.press_time && nv.data == released_processor_after(
                            *old(proc),
                            old(self).voices@,
                            note,
                            j,
                            info,
                        ).spec_off_data(voice_released(ov, info), info)
                    } else {
                        nv == ov
                    }
                },
    {
        let n = self.voices.len();
        let mut i: usize = 0;
        while i < n
            invariant
                i <= n,
                self.voices@.len() == n,
                n == old(self).voices@.len(),
                *proc == released_processor_after(
                    *old(proc),
                    old(self).voices@,
                    note,
                    i as int,
                    info,
                ),
                forall|j: int|
                    i <= j < n ==> #[trigger] self.voices@[j] == old(self).voices@[j],
                forall|j: int|
                    0 <= j < i ==> {
                        let ov = old(self).voices@[j];
                        let nv = #[trigger] self.voices@[j];
                        if ov.note == note {
                            nv.state == VoiceState::Released && nv.release_time == info.time
                                && nv.note == ov.note && nv.velocity == ov.velocity
                                && nv.press_time == ov.press_time && nv.data
                                == released_processor_after(
                                *old(proc),
                                old(self).voices@,
                                note,
                                j,
                                info,
                            ).spec_off_data(voice_released(ov, info), info)
                        } else {
                            nv == ov
                        }
                    },
            decreases n - i,
        {
            if self.voices[i].note == note {
                let voice = &mut self.voices[i];
                voice.state = VoiceState::Released;
                voice.release_time = info.time;
                proc.voice_off(voice, info);
            }
            i += 1;
        }
    }

    /// Mixes one frame: every non-inactive voice contributes its processed
    /// sample to the wrapped sum, in slot order, and each is invalidated
    /// afterwards when the processor's `check_inactive` says so. The mix and
    /// the processor's end state are the fold the `VoiceProcessor` spec
    /// functions describe; a voice inactive on entry is not processed and is
    /// left wholly untouched, so an idle pool returns a zero mix.
    pub fn process_voices<E: VoiceProcessor<T>>(&mut self, proc: &mut E, info: SampleInfo) -> (mix:
        i64)
        ensures
            final(self).voices@.len() == old(self).voices@.len(),
            mix == mix_after(*old(proc), old(self).voices@, old(self).voices@.len() as int, info),
            *final(proc) == processor_after(
                *old(proc),
                old(self).voices@,
                old(self).voices@.len() as int,
                info,
            ),
            forall|j: int|
                0 <= j < old(self).voices@.len() ==> {
                    let ov = old(self).voices@[j];
                    let nv = #[trigger] final(self).voices@[j];
                    &&& nv.note == ov.note
                    &&& nv.velocity == ov.velocity
                    &&& nv.press_time == ov.press_time
                    &&& nv.release_time == ov.release_time
                    &&& (ov.state == VoiceState::Inactive ==> nv == ov)
                    &&& (ov.state != VoiceState::Inactive ==> nv.state == (
                    if drops_inactive(*old(proc), old(self).voices@, j, info) {
                        VoiceState::Inactive
                    } else {
                        ov.state
                    }))
                    &&& (ov.state != VoiceState::Inactive ==> nv.data == processor_after(
                        *old(proc),
                        old(self).voices@,
                        j,
                        info,
                    ).spec_voice_data(ov, info))
                },
            (forall|j: int|
                0 <= j < old(self).voices@.len() ==> (#[trigger] old(self).voices@[j]).state
                    == VoiceState::Inactive) ==> (mix == 0 && final(self).voices@ == old(
                self,
            ).voices@),
    {
        let ghost all_inactive = forall|j: int|
            0 <= j < old(self).voices@.len() ==> (#[trigger] old(self).voices@[j]).state
                == VoiceState::Inactive;
        let mut sample: i64 = 0;
        let n = self.voices.len();
        let mut i: usize = 0;
        while i < n
            invariant
                i <= n,
                self.voices@.len() == n,
                n == old(self).voices@.len(),
                sample == mix_after(*old(proc), old(self).voices@, i as int, info),
                *proc == processor_after(*old(proc), old(self).voices@, i as int, info),
                forall|j: int|
                    i <= j < n ==> #[trigger] self.voices@[j] == old(self).voices@[j],
                forall|j: int|
                    0 <= j < i ==> {
                        let ov = old(self).voices@[j];
                        let nv = #[trigger] self.voices@[j];
                        &&& nv.note == ov.note
                        &&& nv.velocity == ov.velocity
                        &&& nv.press_time == ov.press_time
                        &&& nv.release_time == ov.release_time
                        &&& (ov.state == VoiceState::Inactive ==> nv == ov)
                        &&& (ov.state != VoiceState::Inactive ==> nv.state == (
                        if drops_inactive(*old(proc), old(self).voices@, j, info) {
                            VoiceState::Inactive
                        } else {
                            ov.state
                        }))
                        &&& (ov.state != VoiceState::Inactive ==> nv.data == processor_after(
                            *old(proc),
                            old(self).voices@,
                            j,
                            info,
                        ).spec_voice_data(ov, info))
                    },
                all_inactive == (forall|j: int|
                    0 <= j < old(self).voices@.len() ==> (#[trigger] old(self).voices@[j]).state
                        == VoiceState::Inactive),
                all_inactive ==> (sample == 0 && self.voices@ == old(self).voices@),
            decreases n - i,
        {
            if self.voices[i].state != VoiceState::Inactive {
                let voice = &mut self.voices[i];
                let s = proc.process_voice(voice, info);
                sample = mix_sample(sample, s);
                if proc.check_inactive(&self.voices[i], info) {
                    let voice = &mut self.voices[i];
                    voice.state = VoiceState::Inactive;
                }
            }
            i += 1;
        }
        sample
    }
}

} // verus!
