//! Polyphonic voice management.
//!
//! This module provides voice allocation and management for polyphonic
//! synthesizers. It handles note-on/off events, voice stealing when all
//! voices are busy, and mixing multiple voices into a single output.

use vstd::prelude::*;

use crate::envelope::{level_clamped, Envelope, LEVEL_UNIT};
use crate::voice::{Oscillator, Voice};

verus! {

/// The largest voice pool this library accepts; it keeps the mixed sum of
/// one sample per voice comfortably inside `i64`.
pub const MAX_VOICES: usize = 1_000_000_000;

/// Strategy for selecting which voice to steal when all voices are busy.
#[derive(Debug, Clone, Copy, PartialEq, Eq, Structural)]
#[non_exhaustive]
pub enum VoiceStealStrategy {
    /// Steal the voice that has been playing the longest.
    Oldest,
}

impl Default for VoiceStealStrategy {
    fn default() -> (r: Self)
        ensures
            r == VoiceStealStrategy::Oldest,
    {
        VoiceStealStrategy::Oldest
    }
}

/// The index of the first voice at or after `i` that is not active, if any.
pub open spec fn first_inactive<O: Oscillator, E: Envelope>(
    voices: Seq<Voice<O, E>>,
    i: int,
) -> Option<int>
    decreases voices.len() - i,
{
    if i < 0 || i >= voices.len() {
        None
    } else if !voices[i].active_spec() {
        Some(i)
    } else {
        first_inactive(voices, i + 1)
    }
}

/// A free voice search returns the first inactive voice: the index it
/// yields holds an inactive voice preceded only by active ones, and it
/// yields nothing exactly when every voice is active.
pub proof fn lemma_first_inactive_is_first<O: Oscillator, E: Envelope>(
    voices: Seq<Voice<O, E>>,
    i: int,
)
    requires
        0 <= i <= voices.len(),
    ensures
        first_inactive(voices, i) matches Some(k) ==> i <= k < voices.len()
            && !voices[k].active_spec() && (forall|j: int|
            i <= j < k ==> voices[j].active_spec()),
        first_inactive(voices, i) is None ==> forall|j: int|
            i <= j < voices.len() ==> voices[j].active_spec(),
    decreases voices.len() - i,
{
    if i < voices.len() && voices[i].active_spec() {
        lemma_first_inactive_is_first(voices, i + 1);
    }
}

/// The index of the first voice at or after `i` whose stored note is
/// `note`, if any.
pub open spec fn holder_index<O: Oscillator, E: Envelope>(
    voices: Seq<Voice<O, E>>,
    note: u8,
    i: int,
) -> Option<int>
    decreases voices.len() - i,
{
    if i < 0 || i >= voices.len() {
        None
    } else if voices[i]@.note == Some(note) {
        Some(i)
    } else {
        holder_index(voices, note, i + 1)
    }
}

/// A note-off search returns the first holder of the note: the index it
/// yields holds the note and no earlier voice does, and it yields nothing
/// exactly when no voice holds the note.
pub proof fn lemma_holder_index_is_first<O: Oscillator, E: Envelope>(
    voices: Seq<Voice<O, E>>,
    note: u8,
    i: int,
)
    requires
        0 <= i <= voices.len(),
    ensures
        holder_index(voices, note, i) matches Some(k) ==> i <= k < voices.len()
            && voices[k]@.note == Some(note) && (forall|j: int|
            i <= j < k ==> voices[j]@.note != Some(note)),
        holder_index(voices, note, i) is None ==> forall|j: int|
            i <= j < voices.len() ==> voices[j]@.note != Some(note),
    decreases voices.len() - i,
{
    if i < voices.len() && voices[i]@.note != Some(note) {
        lemma_holder_index_is_first(voices, note, i + 1);
    }
}

/// A left-to-right scan for the index of the minimum age, starting at `i`
/// with `best` as the best index seen so far; ties keep the earlier index.
pub open spec fn oldest_from(ages: Seq<int>, i: int, best: int) -> int
    decreases ages.len() - i,
{
    if i < 0 || i >= ages.len() {
        best
    } else {
        oldest_from(ages, i + 1, if ages[i] < ages[best] { i } else { best })
    }
}

/// The index of the voice with the minimum recorded age, ties broken by the
/// lowest index.
pub open spec fn oldest_index(ages: Seq<int>) -> int {
    oldest_from(ages, 1, 0)
}

proof fn lemma_oldest_from_first_min(ages: Seq<int>, i: int, best: int)
    requires
        0 <= best < i <= ages.len(),
        forall|j: int| 0 <= j < i ==> ages[best] <= ages[j],
        forall|j: int| 0 <= j < best ==> ages[j] > ages[best],
    ensures
        0 <= oldest_from(ages, i, best) < ages.len(),
        forall|j: int| 0 <= j < ages.len() ==> ages[oldest_from(ages, i, best)] <= #[trigger] ages[j],
        forall|j: int| 0 <= j < oldest_from(ages, i, best) ==> #[trigger] ages[j] > ages[oldest_from(ages, i, best)],
    decreases ages.len() - i,
{
    if i < ages.len() {
        let next = if ages[i] < ages[best] {
            i
        } else {
            best
        };
        lemma_oldest_from_first_min(ages, i + 1, next);
    }
}

/// The oldest-voice steal target is the first index attaining the minimum
/// age: no voice has a smaller age, and every earlier voice has a strictly
/// larger one.
pub proof fn lemma_oldest_index_is_first_min(ages: Seq<int>)
    requires
        ages.len() >= 1,
    ensures
        0 <= oldest_index(ages) < ages.len(),
        forall|j: int| 0 <= j < ages.len() ==> ages[oldest_index(ages)] <= #[trigger] ages[j],
        forall|j: int| 0 <= j < oldest_index(ages) ==> #[trigger] ages[j] > ages[oldest_index(ages)],
{
    lemma_oldest_from_first_min(ages, 1, 0);
}

/// The sum of the samples produced by the first `k` voices during one
/// mixing pass: each voice that was active before the pass (`before`)
/// contributes the sample determined by its advanced state (`after`);
/// inactive voices contribute silence.
pub open spec fn mixed_upto<O: Oscillator, E: Envelope>(
    before: Seq<Voice<O, E>>,
    after: Seq<Voice<O, E>>,
    k: int,
) -> int
    decreases k,
{
    if k <= 0 {
        0
    } else {
        mixed_upto(before, after, k - 1) + if before[k - 1].active_spec() {
            after[k - 1].output_spec()
        } else {
            0
        }
    }
}

proof fn lemma_mixed_upto_agree<O: Oscillator, E: Envelope>(
    before: Seq<Voice<O, E>>,
    a1: Seq<Voice<O, E>>,
    a2: Seq<Voice<O, E>>,
    k: int,
)
    requires
        forall|j: int| 0 <= j < k ==> a1[j] == a2[j],
    ensures
        mixed_upto(before, a1, k) == mixed_upto(before, a2, k),
    decreases k,
{
    if k > 0 {
        lemma_mixed_upto_agree(before, a1, a2, k - 1);
    }
}

/// The number of active voices among the first `k`.
pub open spec fn count_active<O: Oscillator, E: Envelope>(voices: Seq<Voice<O, E>>, k: int) -> int
    decreases k,
{
    if k <= 0 {
        0
    } else {
        count_active(voices, k - 1) + if voices[k - 1].active_spec() {
            1int
        } else {
            0int
        }
    }
}

/// The mathematical model of a [`Polyphony`] pool: its voices, their age
/// stamps, the global note-on counter, and the steal strategy.
pub struct PolyView<O, E> {
    pub voices: Seq<Voice<O, E>>,
    pub ages: Seq<int>,
    pub counter: int,
    pub steal_strategy: VoiceStealStrategy,
}

/// Polyphonic voice manager.
///
/// Manages a fixed number of voices for playing chords and handling note
/// allocation. When all voices are busy, a voice is stolen based on the
/// configured strategy. The pool size is fixed at construction and never
/// changes during steady-state operation.
///
/// # Type parameters
///
/// * `O` - Tone generator type
/// * `E` - Envelope type
pub struct Polyphony<O, E> {
    voices: Vec<Voice<O, E>>,
    /// Tracks order of note-ons for voice stealing (oldest first).
    ages: Vec<u64>,
    /// Counter incremented on each note_on.
    counter: u64,
    steal_strategy: VoiceStealStrategy,
}

impl<O, E> View for Polyphony<O, E> {
    type V = PolyView<O, E>;

    closed spec fn view(&self) -> PolyView<O, E> {
        PolyView {
            voices: self.voices@,
            ages: self.ages@.map_values(|a: u64| a as int),
            counter: self.counter as int,
            steal_strategy: self.steal_strategy,
        }
    }
}

impl<O: Oscillator, E: Envelope> Polyphony<O, E> {
    /// Well-formedness: one age stamp per voice, every voice well-formed,
    /// and every age stamp at most the global counter it was drawn from.
    pub open spec fn inv(&self) -> bool {
        &&& self@.voices.len() == self@.ages.len()
        &&& self@.voices.len() <= MAX_VOICES
        &&& forall|i: int| #![auto] 0 <= i < self@.voices.len() ==> self@.voices[i].inv()
        &&& forall|i: int|
            0 <= i < self@.ages.len() ==> 0 <= #[trigger] self@.ages[i] <= self@.counter
        &&& 0 <= self@.counter <= u64::MAX
    }

    /// The voice the next note-on will use: the first inactive voice, or,
    /// when every voice is active, the steal target with the minimum age.
    pub open spec fn target_voice(&self) -> int {
        match first_inactive(self@.voices, 0) {
            Some(i) => i,
            None => oldest_index(self@.ages),
        }
    }

    /// Creates a new polyphonic voice manager with the given voices and
    /// steal strategy.
    pub fn new(voices: Vec<Voice<O, E>>, steal_strategy: VoiceStealStrategy) -> (p: Polyphony<
        O,
        E,
    >)
        requires
            voices@.len() <= MAX_VOICES,
            forall|i: int| #![auto] 0 <= i < voices@.len() ==> voices@[i].inv(),
        ensures
            p.inv(),
            p@.voices == voices@,
            p@.ages.len() == voices@.len(),
            forall|i: int| #![auto] 0 <= i < p@.ages.len() ==> p@.ages[i] == 0,
            p@.counter == 0,
            p@.steal_strategy == steal_strategy,
    {
        let n = voices.len();
        let mut ages: Vec<u64> = Vec::new();
        while ages.len() < n
            invariant
                ages@.len() <= n,
                forall|i: int| #![auto] 0 <= i < ages@.len() ==> ages@[i] == 0,
            decreases n - ages.len(),
        {
            ages.push(0);
        }
        Polyphony { voices, ages, counter: 0, steal_strategy }
    }

    /// Creates a new polyphonic voice manager using a factory function.
    ///
    /// The factory is called `n` times to create each voice.
    pub fn from_factory<F: Fn() -> Voice<O, E>>(
        n: usize,
        steal_strategy: VoiceStealStrategy,
        factory: F,
    ) -> (p: Polyphony<O, E>)
        requires
            n <= MAX_VOICES,
            call_requires(factory, ()),
            forall|v: Voice<O, E>| #[trigger] call_ensures(factory, (), v) ==> v.inv(),
        ensures
            p.inv(),
            p@.voices.len() == n,
            forall|i: int| #![auto] 0 <= i < n ==> call_ensures(factory, (), p@.voices[i]),
            p@.ages.len() == n,
            forall|i: int| #![auto] 0 <= i < p@.ages.len() ==> p@.ages[i] == 0,
            p@.counter == 0,
            p@.steal_strategy == steal_strategy,
    {
        let mut voices: Vec<Voice<O, E>> = Vec::new();
        while voices.len() < n
            invariant
                voices@.len() <= n,
                call_requires(factory, ()),
                forall|v: Voice<O, E>| #[trigger] call_ensures(factory, (), v) ==> v.inv(),
                forall|i: int| #![auto] 0 <= i < voices@.len() ==> call_ensures(
                    factory,
                    (),
                    voices@[i],
                ),
            decreases n - voices.len(),
        {
            let v = factory();
            voices.push(v);
        }
        Self::new(voices, steal_strategy)
    }

    /// Triggers a note on a free voice, or steals one if all are busy.
    ///
    /// The chosen voice is the first inactive one in pool order, or, when
    /// none is free, the active voice with the minimum age stamp (ties to
    /// the lowest index). The global counter is incremented and stamped as
    /// the chosen voice's age, and the voice is retriggered with the note;
    /// an invalid MIDI note number still stamps the age but leaves the
    /// chosen voice itself unchanged. The counter grows by one per note-on
    /// and must not yet have reached its maximum.
    pub fn note_on(&mut self, midi_note: u8, velocity: i64)
        requires
            old(self).inv(),
            old(self)@.voices.len() >= 1,
            old(self)@.counter < u64::MAX,
        ensures
            final(self).inv(),
            final(self)@.steal_strategy == old(self)@.steal_strategy,
            final(self)@.counter == old(self)@.counter + 1,
            final(self)@.ages == old(self)@.ages.update(
                old(self).target_voice(),
                old(self)@.counter + 1,
            ),
            final(self)@.voices.len() == old(self)@.voices.len(),
            forall|j: int| #![auto]
                0 <= j < old(self)@.voices.len() && j != old(self).target_voice() ==> final(self)@.voices[j] == old(self)@.voices[j],
            midi_note <= 127 ==> final(self)@.voices[old(self).target_voice()]@.note == Some(
                midi_note,
            ) && final(self)@.voices[old(self).target_voice()]@.velocity == level_clamped(
                velocity as int,
            ) && final(self)@.voices[old(self).target_voice()].active_spec() && final(
            self)@.voices[old(self).target_voice()]@.amp_env.gated_spec() && final(
            self)@.voices[old(self).target_voice()]@.osc.pitch_spec() is Some,
            midi_note > 127 ==> final(self)@.voices[old(self).target_voice()] == old(self)@.voices[old(self).target_voice()],
    {
        let voice_idx = match self.find_free_voice() {
            Some(i) => i,
            None => self.find_voice_to_steal(),
        };
        self.counter = self.counter + 1;
        self.ages[voice_idx] = self.counter;
        self.voices[voice_idx].note_on(midi_note, velocity);
        proof {
            assert(final(self)@.ages =~= old(self)@.ages.update(
                old(self).target_voice(),
                old(self)@.counter + 1,
            ));
        }
    }

    /// Releases a note by finding the first voice in pool order playing it.
    ///
    /// Does nothing if no voice is playing the given note; if several
    /// voices were assigned the same note, only the first match is
    /// released.
    pub fn note_off(&mut self, midi_note: u8)
        requires
            old(self).inv(),
        ensures
            final(self).inv(),
            holder_index(old(self)@.voices, midi_note, 0) is None ==> *final(self) == *old(self),
            holder_index(old(self)@.voices, midi_note, 0) matches Some(k) ==> {
                &&& final(self)@.ages == old(self)@.ages
                &&& final(self)@.counter == old(self)@.counter
                &&& final(self)@.steal_strategy == old(self)@.steal_strategy
                &&& final(self)@.voices.len() == old(self)@.voices.len()
                &&& forall|j: int| #![auto]
                    0 <= j < old(self)@.voices.len() && j != k ==> final(self)@.voices[j] == old(self)@.voices[j]
                &&& final(self)@.voices[k]@.note is None
                &&& !final(self)@.voices[k]@.amp_env.gated_spec()
                &&& final(self)@.voices[k]@.amp_env.level_spec()
                    == old(self)@.voices[k]@.amp_env.level_spec()
                &&& final(self)@.voices[k].active_spec() == old(self)@.voices[k].active_spec()
                &&& final(self)@.voices[k]@.velocity == old(self)@.voices[k]@.velocity
                &&& final(self)@.voices[k]@.osc == old(self)@.voices[k]@.osc
            },
    {
        let holder = self.find_note_holder(midi_note);
        match holder {
            Some(k) => {
                self.voices[k].note_off();
            },
            None => {},
        }
    }

    /// Generates the next audio sample by summing, in pool order, the
    /// output of every voice that is active at the start of the call;
    /// inactive voices are skipped and left untouched.
    pub fn next_sample(&mut self) -> (sample: i64)
        requires
            old(self).inv(),
        ensures
            final(self).inv(),
            final(self)@.ages == old(self)@.ages,
            final(self)@.counter == old(self)@.counter,
            final(self)@.steal_strategy == old(self)@.steal_strategy,
            final(self)@.voices.len() == old(self)@.voices.len(),
            forall|j: int| #![auto]
                0 <= j < old(self)@.voices.len() && !old(self)@.voices[j].active_spec() ==> final(self)@.voices[j] == old(self)@.voices[j],
            forall|j: int| #![auto]
                0 <= j < old(self)@.voices.len() && old(self)@.voices[j].active_spec() ==> final(self)@.voices[j]@.note == old(self)@.voices[j]@.note && final(self)@.voices[j]@.velocity
                    == old(self)@.voices[j]@.velocity,
            sample as int == mixed_upto(
                old(self)@.voices,
                final(self)@.voices,
                old(self)@.voices.len() as int,
            ),
    {
        let n = self.voices.len();
        let mut acc: i64 = 0;
        let mut i: usize = 0;
        while i < n
            invariant
                old(self).inv(),
                self.inv(),
                0 <= i <= n,
                n == self@.voices.len(),
                self@.voices.len() == old(self)@.voices.len(),
                self@.ages == old(self)@.ages,
                self@.counter == old(self)@.counter,
                self@.steal_strategy == old(self)@.steal_strategy,
                forall|j: int| #![auto]
                    i <= j < n ==> self@.voices[j] == old(self)@.voices[j],
                forall|j: int| #![auto]
                    0 <= j < i && !old(self)@.voices[j].active_spec() ==> self@.voices[j] == old(self)@.voices[j],
                forall|j: int| #![auto]
                    0 <= j < i && old(self)@.voices[j].active_spec() ==> self@.voices[j]@.note
                        == old(self)@.voices[j]@.note && self@.voices[j]@.velocity == old(self)@.voices[j]@.velocity,
                acc as int == mixed_upto(old(self)@.voices, self@.voices, i as int),
                -((i as int) * (LEVEL_UNIT as int)) <= acc as int <= (i as int) * (
                LEVEL_UNIT as int),
            decreases n - i,
        {
            let ghost prev_voices = self@.voices;
            let active = self.voices[i].is_active();
            if active {
                let s = self.voices[i].next_sample();
                proof {
                    lemma_mixed_upto_agree(old(self)@.voices, prev_voices, self@.voices, i as int);
                }
                acc = acc + s;
            } else {
                proof {
                    lemma_mixed_upto_agree(old(self)@.voices, prev_voices, self@.voices, i as int);
                }
            }
            i = i + 1;
        }
        acc
    }

    /// Returns the number of currently active voices.
    pub fn active_count(&self) -> (r: usize)
        requires
            self.inv(),
        ensures
            r as int == count_active(self@.voices, self@.voices.len() as int),
    {
        let n = self.voices.len();
        let mut count: usize = 0;
        let mut i: usize = 0;
        while i < n
            invariant
                self.inv(),
                0 <= i <= n,
                n == self@.voices.len(),
                count as int == count_active(self@.voices, i as int),
                count <= i,
            decreases n - i,
        {
            if self.voices[i].is_active() {
                count = count + 1;
            }
            i = i + 1;
        }
        count
    }

    /// Resets all voices to idle state immediately, and all bookkeeping to
    /// its initial state.
    ///
    /// Useful for panic/all-notes-off MIDI messages; it never waits for the
    /// envelopes' own release tails.
    pub fn reset(&mut self)
        requires
            old(self).inv(),
        ensures
            final(self).inv(),
            final(self)@.steal_strategy == old(self)@.steal_strategy,
            final(self)@.counter == 0,
            final(self)@.ages.len() == old(self)@.ages.len(),
            forall|j: int| #![auto] 0 <= j < final(self)@.ages.len() ==> final(self)@.ages[j] == 0,
            final(self)@.voices.len() == old(self)@.voices.len(),
            forall|j: int| #![auto]
                0 <= j < final(self)@.voices.len() ==> final(self)@.voices[j]@.note is None
                    && final(self)@.voices[j]@.velocity == 0 && !final(self)@.voices[j].active_spec()
                    && !final(self)@.voices[j]@.amp_env.gated_spec() && final(
                self)@.voices[j]@.amp_env.level_spec() == 0 && final(
                self)@.voices[j]@.osc.pitch_spec() is None,
    {
        let n = self.voices.len();
        let mut i: usize = 0;
        while i < n
            invariant
                self.inv(),
                0 <= i <= n,
                n == self@.voices.len(),
                self@.voices.len() == old(self)@.voices.len(),
                self@.ages == old(self)@.ages,
                self@.counter == old(self)@.counter,
                self@.steal_strategy == old(self)@.steal_strategy,
                forall|j: int| #![auto]
                    0 <= j < i ==> self@.voices[j]@.note is None && self@.voices[j]@.velocity == 0
                        && !self@.voices[j].active_spec()
                        && !self@.voices[j]@.amp_env.gated_spec()
                        && self@.voices[j]@.amp_env.level_spec() == 0
                        && self@.voices[j]@.osc.pitch_spec() is None,
            decreases n - i,
        {
            self.voices[i].reset();
            i = i + 1;
        }
        let mut i: usize = 0;
        while i < n
            invariant
                self.inv(),
                0 <= i <= n,
                n == self@.ages.len(),
                self@.ages.len() == old(self)@.ages.len(),
                self@.voices.len() == old(self)@.voices.len(),
                self@.counter == old(self)@.counter,
                self@.steal_strategy == old(self)@.steal_strategy,
                forall|j: int| #![auto] 0 <= j < i ==> self@.ages[j] == 0,
                forall|j: int| #![auto]
                    0 <= j < self@.voices.len() ==> self@.voices[j]@.note is None
                        && self@.voices[j]@.velocity == 0 && !self@.voices[j].active_spec()
                        && !self@.voices[j]@.amp_env.gated_spec()
                        && self@.voices[j]@.amp_env.level_spec() == 0
                        && self@.voices[j]@.osc.pitch_spec() is None,
            decreases n - i,
        {
            let ghost prev_ages = self@.ages;
            self.ages[i] = 0;
            proof {
                assert(self@.ages =~= prev_ages.update(i as int, 0));
            }
            i = i + 1;
        }
        self.counter = 0;
    }

    /// Returns a reference to the voice collection.
    pub fn voices(&self) -> (r: &Vec<Voice<O, E>>)
        ensures
            r@ == self@.voices,
    {
        &self.voices
    }

    /// Returns a mutable reference to the voice collection.
    ///
    /// Use this to modify generator or envelope parameters on all voices.
    /// Callers must leave every voice well-formed and the length unchanged
    /// for the pool to remain well-formed.
    pub fn voices_mut(&mut self) -> (r: &mut Vec<Voice<O, E>>)
        ensures
            (*r)@ == old(self)@.voices,
            final(self)@.voices == (*final(r))@,
            final(self)@.ages == old(self)@.ages,
            final(self)@.counter == old(self)@.counter,
            final(self)@.steal_strategy == old(self)@.steal_strategy,
    {
        &mut self.voices
    }

    /// Returns the total number of voices.
    pub fn capacity(&self) -> (r: usize)
        ensures
            r as int == self@.voices.len(),
    {
        self.voices.len()
    }

    /// Finds the index of the voice the steal strategy picks: with
    /// [`VoiceStealStrategy::Oldest`], the voice with the minimum age,
    /// ties broken by the lowest index.
    fn find_voice_to_steal(&self) -> (r: usize)
        requires
            self.inv(),
            self@.voices.len() >= 1,
        ensures
            r as int == oldest_index(self@.ages),
            0 <= r < self@.voices.len(),
    {
        match self.steal_strategy {
            VoiceStealStrategy::Oldest => {
                let n = self.ages.len();
                let mut best: usize = 0;
                let mut i: usize = 1;
                while i < n
                    invariant
                        self.inv(),
                        n == self@.ages.len(),
                        1 <= i <= n,
                        0 <= best < i,
                        oldest_from(self@.ages, i as int, best as int) == oldest_index(self@.ages),
                    decreases n - i,
                {
                    if self.ages[i] < self.ages[best] {
                        best = i;
                    }
                    i = i + 1;
                }
                best
            },
        }
    }

    /// Finds the index of the first inactive voice, if any.
    fn find_free_voice(&self) -> (r: Option<usize>)
        requires
            self.inv(),
        ensures
            match r {
                Some(i) => first_inactive(self@.voices, 0) == Some(i as int) && 0 <= i
                    < self@.voices.len(),
                None => first_inactive(self@.voices, 0) is None,
            },
    {
        let n = self.voices.len();
        let mut i: usize = 0;
        while i < n
            invariant
                self.inv(),
                0 <= i <= n,
                n == self@.voices.len(),
                first_inactive(self@.voices, 0) == first_inactive(self@.voices, i as int),
            decreases n - i,
        {
            if !self.voices[i].is_active() {
                return Some(i);
            }
            i = i + 1;
        }
        None
    }

    /// Finds the index of the first voice whose stored note is `note`, if
    /// any.
    fn find_note_holder(&self, note: u8) -> (r: Option<usize>)
        requires
            self.inv(),
        ensures
            match r {
                Some(i) => holder_index(self@.voices, note, 0) == Some(i as int) && 0 <= i
                    < self@.voices.len(),
                None => holder_index(self@.voices, note, 0) is None,
            },
    {
        let n = self.voices.len();
        let mut i: usize = 0;
        while i < n
            invariant
                self.inv(),
                0 <= i <= n,
                n == self@.voices.len(),
                holder_index(self@.voices, note, 0) == holder_index(self@.voices, note, i as int),
            decreases n - i,
        {
            let v_note = self.voices[i].note();
            match v_note {
                Some(held) => {
                    if held == note {
                        return Some(i);
                    }
                },
                None => {},
            }
            i = i + 1;
        }
        None
    }
}

} // verus!
