//! Synthesizer voice management.
//!
//! A voice represents a single sound-producing unit, combining a tone
//! generator with an amplitude envelope. Voices handle MIDI note events and
//! generate audio samples. Samples and velocities are fixed-point integers
//! scaled by [`LEVEL_UNIT`].

use vstd::prelude::*;

use crate::envelope::{clamp_level, level_clamped, Envelope, LEVEL_UNIT};

verus! {

/// `pitchy::Pitch` declared opaquely: a musical pitch represented by its
/// frequency. This library carries it from the MIDI conversion to the tone
/// generator without reading its contents.
#[verifier::external_type_specification]
#[verifier::external_body]
pub struct ExPitch(pitchy::Pitch);

/// `pitchy::PitchyError` declared opaquely: the error that pitch conversion
/// reports; this library maps it to [`NoteError`] without reading it.
#[verifier::external_type_specification]
#[verifier::external_body]
pub struct ExPitchyError(pitchy::PitchyError);

/// Relies on `pitchy::Pitch::try_from_midi_number`: it returns `Ok` exactly
/// for MIDI note numbers in `0..=127` and `Err` for every number above 127.
pub assume_specification[ pitchy::Pitch::try_from_midi_number ](midi: u8) -> (r: Result<
    pitchy::Pitch,
    pitchy::PitchyError,
>)
    ensures
        r is Ok <==> midi <= 127,
;

/// An error from triggering a voice.
#[derive(Debug, Clone, Copy, PartialEq, Eq, Structural)]
pub enum NoteError {
    /// The given MIDI note number lies outside the valid `0..=127` range and
    /// has no pitch.
    InvalidMidiNote(u8),
}

/// A trait for tone generators that produce periodic waveforms.
///
/// A generator produces one fixed-point amplitude per sample, in the
/// `[-LEVEL_UNIT, LEVEL_UNIT]` range, and is tuned by handing it the pitch
/// of a note. Implementations live outside this library. A verified
/// implementation overrides the model functions (`inv`, `amp_spec`,
/// `pitch_spec`) with its own state model; an implementation written
/// outside the verifier can keep their defaults, in which case nothing it
/// does is checked against them.
pub trait Oscillator: Sized {
    /// Well-formedness of the generator's internal state.
    open spec fn inv(&self) -> bool {
        true
    }

    /// The amplitude most recently produced, in `[-LEVEL_UNIT, LEVEL_UNIT]`.
    open spec fn amp_spec(&self) -> int {
        0
    }

    /// The pitch most recently handed to the generator, or `None` if none
    /// was since construction or the last reset.
    open spec fn pitch_spec(&self) -> Option<pitchy::Pitch> {
        None
    }

    /// Sets the generator's frequency to that of the given pitch.
    fn set_frequency(&mut self, pitch: pitchy::Pitch)
        requires
            old(self).inv(),
        ensures
            final(self).inv(),
            final(self).pitch_spec() == Some(pitch),
    ;

    /// Resets the generator to its initial state.
    fn reset(&mut self)
        requires
            old(self).inv(),
        ensures
            final(self).inv(),
            final(self).pitch_spec() is None,
    ;

    /// Generates and returns the next sample.
    fn next_sample(&mut self) -> (amp: i64)
        requires
            old(self).inv(),
        ensures
            final(self).inv(),
            -LEVEL_UNIT <= amp <= LEVEL_UNIT,
            amp as int == final(self).amp_spec(),
    ;
}

/// One audio sample of a voice: the tone generator's amplitude scaled by the
/// envelope level and the note velocity, in fixed point. Both scalings
/// truncate toward zero.
pub open spec fn mix(amp: int, level: int, velocity: int) -> int
    recommends
        -LEVEL_UNIT <= amp <= LEVEL_UNIT,
        0 <= level <= LEVEL_UNIT,
        0 <= velocity <= LEVEL_UNIT,
{
    let gain = level * velocity / (LEVEL_UNIT as int);
    if amp >= 0 {
        amp * gain / (LEVEL_UNIT as int)
    } else {
        -((-amp) * gain / (LEVEL_UNIT as int))
    }
}

/// The mathematical model of a [`Voice`]: its owned generator and envelope,
/// its velocity, and the note it currently holds.
pub struct VoiceView<O, E> {
    pub osc: O,
    pub amp_env: E,
    pub velocity: int,
    pub note: Option<u8>,
}

/// A single synthesizer voice combining a tone generator and an amplitude
/// envelope.
///
/// The voice converts MIDI note numbers to pitches, applies velocity
/// scaling, and shapes the output with an amplitude envelope. Use multiple
/// voices with a voice allocator for polyphonic playback.
///
/// # Type parameters
///
/// * `O` - Tone generator type
/// * `E` - Envelope type (e.g., [`crate::envelope::LinearAdsr`])
pub struct Voice<O, E> {
    osc: O,
    amp_env: E,
    velocity: i64,
    note: Option<u8>,
}

impl<O, E> View for Voice<O, E> {
    type V = VoiceView<O, E>;

    closed spec fn view(&self) -> VoiceView<O, E> {
        VoiceView {
            osc: self.osc,
            amp_env: self.amp_env,
            velocity: self.velocity as int,
            note: self.note,
        }
    }
}

impl<O: Oscillator, E: Envelope> Voice<O, E> {
    /// Well-formedness: both owned components are well-formed and the
    /// velocity lies in `[0, LEVEL_UNIT]`.
    pub open spec fn inv(&self) -> bool {
        &&& self@.osc.inv()
        &&& self@.amp_env.inv()
        &&& 0 <= self@.velocity <= LEVEL_UNIT
    }

    /// A voice is active exactly when its envelope is active.
    pub open spec fn active_spec(&self) -> bool {
        self@.amp_env.active_spec()
    }

    /// The sample this voice most recently produced.
    pub open spec fn output_spec(&self) -> int {
        mix(self@.osc.amp_spec(), self@.amp_env.level_spec(), self@.velocity)
    }

    /// Creates a new voice with the given tone generator and envelope.
    ///
    /// The voice starts in an idle state with no note playing.
    pub fn new(osc: O, amp_env: E) -> (v: Voice<O, E>)
        ensures
            v@.osc == osc,
            v@.amp_env == amp_env,
            v@.velocity == 0,
            v@.note is None,
    {
        Voice { osc, amp_env, velocity: 0, note: None }
    }

    /// Triggers the voice with a MIDI note and velocity.
    ///
    /// Converts the MIDI note number to a pitch and starts the envelope.
    /// Silently ignores MIDI note numbers outside the valid `0..=127` range,
    /// leaving the voice unchanged.
    ///
    /// Use [`Self::try_note_on`] if you need error handling.
    pub fn note_on(&mut self, midi_note: u8, velocity: i64)
        requires
            old(self).inv(),
        ensures
            final(self).inv(),
            midi_note > 127 ==> *final(self) == *old(self),
            midi_note <= 127 ==> final(self)@.note == Some(midi_note) && final(self)@.velocity
                == level_clamped(velocity as int) && final(self).active_spec() && final(
            self)@.amp_env.gated_spec() && final(self)@.osc.pitch_spec() is Some,
    {
        let _ = self.try_note_on(midi_note, velocity);
    }

    /// Triggers the voice with a MIDI note and velocity, returning any error.
    ///
    /// Converts the MIDI note number to a pitch, stores the note and the
    /// clamped velocity, retunes the tone generator, and starts the
    /// envelope. On an invalid MIDI note number the voice is left completely
    /// unchanged and the error is returned.
    ///
    /// # Arguments
    ///
    /// * `midi_note` - MIDI note number (valid range `0..=127`)
    /// * `velocity` - Note velocity, clamped into `[0, LEVEL_UNIT]`
    pub fn try_note_on(&mut self, midi_note: u8, velocity: i64) -> (r: Result<(), NoteError>)
        requires
            old(self).inv(),
        ensures
            final(self).inv(),
            r is Ok <==> midi_note <= 127,
            midi_note > 127 ==> *final(self) == *old(self) && r == Err::<(), NoteError>(
                NoteError::InvalidMidiNote(midi_note),
            ),
            midi_note <= 127 ==> final(self)@.note == Some(midi_note) && final(self)@.velocity
                == level_clamped(velocity as int) && final(self).active_spec() && final(
            self)@.amp_env.gated_spec() && final(self)@.osc.pitch_spec() is Some,
    {
        let pitch = match pitchy::Pitch::try_from_midi_number(midi_note) {
            Ok(p) => p,
            Err(_) => {
                return Err(NoteError::InvalidMidiNote(midi_note));
            },
        };
        self.note = Some(midi_note);
        self.velocity = clamp_level(velocity);
        self.osc.set_frequency(pitch);
        self.amp_env.gate_on();
        Ok(())
    }

    /// Releases the voice, starting the envelope release phase, and clears
    /// the stored note.
    ///
    /// The voice continues producing sound until the envelope completes its
    /// release. Check [`Self::is_active`] to know when the voice has
    /// finished.
    pub fn note_off(&mut self)
        requires
            old(self).inv(),
        ensures
            final(self).inv(),
            final(self)@.note is None,
            !final(self)@.amp_env.gated_spec(),
            final(self)@.amp_env.level_spec() == old(self)@.amp_env.level_spec(),
            final(self).active_spec() == old(self).active_spec(),
            final(self)@.velocity == old(self)@.velocity,
            final(self)@.osc == old(self)@.osc,
    {
        self.amp_env.gate_off();
        self.note = None;
    }

    /// Generates and returns the next audio sample.
    ///
    /// Advances the tone generator and the envelope by exactly one sample
    /// each and returns the generator's amplitude scaled by the envelope
    /// level and the velocity; an inactive envelope makes the output
    /// silent. Call this once per sample in your audio processing loop.
    pub fn next_sample(&mut self) -> (sample: i64)
        requires
            old(self).inv(),
        ensures
            final(self).inv(),
            final(self)@.note == old(self)@.note,
            final(self)@.velocity == old(self)@.velocity,
            -LEVEL_UNIT <= sample <= LEVEL_UNIT,
            sample as int == final(self).output_spec(),
            !final(self).active_spec() ==> sample == 0,
    {
        let osc_out = self.osc.next_sample();
        let env_out = self.amp_env.next_sample();
        proof {
            assert((env_out as int) * (self.velocity as int) <= 1_000_000_000_000 && 0 <= (
            env_out as int) * (self.velocity as int)) by (nonlinear_arith)
                requires
                    0 <= env_out as int <= 1_000_000,
                    0 <= self.velocity as int <= 1_000_000,
            ;
        }
        let gain: u64 = (env_out as u64) * (self.velocity as u64) / (LEVEL_UNIT as u64);
        proof {
            assert(gain as int == (env_out as int) * (self.velocity as int) / (LEVEL_UNIT as int)
                && gain as int <= LEVEL_UNIT) by (nonlinear_arith)
                requires
                    0 <= env_out as int <= 1_000_000,
                    0 <= self.velocity as int <= 1_000_000,
                    LEVEL_UNIT == 1_000_000,
                    gain as int == (env_out as int) * (self.velocity as int) / (LEVEL_UNIT as int),
            ;
        }
        let mag: u64 = if osc_out >= 0 {
            osc_out as u64
        } else {
            (-osc_out) as u64
        };
        proof {
            assert(0 <= (mag as int) * (gain as int) <= 1_000_000_000_000 && (mag as int) * (
            gain as int) / (LEVEL_UNIT as int) <= LEVEL_UNIT) by (nonlinear_arith)
                requires
                    0 <= mag as int <= 1_000_000,
                    0 <= gain as int <= 1_000_000,
                    LEVEL_UNIT == 1_000_000,
            ;
        }
        let scaled: u64 = mag * gain / (LEVEL_UNIT as u64);
        proof {
            if env_out == 0 {
                assert(gain as int == 0 && scaled as int == 0) by (nonlinear_arith)
                    requires
                        env_out as int == 0,
                        gain as int == (env_out as int) * (self.velocity as int) / (
                        LEVEL_UNIT as int),
                        scaled as int == (mag as int) * (gain as int) / (LEVEL_UNIT as int),
                        LEVEL_UNIT == 1_000_000,
                ;
            }
        }
        if osc_out >= 0 {
            scaled as i64
        } else {
            -(scaled as i64)
        }
    }

    /// Returns `true` if the voice is currently producing sound.
    ///
    /// A voice is active from `note_on` until the envelope finishes its
    /// release phase. Use this to determine when a voice can be reused for a
    /// new note.
    pub fn is_active(&self) -> (r: bool)
        requires
            self.inv(),
        ensures
            r == self.active_spec(),
    {
        self.amp_env.is_active()
    }

    /// Resets the voice to its initial idle state.
    ///
    /// Stops any sound immediately without going through the release phase.
    /// Useful for voice stealing or panic/all-notes-off handling.
    pub fn reset(&mut self)
        requires
            old(self).inv(),
        ensures
            final(self).inv(),
            final(self)@.note is None,
            final(self)@.velocity == 0,
            !final(self).active_spec(),
            !final(self)@.amp_env.gated_spec(),
            final(self)@.amp_env.level_spec() == 0,
            final(self)@.osc.pitch_spec() is None,
    {
        self.amp_env.reset();
        self.osc.reset();
        self.velocity = 0;
        self.note = None;
    }

    /// Returns the currently playing MIDI note, or `None` if idle.
    pub fn note(&self) -> (r: Option<u8>)
        ensures
            r == self@.note,
    {
        self.note
    }

    /// Returns the current velocity (`0` to [`LEVEL_UNIT`]).
    pub fn velocity(&self) -> (r: i64)
        ensures
            r as int == self@.velocity,
    {
        self.velocity
    }

    /// Returns a reference to the tone generator.
    pub fn osc(&self) -> (r: &O)
        ensures
            *r == self@.osc,
    {
        &self.osc
    }

    /// Returns a mutable reference to the tone generator.
    ///
    /// Use this to change waveform or other generator parameters in
    /// real-time.
    pub fn osc_mut(&mut self) -> (r: &mut O)
        ensures
            *r == old(self)@.osc,
            final(self)@.osc == *final(r),
            final(self)@.amp_env == old(self)@.amp_env,
            final(self)@.velocity == old(self)@.velocity,
            final(self)@.note == old(self)@.note,
    {
        &mut self.osc
    }

    /// Returns a reference to the amplitude envelope.
    pub fn amp_env(&self) -> (r: &E)
        ensures
            *r == self@.amp_env,
    {
        &self.amp_env
    }

    /// Returns a mutable reference to the amplitude envelope.
    ///
    /// Use this to change ADSR parameters in real-time.
    pub fn amp_env_mut(&mut self) -> (r: &mut E)
        ensures
            *r == old(self)@.amp_env,
            final(self)@.amp_env == *final(r),
            final(self)@.osc == old(self)@.osc,
            final(self)@.velocity == old(self)@.velocity,
            final(self)@.note == old(self)@.note,
    {
        &mut self.amp_env
    }
}

} // verus!
