use soundlab::envelope::{AdsrStage, LinearAdsr, LEVEL_UNIT};
use soundlab::voice::{NoteError, Oscillator, Voice};

/// A deterministic tone generator for tests: it always produces the same
/// amplitude and records what it was asked to do.
struct TestOsc {
    amp: i64,
    frequency_hz: f64,
    samples_produced: u32,
    resets: u32,
}

impl TestOsc {
    fn new(amp: i64) -> Self {
        TestOsc { amp, frequency_hz: 0.0, samples_produced: 0, resets: 0 }
    }
}

impl Oscillator for TestOsc {
    fn set_frequency(&mut self, pitch: pitchy::Pitch) {
        self.frequency_hz = pitch.frequency();
    }

    fn reset(&mut self) {
        self.resets += 1;
        self.frequency_hz = 0.0;
    }

    fn next_sample(&mut self) -> i64 {
        self.samples_produced += 1;
        self.amp
    }
}

fn test_voice(amp: i64) -> Voice<TestOsc, LinearAdsr> {
    // sample_rate 10 Hz with 100 ms stages: every rate is one full range per
    // sample, so levels take exact, easily predicted values.
    Voice::new(TestOsc::new(amp), LinearAdsr::new(10, 100, 100, 500_000, 100))
}

#[test]
fn invalid_note_fails_and_leaves_voice_unchanged() {
    let mut voice = test_voice(LEVEL_UNIT);
    let result = voice.try_note_on(200, 800_000);
    assert_eq!(result, Err(NoteError::InvalidMidiNote(200)));
    assert_eq!(voice.note(), None);
    assert_eq!(voice.velocity(), 0);
    assert_eq!(voice.amp_env().stage(), AdsrStage::Idle);
    assert!(!voice.is_active());
    assert_eq!(voice.osc().frequency_hz, 0.0);
}

#[test]
fn invalid_note_is_a_silent_no_op_on_the_convenience_entry() {
    let mut voice = test_voice(LEVEL_UNIT);
    voice.note_on(128, 800_000);
    assert_eq!(voice.note(), None);
    assert_eq!(voice.velocity(), 0);
    assert_eq!(voice.amp_env().stage(), AdsrStage::Idle);
    assert!(!voice.is_active());
}

#[test]
fn note_on_stores_note_velocity_and_triggers_envelope() {
    let mut voice = test_voice(LEVEL_UNIT);
    assert_eq!(voice.try_note_on(69, 800_000), Ok(()));
    assert_eq!(voice.note(), Some(69));
    assert_eq!(voice.velocity(), 800_000);
    assert!(voice.is_active());
    assert_eq!(voice.amp_env().stage(), AdsrStage::Attack);
    // MIDI note 69 is A4: the pitch conversion must hand the generator
    // 440 Hz, not the note number.
    assert!((voice.osc().frequency_hz - 440.0).abs() < 1e-9);
}

#[test]
fn note_boundaries_follow_the_midi_range() {
    let mut voice = test_voice(LEVEL_UNIT);
    assert!(voice.try_note_on(127, 500_000).is_ok());
    assert!(voice.try_note_on(128, 500_000).is_err());
    assert!(voice.try_note_on(0, 500_000).is_ok());
}

#[test]
fn velocity_is_clamped_into_range() {
    let mut voice = test_voice(LEVEL_UNIT);
    voice.note_on(60, 2 * LEVEL_UNIT);
    assert_eq!(voice.velocity(), LEVEL_UNIT);
    voice.note_on(60, -10);
    assert_eq!(voice.velocity(), 0);
}

#[test]
fn next_sample_scales_generator_by_envelope_and_velocity() {
    let mut voice = test_voice(500_000);
    voice.note_on(60, 500_000);
    // First sample: envelope attacks to full level, so the output is
    // amp * velocity scaled: 500_000 * 500_000 / LEVEL_UNIT = 250_000.
    assert_eq!(voice.next_sample(), 250_000);
    // Second sample: envelope decays to sustain (half), halving the output.
    assert_eq!(voice.next_sample(), 125_000);
}

#[test]
fn next_sample_keeps_the_sign_of_the_generator() {
    let mut voice = test_voice(-500_000);
    voice.note_on(60, LEVEL_UNIT);
    assert_eq!(voice.next_sample(), -500_000);
    assert_eq!(voice.next_sample(), -250_000);
}

#[test]
fn idle_voice_outputs_silence() {
    let mut voice = test_voice(LEVEL_UNIT);
    assert_eq!(voice.next_sample(), 0);
    assert_eq!(voice.osc().samples_produced, 1);
}

#[test]
fn note_off_clears_note_but_keeps_the_release_tail_audible() {
    let mut voice = test_voice(LEVEL_UNIT);
    voice.note_on(60, LEVEL_UNIT);
    voice.next_sample();
    voice.next_sample();
    voice.note_off();
    assert_eq!(voice.note(), None);
    assert!(voice.is_active());
    assert_eq!(voice.amp_env().stage(), AdsrStage::Release);
    // Releasing keeps the current level; only later samples ramp it down.
    assert_eq!(voice.amp_env().level(), 500_000);
    assert_eq!(voice.velocity(), LEVEL_UNIT);
    // The release tail still produces sound until the envelope goes idle.
    assert_eq!(voice.next_sample(), 0);
    assert!(!voice.is_active());
}

#[test]
fn reset_silences_immediately_and_resets_the_generator() {
    let mut voice = test_voice(LEVEL_UNIT);
    voice.note_on(60, LEVEL_UNIT);
    voice.next_sample();
    voice.reset();
    assert_eq!(voice.note(), None);
    assert_eq!(voice.velocity(), 0);
    assert!(!voice.is_active());
    assert_eq!(voice.amp_env().stage(), AdsrStage::Idle);
    assert_eq!(voice.amp_env().level(), 0);
    assert_eq!(voice.osc().resets, 1);
}

#[test]
fn component_accessors_allow_live_edits() {
    let mut voice = test_voice(LEVEL_UNIT);
    voice.amp_env_mut().set_attack(42);
    assert_eq!(voice.amp_env().attack(), 42);
    voice.osc_mut().amp = 123;
    assert_eq!(voice.osc().amp, 123);
}
