use soundlab::envelope::{AdsrStage, LinearAdsr, LEVEL_UNIT};
use soundlab::polyphony::{Polyphony, VoiceStealStrategy};
use soundlab::voice::{Oscillator, Voice};

/// A deterministic tone generator for tests: it always produces the same
/// amplitude and counts how often it was advanced.
struct PoolOsc {
    amp: i64,
    samples_produced: u32,
}

impl PoolOsc {
    fn new(amp: i64) -> Self {
        PoolOsc { amp, samples_produced: 0 }
    }
}

impl Oscillator for PoolOsc {
    fn set_frequency(&mut self, _pitch: pitchy::Pitch) {}

    fn reset(&mut self) {}

    fn next_sample(&mut self) -> i64 {
        self.samples_produced += 1;
        self.amp
    }
}

fn pool_voice(amp: i64) -> Voice<PoolOsc, LinearAdsr> {
    // sample_rate 10 Hz with 100 ms stages: each rate is one full range per
    // sample.
    Voice::new(PoolOsc::new(amp), LinearAdsr::new(10, 100, 100, 500_000, 100))
}

fn pool_of(amps: &[i64]) -> Polyphony<PoolOsc, LinearAdsr> {
    let voices = amps.iter().map(|&a| pool_voice(a)).collect();
    Polyphony::new(voices, VoiceStealStrategy::Oldest)
}

#[test]
fn default_strategy_is_oldest() {
    assert_eq!(VoiceStealStrategy::default(), VoiceStealStrategy::Oldest);
}

#[test]
fn capacity_reports_the_fixed_pool_size() {
    assert_eq!(pool_of(&[LEVEL_UNIT; 8]).capacity(), 8);
    assert_eq!(pool_of(&[]).capacity(), 0);
}

#[test]
fn factory_builds_each_voice() {
    let pool: Polyphony<PoolOsc, LinearAdsr> =
        Polyphony::from_factory(4, VoiceStealStrategy::Oldest, || pool_voice(LEVEL_UNIT));
    assert_eq!(pool.capacity(), 4);
    assert_eq!(pool.active_count(), 0);
    for voice in pool.voices() {
        assert_eq!(voice.note(), None);
    }
}

#[test]
fn single_voice_pool_steals_itself() {
    let mut pool = pool_of(&[LEVEL_UNIT]);
    pool.note_on(60, 800_000);
    assert_eq!(pool.voices()[0].note(), Some(60));
    assert_eq!(pool.active_count(), 1);
    // No free voice is left, so the second note steals the only one with no
    // release tail from the first note.
    pool.note_on(64, 800_000);
    assert_eq!(pool.voices()[0].note(), Some(64));
    assert_eq!(pool.active_count(), 1);
}

#[test]
fn notes_fill_free_voices_in_index_order_then_steal_the_oldest() {
    let mut pool = pool_of(&[LEVEL_UNIT; 3]);
    pool.note_on(60, 800_000);
    pool.note_on(64, 800_000);
    pool.note_on(67, 800_000);
    assert_eq!(pool.voices()[0].note(), Some(60));
    assert_eq!(pool.voices()[1].note(), Some(64));
    assert_eq!(pool.voices()[2].note(), Some(67));
    assert_eq!(pool.active_count(), 3);
    // A fourth note finds no free voice and steals the first note played,
    // the one with the smallest age stamp.
    pool.note_on(72, 800_000);
    assert_eq!(pool.voices()[0].note(), Some(72));
    assert_eq!(pool.voices()[1].note(), Some(64));
    assert_eq!(pool.voices()[2].note(), Some(67));
    assert_eq!(pool.active_count(), 3);
}

#[test]
fn releasing_a_note_frees_its_voice_for_reuse() {
    let mut pool = pool_of(&[LEVEL_UNIT; 2]);
    pool.note_on(60, 800_000);
    pool.note_off(60);
    assert_eq!(pool.voices()[0].note(), None);
    // The released voice is still in its release tail, so the next note
    // takes the free second voice, not the first.
    pool.note_on(64, 800_000);
    assert_eq!(pool.voices()[0].note(), None);
    assert_eq!(pool.voices()[1].note(), Some(64));
    // With both voices active the next note steals the oldest, voice 0.
    pool.note_on(67, 800_000);
    assert_eq!(pool.voices()[0].note(), Some(67));
    assert_eq!(pool.voices()[1].note(), Some(64));
}

#[test]
fn note_off_for_an_unheld_note_changes_nothing() {
    let mut pool = pool_of(&[LEVEL_UNIT; 2]);
    pool.note_on(60, 800_000);
    pool.note_off(99);
    assert_eq!(pool.voices()[0].note(), Some(60));
    assert_eq!(pool.voices()[0].velocity(), 800_000);
    assert_eq!(pool.voices()[0].amp_env().stage(), AdsrStage::Attack);
    assert_eq!(pool.voices()[1].note(), None);
    assert_eq!(pool.voices()[1].amp_env().stage(), AdsrStage::Idle);
    assert_eq!(pool.active_count(), 1);
}

#[test]
fn note_off_releases_only_the_first_match() {
    let mut pool = pool_of(&[LEVEL_UNIT; 2]);
    pool.voices_mut()[0].note_on(60, 800_000);
    pool.voices_mut()[1].note_on(60, 800_000);
    pool.note_off(60);
    assert_eq!(pool.voices()[0].note(), None);
    assert_eq!(pool.voices()[0].amp_env().stage(), AdsrStage::Release);
    assert_eq!(pool.voices()[1].note(), Some(60));
    assert_eq!(pool.voices()[1].amp_env().stage(), AdsrStage::Attack);
}

#[test]
fn next_sample_sums_exactly_the_active_voices() {
    let mut pool = pool_of(&[500_000, -200_000, LEVEL_UNIT]);
    pool.note_on(60, LEVEL_UNIT);
    pool.note_on(64, LEVEL_UNIT);
    // Two voices are active; their envelopes attack to full level on the
    // first sample, so the mix is 500_000 - 200_000. The idle third voice
    // contributes nothing and is not even advanced.
    assert_eq!(pool.next_sample(), 300_000);
    assert_eq!(pool.voices()[0].osc().samples_produced, 1);
    assert_eq!(pool.voices()[1].osc().samples_produced, 1);
    assert_eq!(pool.voices()[2].osc().samples_produced, 0);
    // On the second sample both envelopes sit at half sustain.
    assert_eq!(pool.next_sample(), 150_000);
}

#[test]
fn next_sample_of_an_idle_pool_is_silence() {
    let mut pool = pool_of(&[LEVEL_UNIT; 4]);
    assert_eq!(pool.next_sample(), 0);
    for voice in pool.voices() {
        assert_eq!(voice.osc().samples_produced, 0);
    }
}

#[test]
fn active_count_follows_note_events() {
    let mut pool = pool_of(&[LEVEL_UNIT; 3]);
    assert_eq!(pool.active_count(), 0);
    pool.note_on(60, 800_000);
    pool.note_on(64, 800_000);
    assert_eq!(pool.active_count(), 2);
    pool.note_off(60);
    // The released voice stays active through its release tail.
    assert_eq!(pool.active_count(), 2);
    pool.next_sample();
    pool.next_sample();
    pool.next_sample();
    // After three samples the released envelope has reached idle.
    assert_eq!(pool.active_count(), 1);
}

#[test]
fn reset_silences_every_voice_immediately() {
    let mut pool = pool_of(&[LEVEL_UNIT; 3]);
    pool.note_on(60, 800_000);
    pool.note_on(64, 800_000);
    pool.next_sample();
    pool.reset();
    assert_eq!(pool.active_count(), 0);
    for voice in pool.voices() {
        assert_eq!(voice.note(), None);
        assert_eq!(voice.velocity(), 0);
        assert_eq!(voice.amp_env().stage(), AdsrStage::Idle);
        assert_eq!(voice.amp_env().level(), 0);
    }
    assert_eq!(pool.next_sample(), 0);
    // After a reset the age stamps restart: notes fill from the first voice
    // again.
    pool.note_on(72, 800_000);
    assert_eq!(pool.voices()[0].note(), Some(72));
}

#[test]
fn voices_mut_allows_batch_parameter_edits() {
    let mut pool = pool_of(&[LEVEL_UNIT; 3]);
    for voice in pool.voices_mut() {
        voice.amp_env_mut().set_release(777);
    }
    for voice in pool.voices() {
        assert_eq!(voice.amp_env().release(), 777);
    }
}

#[test]
fn invalid_note_on_a_pool_stamps_but_does_not_trigger() {
    let mut pool = pool_of(&[LEVEL_UNIT; 2]);
    pool.note_on(200, 800_000);
    assert_eq!(pool.active_count(), 0);
    assert_eq!(pool.voices()[0].note(), None);
    assert_eq!(pool.voices()[1].note(), None);
}
