use vstd::prelude::*;

use crate::envelope::{clamp_level, level_clamped, AdsrStage, Envelope, LEVEL_UNIT};

verus! {

/// Minimum time in milliseconds for attack, decay, and release; flooring
/// times here keeps every derived rate denominator non-zero.
const MIN_TIME_MS: u32 = 1;

/// Milliseconds per second, used when deriving per-sample rates from
/// millisecond time parameters.
pub const MS_PER_SECOND: i64 = 1000;

/// A requested time floored to the minimum of [`MIN_TIME_MS`] milliseconds.
pub open spec fn time_floored(ms: int) -> int {
    if ms < 1 {
        1
    } else {
        ms
    }
}

/// The per-sample rate, in level units, derived from a time parameter:
/// the rate needed to traverse the entire `[0, LEVEL_UNIT]` range in
/// `time_ms` milliseconds at `sample_rate` samples per second, floored to
/// `1` so that rates are always strictly positive.
pub open spec fn rate_for(time_ms: int, sample_rate: int) -> int
    recommends
        time_ms >= 1,
        sample_rate >= 1,
{
    let q = (LEVEL_UNIT * MS_PER_SECOND) / (time_ms * sample_rate);
    if q < 1 {
        1
    } else {
        q
    }
}

/// The mathematical model of a [`LinearAdsr`]: its configured parameters,
/// derived rates, and current stage and level.
pub struct AdsrView {
    pub sample_rate: int,
    pub attack_ms: int,
    pub decay_ms: int,
    pub sustain: int,
    pub release_ms: int,
    pub attack_rate: int,
    pub decay_rate: int,
    pub release_rate: int,
    pub stage: AdsrStage,
    pub level: int,
    pub retrigger: bool,
}

impl AdsrView {
    /// Well-formedness: parameters in range, rates strictly positive and
    /// derived from the stored times, level within `[0, LEVEL_UNIT]`, and a
    /// silent level whenever the envelope is idle.
    pub open spec fn wf(self) -> bool {
        &&& 1 <= self.sample_rate <= u32::MAX
        &&& 1 <= self.attack_ms <= u32::MAX
        &&& 1 <= self.decay_ms <= u32::MAX
        &&& 1 <= self.release_ms <= u32::MAX
        &&& 0 <= self.sustain <= LEVEL_UNIT
        &&& self.attack_rate == rate_for(self.attack_ms, self.sample_rate)
        &&& self.decay_rate == rate_for(self.decay_ms, self.sample_rate)
        &&& self.release_rate == rate_for(self.release_ms, self.sample_rate)
        &&& 1 <= self.attack_rate <= LEVEL_UNIT * MS_PER_SECOND
        &&& 1 <= self.decay_rate <= LEVEL_UNIT * MS_PER_SECOND
        &&& 1 <= self.release_rate <= LEVEL_UNIT * MS_PER_SECOND
        &&& 0 <= self.level <= LEVEL_UNIT
        &&& (self.stage is Idle ==> self.level == 0)
    }

    /// The state produced by constructing an envelope from the given
    /// parameters: times floored, sustain clamped, rates derived, and the
    /// envelope idle and silent with retrigger enabled.
    pub open spec fn of_params(
        sample_rate: int,
        attack_ms: int,
        decay_ms: int,
        sustain: int,
        release_ms: int,
    ) -> AdsrView {
        let a = time_floored(attack_ms);
        let d = time_floored(decay_ms);
        let r = time_floored(release_ms);
        AdsrView {
            sample_rate,
            attack_ms: a,
            decay_ms: d,
            sustain: level_clamped(sustain),
            release_ms: r,
            attack_rate: rate_for(a, sample_rate),
            decay_rate: rate_for(d, sample_rate),
            release_rate: rate_for(r, sample_rate),
            stage: AdsrStage::Idle,
            level: 0,
            retrigger: true,
        }
    }

    /// The state after a gate-on event: with retrigger the level restarts
    /// from silence; the next stage is `Attack` unless the level already sits
    /// at the maximum, in which case attack is skipped and decay begins.
    pub open spec fn gate_on_spec(self) -> AdsrView {
        let lvl = if self.retrigger {
            0
        } else {
            self.level
        };
        AdsrView {
            level: lvl,
            stage: if lvl >= LEVEL_UNIT {
                AdsrStage::Decay
            } else {
                AdsrStage::Attack
            },
            ..self
        }
    }

    /// The state after a gate-off event: any non-idle stage moves to
    /// `Release`; an idle envelope is left untouched.
    pub open spec fn gate_off_spec(self) -> AdsrView {
        if self.stage is Idle {
            self
        } else {
            AdsrView { stage: AdsrStage::Release, ..self }
        }
    }

    /// The state after advancing by exactly one sample: the level moves by
    /// the stage's rate and is clamped at the stage boundary, transitioning
    /// `Attack -> Decay` at full level, `Decay -> Sustain` at the sustain
    /// level, and `Release -> Idle` at silence.
    pub open spec fn next_sample_spec(self) -> AdsrView {
        match self.stage {
            AdsrStage::Idle => self,
            AdsrStage::Attack => {
                if self.level + self.attack_rate >= LEVEL_UNIT {
                    AdsrView { level: LEVEL_UNIT as int, stage: AdsrStage::Decay, ..self }
                } else {
                    AdsrView { level: self.level + self.attack_rate, ..self }
                }
            },
            AdsrStage::Decay => {
                if self.level - self.decay_rate <= self.sustain {
                    AdsrView { level: self.sustain, stage: AdsrStage::Sustain, ..self }
                } else {
                    AdsrView { level: self.level - self.decay_rate, ..self }
                }
            },
            AdsrStage::Sustain => self,
            AdsrStage::Release => {
                if self.level - self.release_rate <= 0 {
                    AdsrView { level: 0, stage: AdsrStage::Idle, ..self }
                } else {
                    AdsrView { level: self.level - self.release_rate, ..self }
                }
            },
        }
    }
}

/// Linear ADSR (Attack, Decay, Sustain, Release) envelope generator.
///
/// Attempts to traverse from one level to the next in a straight line over
/// time. The output ranges from `0` (silent) to [`LEVEL_UNIT`] (full
/// amplitude), and time parameters are given in milliseconds.
///
/// # Timing behavior
///
/// The time parameters represent the duration to traverse the full `0` to
/// [`LEVEL_UNIT`] range:
/// - **Attack**: time to ramp from silence to full level
/// - **Decay**: time to ramp from full level to silence (not to sustain)
/// - **Release**: time to ramp from full level to silence (not from the
///   current level)
///
/// This means actual decay/release durations depend on the distance
/// traveled. For example, with sustain at 80% of full level, decay only
/// covers 20% of the range, so it completes in 20% of the decay time
/// parameter. This is intentional and part of the contract.
pub struct LinearAdsr {
    sample_rate: u32,
    attack_ms: u32,
    decay_ms: u32,
    sustain: i64,
    release_ms: u32,
    attack_rate: i64,
    decay_rate: i64,
    release_rate: i64,
    stage: AdsrStage,
    level: i64,
    retrigger: bool,
}

impl View for LinearAdsr {
    type V = AdsrView;

    closed spec fn view(&self) -> AdsrView {
        AdsrView {
            sample_rate: self.sample_rate as int,
            attack_ms: self.attack_ms as int,
            decay_ms: self.decay_ms as int,
            sustain: self.sustain as int,
            release_ms: self.release_ms as int,
            attack_rate: self.attack_rate as int,
            decay_rate: self.decay_rate as int,
            release_rate: self.release_rate as int,
            stage: self.stage,
            level: self.level as int,
            retrigger: self.retrigger,
        }
    }
}

/// Floors a requested time to the minimum of [`MIN_TIME_MS`] milliseconds.
fn floor_time(ms: u32) -> (r: u32)
    ensures
        r as int == time_floored(ms as int),
{
    if ms < MIN_TIME_MS {
        MIN_TIME_MS
    } else {
        ms
    }
}

/// Derives the per-sample rate for one stage from its floored time.
fn derive_rate(time_ms: u32, sample_rate: u32) -> (r: i64)
    requires
        time_ms >= 1,
        sample_rate >= 1,
    ensures
        r as int == rate_for(time_ms as int, sample_rate as int),
        1 <= r <= LEVEL_UNIT * MS_PER_SECOND,
{
    let t = time_ms as u64;
    let sr = sample_rate as u64;
    proof {
        assert((t as int) * (sr as int) <= 0xFFFF_FFFF * 0xFFFF_FFFF && 1 <= (t as int) * (
        sr as int)) by (nonlinear_arith)
            requires
                1 <= t as int <= 0xFFFF_FFFF,
                1 <= sr as int <= 0xFFFF_FFFF,
        ;
    }
    let denom: u64 = t * sr;
    let raw: u64 = 1_000_000_000u64 / denom;
    proof {
        assert(raw as int <= 1_000_000_000) by (nonlinear_arith)
            requires
                denom as int >= 1,
                raw as int == 1_000_000_000int / (denom as int),
        ;
    }
    if raw < 1 {
        1
    } else {
        raw as i64
    }
}

impl LinearAdsr {
    /// Creates a new linear ADSR envelope.
    ///
    /// # Arguments
    ///
    /// * `sample_rate` - Sample rate in Hz (e.g., 44100)
    /// * `attack_ms` - Attack time in milliseconds
    /// * `decay_ms` - Decay time in milliseconds
    /// * `sustain` - Sustain level from `0` to [`LEVEL_UNIT`]
    /// * `release_ms` - Release time in milliseconds
    ///
    /// Time values are floored to a minimum of 1 ms so that no derived rate
    /// is zero. Sustain is clamped into the `[0, LEVEL_UNIT]` range.
    pub fn new(sample_rate: u32, attack_ms: u32, decay_ms: u32, sustain: i64, release_ms: u32) -> (
        env: LinearAdsr)
        requires
            sample_rate >= 1,
        ensures
            env@ == AdsrView::of_params(
                sample_rate as int,
                attack_ms as int,
                decay_ms as int,
                sustain as int,
                release_ms as int,
            ),
            env@.wf(),
    {
        let attack_ms = floor_time(attack_ms);
        let decay_ms = floor_time(decay_ms);
        let release_ms = floor_time(release_ms);
        LinearAdsr {
            sample_rate,
            attack_ms,
            decay_ms,
            sustain: clamp_level(sustain),
            release_ms,
            attack_rate: derive_rate(attack_ms, sample_rate),
            decay_rate: derive_rate(decay_ms, sample_rate),
            release_rate: derive_rate(release_ms, sample_rate),
            stage: AdsrStage::Idle,
            level: 0,
            retrigger: true,
        }
    }

    /// Creates a pad preset with slow attack and long release.
    pub fn pad(sample_rate: u32) -> (env: LinearAdsr)
        requires
            sample_rate >= 1,
        ensures
            env@ == AdsrView::of_params(sample_rate as int, 10, 100, 700_000, 300),
            env@.wf(),
    {
        Self::new(sample_rate, 10, 100, 700_000, 300)
    }

    /// Creates a pluck preset with instant attack and no sustain.
    pub fn pluck(sample_rate: u32) -> (env: LinearAdsr)
        requires
            sample_rate >= 1,
        ensures
            env@ == AdsrView::of_params(sample_rate as int, 1, 300, 0, 100),
            env@.wf(),
    {
        Self::new(sample_rate, 1, 300, 0, 100)
    }

    /// Creates a percussion preset with instant attack and fast decay.
    pub fn percussion(sample_rate: u32) -> (env: LinearAdsr)
        requires
            sample_rate >= 1,
        ensures
            env@ == AdsrView::of_params(sample_rate as int, 1, 100, 0, 50),
            env@.wf(),
    {
        Self::new(sample_rate, 1, 100, 0, 50)
    }

    /// Sets the attack time in milliseconds, flooring it to 1 ms and
    /// recomputing the attack rate; stage and level are untouched.
    pub fn set_attack(&mut self, ms: u32)
        requires
            old(self)@.wf(),
        ensures
            final(self)@ == (AdsrView {
                attack_ms: time_floored(ms as int),
                attack_rate: rate_for(time_floored(ms as int), old(self)@.sample_rate),
                ..old(self)@
            }),
            final(self)@.wf(),
    {
        self.attack_ms = floor_time(ms);
        self.attack_rate = derive_rate(self.attack_ms, self.sample_rate);
    }

    /// Sets the decay time in milliseconds, flooring it to 1 ms and
    /// recomputing the decay rate; stage and level are untouched.
    pub fn set_decay(&mut self, ms: u32)
        requires
            old(self)@.wf(),
        ensures
            final(self)@ == (AdsrView {
                decay_ms: time_floored(ms as int),
                decay_rate: rate_for(time_floored(ms as int), old(self)@.sample_rate),
                ..old(self)@
            }),
            final(self)@.wf(),
    {
        self.decay_ms = floor_time(ms);
        self.decay_rate = derive_rate(self.decay_ms, self.sample_rate);
    }

    /// Sets the sustain level, clamped into `[0, LEVEL_UNIT]`.
    pub fn set_sustain(&mut self, level: i64)
        requires
            old(self)@.wf(),
        ensures
            final(self)@ == (AdsrView { sustain: level_clamped(level as int), ..old(self)@ }),
            final(self)@.wf(),
    {
        self.sustain = clamp_level(level);
    }

    /// Sets the release time in milliseconds, flooring it to 1 ms and
    /// recomputing the release rate; stage and level are untouched.
    pub fn set_release(&mut self, ms: u32)
        requires
            old(self)@.wf(),
        ensures
            final(self)@ == (AdsrView {
                release_ms: time_floored(ms as int),
                release_rate: rate_for(time_floored(ms as int), old(self)@.sample_rate),
                ..old(self)@
            }),
            final(self)@.wf(),
    {
        self.release_ms = floor_time(ms);
        self.release_rate = derive_rate(self.release_ms, self.sample_rate);
    }

    /// Returns the attack time in milliseconds.
    pub fn attack(&self) -> (r: u32)
        ensures
            r as int == self@.attack_ms,
    {
        self.attack_ms
    }

    /// Returns the decay time in milliseconds.
    pub fn decay(&self) -> (r: u32)
        ensures
            r as int == self@.decay_ms,
    {
        self.decay_ms
    }

    /// Returns the sustain level.
    pub fn sustain(&self) -> (r: i64)
        ensures
            r as int == self@.sustain,
    {
        self.sustain
    }

    /// Returns the release time in milliseconds.
    pub fn release(&self) -> (r: u32)
        ensures
            r as int == self@.release_ms,
    {
        self.release_ms
    }

    /// Returns whether retrigger mode is enabled.
    pub fn retrigger(&self) -> (r: bool)
        ensures
            r == self@.retrigger,
    {
        self.retrigger
    }

    /// Sets the retrigger behavior.
    ///
    /// When `true` (the default), `gate_on` resets the level to zero before
    /// starting attack. When `false`, the envelope continues from its current
    /// level (legato behavior).
    pub fn set_retrigger(&mut self, retrigger: bool)
        ensures
            final(self)@ == (AdsrView { retrigger, ..old(self)@ }),
    {
        self.retrigger = retrigger;
    }

    /// Returns the current envelope stage.
    pub fn stage(&self) -> (r: AdsrStage)
        ensures
            r == self@.stage,
    {
        self.stage
    }

    /// Returns the current envelope level (`0` to [`LEVEL_UNIT`]).
    pub fn level(&self) -> (r: i64)
        ensures
            r as int == self@.level,
    {
        self.level
    }
}

/// The level of a well-formed linear ADSR envelope always lies within
/// `[0, LEVEL_UNIT]`: constructors establish well-formedness and every gate
/// event and per-sample advance preserves it.
pub proof fn lemma_level_bounded(env: LinearAdsr)
    requires
        env@.wf(),
    ensures
        0 <= env@.level <= LEVEL_UNIT,
{
}

impl Envelope for LinearAdsr {
    open spec fn inv(&self) -> bool {
        self@.wf()
    }

    open spec fn level_spec(&self) -> int {
        self@.level
    }

    open spec fn active_spec(&self) -> bool {
        !(self@.stage is Idle)
    }

    open spec fn gated_spec(&self) -> bool {
        self@.stage is Attack || self@.stage is Decay || self@.stage is Sustain
    }

    fn gate_on(&mut self)
        ensures
            final(self)@ == old(self)@.gate_on_spec(),
    {
        if self.retrigger {
            self.level = 0;
        }
        self.stage = if self.level >= LEVEL_UNIT {
            AdsrStage::Decay
        } else {
            AdsrStage::Attack
        };
    }

    fn gate_off(&mut self)
        ensures
            final(self)@ == old(self)@.gate_off_spec(),
    {
        if self.stage != AdsrStage::Idle {
            self.stage = AdsrStage::Release;
        }
    }

    fn next_sample(&mut self) -> (level: i64)
        ensures
            final(self)@ == old(self)@.next_sample_spec(),
    {
        match self.stage {
            AdsrStage::Idle => {},
            AdsrStage::Attack => {
                self.level = self.level + self.attack_rate;
                if self.level >= LEVEL_UNIT {
                    self.level = LEVEL_UNIT;
                    self.stage = AdsrStage::Decay;
                }
            },
            AdsrStage::Decay => {
                self.level = self.level - self.decay_rate;
                if self.level <= self.sustain {
                    self.level = self.sustain;
                    self.stage = AdsrStage::Sustain;
                }
            },
            AdsrStage::Sustain => {},
            AdsrStage::Release => {
                self.level = self.level - self.release_rate;
                if self.level <= 0 {
                    self.level = 0;
                    self.stage = AdsrStage::Idle;
                }
            },
        }
        self.level
    }

    fn is_active(&self) -> (r: bool)
    {
        self.stage != AdsrStage::Idle
    }

    fn reset(&mut self)
        ensures
            final(self)@ == (AdsrView { level: 0, stage: AdsrStage::Idle, ..old(self)@ }),
    {
        self.level = 0;
        self.stage = AdsrStage::Idle;
    }
}

} // verus!
