//! Envelope generators for amplitude shaping.
//!
//! An envelope controls how a sound's amplitude changes over time. Levels are
//! fixed-point integers: `0` is silence and [`LEVEL_UNIT`] is full amplitude.

mod linear_adsr;

pub use linear_adsr::{rate_for, time_floored, AdsrView, LinearAdsr, MS_PER_SECOND};

use vstd::prelude::*;

verus! {

/// Full amplitude in fixed-point level units; `0` is silence.
pub const LEVEL_UNIT: i64 = 1_000_000;

/// A value clamped into the valid level range `[0, LEVEL_UNIT]`.
pub open spec fn level_clamped(v: int) -> int {
    if v < 0 {
        0
    } else if v > LEVEL_UNIT {
        LEVEL_UNIT as int
    } else {
        v
    }
}

/// Clamps a value into the valid level range `[0, LEVEL_UNIT]`.
pub fn clamp_level(v: i64) -> (r: i64)
    ensures
        r as int == level_clamped(v as int),
{
    if v < 0 {
        0
    } else if v > LEVEL_UNIT {
        LEVEL_UNIT
    } else {
        v
    }
}

/// Trait for envelope generators.
///
/// An envelope is triggered and released by gate events and produces one
/// level per sample, in the `0` to [`LEVEL_UNIT`] range. A verified
/// implementation overrides the model functions with its own state model:
/// a well-formedness predicate (`inv`), the level of the sample it most
/// recently produced (`level_spec`), whether it is currently producing
/// non-silent output (`active_spec`), and whether its gate is held down
/// (`gated_spec`, raised by `gate_on`, dropped by `gate_off`, and never
/// changed by advancing samples). An implementation written outside the
/// verifier can keep the defaults, in which case nothing it does is checked
/// against them.
pub trait Envelope: Sized {
    /// Well-formedness of the generator's internal state; constructors
    /// establish it and every operation preserves it.
    open spec fn inv(&self) -> bool {
        true
    }

    /// The level most recently produced, in `[0, LEVEL_UNIT]`.
    open spec fn level_spec(&self) -> int {
        0
    }

    /// Whether the envelope is currently producing non-zero output.
    open spec fn active_spec(&self) -> bool {
        false
    }

    /// Whether this envelope's gate is currently on: `gate_on` turns it
    /// on, while `gate_off` and `reset` turn it off.
    open spec fn gated_spec(&self) -> bool {
        false
    }

    /// Triggers the envelope (note on).
    fn gate_on(&mut self)
        requires
            old(self).inv(),
        ensures
            final(self).inv(),
            final(self).active_spec(),
            final(self).gated_spec(),
    ;

    /// Releases the envelope (note off).
    ///
    /// Releasing drops its gate but does not cut the sound: the level is
    /// kept, and an active envelope stays active until its release tail has
    /// played out through `next_sample`.
    fn gate_off(&mut self)
        requires
            old(self).inv(),
        ensures
            final(self).inv(),
            !final(self).gated_spec(),
            final(self).level_spec() == old(self).level_spec(),
            final(self).active_spec() == old(self).active_spec(),
    ;

    /// Advances the envelope by one sample and returns the current level.
    ///
    /// Call this once per sample in your audio processing loop. Its gate
    /// state is left as it was; only `gate_on`, `gate_off` and `reset`
    /// change it.
    fn next_sample(&mut self) -> (level: i64)
        requires
            old(self).inv(),
        ensures
            final(self).inv(),
            0 <= level <= LEVEL_UNIT,
            level as int == final(self).level_spec(),
            !final(self).active_spec() ==> level == 0,
            final(self).gated_spec() == old(self).gated_spec(),
    ;

    /// Returns `true` if the envelope is currently producing non-zero output.
    fn is_active(&self) -> (r: bool)
        requires
            self.inv(),
        ensures
            r == self.active_spec(),
    ;

    /// Resets the envelope to its initial idle state, bypassing any release.
    fn reset(&mut self)
        requires
            old(self).inv(),
        ensures
            final(self).inv(),
            !final(self).active_spec(),
            !final(self).gated_spec(),
            final(self).level_spec() == 0,
    ;
}

/// The current stage of an ADSR envelope.
#[derive(Debug, PartialEq, Eq, Copy, Clone, Structural)]
pub enum AdsrStage {
    /// Envelope is inactive and outputting zero.
    Idle,
    /// Envelope is ramping up to peak level.
    Attack,
    /// Envelope is ramping down from peak to sustain level.
    Decay,
    /// Envelope is holding at sustain level.
    Sustain,
    /// Envelope is ramping down to zero after gate off.
    Release,
}

} // verus!
