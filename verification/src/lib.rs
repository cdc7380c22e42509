//! Building blocks for software synthesizers: amplitude envelopes, a
//! single-note voice coupling a tone generator to an envelope, and a
//! fixed-capacity polyphonic voice allocator with voice stealing.
//!
//! All levels, velocities and audio samples are fixed-point integers:
//! `envelope::LEVEL_UNIT` stands for full amplitude (`1.0`), `0` for silence,
//! and a tone generator swings between `-LEVEL_UNIT` and `LEVEL_UNIT`.
//! Time parameters are given in milliseconds.
//!
//! # Modules
//!
//! - [`envelope`] - Envelope generators (ADSR, etc.) for amplitude shaping
//! - [`voice`] - Synthesizer voice combining oscillator and envelope
//! - [`polyphony`] - Polyphonic voice allocation and management

pub mod envelope;
pub mod voice;
pub mod polyphony;
