//! Source-filter synthesis of voiced speech: a glottal source given as
//! sinusoidal harmonics is shaped by a chain of resonant cavities and summed
//! into one composite waveform.
//!
//! Numbers enter and leave the library as IEEE 754 binary64 bit patterns.
//! Every quantity the library derives is an exact arithmetic expression over
//! those patterns, so each contract pins the formula that a numeric back end
//! has to evaluate.

pub mod error;
pub mod ieee;
pub mod expr;
pub mod waves;
pub mod source_filter;
