//! A digital audio filtering engine: a second-order recursive ("biquad")
//! filter with eight selectable response shapes, and an equalizer that chains
//! an ordered list of such filters into one signal path.
//!
//! Samples, frequencies and coefficients are IEEE 754 binary64 values carried
//! as their 64-bit patterns (`u64`), so that every step of the signal path can
//! be verified. The module [`fbits`] holds the arithmetic on those patterns.

pub mod biquad;
pub mod equalizer;
pub mod fbits;
