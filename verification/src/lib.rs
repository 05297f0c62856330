//! Register-level model of a 90-degree phase-shifted PWM synthesizer on an
//! advanced-control hardware timer.
//!
//! The library is split in three layers, leaves first:
//! - [`regmap`]: computes the address of a named timer register from a
//!   peripheral base and a logical index, with bounds checking, and models
//!   the register block itself as a window of 32-bit words;
//! - [`codec`]: typed read/modify/write views over single 32-bit register
//!   words, exposing named sub-fields instead of raw masks;
//! - [`engine`]: a one-shot configuration engine that drives the codecs and
//!   the register window through the fixed, order-dependent write sequence
//!   that combines two timer channels into a quarter-period phase-shifted
//!   output.

pub mod bits;
pub mod codec;
pub mod engine;
pub mod regmap;
