//! Water-quality advisory engine.
//!
//! An operator enters pH, conductivity and hardness readings on a matrix
//! keypad; the device classifies each reading against fixed acceptability
//! bands, computes a corrective-dose suggestion, stores the sample, and
//! reports aggregate statistics over all stored samples on a two-line
//! character display.
//!
//! All numeric readings are carried as fixed-point integers: a reading such
//! as pH 6.5 is held as `65_000`, scaled by `10^4` (the `_e4` convention).
//! Derived quantities use finer scales where the arithmetic demands it:
//! salinity is scaled by `10^10` (`_e10`) and hydrogen-ion concentration by
//! `10^14` (`_e14`). With these scales every formula in the engine is exact
//! integer arithmetic.
//!
//! Peripheral work — keypad scanning, display writes, delays, and the one
//! floating-point conversion from a pH reading to an ion concentration —
//! stays outside this crate; the engine takes and returns plain values.

pub mod advice;
pub mod input;
pub mod quality;
pub mod render;
pub mod session;
pub mod stats;
pub mod store;
