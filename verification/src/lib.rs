//! A daylight detector's redstone-emission model.
//!
//! The detector turns the ambient sky illumination (time of day, rain,
//! thunder, raw sky light) into a signal strength between 0 and 15, has an
//! inverted mode that a player can toggle, and re-evaluates itself on a
//! fixed cadence.
//!
//! All quantities are integers or exact fixed-point fractions, so every
//! result is stated and proved exactly. The only thing the library asks of
//! its caller is the cosine of the angles it hands out.

pub mod fixed;
pub mod daytime;
pub mod evaluator;
pub mod state;
pub mod controller;
pub mod lifecycle;
