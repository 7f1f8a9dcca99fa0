//! A library that colors streams of text with rainbow or pride-flag
//! gradients, emitting ANSI terminal escape sequences around each visible
//! character while leaving escape sequences already present in the input
//! untouched.
//!
//! All angles and blend fractions are fixed-point integers, so every part
//! of the color computation is verified: a full turn of the color wheel is
//! `angle::FULL_TURN` angle units, and fractions (frequencies, blend
//! balance, the sine wave) are scaled by `angle::SCALE`.

pub mod angle;
pub mod color;
pub mod colorize;
pub mod palette;
pub mod scanner;
