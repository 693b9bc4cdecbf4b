//! A resistor color-code calculator.
//!
//! A resistor's value is painted on its body as a sequence of 3 to 6 colored
//! bands. The position of each band, together with how many bands there are,
//! decides its role: significant digit, power-of-ten multiplier, tolerance,
//! or temperature coefficient. This crate decodes such a band sequence into a
//! [`ohm::Resistor`](crate::ohm::Resistor) and computes the resulting
//! resistance with its tolerance range.
//!
//! All resistance arithmetic is exact fixed-point: nominal values are held in
//! hundredths of an ohm and tolerances in hundredths of a percent, so every
//! value a resistor code can express is represented without rounding.

pub mod band;
pub mod ohm;
pub mod resistance;
