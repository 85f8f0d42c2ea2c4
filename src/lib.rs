//! Renders one progress measurement (a current value, an optional upper bound
//! and a unit) as a line of text, with an optional percentage placed before the
//! values or after the unit.
pub mod display;
pub mod text;
pub mod unit;

pub use display::{UnitDisplay, WhatToDisplay};
pub use text::{decimal, digit_char, percentage_text, truncated_percent, write_decimal, write_percentage, Percentage};
pub use unit::{DisplayValue, Mode, Unit};
