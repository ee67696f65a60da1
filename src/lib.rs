//! The state machine of a keyboard-driven calculator: two operands typed
//! digit by digit, one operator, a result, and a cursor that moves over an
//! irregular grid of buttons.

pub mod grid;
pub mod calculator;
pub mod input;
