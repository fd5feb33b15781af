//! Verified core of a small immediate-mode calculator.
//!
//! The calculator keeps one piece of state, the expression string. Digit and
//! operator buttons append their label to it; the "=" button hands the string
//! to an external arithmetic evaluator and replaces it with the formatted
//! result, leaving it unchanged when evaluation fails. The modules here hold
//! that click logic, the per-frame widget layout, the logical-key index table,
//! the per-frame input snapshot, and the frame loop's continue decision; the
//! windowing, rendering and event-polling glue lives outside the library.

pub mod calculator;
pub mod eval;
pub mod frame;
pub mod input;
pub mod screen;
