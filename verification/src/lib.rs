//! Pause-aware countdown timer core for a recurring break reminder.
//!
//! The library holds the logic that decides what the reminder application
//! does: the countdown state machine with its pause-precedence rules
//! ([`timer`]), the idle and sleep monitors that translate platform signals
//! into timer requests ([`monitors`]), an in-process broadcast bus that hands
//! every committed transition to its subscribers ([`bus`]), and the session
//! orchestration rules that hinge a break session on an entitlement check
//! ([`session`]), and the fixed tray texts a status maps to ([`labels`]).
//! Platform glue (windows, tray, persistence, networking) lives outside the
//! library and talks to it in plain values.

pub mod bus;
pub mod labels;
pub mod monitors;
pub mod session;
pub mod timer;
