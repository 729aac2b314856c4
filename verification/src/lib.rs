//! State engine and renderer of a terminal wristwatch.
//!
//! The crate models two watches, a multi-function one and a simpler one, as
//! plain data: the mode that is shown, a stopwatch, a countdown timer, a
//! backlight and the alarm settings. Every transition and every screen layout
//! is a function with a contract that Verus checks.

pub mod clock;
pub mod display;
pub mod elapsed;
pub mod input;
pub mod layout;
pub mod settings;
pub mod text;
pub mod time;
pub mod watch;
