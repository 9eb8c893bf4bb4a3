//! Verified core of a command-line pomodoro/interval timer.
//!
//! The library holds the parts of the timer whose behaviour is worth pinning
//! down: the session builder that sequences work and break phases, the
//! countdown engine that turns clock readings into progress and completion
//! events, the scheduler that orders phase transitions and notifications, and
//! the encoder that wraps synthesized tone samples into a playable audio
//! container. Argument parsing, terminal rendering, the wall clock and the
//! audio device live outside, in an unverified shell that feeds this library
//! plain values.

pub mod countdown;
pub mod phase;
pub mod schedule;
pub mod wav;

pub use phase::Phase;
pub use phase::PhaseKind;
pub use phase::Session;
