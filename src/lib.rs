//! Decision logic of a battery-powered sensor beacon: a long-press detector
//! for the button, the fixed table of exposed data points with their read and
//! write paths, the per-connection subscription flag, the per-iteration steps
//! of a connected session and the supervisor that restarts sessions.

pub mod attributes;
pub mod debounce;
pub mod session;
pub mod supervisor;
