//! An on-screen frames-per-second readout: a pausable repeating timer decides when the
//! readout is refreshed, and a counter state turns each frame into the text to show.

pub mod timer;
pub mod counter;
pub mod laws;
