//! The logic of a chromatic instrument tuner: note naming, the tuning state that drives the
//! display, the settings file format, the preset pitch standards, the detector's smoothing
//! window and grace hold, the colour-family choice for the wave bands, and the readout text.

pub mod haptics;
pub mod pitch;
pub mod config;
pub mod tuning;
pub mod text;
pub mod settings;
pub mod detect;
pub mod palette;
