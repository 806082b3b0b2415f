//! Input normalization core for handheld gaming controllers: binary report
//! decoding, change detection between consecutive reports, axis
//! normalization, and threshold-crossing adaptation of analog signals.

pub mod dbus;
pub mod driver;
pub mod event;
pub mod fraction;
pub mod laws;
pub mod native;
pub mod opineo;
pub mod report;
pub mod xinput;
