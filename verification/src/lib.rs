//! Deterministic forecasting core for Eorzean weather and ocean-voyage
//! schedules.
//!
//! The virtual game clock runs at a fixed ratio to real time: one virtual
//! hour of 3600 virtual seconds passes in 175 real seconds.  Weather in
//! each zone repeats on an 8-virtual-hour cycle and is derived from a
//! pseudo-random bit-mixing function of the virtual timestamp; ocean routes
//! repeat on a 2-real-hour cycle through a fixed 144-slot pattern.  The
//! library computes those forecasts and scans for the next or previous cycle
//! at which a named condition holds.  Reading the host clock, loading the
//! reference tables from disk and delivering notifications are left to the
//! surrounding application.

pub mod data;
pub mod datetime_eorzea;
pub mod ocean;
pub mod status;
pub mod time;
pub mod weather;
