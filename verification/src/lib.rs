//! Core engine of a fermentation-chamber climate controller.
//!
//! The library covers the logic of the controller: decoding and validating
//! the single-wire sensor protocol's 40-bit frames, screening readings for
//! plausibility under a bounded retry discipline, a fixed-point PID
//! controller with anti-windup, duty-cycle scheduling for the heater and
//! humidifier, an exclusive-access registry for the hardware pin roles, and
//! the flat-file project store's record handling.  All quantities are held
//! in integer fixed point (tenths of a degree Celsius, tenths of a percent
//! relative humidity, thousandths of a control unit), so every computation
//! here is exact and verified.  Hardware access, timing, and file I/O live
//! outside the library.

pub mod acquisition;
pub mod actuator;
pub mod climate;
pub mod duty;
pub mod errors;
pub mod history;
pub mod pid;
pub mod pins;
pub mod project_store;
pub mod reading;
pub mod routes;
pub mod sensor_link;
