//! Turns live machine telemetry into deterministic musical control data.
//!
//! The crate covers the telemetry-to-music pipeline and the playback-control
//! state machine:
//!
//! - [`metrics`] holds the snapshot type, counter-rate computation and the
//!   smoothing of several raw samples into one stable snapshot;
//! - [`sensors`] holds the per-domain sensor conversions (GPU, battery, fans,
//!   top processes) from raw readouts to snapshot fields, and the lazy
//!   per-domain lifecycle;
//! - [`scales`] holds the fixed pitch tables the mapper draws notes from;
//! - [`mapper`] derives the musical parameter set from one snapshot;
//! - [`playback`] holds the playback commands, events and the worker state
//!   machine that drives an external audio engine.
//!
//! All continuous quantities are carried as scaled integers: percentages in
//! hundredths of a percent, temperatures in hundredths of a degree Celsius,
//! frequencies and tempos in hundredths of a hertz or BPM, and unit-interval
//! amounts (densities, mix levels) in thousandths. Sensor access, audio
//! output and every other effect stay outside this crate; callers hand in
//! plain values and get plain values back.

pub mod mapper;
pub mod metrics;
pub mod playback;
pub mod scales;
pub mod sensors;
