//! Verified core of a clock that turns time-stamp-counter readings into
//! nanoseconds since the Unix epoch.

pub mod calibration;
pub mod dispatch;
pub mod probe;
pub mod reader;
pub mod sampler;
pub mod store;
pub mod wall;

pub use calibration::{Calibration, CalibrationStep};
pub use dispatch::{calibrate, finish_init, init, is_enabled, unix_nano, Dispatch, NowImpl, Phase};
pub use probe::{enable_tsc, has_invariant_tsc, is_system_clock_source_tsc, Probe};
pub use reader::unix_nano_tsc;
pub use sampler::{get_closest_tsc_sys, is_even};
pub use store::{load_offset_coeff, store_offset_coeff, OffsetCoeff};
pub use wall::{nanos_since_epoch, unix_nano_std};
