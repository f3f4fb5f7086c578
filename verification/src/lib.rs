//! Cooperative, reference-counted arbitration of high-resolution timer
//! requests within one scope of a process.
//!
//! Call sites ask for a timer resolution as a duration; the request is
//! quantized into a small set of resolution classes ([`period::Period`]), the
//! outstanding requests are tallied per class ([`counter_set::PeriodSet`]),
//! and a registry ([`registry::HrTime`]) tracks the tightest outstanding
//! class, reporting a [`registry::Transition`] exactly when the
//! operating-system timer policy must change. A [`handle::HrPeriod`] stands
//! for one outstanding request; updating or releasing it mutates the
//! registry it was issued from.
//!
//! The raw platform calls themselves live outside this crate: the registry
//! hands its caller the transitions to perform.

pub mod counter_set;
pub mod handle;
pub mod period;
pub mod registry;

pub use counter_set::PeriodSet;
pub use handle::HrPeriod;
pub use period::{Period, Span};
pub use registry::{HrTime, Transition};
