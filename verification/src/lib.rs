//! A time-boxed work/rest scheduler.
//!
//! Given the current moment and a target end-of-day time, the library
//! resolves the remaining duration until the target occurs today and
//! partitions it into an alternating sequence of fixed-length work and
//! rest activities, ending with an optional shorter work remainder.

pub mod clock;
pub mod model;
pub mod partition;
pub mod resolve;
pub mod schedule;

pub use model::Moment;
pub use model::ScheduleError;
pub use model::Target;
pub use partition::Activity;
pub use partition::ActivityKind;
pub use partition::Intervals;
pub use schedule::Schedule;
pub use schedule::Timetable;
pub use schedule::create_schedule;
