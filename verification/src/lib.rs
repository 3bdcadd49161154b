//! A recurring-task scheduling library.
//!
//! Descriptors declare *when* a unit of work should run: a calendar cron
//! expression, a fixed-rate interval, or a fixed-delay interval.  Schedule
//! fields may be literals, shorthand duration strings such as `"500ms"`, or
//! configuration placeholders such as `"${app.interval:5s}"`.  The library
//! validates descriptors, resolves their fields against a configuration
//! store, and turns each descriptor into a concrete timing plan; a thin
//! asynchronous shell around the library carries the plans out.

pub mod lifecycle;
pub mod plan;
pub mod resolver;
pub mod runnable;
pub mod scheduler;
pub mod store;
pub mod strutil;
pub mod task;
pub mod time_unit;
pub mod timeline;
pub mod validate;

pub use lifecycle::{Lifecycle, SchedulerState};
pub use plan::{PlanOutcome, ScheduleKind, TaskError, TaskPlan};
pub use resolver::{resolve_config_value, ConfigError};
pub use runnable::{RunnableTask, RunnableTaskBuilder};
pub use scheduler::{Scheduler, SchedulerBuilder, TaskReport};
pub use store::empty_config;
pub use task::{ScheduledMetadata, ScheduledMethodMetadata, ScheduledTask, ScheduledTaskBuilder};
pub use time_unit::TimeUnit;
pub use validate::{
    has_time_suffix, validate_config_placeholder_format, validate_positive_value,
    validate_time_suffix, ScheduleValueError,
};
