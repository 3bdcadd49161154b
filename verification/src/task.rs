//! Scheduled-task descriptors.
//!
//! A descriptor is the normalized shape of "a thing to run on a
//! schedule": a schedule type and value, initial delay, enabled flag,
//! time unit and zone, all as declared strings that may hold literals,
//! shorthand durations or configuration placeholders.  The work itself —
//! an asynchronous action with no arguments — is owned by the runtime
//! shell, which pairs it with the descriptor under the same name.

use vstd::prelude::*;

use crate::plan::SpecMeta;
use crate::time_unit::TimeUnit;

verus! {

/// A descriptor for a standalone scheduled function.
#[derive(Debug, Clone, Copy)]
pub struct ScheduledTask {
    pub name: &'static str,
    pub schedule_type: &'static str,
    pub schedule_value: &'static str,
    pub initial_delay: &'static str,
    pub enabled: &'static str,
    pub time_unit: &'static str,
    pub zone: &'static str,
}

impl ScheduledTask {
    /// The schedule fields of this descriptor, as the model sees them.
    pub open spec fn meta(&self) -> SpecMeta {
        SpecMeta {
            schedule_type: self.schedule_type@,
            schedule_value: self.schedule_value@,
            initial_delay: self.initial_delay@,
            enabled: self.enabled@,
            time_unit: self.time_unit@,
            zone: self.zone@,
        }
    }

    /// Starts a builder with the customary defaults: an hourly cron
    /// schedule, no initial delay, enabled, seconds, UTC.
    pub fn builder(name: &'static str) -> (r: ScheduledTaskBuilder)
        ensures
            r.name@ == name@,
            r.schedule_type@ == "cron"@,
            r.schedule_value@ == "0 0 * * * *"@,
            r.initial_delay@ == "0"@,
            r.enabled@ == "true"@,
            r.time_unit@ == "seconds"@,
            r.zone@ == "UTC"@,
    {
        ScheduledTaskBuilder {
            name,
            schedule_type: "cron",
            schedule_value: "0 0 * * * *",
            initial_delay: "0",
            enabled: "true",
            time_unit: "seconds",
            zone: "UTC",
        }
    }
}

/// Builder for [`ScheduledTask`].
#[derive(Debug, Clone, Copy)]
pub struct ScheduledTaskBuilder {
    pub name: &'static str,
    pub schedule_type: &'static str,
    pub schedule_value: &'static str,
    pub initial_delay: &'static str,
    pub enabled: &'static str,
    pub time_unit: &'static str,
    pub zone: &'static str,
}

impl ScheduledTaskBuilder {
    pub fn schedule_type(self, schedule_type: &'static str) -> (r: Self)
        ensures
            r == (Self { schedule_type, ..self }),
    {
        Self { schedule_type, ..self }
    }

    pub fn schedule_value(self, schedule_value: &'static str) -> (r: Self)
        ensures
            r == (Self { schedule_value, ..self }),
    {
        Self { schedule_value, ..self }
    }

    pub fn initial_delay(self, initial_delay: &'static str) -> (r: Self)
        ensures
            r == (Self { initial_delay, ..self }),
    {
        Self { initial_delay, ..self }
    }

    pub fn enabled(self, enabled: &'static str) -> (r: Self)
        ensures
            r == (Self { enabled, ..self }),
    {
        Self { enabled, ..self }
    }

    pub fn time_unit(self, time_unit: &'static str) -> (r: Self)
        ensures
            r == (Self { time_unit, ..self }),
    {
        Self { time_unit, ..self }
    }

    pub fn zone(self, zone: &'static str) -> (r: Self)
        ensures
            r == (Self { zone, ..self }),
    {
        Self { zone, ..self }
    }

    pub fn build(self) -> (r: ScheduledTask)
        ensures
            r == (ScheduledTask {
                name: self.name,
                schedule_type: self.schedule_type,
                schedule_value: self.schedule_value,
                initial_delay: self.initial_delay,
                enabled: self.enabled,
                time_unit: self.time_unit,
                zone: self.zone,
            }),
    {
        ScheduledTask {
            name: self.name,
            schedule_type: self.schedule_type,
            schedule_value: self.schedule_value,
            initial_delay: self.initial_delay,
            enabled: self.enabled,
            time_unit: self.time_unit,
            zone: self.zone,
        }
    }
}

/// Schedule metadata for a method of a registered instance.  One
/// instance may contribute many independently scheduled methods; each is
/// planned exactly like a standalone descriptor.
#[derive(Debug, Clone, Copy)]
pub struct ScheduledMethodMetadata {
    pub method_name: &'static str,
    pub schedule_type: &'static str,
    pub schedule_value: &'static str,
    pub initial_delay: &'static str,
    pub enabled: &'static str,
    pub time_unit: &'static str,
    pub zone: &'static str,
}

impl ScheduledMethodMetadata {
    /// The schedule fields of this method, as the model sees them.
    pub open spec fn meta(&self) -> SpecMeta {
        SpecMeta {
            schedule_type: self.schedule_type@,
            schedule_value: self.schedule_value@,
            initial_delay: self.initial_delay@,
            enabled: self.enabled@,
            time_unit: self.time_unit@,
            zone: self.zone@,
        }
    }
}

/// Schedule metadata carried by a type whose instances are registered
/// whole: each associated function reports one declared field.
pub trait ScheduledMetadata {
    fn schedule_type() -> &'static str;

    fn schedule_value() -> &'static str;

    fn initial_delay() -> &'static str;

    fn enabled() -> &'static str;

    fn time_unit() -> &'static str;

    fn zone() -> &'static str;

    /// The unit as an enum, when the declaration named one explicitly;
    /// `None` means the string form decides.
    fn time_unit_enum() -> Option<TimeUnit> {
        None
    }
}

} // verus!
