//! Descriptors for runnable objects.
//!
//! A runnable object carries its task body itself (an asynchronous
//! `run()` with no arguments); the runtime shell owns the object and
//! invokes it.  This module holds the schedule descriptor that travels
//! with such an object, under the same name.

use vstd::prelude::*;

use crate::plan::SpecMeta;

verus! {

/// A descriptor for a runnable object's schedule.
#[derive(Debug, Clone, Copy)]
pub struct RunnableTask {
    pub name: &'static str,
    pub schedule_type: &'static str,
    pub schedule_value: &'static str,
    pub initial_delay: &'static str,
    pub enabled: &'static str,
    pub time_unit: &'static str,
    pub zone: &'static str,
}

impl RunnableTask {
    /// The schedule fields of this descriptor, as the model sees them.
    pub open spec fn meta(&self) -> SpecMeta {
        SpecMeta {
            schedule_type: self.schedule_type@,
            schedule_value: self.schedule_value@,
            initial_delay: self.initial_delay@,
            enabled: self.enabled@,
            time_unit: self.time_unit@,
            zone: self.zone@,
        }
    }

    /// Starts a builder with the customary defaults: an hourly cron
    /// schedule, no initial delay, enabled, seconds, UTC.
    pub fn builder(name: &'static str) -> (r: RunnableTaskBuilder)
        ensures
            r.name@ == name@,
            r.schedule_type@ == "cron"@,
            r.schedule_value@ == "0 0 * * * *"@,
            r.initial_delay@ == "0"@,
            r.enabled@ == "true"@,
            r.time_unit@ == "seconds"@,
            r.zone@ == "UTC"@,
    {
        RunnableTaskBuilder {
            name,
            schedule_type: "cron",
            schedule_value: "0 0 * * * *",
            initial_delay: "0",
            enabled: "true",
            time_unit: "seconds",
            zone: "UTC",
        }
    }
}

/// Builder for [`RunnableTask`].
#[derive(Debug, Clone, Copy)]
pub struct RunnableTaskBuilder {
    pub name: &'static str,
    pub schedule_type: &'static str,
    pub schedule_value: &'static str,
    pub initial_delay: &'static str,
    pub enabled: &'static str,
    pub time_unit: &'static str,
    pub zone: &'static str,
}

impl RunnableTaskBuilder {
    pub fn schedule_type(self, schedule_type: &'static str) -> (r: Self)
        ensures
            r == (Self { schedule_type, ..self }),
    {
        Self { schedule_type, ..self }
    }

    pub fn schedule_value(self, schedule_value: &'static str) -> (r: Self)
        ensures
            r == (Self { schedule_value, ..self }),
    {
        Self { schedule_value, ..self }
    }

    pub fn initial_delay(self, initial_delay: &'static str) -> (r: Self)
        ensures
            r == (Self { initial_delay, ..self }),
    {
        Self { initial_delay, ..self }
    }

    pub fn enabled(self, enabled: &'static str) -> (r: Self)
        ensures
            r == (Self { enabled, ..self }),
    {
        Self { enabled, ..self }
    }

    pub fn time_unit(self, time_unit: &'static str) -> (r: Self)
        ensures
            r == (Self { time_unit, ..self }),
    {
        Self { time_unit, ..self }
    }

    pub fn zone(self, zone: &'static str) -> (r: Self)
        ensures
            r == (Self { zone, ..self }),
    {
        Self { zone, ..self }
    }

    pub fn build(self) -> (r: RunnableTask)
        ensures
            r == (RunnableTask {
                name: self.name,
                schedule_type: self.schedule_type,
                schedule_value: self.schedule_value,
                initial_delay: self.initial_delay,
                enabled: self.enabled,
                time_unit: self.time_unit,
                zone: self.zone,
            }),
    {
        RunnableTask {
            name: self.name,
            schedule_type: self.schedule_type,
            schedule_value: self.schedule_value,
            initial_delay: self.initial_delay,
            enabled: self.enabled,
            time_unit: self.time_unit,
            zone: self.zone,
        }
    }
}

} // verus!
