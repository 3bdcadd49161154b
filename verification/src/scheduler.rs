//! The scheduler: descriptors plus a configuration store, planned.
//!
//! The builder collects descriptors while the scheduler is being set up;
//! `build` freezes them.  Planning resolves every descriptor's fields
//! against the store and classifies it, one report per descriptor, in
//! registration order; a failure concerns only its own descriptor.  The
//! runtime shell takes the reports and drives the cron capability and
//! the timer loops.

use vstd::prelude::*;
use vstd::string::StringExecFns;

use crate::plan::{
    plan_result_view, spec_bare_u64, spec_classify, spec_initial_delay_millis,
    spec_parse_interval, spec_plan, spec_time_unit_of, spec_zone_display, PlanOutcome,
    ScheduleKind, SpecMeta, TaskError, TaskErrorV, TaskPlan,
};
use crate::resolver::{resolve_config_value, ConfigError};
use crate::runnable::RunnableTask;
use crate::store::{config_entries, empty_config, no_entries};
use crate::strutil::{
    eq_ignore_ascii_case, lemma_digit_prefix_len_bounds, parse_digits_u64, scan_digit_prefix,
    str_eq_chars,
};
use crate::task::{ScheduledMethodMetadata, ScheduledTask};
use crate::time_unit::TimeUnit;
use crate::validate::{spec_validate_descriptor, validate_descriptor, ScheduleValueError};

verus! {

/// The outcome of planning one descriptor, under its display name.
#[derive(Debug)]
pub struct TaskReport {
    pub name: &'static str,
    pub outcome: Result<PlanOutcome, TaskError>,
}

/// A configured scheduler, ready to be planned and started.
#[derive(Debug)]
pub struct Scheduler {
    pub config: config::Config,
    pub runnable_tasks: Vec<RunnableTask>,
    pub scheduled_tasks: Vec<ScheduledTask>,
    pub method_tasks: Vec<ScheduledMethodMetadata>,
}

/// Reads a bare decimal integer; `None` when anything besides digits is
/// present or the value does not fit in 64 bits.
fn parse_bare_u64(s: &str) -> (r: Option<u64>)
    ensures
        r is Some <==> spec_bare_u64(s@) is Some,
        r is Some ==> Some(r->0 as nat) == spec_bare_u64(s@),
{
    let len = s.unicode_len();
    let n = scan_digit_prefix(s);
    if len == 0 || n < len {
        return None;
    }
    proof {
        lemma_digit_prefix_len_bounds(s@);
        assert(s@.subrange(0, len as int) =~= s@);
    }
    parse_digits_u64(s, 0, len)
}

/// Maps the resolver's error to a planning error.
fn missing_key_error(e: ConfigError) -> (r: TaskError)
    ensures
        r@ == TaskErrorV::MissingConfigKey(e->0@),
{
    match e {
        ConfigError::MissingRequiredKey(k) => TaskError::MissingConfigKey(k),
    }
}

impl Scheduler {
    /// Classifies the declared schedule type, matched exactly.
    pub fn classify(schedule_type: &str) -> (r: Option<ScheduleKind>)
        ensures
            r == spec_classify(schedule_type@),
    {
        if str_eq_chars(schedule_type, "cron") {
            Some(ScheduleKind::Cron)
        } else if str_eq_chars(schedule_type, "fixed_rate") {
            Some(ScheduleKind::FixedRate)
        } else if str_eq_chars(schedule_type, "fixed_delay") {
            Some(ScheduleKind::FixedDelay)
        } else {
            None
        }
    }

    /// Reads a resolved `time_unit` field; an unrecognized name falls
    /// back to milliseconds (a warning, never fatal).
    pub fn parse_time_unit(time_unit_str: &str) -> (r: TimeUnit)
        ensures
            r == spec_time_unit_of(time_unit_str@),
    {
        match TimeUnit::parse_unit_name(time_unit_str) {
            Some(u) => u,
            None => TimeUnit::Milliseconds,
        }
    }

    /// Reads a resolved initial delay as milliseconds: shorthand wins,
    /// then a bare integer in `time_unit`; anything else falls back to
    /// zero (a warning, never fatal).
    pub fn parse_initial_delay(initial_delay: &str, time_unit: TimeUnit) -> (r: u64)
        ensures
            r as nat == spec_initial_delay_millis(initial_delay@, time_unit),
    {
        match TimeUnit::parse_duration(initial_delay) {
            Some((value, parsed_unit)) => match parsed_unit.checked_to_millis(value) {
                Some(m) => m,
                None => 0,
            },
            None => {
                let value = match parse_bare_u64(initial_delay) {
                    Some(v) => v,
                    None => 0,
                };
                match time_unit.checked_to_millis(value) {
                    Some(m) => m,
                    None => 0,
                }
            },
        }
    }

    /// The zone string as shown in logs: `local` in any case becomes
    /// `Local`; anything else is passed through.
    pub fn parse_zone_display(zone_str: &str) -> (r: String)
        ensures
            r@ == spec_zone_display(zone_str@),
    {
        if eq_ignore_ascii_case(zone_str, "local") {
            String::from_str("Local")
        } else {
            zone_str.to_owned()
        }
    }

    /// Reads a resolved interval: shorthand wins, then a bare integer in
    /// `default_time_unit`.  Yields the value, its unit and the period
    /// in milliseconds; an unreadable or oversized value is invalid and
    /// a zero interval is rejected.
    pub fn parse_interval(interval_str: &str, default_time_unit: TimeUnit) -> (r: Result<
        (u64, TimeUnit, u64),
        TaskError,
    >)
        ensures
            r is Ok <==> spec_parse_interval(interval_str@, default_time_unit) is Ok,
            r is Ok ==> ({
                let p = spec_parse_interval(interval_str@, default_time_unit)->Ok_0;
                &&& (r->Ok_0).0 as nat == p.0
                &&& (r->Ok_0).1 == p.1
                &&& (r->Ok_0).2 as nat == p.2
            }),
            r is Err ==> (r->Err_0)@ == spec_parse_interval(
                interval_str@,
                default_time_unit,
            )->Err_0,
    {
        let (value, unit) = match TimeUnit::parse_duration(interval_str) {
            Some(p) => p,
            None => match parse_bare_u64(interval_str) {
                Some(v) => (v, default_time_unit),
                None => {
                    return Err(TaskError::InvalidInterval);
                },
            },
        };
        if value == 0 {
            return Err(TaskError::ZeroInterval);
        }
        match unit.checked_to_millis(value) {
            Some(m) => Ok((value, unit, m)),
            None => Err(TaskError::InvalidInterval),
        }
    }

    /// Plans one descriptor against the store: resolves `enabled` and
    /// stops if it is `"false"` in any letter case; resolves the unit,
    /// the initial delay and the zone; classifies the kind; resolves the
    /// schedule value and, for interval kinds, the period.
    pub fn plan_task(
        config: &config::Config,
        schedule_type: &str,
        schedule_value: &str,
        initial_delay: &str,
        enabled: &str,
        time_unit: &str,
        zone: &str,
    ) -> (r: Result<PlanOutcome, TaskError>)
        ensures
            plan_result_view(r) == spec_plan(
                config_entries(*config),
                (SpecMeta {
                    schedule_type: schedule_type@,
                    schedule_value: schedule_value@,
                    initial_delay: initial_delay@,
                    enabled: enabled@,
                    time_unit: time_unit@,
                    zone: zone@,
                }),
            ),
    {
        let enabled_r = match resolve_config_value(enabled, config) {
            Ok(s) => s,
            Err(e) => {
                return Err(missing_key_error(e));
            },
        };
        if eq_ignore_ascii_case(enabled_r.as_str(), "false") {
            return Ok(PlanOutcome::Disabled);
        }
        let tu_s = match resolve_config_value(time_unit, config) {
            Ok(s) => s,
            Err(e) => {
                return Err(missing_key_error(e));
            },
        };
        let unit = Self::parse_time_unit(tu_s.as_str());
        let d_s = match resolve_config_value(initial_delay, config) {
            Ok(s) => s,
            Err(e) => {
                return Err(missing_key_error(e));
            },
        };
        let delay = Self::parse_initial_delay(d_s.as_str(), unit);
        let z_s = match resolve_config_value(zone, config) {
            Ok(s) => s,
            Err(e) => {
                return Err(missing_key_error(e));
            },
        };
        let kind = match Self::classify(schedule_type) {
            Some(k) => k,
            None => {
                return Err(TaskError::UnknownScheduleType);
            },
        };
        match kind {
            ScheduleKind::Cron => {
                let expr = match resolve_config_value(schedule_value, config) {
                    Ok(s) => s,
                    Err(e) => {
                        return Err(missing_key_error(e));
                    },
                };
                let zone_display = Self::parse_zone_display(z_s.as_str());
                let warn = !eq_ignore_ascii_case(tu_s.as_str(), "milliseconds");
                Ok(PlanOutcome::Planned(TaskPlan::Cron {
                    expression: expr,
                    zone_display,
                    initial_delay_millis: delay,
                    warn_time_unit_ignored: warn,
                }))
            },
            _ => {
                let iv_s = match resolve_config_value(schedule_value, config) {
                    Ok(s) => s,
                    Err(e) => {
                        return Err(missing_key_error(e));
                    },
                };
                let (value, eff_unit, millis) = match Self::parse_interval(iv_s.as_str(), unit) {
                    Ok(t) => t,
                    Err(e) => {
                        return Err(e);
                    },
                };
                let warn_zone = !eq_ignore_ascii_case(z_s.as_str(), "local");
                let warn_unit = TimeUnit::parse_duration(iv_s.as_str()).is_some()
                    && !eq_ignore_ascii_case(tu_s.as_str(), "milliseconds");
                let fixed_delay = match kind {
                    ScheduleKind::FixedDelay => true,
                    _ => false,
                };
                Ok(PlanOutcome::Planned(TaskPlan::Interval {
                    fixed_delay,
                    interval_value: value,
                    interval_unit: eff_unit,
                    interval_millis: millis,
                    initial_delay_millis: delay,
                    warn_zone_ignored: warn_zone,
                    warn_time_unit_ignored: warn_unit,
                }))
            },
        }
    }

    /// Plans every descriptor: runnable objects first, then standalone
    /// tasks, then instance methods, each in registration order.  One
    /// report per descriptor; a failure stops nobody else.
    pub fn plan_all(&self) -> (r: Vec<TaskReport>)
        ensures
            r@.len() == self.runnable_tasks@.len() + self.scheduled_tasks@.len()
                + self.method_tasks@.len(),
            forall|i: int|
                0 <= i < self.runnable_tasks@.len() ==> {
                    &&& (#[trigger] r@[i]).name@ == self.runnable_tasks@[i].name@
                    &&& plan_result_view(r@[i].outcome) == spec_plan(
                        config_entries(self.config),
                        self.runnable_tasks@[i].meta(),
                    )
                },
            forall|i: int|
                0 <= i < self.scheduled_tasks@.len() ==> {
                    &&& (#[trigger] r@[self.runnable_tasks@.len() + i]).name@
                        == self.scheduled_tasks@[i].name@
                    &&& plan_result_view(r@[self.runnable_tasks@.len() + i].outcome) == spec_plan(
                        config_entries(self.config),
                        self.scheduled_tasks@[i].meta(),
                    )
                },
            forall|i: int|
                0 <= i < self.method_tasks@.len() ==> {
                    &&& (#[trigger] r@[self.runnable_tasks@.len() + self.scheduled_tasks@.len()
                        + i]).name@ == self.method_tasks@[i].method_name@
                    &&& plan_result_view(
                        r@[self.runnable_tasks@.len() + self.scheduled_tasks@.len() + i].outcome,
                    ) == spec_plan(config_entries(self.config), self.method_tasks@[i].meta())
                },
    {
        let mut out: Vec<TaskReport> = Vec::new();
        let mut i: usize = 0;
        while i < self.runnable_tasks.len()
            invariant
                0 <= i <= self.runnable_tasks@.len(),
                out@.len() == i,
                forall|j: int|
                    0 <= j < i ==> {
                        &&& (#[trigger] out@[j]).name@ == self.runnable_tasks@[j].name@
                        &&& plan_result_view(out@[j].outcome) == spec_plan(
                            config_entries(self.config),
                            self.runnable_tasks@[j].meta(),
                        )
                    },
            decreases self.runnable_tasks@.len() - i,
        {
            let t = &self.runnable_tasks[i];
            let outcome = Self::plan_task(
                &self.config,
                t.schedule_type,
                t.schedule_value,
                t.initial_delay,
                t.enabled,
                t.time_unit,
                t.zone,
            );
            out.push(TaskReport { name: t.name, outcome });
            i += 1;
        }
        let ghost base1 = self.runnable_tasks@.len() as int;
        let mut i: usize = 0;
        while i < self.scheduled_tasks.len()
            invariant
                0 <= i <= self.scheduled_tasks@.len(),
                base1 == self.runnable_tasks@.len(),
                out@.len() == base1 + i,
                forall|j: int|
                    0 <= j < base1 ==> {
                        &&& (#[trigger] out@[j]).name@ == self.runnable_tasks@[j].name@
                        &&& plan_result_view(out@[j].outcome) == spec_plan(
                            config_entries(self.config),
                            self.runnable_tasks@[j].meta(),
                        )
                    },
                forall|j: int|
                    0 <= j < i ==> {
                        &&& (#[trigger] out@[base1 + j]).name@ == self.scheduled_tasks@[j].name@
                        &&& plan_result_view(out@[base1 + j].outcome) == spec_plan(
                            config_entries(self.config),
                            self.scheduled_tasks@[j].meta(),
                        )
                    },
            decreases self.scheduled_tasks@.len() - i,
        {
            let t = &self.scheduled_tasks[i];
            let outcome = Self::plan_task(
                &self.config,
                t.schedule_type,
                t.schedule_value,
                t.initial_delay,
                t.enabled,
                t.time_unit,
                t.zone,
            );
            out.push(TaskReport { name: t.name, outcome });
            i += 1;
        }
        let ghost base2 = base1 + self.scheduled_tasks@.len() as int;
        let mut i: usize = 0;
        while i < self.method_tasks.len()
            invariant
                0 <= i <= self.method_tasks@.len(),
                base1 == self.runnable_tasks@.len(),
                base2 == base1 + self.scheduled_tasks@.len(),
                out@.len() == base2 + i,
                forall|j: int|
                    0 <= j < base1 ==> {
                        &&& (#[trigger] out@[j]).name@ == self.runnable_tasks@[j].name@
                        &&& plan_result_view(out@[j].outcome) == spec_plan(
                            config_entries(self.config),
                            self.runnable_tasks@[j].meta(),
                        )
                    },
                forall|j: int|
                    0 <= j < self.scheduled_tasks@.len() ==> {
                        &&& (#[trigger] out@[base1 + j]).name@ == self.scheduled_tasks@[j].name@
                        &&& plan_result_view(out@[base1 + j].outcome) == spec_plan(
                            config_entries(self.config),
                            self.scheduled_tasks@[j].meta(),
                        )
                    },
                forall|j: int|
                    0 <= j < i ==> {
                        &&& (#[trigger] out@[base2 + j]).name@
                            == self.method_tasks@[j].method_name@
                        &&& plan_result_view(out@[base2 + j].outcome) == spec_plan(
                            config_entries(self.config),
                            self.method_tasks@[j].meta(),
                        )
                    },
            decreases self.method_tasks@.len() - i,
        {
            let t = &self.method_tasks[i];
            let outcome = Self::plan_task(
                &self.config,
                t.schedule_type,
                t.schedule_value,
                t.initial_delay,
                t.enabled,
                t.time_unit,
                t.zone,
            );
            out.push(TaskReport { name: t.method_name, outcome });
            i += 1;
        }
        out
    }
}

/// Builder for the scheduler: a store plus descriptors, collected before
/// anything runs.
#[derive(Debug)]
pub struct SchedulerBuilder {
    pub config: config::Config,
    pub runnable_tasks: Vec<RunnableTask>,
    pub scheduled_tasks: Vec<ScheduledTask>,
    pub method_tasks: Vec<ScheduledMethodMetadata>,
}

impl SchedulerBuilder {
    /// A builder over a store that holds nothing.
    pub fn new() -> (r: Self)
        ensures
            config_entries(r.config) == no_entries(),
            r.runnable_tasks@.len() == 0,
            r.scheduled_tasks@.len() == 0,
            r.method_tasks@.len() == 0,
    {
        SchedulerBuilder {
            config: empty_config(),
            runnable_tasks: Vec::new(),
            scheduled_tasks: Vec::new(),
            method_tasks: Vec::new(),
        }
    }

    /// A builder over the given store.
    pub fn with_config(config: config::Config) -> (r: Self)
        ensures
            r.config == config,
            r.runnable_tasks@.len() == 0,
            r.scheduled_tasks@.len() == 0,
            r.method_tasks@.len() == 0,
    {
        SchedulerBuilder {
            config,
            runnable_tasks: Vec::new(),
            scheduled_tasks: Vec::new(),
            method_tasks: Vec::new(),
        }
    }

    /// Registers a standalone task descriptor, after the registration-
    /// time checks; a rejected descriptor leaves the builder unchanged
    /// in the error.
    pub fn register(self, task: ScheduledTask) -> (r: Result<Self, ScheduleValueError>)
        ensures
            r is Ok <==> spec_validate_descriptor(task.meta()) is None,
            r is Ok ==> ({
                let b = r->Ok_0;
                &&& b.config == self.config
                &&& b.runnable_tasks@ == self.runnable_tasks@
                &&& b.scheduled_tasks@ == self.scheduled_tasks@.push(task)
                &&& b.method_tasks@ == self.method_tasks@
            }),
            r is Err ==> Some(r->Err_0) == spec_validate_descriptor(task.meta()),
    {
        match validate_descriptor(task.schedule_type, task.schedule_value, task.initial_delay) {
            Some(e) => Err(e),
            None => {
                let mut b = self;
                b.scheduled_tasks.push(task);
                Ok(b)
            },
        }
    }

    /// Registers a runnable object's descriptor, after the same checks.
    pub fn register_runnable(self, task: RunnableTask) -> (r: Result<Self, ScheduleValueError>)
        ensures
            r is Ok <==> spec_validate_descriptor(task.meta()) is None,
            r is Ok ==> ({
                let b = r->Ok_0;
                &&& b.config == self.config
                &&& b.runnable_tasks@ == self.runnable_tasks@.push(task)
                &&& b.scheduled_tasks@ == self.scheduled_tasks@
                &&& b.method_tasks@ == self.method_tasks@
            }),
            r is Err ==> Some(r->Err_0) == spec_validate_descriptor(task.meta()),
    {
        match validate_descriptor(task.schedule_type, task.schedule_value, task.initial_delay) {
            Some(e) => Err(e),
            None => {
                let mut b = self;
                b.runnable_tasks.push(task);
                Ok(b)
            },
        }
    }

    /// Registers one scheduled method of an instance, after the same
    /// checks.
    pub fn register_method(self, meta: ScheduledMethodMetadata) -> (r: Result<
        Self,
        ScheduleValueError,
    >)
        ensures
            r is Ok <==> spec_validate_descriptor(meta.meta()) is None,
            r is Ok ==> ({
                let b = r->Ok_0;
                &&& b.config == self.config
                &&& b.runnable_tasks@ == self.runnable_tasks@
                &&& b.scheduled_tasks@ == self.scheduled_tasks@
                &&& b.method_tasks@ == self.method_tasks@.push(meta)
            }),
            r is Err ==> Some(r->Err_0) == spec_validate_descriptor(meta.meta()),
    {
        match validate_descriptor(meta.schedule_type, meta.schedule_value, meta.initial_delay) {
            Some(e) => Err(e),
            None => {
                let mut b = self;
                b.method_tasks.push(meta);
                Ok(b)
            },
        }
    }

    /// Freezes the builder into a scheduler; the descriptors and the
    /// store move over unchanged.
    pub fn build(self) -> (r: Scheduler)
        ensures
            r.config == self.config,
            r.runnable_tasks@ == self.runnable_tasks@,
            r.scheduled_tasks@ == self.scheduled_tasks@,
            r.method_tasks@ == self.method_tasks@,
    {
        Scheduler {
            config: self.config,
            runnable_tasks: self.runnable_tasks,
            scheduled_tasks: self.scheduled_tasks,
            method_tasks: self.method_tasks,
        }
    }
}

impl Default for SchedulerBuilder {
    /// The same as [`SchedulerBuilder::new`].
    fn default() -> (r: Self)
        ensures
            config_entries(r.config) == no_entries(),
            r.runnable_tasks@.len() == 0,
            r.scheduled_tasks@.len() == 0,
            r.method_tasks@.len() == 0,
    {
        SchedulerBuilder::new()
    }
}

} // verus!
