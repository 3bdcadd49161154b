//! Timing plans: what a descriptor becomes once its fields are resolved.
//!
//! Planning a descriptor against the store yields one of three things: the
//! descriptor is disabled and nothing runs; it is a calendar task, handed
//! to the cron capability as a resolved expression; or it is an interval
//! task, driven by a timer loop with a concrete period in milliseconds.
//! [`spec_plan`] is the mathematical statement of that pipeline; the
//! executable planner in [`crate::scheduler`] is proved to agree with it.

use vstd::prelude::*;

use crate::resolver::spec_resolve;
use crate::strutil::{digit_prefix_len, digits_to_nat, seq_eq_ignore_case};
use crate::time_unit::{spec_parse_duration, spec_unit_name, unit_millis, TimeUnit};

verus! {

/// The three schedule kinds a descriptor can declare.
#[derive(Debug, Clone, Copy, PartialEq, Eq, Structural)]
pub enum ScheduleKind {
    /// Calendar-based: the schedule value is a cron expression.
    Cron,
    /// Interval with a nominal period; executions may overlap.
    FixedRate,
    /// Interval measured from each completion; executions never overlap.
    FixedDelay,
}

/// Why planning a descriptor failed.  A failure concerns that one
/// descriptor only; the scheduler goes on with the rest.
#[derive(Debug, Clone, PartialEq, Eq)]
pub enum TaskError {
    /// A `${key}` placeholder without a default named a key the store
    /// does not hold.
    MissingConfigKey(String),
    /// The schedule type is none of `cron`, `fixed_rate`, `fixed_delay`.
    UnknownScheduleType,
    /// The interval is neither a shorthand duration nor an integer that
    /// fits, or the period in milliseconds does not fit, in 64 bits.
    InvalidInterval,
    /// The interval resolved to zero, which would busy-loop.
    ZeroInterval,
}

/// The concrete plan for one enabled descriptor.
#[derive(Debug, Clone, PartialEq, Eq)]
pub enum TaskPlan {
    /// Hand the resolved expression to the cron capability.
    Cron {
        expression: String,
        zone_display: String,
        initial_delay_millis: u64,
        /// The descriptor set a unit other than milliseconds, which cron
        /// ignores; worth a warning in the log.
        warn_time_unit_ignored: bool,
    },
    /// Drive a timer loop with this period.
    Interval {
        fixed_delay: bool,
        interval_value: u64,
        interval_unit: TimeUnit,
        interval_millis: u64,
        initial_delay_millis: u64,
        /// The descriptor set a zone other than `local`, which interval
        /// loops ignore; worth a warning in the log.
        warn_zone_ignored: bool,
        /// The interval carried its own suffix and the descriptor also
        /// named a unit other than milliseconds: the suffix won, and
        /// the unit deserves a warning in the log.
        warn_time_unit_ignored: bool,
    },
}

/// What planning one descriptor decides.
#[derive(Debug, Clone, PartialEq, Eq)]
pub enum PlanOutcome {
    /// `enabled` resolved to `"false"`: nothing is registered and no
    /// loop is spawned.
    Disabled,
    Planned(TaskPlan),
}

// ---------------------------------------------------------------------------
// The mathematical model
// ---------------------------------------------------------------------------

/// The schedule fields of a descriptor, as character sequences.
pub struct SpecMeta {
    pub schedule_type: Seq<char>,
    pub schedule_value: Seq<char>,
    pub initial_delay: Seq<char>,
    pub enabled: Seq<char>,
    pub time_unit: Seq<char>,
    pub zone: Seq<char>,
}

/// Model of [`TaskError`].
pub enum TaskErrorV {
    MissingConfigKey(Seq<char>),
    UnknownScheduleType,
    InvalidInterval,
    ZeroInterval,
}

/// Model of [`TaskPlan`].
pub enum TaskPlanV {
    Cron {
        expression: Seq<char>,
        zone_display: Seq<char>,
        initial_delay_millis: nat,
        warn_time_unit_ignored: bool,
    },
    Interval {
        fixed_delay: bool,
        interval_value: nat,
        interval_unit: TimeUnit,
        interval_millis: nat,
        initial_delay_millis: nat,
        warn_zone_ignored: bool,
        warn_time_unit_ignored: bool,
    },
}

/// Model of [`PlanOutcome`].
pub enum PlanOutcomeV {
    Disabled,
    Planned(TaskPlanV),
}

impl View for TaskError {
    type V = TaskErrorV;

    open spec fn view(&self) -> TaskErrorV {
        match self {
            TaskError::MissingConfigKey(k) => TaskErrorV::MissingConfigKey(k@),
            TaskError::UnknownScheduleType => TaskErrorV::UnknownScheduleType,
            TaskError::InvalidInterval => TaskErrorV::InvalidInterval,
            TaskError::ZeroInterval => TaskErrorV::ZeroInterval,
        }
    }
}

impl View for TaskPlan {
    type V = TaskPlanV;

    open spec fn view(&self) -> TaskPlanV {
        match self {
            TaskPlan::Cron { expression, zone_display, initial_delay_millis, warn_time_unit_ignored } => TaskPlanV::Cron {
                expression: expression@,
                zone_display: zone_display@,
                initial_delay_millis: *initial_delay_millis as nat,
                warn_time_unit_ignored: *warn_time_unit_ignored,
            },
            TaskPlan::Interval {
                fixed_delay,
                interval_value,
                interval_unit,
                interval_millis,
                initial_delay_millis,
                warn_zone_ignored,
                warn_time_unit_ignored,
            } => TaskPlanV::Interval {
                fixed_delay: *fixed_delay,
                interval_value: *interval_value as nat,
                interval_unit: *interval_unit,
                interval_millis: *interval_millis as nat,
                initial_delay_millis: *initial_delay_millis as nat,
                warn_zone_ignored: *warn_zone_ignored,
                warn_time_unit_ignored: *warn_time_unit_ignored,
            },
        }
    }
}

impl View for PlanOutcome {
    type V = PlanOutcomeV;

    open spec fn view(&self) -> PlanOutcomeV {
        match self {
            PlanOutcome::Disabled => PlanOutcomeV::Disabled,
            PlanOutcome::Planned(p) => PlanOutcomeV::Planned(p@),
        }
    }
}

/// The model of a planning result.
pub open spec fn plan_result_view(r: Result<PlanOutcome, TaskError>) -> Result<
    PlanOutcomeV,
    TaskErrorV,
> {
    match r {
        Ok(o) => Ok(o@),
        Err(e) => Err(e@),
    }
}

/// `"false"` in any letter case: the descriptor is disabled.
pub open spec fn spec_is_false(s: Seq<char>) -> bool {
    seq_eq_ignore_case(s, "false"@)
}

/// `"local"` in any letter case: the host clock, not a named zone.
pub open spec fn spec_is_local(s: Seq<char>) -> bool {
    seq_eq_ignore_case(s, "local"@)
}

/// `"milliseconds"` in any letter case: the default unit.
pub open spec fn spec_is_milliseconds_name(s: Seq<char>) -> bool {
    seq_eq_ignore_case(s, "milliseconds"@)
}

/// Classification of the declared schedule type, matched exactly.
pub open spec fn spec_classify(s: Seq<char>) -> Option<ScheduleKind> {
    if s == "cron"@ {
        Some(ScheduleKind::Cron)
    } else if s == "fixed_rate"@ {
        Some(ScheduleKind::FixedRate)
    } else if s == "fixed_delay"@ {
        Some(ScheduleKind::FixedDelay)
    } else {
        None
    }
}

/// The unit a resolved `time_unit` field denotes; an unrecognized name
/// falls back to milliseconds (a warning, never fatal).
pub open spec fn spec_time_unit_of(s: Seq<char>) -> TimeUnit {
    match spec_unit_name(s) {
        Some(u) => u,
        None => TimeUnit::Milliseconds,
    }
}

/// A bare decimal integer that fits in 64 bits.
pub open spec fn spec_bare_u64(s: Seq<char>) -> Option<nat> {
    if s.len() > 0 && digit_prefix_len(s) == s.len() && digits_to_nat(s) <= u64::MAX {
        Some(digits_to_nat(s))
    } else {
        None
    }
}

/// The zone string as shown in logs: `local` in any case becomes
/// `Local`; anything else is passed through.
pub open spec fn spec_zone_display(z: Seq<char>) -> Seq<char> {
    if spec_is_local(z) {
        "Local"@
    } else {
        z
    }
}

/// Initial delay in milliseconds: shorthand wins; a bare integer is read
/// in the descriptor's unit; anything else, and any value that does not
/// fit in 64 bits, falls back to zero (a warning, never fatal).
pub open spec fn spec_initial_delay_millis(s: Seq<char>, u: TimeUnit) -> nat {
    match spec_parse_duration(s) {
        Some(p) => if p.0 <= u64::MAX && p.0 * unit_millis(p.1) <= u64::MAX {
            p.0 * unit_millis(p.1)
        } else {
            0
        },
        None => match spec_bare_u64(s) {
            Some(v) => if v * unit_millis(u) <= u64::MAX {
                v * unit_millis(u)
            } else {
                0
            },
            None => 0,
        },
    }
}

/// The interval string carried its own readable suffix, so the
/// descriptor's declared unit has no say over it.
pub open spec fn spec_shorthand_won(s: Seq<char>) -> bool {
    spec_parse_duration(s) matches Some(p) && p.0 <= u64::MAX
}

/// Interval parsing: shorthand wins, then a bare integer in the
/// descriptor's unit.  A value that cannot be read, or a period that
/// does not fit in 64 bits, is invalid; a zero interval is rejected.
pub open spec fn spec_parse_interval(s: Seq<char>, default_unit: TimeUnit) -> Result<
    (nat, TimeUnit, nat),
    TaskErrorV,
> {
    let shorthand = match spec_parse_duration(s) {
        Some(p) => if p.0 <= u64::MAX {
            Some(p)
        } else {
            None
        },
        None => None,
    };
    let read = match shorthand {
        Some(p) => Some(p),
        None => match spec_bare_u64(s) {
            Some(v) => Some((v, default_unit)),
            None => None,
        },
    };
    match read {
        None => Err(TaskErrorV::InvalidInterval),
        Some(p) => if p.0 == 0 {
            Err(TaskErrorV::ZeroInterval)
        } else if p.0 * unit_millis(p.1) > u64::MAX {
            Err(TaskErrorV::InvalidInterval)
        } else {
            Ok((p.0, p.1, p.0 * unit_millis(p.1)))
        },
    }
}

/// The whole planning pipeline for one descriptor: resolve `enabled` and
/// stop if it is `"false"`; resolve the unit, the initial delay and the
/// zone; classify the kind; resolve the schedule value and, for interval
/// kinds, parse the period.  The first missing required key wins.
pub open spec fn spec_plan(entries: Map<Seq<char>, Seq<char>>, m: SpecMeta) -> Result<
    PlanOutcomeV,
    TaskErrorV,
> {
    match spec_resolve(m.enabled, entries) {
        Err(k) => Err(TaskErrorV::MissingConfigKey(k)),
        Ok(en) => if spec_is_false(en) {
            Ok(PlanOutcomeV::Disabled)
        } else {
            match spec_resolve(m.time_unit, entries) {
                Err(k) => Err(TaskErrorV::MissingConfigKey(k)),
                Ok(tu_s) => {
                    let unit = spec_time_unit_of(tu_s);
                    match spec_resolve(m.initial_delay, entries) {
                        Err(k) => Err(TaskErrorV::MissingConfigKey(k)),
                        Ok(d_s) => {
                            let delay = spec_initial_delay_millis(d_s, unit);
                            match spec_resolve(m.zone, entries) {
                                Err(k) => Err(TaskErrorV::MissingConfigKey(k)),
                                Ok(z_s) => match spec_classify(m.schedule_type) {
                                    None => Err(TaskErrorV::UnknownScheduleType),
                                    Some(ScheduleKind::Cron) => match spec_resolve(
                                        m.schedule_value,
                                        entries,
                                    ) {
                                        Err(k) => Err(TaskErrorV::MissingConfigKey(k)),
                                        Ok(expr) => Ok(PlanOutcomeV::Planned(TaskPlanV::Cron {
                                            expression: expr,
                                            zone_display: spec_zone_display(z_s),
                                            initial_delay_millis: delay,
                                            warn_time_unit_ignored: !spec_is_milliseconds_name(
                                                tu_s,
                                            ),
                                        })),
                                    },
                                    Some(kind) => match spec_resolve(m.schedule_value, entries) {
                                        Err(k) => Err(TaskErrorV::MissingConfigKey(k)),
                                        Ok(iv_s) => match spec_parse_interval(iv_s, unit) {
                                            Err(e) => Err(e),
                                            Ok(p) => Ok(PlanOutcomeV::Planned(
                                                TaskPlanV::Interval {
                                                    fixed_delay: kind is FixedDelay,
                                                    interval_value: p.0,
                                                    interval_unit: p.1,
                                                    interval_millis: p.2,
                                                    initial_delay_millis: delay,
                                                    warn_zone_ignored: !spec_is_local(z_s),
                                                    warn_time_unit_ignored: spec_shorthand_won(
                                                        iv_s,
                                                    ) && !spec_is_milliseconds_name(tu_s),
                                                },
                                            )),
                                        },
                                    },
                                },
                            }
                        },
                    }
                },
            }
        },
    }
}

/// A planned interval is never zero and never out of range: whatever
/// the descriptor and the store say, planning either rejects the
/// interval or yields a positive period that fits in 64 bits — a timer
/// loop built from a plan cannot busy-loop.
pub proof fn lemma_planned_interval_positive(entries: Map<Seq<char>, Seq<char>>, m: SpecMeta)
    ensures
        spec_plan(entries, m) matches Ok(PlanOutcomeV::Planned(TaskPlanV::Interval {
            interval_value,
            interval_millis,
            ..
        })) ==> 1 <= interval_value && 1 <= interval_millis <= u64::MAX,
{
    match spec_plan(entries, m) {
        Ok(PlanOutcomeV::Planned(TaskPlanV::Interval { interval_value, interval_millis, .. })) => {
            assert(interval_value * 1 <= interval_millis) by (nonlinear_arith)
                requires
                    1 <= interval_value,
                    ({
                        ||| interval_millis == interval_value * 1
                        ||| interval_millis == interval_value * 1000
                        ||| interval_millis == interval_value * 60_000
                        ||| interval_millis == interval_value * 3_600_000
                        ||| interval_millis == interval_value * 86_400_000
                    }),
            ;
        },
        _ => {
        },
    }
}

/// Disabled means dropped: whenever a descriptor's `enabled` field
/// resolves to `"false"` in any letter case, planning yields
/// [`PlanOutcomeV::Disabled`] — no plan is produced, so nothing is ever
/// registered for it and no timer loop is spawned.
pub proof fn lemma_disabled_task_never_planned(entries: Map<Seq<char>, Seq<char>>, m: SpecMeta)
    requires
        spec_resolve(m.enabled, entries) is Ok,
        spec_is_false(spec_resolve(m.enabled, entries)->Ok_0),
    ensures
        spec_plan(entries, m) == Ok::<PlanOutcomeV, TaskErrorV>(PlanOutcomeV::Disabled),
{
}

} // verus!
