use scheduled::{
    PlanOutcome, ScheduleValueError, Scheduler, SchedulerBuilder, ScheduledTask, TaskError,
    TaskPlan, TimeUnit,
};

fn empty_store() -> config::Config {
    scheduled::empty_config()
}

fn store_with(key: &str, value: &str) -> config::Config {
    config::Config::builder()
        .set_override(key, value)
        .unwrap()
        .build()
        .unwrap()
}

fn plan(
    store: &config::Config,
    schedule_type: &str,
    schedule_value: &str,
    initial_delay: &str,
    enabled: &str,
    time_unit: &str,
    zone: &str,
) -> Result<PlanOutcome, TaskError> {
    Scheduler::plan_task(
        store,
        schedule_type,
        schedule_value,
        initial_delay,
        enabled,
        time_unit,
        zone,
    )
}

#[test]
fn fixed_rate_shorthand_plans_an_interval() {
    let store = empty_store();
    let outcome = plan(&store, "fixed_rate", "100ms", "0", "true", "milliseconds", "local");
    match outcome.unwrap() {
        PlanOutcome::Planned(TaskPlan::Interval {
            fixed_delay,
            interval_value,
            interval_unit,
            interval_millis,
            initial_delay_millis,
            warn_zone_ignored,
            warn_time_unit_ignored,
        }) => {
            assert!(!fixed_delay);
            assert_eq!(interval_value, 100);
            assert_eq!(interval_unit, TimeUnit::Milliseconds);
            assert_eq!(interval_millis, 100);
            assert_eq!(initial_delay_millis, 0);
            assert!(!warn_zone_ignored);
            assert!(!warn_time_unit_ignored);
        },
        other => panic!("expected an interval plan, got {:?}", other),
    }
}

#[test]
fn fixed_delay_bare_integer_uses_the_declared_unit() {
    let store = empty_store();
    let outcome = plan(&store, "fixed_delay", "5", "2s", "true", "seconds", "local");
    match outcome.unwrap() {
        PlanOutcome::Planned(TaskPlan::Interval {
            fixed_delay,
            interval_value,
            interval_unit,
            interval_millis,
            initial_delay_millis,
            ..
        }) => {
            assert!(fixed_delay);
            assert_eq!(interval_value, 5);
            assert_eq!(interval_unit, TimeUnit::Seconds);
            assert_eq!(interval_millis, 5000);
            // shorthand wins for the delay: "2s" is 2000ms
            assert_eq!(initial_delay_millis, 2000);
        },
        other => panic!("expected an interval plan, got {:?}", other),
    }
}

#[test]
fn shorthand_suffix_wins_over_the_declared_unit() {
    let store = empty_store();
    let outcome = plan(&store, "fixed_rate", "500ms", "0", "true", "seconds", "local");
    match outcome.unwrap() {
        PlanOutcome::Planned(TaskPlan::Interval {
            interval_millis,
            warn_time_unit_ignored,
            ..
        }) => {
            assert_eq!(interval_millis, 500);
            // the declared unit lost to the suffix and earns a warning
            assert!(warn_time_unit_ignored);
        },
        other => panic!("expected an interval plan, got {:?}", other),
    }
}

#[test]
fn cron_plan_resolves_expression_and_warns_on_time_unit() {
    let store = store_with("app.cron", "0 */5 * * * *");
    let outcome = plan(&store, "cron", "${app.cron}", "0", "true", "seconds", "UTC");
    match outcome.unwrap() {
        PlanOutcome::Planned(TaskPlan::Cron {
            expression,
            zone_display,
            initial_delay_millis,
            warn_time_unit_ignored,
        }) => {
            assert_eq!(expression, "0 */5 * * * *");
            assert_eq!(zone_display, "UTC");
            assert_eq!(initial_delay_millis, 0);
            // cron ignores time_unit; a non-default one earns a warning
            assert!(warn_time_unit_ignored);
        },
        other => panic!("expected a cron plan, got {:?}", other),
    }
}

#[test]
fn local_zone_displays_as_local_without_warning() {
    let store = empty_store();
    let outcome = plan(&store, "cron", "0 0 * * * *", "0", "true", "milliseconds", "LOCAL");
    match outcome.unwrap() {
        PlanOutcome::Planned(TaskPlan::Cron { zone_display, warn_time_unit_ignored, .. }) => {
            assert_eq!(zone_display, "Local");
            assert!(!warn_time_unit_ignored);
        },
        other => panic!("expected a cron plan, got {:?}", other),
    }
}

#[test]
fn zone_on_an_interval_task_earns_a_warning() {
    let store = empty_store();
    let outcome = plan(&store, "fixed_rate", "1s", "0", "true", "milliseconds", "Asia/Jakarta");
    match outcome.unwrap() {
        PlanOutcome::Planned(TaskPlan::Interval { warn_zone_ignored, .. }) => {
            assert!(warn_zone_ignored);
        },
        other => panic!("expected an interval plan, got {:?}", other),
    }
}

#[test]
fn disabled_in_any_letter_case_skips_the_task() {
    let store = empty_store();
    for enabled in ["false", "FALSE", "False", "fAlSe"] {
        let outcome = plan(&store, "fixed_rate", "100ms", "0", enabled, "milliseconds", "local");
        assert_eq!(outcome.unwrap(), PlanOutcome::Disabled);
    }
}

#[test]
fn enabled_can_come_from_the_store() {
    let store = store_with("app.enabled", "false");
    let outcome = plan(
        &store,
        "fixed_rate",
        "100ms",
        "0",
        "${app.enabled:true}",
        "milliseconds",
        "local",
    );
    assert_eq!(outcome.unwrap(), PlanOutcome::Disabled);
}

#[test]
fn missing_required_key_fails_that_task() {
    let store = empty_store();
    let outcome = plan(&store, "fixed_rate", "${app.interval}", "0", "true", "milliseconds", "local");
    assert_eq!(outcome.unwrap_err(), TaskError::MissingConfigKey("app.interval".to_string()));
}

#[test]
fn unknown_schedule_type_is_an_error() {
    let store = empty_store();
    let outcome = plan(&store, "sometimes", "100ms", "0", "true", "milliseconds", "local");
    assert_eq!(outcome.unwrap_err(), TaskError::UnknownScheduleType);
}

#[test]
fn unreadable_interval_is_an_error() {
    let store = empty_store();
    let outcome = plan(&store, "fixed_rate", "soon", "0", "true", "milliseconds", "local");
    assert_eq!(outcome.unwrap_err(), TaskError::InvalidInterval);
}

#[test]
fn zero_interval_resolved_from_the_store_is_an_error() {
    let store = empty_store();
    let outcome = plan(&store, "fixed_rate", "${app.interval:0}", "0", "true", "milliseconds", "local");
    assert_eq!(outcome.unwrap_err(), TaskError::ZeroInterval);
}

#[test]
fn invalid_time_unit_falls_back_to_milliseconds() {
    let store = empty_store();
    let outcome = plan(&store, "fixed_rate", "5", "0", "true", "fortnights", "local");
    match outcome.unwrap() {
        PlanOutcome::Planned(TaskPlan::Interval { interval_millis, .. }) => {
            assert_eq!(interval_millis, 5);
        },
        other => panic!("expected an interval plan, got {:?}", other),
    }
}

#[test]
fn invalid_initial_delay_falls_back_to_zero() {
    let store = empty_store();
    let outcome = plan(&store, "fixed_rate", "1s", "later", "true", "milliseconds", "local");
    match outcome.unwrap() {
        PlanOutcome::Planned(TaskPlan::Interval { initial_delay_millis, .. }) => {
            assert_eq!(initial_delay_millis, 0);
        },
        other => panic!("expected an interval plan, got {:?}", other),
    }
}

#[test]
fn builder_defaults_make_an_hourly_cron_task() {
    let task = ScheduledTask::builder("housekeeping").build();
    assert_eq!(task.name, "housekeeping");
    assert_eq!(task.schedule_type, "cron");
    assert_eq!(task.schedule_value, "0 0 * * * *");
    assert_eq!(task.initial_delay, "0");
    assert_eq!(task.enabled, "true");
    assert_eq!(task.time_unit, "seconds");
    assert_eq!(task.zone, "UTC");
}

#[test]
fn builder_setters_replace_each_field() {
    let task = ScheduledTask::builder("poll")
        .schedule_type("fixed_rate")
        .schedule_value("30s")
        .initial_delay("5s")
        .enabled("${app.poll.enabled:true}")
        .time_unit("milliseconds")
        .zone("local")
        .build();
    assert_eq!(task.schedule_type, "fixed_rate");
    assert_eq!(task.schedule_value, "30s");
    assert_eq!(task.initial_delay, "5s");
    assert_eq!(task.enabled, "${app.poll.enabled:true}");
    assert_eq!(task.time_unit, "milliseconds");
    assert_eq!(task.zone, "local");
}

#[test]
fn runnable_builder_mirrors_the_task_builder() {
    let task = scheduled::RunnableTask::builder("sync")
        .schedule_type("fixed_delay")
        .schedule_value("1m")
        .build();
    assert_eq!(task.name, "sync");
    assert_eq!(task.schedule_type, "fixed_delay");
    assert_eq!(task.schedule_value, "1m");
}

#[test]
fn zero_interval_fails_registration() {
    let task = ScheduledTask::builder("hot")
        .schedule_type("fixed_rate")
        .schedule_value("0")
        .build();
    let builder = SchedulerBuilder::new();
    let err = builder.register(task).err().expect("a zero interval must fail registration");
    assert_eq!(err, ScheduleValueError::ZeroValue);
}

#[test]
fn zero_initial_delay_is_accepted_at_registration() {
    let task = ScheduledTask::builder("warm")
        .schedule_type("fixed_rate")
        .schedule_value("100ms")
        .initial_delay("0")
        .build();
    let builder = SchedulerBuilder::new();
    assert!(builder.register(task).is_ok());
}

#[test]
fn malformed_placeholders_fail_registration() {
    let unclosed = ScheduledTask::builder("a")
        .schedule_type("fixed_rate")
        .schedule_value("${app.interval")
        .build();
    assert_eq!(
        SchedulerBuilder::new().register(unclosed).unwrap_err(),
        ScheduleValueError::MissingClosingBrace
    );
    let suffixed = ScheduledTask::builder("b")
        .schedule_type("fixed_rate")
        .schedule_value("${app.interval}s")
        .build();
    assert_eq!(
        SchedulerBuilder::new().register(suffixed).unwrap_err(),
        ScheduleValueError::TrailingAfterPlaceholder
    );
}

#[test]
fn uppercase_suffix_fails_registration() {
    let task = ScheduledTask::builder("shouty")
        .schedule_type("fixed_delay")
        .schedule_value("5S")
        .build();
    assert_eq!(
        SchedulerBuilder::new().register(task).unwrap_err(),
        ScheduleValueError::UppercaseSuffix
    );
}

#[test]
fn cron_expressions_skip_the_interval_checks() {
    // a cron expression is opaque to the suffix and zero checks
    let task = ScheduledTask::builder("calendar")
        .schedule_value("0 0 * * * *")
        .build();
    assert!(SchedulerBuilder::new().register(task).is_ok());
}

#[test]
fn plan_all_reports_every_descriptor_in_registration_order() {
    let store = store_with("app.enabled", "false");
    let builder = SchedulerBuilder::with_config(store);
    let builder = builder
        .register(
            ScheduledTask::builder("one")
                .schedule_type("fixed_rate")
                .schedule_value("100ms")
                .time_unit("milliseconds")
                .zone("local")
                .build(),
        )
        .unwrap();
    let builder = builder
        .register(
            ScheduledTask::builder("two")
                .schedule_type("fixed_rate")
                .schedule_value("${app.interval}")
                .time_unit("milliseconds")
                .zone("local")
                .build(),
        )
        .unwrap();
    let builder = builder
        .register(
            ScheduledTask::builder("three")
                .schedule_type("fixed_rate")
                .schedule_value("1s")
                .enabled("${app.enabled}")
                .build(),
        )
        .unwrap();
    let scheduler = builder.build();
    let reports = scheduler.plan_all();
    assert_eq!(reports.len(), 3);
    assert_eq!(reports[0].name, "one");
    assert!(matches!(
        reports[0].outcome,
        Ok(PlanOutcome::Planned(TaskPlan::Interval { interval_millis: 100, .. }))
    ));
    assert_eq!(reports[1].name, "two");
    assert!(matches!(reports[1].outcome, Err(TaskError::MissingConfigKey(_))));
    assert_eq!(reports[2].name, "three");
    assert!(matches!(reports[2].outcome, Ok(PlanOutcome::Disabled)));
}

#[test]
fn method_tasks_are_planned_like_standalone_tasks() {
    let meta = scheduled::ScheduledMethodMetadata {
        method_name: "refresh",
        schedule_type: "fixed_delay",
        schedule_value: "2s",
        initial_delay: "0",
        enabled: "true",
        time_unit: "milliseconds",
        zone: "local",
    };
    let builder = SchedulerBuilder::new().register_method(meta).unwrap();
    let reports = builder.build().plan_all();
    assert_eq!(reports.len(), 1);
    assert_eq!(reports[0].name, "refresh");
    assert!(matches!(
        reports[0].outcome,
        Ok(PlanOutcome::Planned(TaskPlan::Interval { fixed_delay: true, interval_millis: 2000, .. }))
    ));
}

#[test]
fn runnable_tasks_are_reported_before_scheduled_tasks() {
    let runnable = scheduled::RunnableTask::builder("first")
        .schedule_type("fixed_rate")
        .schedule_value("1s")
        .build();
    let standalone = ScheduledTask::builder("second")
        .schedule_type("fixed_rate")
        .schedule_value("2s")
        .build();
    let builder = SchedulerBuilder::new()
        .register_runnable(runnable)
        .unwrap()
        .register(standalone)
        .unwrap();
    let reports = builder.build().plan_all();
    assert_eq!(reports.len(), 2);
    assert_eq!(reports[0].name, "first");
    assert_eq!(reports[1].name, "second");
}
