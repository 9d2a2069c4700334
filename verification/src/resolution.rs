//! What reading a configuration gives, stated over plain values.
//!
//! The variables are a mapping from names to values, an alarm is its name and
//! its category. Every function here says what the outcome of reading is, and
//! the functions that do the reading are held to them.

use crate::alarm::{Alarm, AlarmCategory, AlarmView};
use crate::config::AlarmConfigView;
use crate::error::{Error, ErrorView};
use crate::float::checked_float;
use crate::integer::{parsed_u16, IntegerFault};
use crate::tunable::{at_least, ClampWarningView, Defaults, Tunable};
use vstd::prelude::*;

verus! {

/// Named text values.
pub type Variables = Map<Seq<char>, Seq<char>>;

/// The number that the variable `key` is set to, or `fallback` where it is
/// not set.
pub open spec fn setting(vars: Variables, key: Seq<char>, fallback: u16) -> Result<
    u16,
    IntegerFault,
> {
    if vars.contains_key(key) {
        parsed_u16(vars[key])
    } else {
        Ok(fallback)
    }
}

/// The value of `tunable` for the alarms that do not set it themselves: that
/// of its global variable, else the built-in one.
pub open spec fn global_default(vars: Variables, tunable: Tunable) -> Result<u16, ErrorView> {
    match setting(vars, tunable.global_key(), tunable.built_in()) {
        Ok(value) => Ok(value),
        Err(fault) => Err(ErrorView::ParseIntWithMetadata(fault, tunable.global_key())),
    }
}

/// The values of the three tunables for the alarms that do not set them
/// themselves, or the error of the first global variable that cannot be read.
pub open spec fn global_defaults(vars: Variables) -> Result<Defaults, ErrorView> {
    match global_default(vars, Tunable::PeriodMinutes) {
        Err(error) => Err(error),
        Ok(period_minutes) => match global_default(vars, Tunable::DataPoints) {
            Err(error) => Err(error),
            Ok(data_points) => match global_default(vars, Tunable::DataPointsToAlarm) {
                Err(error) => Err(error),
                Ok(data_points_to_alarm) => Ok(
                    Defaults { period_minutes, data_points, data_points_to_alarm },
                ),
            },
        },
    }
}

/// The name of the variable that sets `tunable` for `alarm` alone.
pub open spec fn scoped_key(alarm: AlarmView, tunable: Tunable) -> Seq<char> {
    alarm.name + tunable.scoped_suffix()
}

/// The value that is configured for `tunable` of `alarm`, before any
/// correction: that of the alarm's own variable, else the global default.
pub open spec fn scoped_setting(
    vars: Variables,
    defaults: Defaults,
    alarm: AlarmView,
    tunable: Tunable,
) -> Result<u16, ErrorView> {
    match setting(vars, scoped_key(alarm, tunable), defaults.of(tunable)) {
        Ok(value) => Ok(value),
        Err(fault) => Err(ErrorView::ParseIntWithMetadata(fault, scoped_key(alarm, tunable))),
    }
}

/// The warning that `value` gives rise to as `tunable` of `alarm`: one if it
/// is below the minimum, none otherwise.
pub open spec fn clamp_warnings(alarm: AlarmView, tunable: Tunable, value: u16) -> Seq<
    ClampWarningView,
> {
    if value < tunable.floor() {
        seq![ClampWarningView { key: scoped_key(alarm, tunable), minimum: tunable.floor() }]
    } else {
        Seq::empty()
    }
}

/// Reading `tunable` of `alarm`: the warnings, and the value that the alarm
/// gets, which is never below the minimum.
pub open spec fn tunable_step(
    vars: Variables,
    defaults: Defaults,
    alarm: AlarmView,
    tunable: Tunable,
) -> (Seq<ClampWarningView>, Result<u16, ErrorView>) {
    match scoped_setting(vars, defaults, alarm, tunable) {
        Err(error) => (Seq::empty(), Err(error)),
        Ok(value) => (clamp_warnings(alarm, tunable, value), Ok(at_least(value, tunable.floor()))),
    }
}

/// The error of an alarm's value: that of a numeric alarm whose value is not
/// the text of a floating-point number.
pub open spec fn value_error(vars: Variables, alarm: AlarmView) -> Option<ErrorView> {
    if alarm.category == AlarmCategory::Numeric {
        match checked_float(vars[alarm.name]) {
            Err(fault) => Some(ErrorView::ParseFloatWithMetadata(fault, alarm.name)),
            Ok(_) => None,
        }
    } else {
        None
    }
}

/// What reading one alarm gives.
pub struct AlarmOutcome {
    /// The warnings that were given, in order.
    pub warnings: Seq<ClampWarningView>,
    /// The alarm's configuration, none where the alarm is not configured, or
    /// the error that ended the reading.
    pub result: Result<Option<AlarmConfigView>, ErrorView>,
}

/// What reading `alarm` gives.
///
/// An alarm whose name is not set is not configured. Of one that is, the
/// value is checked first, then the period, the data points and the data
/// points to alarm are read in this order; the first error ends the reading,
/// after the warnings of what was read before it.
pub open spec fn alarm_outcome(vars: Variables, defaults: Defaults, alarm: AlarmView)
    -> AlarmOutcome {
    if !vars.contains_key(alarm.name) {
        AlarmOutcome { warnings: Seq::empty(), result: Ok(None) }
    } else if let Some(error) = value_error(vars, alarm) {
        AlarmOutcome { warnings: Seq::empty(), result: Err(error) }
    } else {
        match tunable_step(vars, defaults, alarm, Tunable::PeriodMinutes) {
            (first, Err(error)) => AlarmOutcome { warnings: first, result: Err(error) },
            (first, Ok(period_minutes)) => match tunable_step(
                vars,
                defaults,
                alarm,
                Tunable::DataPoints,
            ) {
                (second, Err(error)) => AlarmOutcome {
                    warnings: first + second,
                    result: Err(error),
                },
                (second, Ok(data_points)) => match tunable_step(
                    vars,
                    defaults,
                    alarm,
                    Tunable::DataPointsToAlarm,
                ) {
                    (third, Err(error)) => AlarmOutcome {
                        warnings: first + second + third,
                        result: Err(error),
                    },
                    (third, Ok(data_points_to_alarm)) => AlarmOutcome {
                        warnings: first + second + third,
                        result: Ok(
                            Some(
                                AlarmConfigView {
                                    value: vars[alarm.name],
                                    period_minutes,
                                    data_points,
                                    data_points_to_alarm,
                                },
                            ),
                        ),
                    },
                },
            },
        }
    }
}

/// What reading a list of alarms gives.
pub struct Outcome {
    /// The warnings that were given, in order.
    pub warnings: Seq<ClampWarningView>,
    /// The configurations by alarm, or the error that ended the reading.
    pub result: Result<Map<AlarmView, AlarmConfigView>, ErrorView>,
}

/// What reading `alarms` one after the other gives, up to the first error.
pub open spec fn alarms_outcome(vars: Variables, defaults: Defaults, alarms: Seq<AlarmView>)
    -> Outcome
    decreases alarms.len(),
{
    if alarms.len() == 0 {
        Outcome { warnings: Seq::empty(), result: Ok(Map::empty()) }
    } else {
        let before = alarms_outcome(vars, defaults, alarms.drop_last());
        let last = alarm_outcome(vars, defaults, alarms.last());
        match before.result {
            Err(_) => before,
            Ok(configs) => Outcome {
                warnings: before.warnings + last.warnings,
                result: match last.result {
                    Err(error) => Err(error),
                    Ok(None) => Ok(configs),
                    Ok(Some(config)) => Ok(configs.insert(alarms.last(), config)),
                },
            },
        }
    }
}

/// What reading the configuration of `alarms` from `vars` gives: the global
/// defaults first, then the alarms in order.
pub open spec fn resolution(vars: Variables, alarms: Seq<AlarmView>) -> Outcome {
    match global_defaults(vars) {
        Err(error) => Outcome { warnings: Seq::empty(), result: Err(error) },
        Ok(defaults) => alarms_outcome(vars, defaults, alarms),
    }
}

/// The alarms of `alarms` as plain values, in order.
pub open spec fn alarm_views(alarms: Seq<Alarm>) -> Seq<AlarmView> {
    alarms.map_values(|alarm: Alarm| alarm@)
}

/// `result` is `expected`, the error taken as a plain value.
pub open spec fn is_result<T>(result: Result<T, Error>, expected: Result<T, ErrorView>) -> bool {
    match (result, expected) {
        (Ok(value), Ok(wanted)) => value == wanted,
        (Err(error), Err(wanted)) => error@ == wanted,
        _ => false,
    }
}

/// Reading one alarm more adds its outcome to that of the alarms before it.
pub proof fn lemma_outcome_of_next(
    vars: Variables,
    defaults: Defaults,
    alarms: Seq<AlarmView>,
    n: int,
)
    requires
        0 <= n < alarms.len(),
    ensures
        alarms_outcome(vars, defaults, alarms.take(n + 1)) == ({
            let before = alarms_outcome(vars, defaults, alarms.take(n));
            let next = alarm_outcome(vars, defaults, alarms[n]);
            match before.result {
                Err(_) => before,
                Ok(configs) => Outcome {
                    warnings: before.warnings + next.warnings,
                    result: match next.result {
                        Err(error) => Err(error),
                        Ok(None) => Ok(configs),
                        Ok(Some(config)) => Ok(configs.insert(alarms[n], config)),
                    },
                },
            }
        }),
{
    assert(alarms.take(n + 1).drop_last() =~= alarms.take(n));
}

/// Once the reading has ended in an error, the alarms that follow change
/// nothing.
pub proof fn lemma_error_ends_reading(
    vars: Variables,
    defaults: Defaults,
    alarms: Seq<AlarmView>,
    n: int,
)
    requires
        0 <= n <= alarms.len(),
        alarms_outcome(vars, defaults, alarms.take(n)).result is Err,
    ensures
        alarms_outcome(vars, defaults, alarms) == alarms_outcome(vars, defaults, alarms.take(n)),
    decreases alarms.len() - n,
{
    if n < alarms.len() {
        lemma_outcome_of_next(vars, defaults, alarms, n);
        lemma_error_ends_reading(vars, defaults, alarms, n + 1);
    } else {
        assert(alarms.take(n) =~= alarms);
    }
}

} // verus!
