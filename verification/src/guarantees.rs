//! What holds of every configuration that is read, proved from the model in
//! [`crate::resolution`].

use crate::alarm::{AlarmCategory, AlarmView};
use crate::config::AlarmConfigView;
use crate::error::ErrorView;
use crate::float::{checked_float, FloatFault};
use crate::integer::{parsed_u16, IntegerFault};
use crate::resolution::{
    alarm_outcome, alarms_outcome, global_default, global_defaults, resolution, scoped_key,
    scoped_setting, Variables,
};
use crate::tunable::{at_least, ClampWarningView, Defaults, Tunable};
use vstd::prelude::*;

verus! {

/// Reading alarms in order either gets through all of them or stops at the
/// first one that fails.
///
/// Where it gets through, no alarm failed, the alarms that have a
/// configuration are those of the list whose name is set, and each has the
/// configuration that reading it alone gives. Where it stops, the error is
/// that of the first alarm in the list that fails.
pub proof fn lemma_alarms_in_order(vars: Variables, defaults: Defaults, alarms: Seq<AlarmView>)
    ensures
        match alarms_outcome(vars, defaults, alarms).result {
            Ok(configs) => {
                &&& forall|i: int|
                    0 <= i < alarms.len() ==> (#[trigger] alarm_outcome(
                        vars,
                        defaults,
                        alarms[i],
                    )).result is Ok
                &&& forall|alarm: AlarmView| #[trigger]
                    configs.contains_key(alarm) <==> alarms.contains(alarm) && vars.contains_key(
                        alarm.name,
                    )
                &&& forall|alarm: AlarmView| #[trigger]
                    configs.contains_key(alarm) ==> alarm_outcome(vars, defaults, alarm).result
                        == Ok::<Option<AlarmConfigView>, ErrorView>(Some(configs[alarm]))
            },
            Err(error) => exists|i: int|
                {
                    &&& 0 <= i < alarms.len()
                    &&& (#[trigger] alarm_outcome(vars, defaults, alarms[i])).result == Err::<
                        Option<AlarmConfigView>,
                        ErrorView,
                    >(error)
                    &&& forall|j: int|
                        0 <= j < i ==> (#[trigger] alarm_outcome(
                            vars,
                            defaults,
                            alarms[j],
                        )).result is Ok
                },
        },
    decreases alarms.len(),
{
    if alarms.len() > 0 {
        let front = alarms.drop_last();
        let last = alarms.last();
        let n = alarms.len() - 1;
        lemma_alarms_in_order(vars, defaults, front);
        assert(forall|i: int| 0 <= i < n ==> front[i] == alarms[i]);
        match alarms_outcome(vars, defaults, front).result {
            Ok(before) => {
                match alarm_outcome(vars, defaults, last).result {
                    Ok(step) => {
                        let configs = alarms_outcome(vars, defaults, alarms).result->Ok_0;
                        assert forall|i: int| 0 <= i < alarms.len() implies (#[trigger] alarm_outcome(
                            vars,
                            defaults,
                            alarms[i],
                        )).result is Ok by {
                            if i < n {
                                assert(front[i] == alarms[i]);
                            }
                        }
                        assert forall|alarm: AlarmView| #[trigger]
                            configs.contains_key(alarm) <==> alarms.contains(alarm)
                                && vars.contains_key(alarm.name) by {
                            if alarms.contains(alarm) {
                                let i = choose|i: int| 0 <= i < alarms.len() && alarms[i] == alarm;
                                if i < n {
                                    assert(front[i] == alarm);
                                }
                            }
                            if front.contains(alarm) {
                                let i = choose|i: int| 0 <= i < front.len() && front[i] == alarm;
                                assert(alarms[i] == alarm);
                            }
                            if alarm == last {
                                assert(alarms[n] == alarm);
                            }
                        }
                    },
                    Err(error) => {
                        assert(alarm_outcome(vars, defaults, alarms[n]).result == Err::<
                            Option<AlarmConfigView>,
                            ErrorView,
                        >(error));
                        assert forall|j: int| 0 <= j < n implies (#[trigger] alarm_outcome(
                            vars,
                            defaults,
                            alarms[j],
                        )).result is Ok by {
                            assert(front[j] == alarms[j]);
                        }
                    },
                }
            },
            Err(error) => {
                let i = choose|i: int|
                    {
                        &&& 0 <= i < front.len()
                        &&& (#[trigger] alarm_outcome(vars, defaults, front[i])).result == Err::<
                            Option<AlarmConfigView>,
                            ErrorView,
                        >(error)
                        &&& forall|j: int|
                            0 <= j < i ==> (#[trigger] alarm_outcome(
                                vars,
                                defaults,
                                front[j],
                            )).result is Ok
                    };
                assert(alarms[i] == front[i]);
                assert forall|j: int| 0 <= j < i implies (#[trigger] alarm_outcome(
                    vars,
                    defaults,
                    alarms[j],
                )).result is Ok by {
                    assert(front[j] == alarms[j]);
                }
            },
        }
    }
}

/// Where the reading succeeds, an alarm has a configuration exactly if it is
/// one of the alarms that were read and its name is set. There are no more
/// configurations than alarms.
pub proof fn lemma_configured_alarms(vars: Variables, alarms: Seq<AlarmView>)
    requires
        resolution(vars, alarms).result is Ok,
    ensures
        forall|alarm: AlarmView| #[trigger]
            resolution(vars, alarms).result->Ok_0.contains_key(alarm) <==> alarms.contains(alarm)
                && vars.contains_key(alarm.name),
        resolution(vars, alarms).result->Ok_0.dom().finite(),
        resolution(vars, alarms).result->Ok_0.len() <= alarms.len(),
{
    let defaults = global_defaults(vars)->Ok_0;
    let configs = resolution(vars, alarms).result->Ok_0;
    lemma_alarms_in_order(vars, defaults, alarms);
    assert(configs.dom().subset_of(alarms.to_set()));
    vstd::seq_lib::seq_to_set_is_finite(alarms);
    vstd::set_lib::lemma_len_subset(configs.dom(), alarms.to_set());
    alarms.lemma_cardinality_of_set();
}

/// Where the reading succeeds, the value of a configuration is that of the
/// variable with the alarm's name, as it is written, and that of a numeric
/// alarm is the text of a floating-point number.
pub proof fn lemma_value_is_kept(vars: Variables, alarms: Seq<AlarmView>, alarm: AlarmView)
    requires
        resolution(vars, alarms).result is Ok,
        resolution(vars, alarms).result->Ok_0.contains_key(alarm),
    ensures
        resolution(vars, alarms).result->Ok_0[alarm].value == vars[alarm.name],
        alarm.category == AlarmCategory::Numeric ==> checked_float(
            resolution(vars, alarms).result->Ok_0[alarm].value,
        ) is Ok,
{
    lemma_alarms_in_order(vars, global_defaults(vars)->Ok_0, alarms);
}

/// Where the reading succeeds, a tunable of a configuration is the value that
/// is configured for it, unless that is below the minimum, which is 1: then
/// it is 1. So no tunable of a configuration is below 1.
pub proof fn lemma_tunable_is_clamped(
    vars: Variables,
    alarms: Seq<AlarmView>,
    alarm: AlarmView,
    tunable: Tunable,
)
    requires
        resolution(vars, alarms).result is Ok,
        resolution(vars, alarms).result->Ok_0.contains_key(alarm),
    ensures
        global_defaults(vars) is Ok,
        scoped_setting(vars, global_defaults(vars)->Ok_0, alarm, tunable) is Ok,
        ({
            let configured = scoped_setting(vars, global_defaults(vars)->Ok_0, alarm, tunable)->Ok_0;
            let kept = resolution(vars, alarms).result->Ok_0[alarm].of(tunable);
            if configured < 1 {
                kept == 1
            } else {
                kept == configured
            }
        }),
        resolution(vars, alarms).result->Ok_0[alarm].in_range(),
{
    lemma_alarms_in_order(vars, global_defaults(vars)->Ok_0, alarms);
}

/// Where the reading succeeds and an alarm does not set a tunable itself, the
/// value that is configured for it is the global default: that of the global
/// variable, and the built-in one, 1 for the period, 5 for the data points
/// and 3 for the data points to alarm, where the global variable is not set
/// either.
pub proof fn lemma_unset_tunable_is_default(
    vars: Variables,
    alarms: Seq<AlarmView>,
    alarm: AlarmView,
    tunable: Tunable,
)
    requires
        resolution(vars, alarms).result is Ok,
        resolution(vars, alarms).result->Ok_0.contains_key(alarm),
        !vars.contains_key(scoped_key(alarm, tunable)),
    ensures
        global_default(vars, tunable) is Ok,
        scoped_setting(vars, global_defaults(vars)->Ok_0, alarm, tunable) == global_default(
            vars,
            tunable,
        ),
        resolution(vars, alarms).result->Ok_0[alarm].of(tunable) == at_least(
            global_default(vars, tunable)->Ok_0,
            1,
        ),
        vars.contains_key(tunable.global_key()) ==> global_default(vars, tunable) == Ok::<
            u16,
            ErrorView,
        >(parsed_u16(vars[tunable.global_key()])->Ok_0),
        !vars.contains_key(tunable.global_key()) ==> resolution(
            vars,
            alarms,
        ).result->Ok_0[alarm].of(tunable) == match tunable {
            Tunable::PeriodMinutes => 1u16,
            Tunable::DataPoints => 5u16,
            Tunable::DataPointsToAlarm => 3u16,
        },
{
    lemma_alarms_in_order(vars, global_defaults(vars)->Ok_0, alarms);
}

/// A global variable of a tunable that is set to something else than an
/// unsigned 16-bit integer makes the whole reading fail, whatever the alarms.
pub proof fn lemma_malformed_global_fails(
    vars: Variables,
    alarms: Seq<AlarmView>,
    tunable: Tunable,
)
    requires
        vars.contains_key(tunable.global_key()),
        parsed_u16(vars[tunable.global_key()]) is Err,
    ensures
        resolution(vars, alarms).result is Err,
{
}

/// A tunable variable of a configured alarm that is set to something else
/// than an unsigned 16-bit integer makes the whole reading fail, whatever the
/// other alarms.
pub proof fn lemma_malformed_tunable_fails(
    vars: Variables,
    alarms: Seq<AlarmView>,
    alarm: AlarmView,
    tunable: Tunable,
)
    requires
        alarms.contains(alarm),
        vars.contains_key(alarm.name),
        vars.contains_key(scoped_key(alarm, tunable)),
        parsed_u16(vars[scoped_key(alarm, tunable)]) is Err,
    ensures
        resolution(vars, alarms).result is Err,
{
    if global_defaults(vars) is Ok {
        let defaults = global_defaults(vars)->Ok_0;
        lemma_alarms_in_order(vars, defaults, alarms);
        let i = choose|i: int| 0 <= i < alarms.len() && alarms[i] == alarm;
        assert(alarm_outcome(vars, defaults, alarms[i]).result is Err);
    }
}

/// A numeric alarm whose value is not the text of a floating-point number
/// makes the whole reading fail, whatever the other alarms.
pub proof fn lemma_malformed_value_fails(vars: Variables, alarms: Seq<AlarmView>, alarm: AlarmView)
    requires
        alarms.contains(alarm),
        alarm.category == AlarmCategory::Numeric,
        vars.contains_key(alarm.name),
        checked_float(vars[alarm.name]) is Err,
    ensures
        resolution(vars, alarms).result is Err,
{
    if global_defaults(vars) is Ok {
        let defaults = global_defaults(vars)->Ok_0;
        lemma_alarms_in_order(vars, defaults, alarms);
        let i = choose|i: int| 0 <= i < alarms.len() && alarms[i] == alarm;
        assert(alarm_outcome(vars, defaults, alarms[i]).result is Err);
    }
}

/// An error of the reading names a variable that is set and says why its
/// value cannot be read: as an integer, or, for the name of a numeric alarm,
/// as a floating-point number.
pub proof fn lemma_error_names_its_variable(vars: Variables, alarms: Seq<AlarmView>)
    requires
        resolution(vars, alarms).result is Err,
    ensures
        match resolution(vars, alarms).result->Err_0 {
            ErrorView::MissingEnvVar(_) => false,
            ErrorView::ParseIntWithMetadata(fault, key) => vars.contains_key(key) && parsed_u16(
                vars[key],
            ) == Err::<u16, IntegerFault>(fault),
            ErrorView::ParseFloatWithMetadata(fault, key) => vars.contains_key(key)
                && checked_float(vars[key]) == Err::<(), FloatFault>(fault),
        },
{
    if global_defaults(vars) is Ok {
        lemma_alarms_in_order(vars, global_defaults(vars)->Ok_0, alarms);
    }
}

/// An alarm whose name is not set changes nothing: the reading gives what it
/// gives without that alarm at the end of the list.
pub proof fn lemma_unset_alarm_is_skipped(
    vars: Variables,
    defaults: Defaults,
    alarms: Seq<AlarmView>,
    alarm: AlarmView,
)
    requires
        !vars.contains_key(alarm.name),
    ensures
        alarms_outcome(vars, defaults, alarms.push(alarm)) == alarms_outcome(vars, defaults, alarms),
{
    assert(alarms.push(alarm).drop_last() =~= alarms);
    let before = alarms_outcome(vars, defaults, alarms);
    assert(before.warnings + Seq::<ClampWarningView>::empty() =~= before.warnings);
}

} // verus!
