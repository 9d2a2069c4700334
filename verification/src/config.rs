//! The configuration of the alarms, read from an [`Environment`].

use crate::alarm::{Alarm, AlarmCategory, AlarmView};
use crate::environment::Environment;
use crate::error::{Error, ErrorView};
use crate::float::check_float;
use crate::integer::parse_u16;
use crate::resolution::{
    alarm_outcome, alarm_views, alarms_outcome, global_defaults, is_result, lemma_error_ends_reading,
    lemma_outcome_of_next, resolution, setting, tunable_step, Variables,
};
use crate::tunable::{
    warning_views, ClampWarning, ClampWarningView, Defaults, Tunable, MIN_DATA_POINTS,
    MIN_DATA_POINTS_TO_ALARM, MIN_PERIOD_MINUTES,
};
use vstd::prelude::*;

verus! {

/// The configuration of one alarm.
#[derive(Debug)]
pub struct AlarmConfig {
    value: String,
    period_minutes: u16,
    data_points: u16,
    data_points_to_alarm: u16,
}

/// An [`AlarmConfig`] as a plain value.
pub struct AlarmConfigView {
    pub value: Seq<char>,
    pub period_minutes: u16,
    pub data_points: u16,
    pub data_points_to_alarm: u16,
}

impl AlarmConfigView {
    /// The value that the configuration holds for `tunable`.
    pub open spec fn of(self, tunable: Tunable) -> u16 {
        match tunable {
            Tunable::PeriodMinutes => self.period_minutes,
            Tunable::DataPoints => self.data_points,
            Tunable::DataPointsToAlarm => self.data_points_to_alarm,
        }
    }

    /// No tunable is below its minimum.
    pub open spec fn in_range(self) -> bool {
        &&& self.period_minutes >= MIN_PERIOD_MINUTES
        &&& self.data_points >= MIN_DATA_POINTS
        &&& self.data_points_to_alarm >= MIN_DATA_POINTS_TO_ALARM
    }
}

impl View for AlarmConfig {
    type V = AlarmConfigView;

    closed spec fn view(&self) -> AlarmConfigView {
        AlarmConfigView {
            value: self.value@,
            period_minutes: self.period_minutes,
            data_points: self.data_points,
            data_points_to_alarm: self.data_points_to_alarm,
        }
    }
}

impl AlarmConfig {
    #[verifier::type_invariant]
    spec fn well_formed(self) -> bool {
        self@.in_range()
    }

    /// The configuration with the given value and tunables, unless a tunable
    /// is below its minimum.
    pub fn new(
        value: String,
        period_minutes: u16,
        data_points: u16,
        data_points_to_alarm: u16,
    ) -> (config: Option<AlarmConfig>)
        ensures
            config is Some <==> (AlarmConfigView {
                value: value@,
                period_minutes,
                data_points,
                data_points_to_alarm,
            }).in_range(),
            config matches Some(c) ==> c@ == (AlarmConfigView {
                value: value@,
                period_minutes,
                data_points,
                data_points_to_alarm,
            }),
    {
        if period_minutes >= MIN_PERIOD_MINUTES && data_points >= MIN_DATA_POINTS
            && data_points_to_alarm >= MIN_DATA_POINTS_TO_ALARM {
            Some(AlarmConfig { value, period_minutes, data_points, data_points_to_alarm })
        } else {
            None
        }
    }

    /// The configured value, as it was written.
    pub fn value(&self) -> (value: &String)
        ensures
            value@ == self@.value,
    {
        &self.value
    }

    /// The length of one evaluation period, in minutes.
    pub fn period_minutes(&self) -> (minutes: u16)
        ensures
            minutes == self@.period_minutes,
            minutes >= MIN_PERIOD_MINUTES,
    {
        proof {
            use_type_invariant(self);
        }
        self.period_minutes
    }

    /// The number of periods that are looked at.
    pub fn data_points(&self) -> (points: u16)
        ensures
            points == self@.data_points,
            points >= MIN_DATA_POINTS,
    {
        proof {
            use_type_invariant(self);
        }
        self.data_points
    }

    /// The number of periods that have to breach for the alarm to fire.
    pub fn data_points_to_alarm(&self) -> (points: u16)
        ensures
            points == self@.data_points_to_alarm,
            points >= MIN_DATA_POINTS_TO_ALARM,
    {
        proof {
            use_type_invariant(self);
        }
        self.data_points_to_alarm
    }
}

impl Clone for AlarmConfig {
    fn clone(&self) -> (config: AlarmConfig)
        ensures
            config@ == self@,
    {
        proof {
            use_type_invariant(self);
        }
        AlarmConfig {
            value: self.value.clone(),
            period_minutes: self.period_minutes,
            data_points: self.data_points,
            data_points_to_alarm: self.data_points_to_alarm,
        }
    }
}

/// The alarms of `entries` as plain values, in order.
pub open spec fn entry_keys(entries: Seq<(Alarm, AlarmConfig)>) -> Seq<AlarmView> {
    entries.map_values(|entry: (Alarm, AlarmConfig)| entry.0@)
}

/// The configurations of the alarms that are configured, by alarm.
#[derive(Debug)]
pub struct AlarmConfigs {
    entries: Vec<(Alarm, AlarmConfig)>,
}

impl View for AlarmConfigs {
    type V = Map<AlarmView, AlarmConfigView>;

    closed spec fn view(&self) -> Map<AlarmView, AlarmConfigView> {
        let keys = entry_keys(self.entries@);
        Map::new(
            |alarm: AlarmView| keys.contains(alarm),
            |alarm: AlarmView| self.entries@[keys.index_of(alarm)].1@,
        )
    }
}

impl AlarmConfigs {
    #[verifier::type_invariant]
    spec fn well_formed(self) -> bool {
        entry_keys(self.entries@).no_duplicates()
    }

    /// No configuration at all.
    pub fn new() -> (configs: AlarmConfigs)
        ensures
            configs@ == Map::<AlarmView, AlarmConfigView>::empty(),
    {
        let configs = AlarmConfigs { entries: Vec::new() };
        assert(configs@ =~= Map::<AlarmView, AlarmConfigView>::empty());
        configs
    }

    /// Where `alarm` stands among the entries, if it does.
    fn position(&self, alarm: &Alarm) -> (at: Option<usize>)
        ensures
            entry_keys(self.entries@).no_duplicates(),
            match at {
                Some(i) => i < self.entries.len() && entry_keys(self.entries@)[i as int] == alarm@,
                None => !entry_keys(self.entries@).contains(alarm@),
            },
    {
        proof {
            use_type_invariant(self);
        }
        let ghost keys = entry_keys(self.entries@);
        let mut i: usize = 0;
        while i < self.entries.len()
            invariant
                i <= self.entries.len(),
                keys == entry_keys(self.entries@),
                keys.no_duplicates(),
                forall|j: int| 0 <= j < i ==> #[trigger] keys[j] != alarm@,
            decreases self.entries.len() - i,
        {
            if self.entries[i].0 == *alarm {
                return Some(i);
            }
            i = i + 1;
        }
        None
    }

    /// Makes `config` the configuration of `alarm`, in place of the one it
    /// had, if any.
    pub fn insert(&mut self, alarm: Alarm, config: AlarmConfig)
        ensures
            final(self)@ == old(self)@.insert(alarm@, config@),
    {
        let at = self.position(&alarm);
        let ghost keys = entry_keys(self.entries@);
        let mut entries: Vec<(Alarm, AlarmConfig)> = Vec::new();
        core::mem::swap(&mut self.entries, &mut entries);
        match at {
            Some(i) => {
                entries.set(i, (alarm, config));
                assert(entry_keys(entries@) =~= keys);
            },
            None => {
                entries.push((alarm, config));
                assert(entry_keys(entries@) =~= keys.push(alarm@));
            },
        }
        self.entries = entries;
        proof {
            let after = entry_keys(self.entries@);
            assert forall|a: AlarmView| #[trigger]
                after.contains(a) <==> (keys.contains(a) || a == alarm@) by {
                if keys.contains(a) {
                    assert(after[keys.index_of(a)] == a);
                }
                if a == alarm@ {
                    if at is None {
                        assert(after[keys.len() as int] == a);
                    }
                }
            }
            assert forall|a: AlarmView| after.contains(a) && a != alarm@ implies after.index_of(a)
                == keys.index_of(a) by {
                assert(after[keys.index_of(a)] == a);
            }
            assert(self@ =~= old(self)@.insert(alarm@, config@));
        }
    }

    /// The configuration of `alarm`, if it has one.
    pub fn get(&self, alarm: &Alarm) -> (config: Option<&AlarmConfig>)
        ensures
            config is Some <==> self@.contains_key(alarm@),
            config matches Some(c) ==> c@ == self@[alarm@],
    {
        match self.position(alarm) {
            Some(i) => Some(&self.entries[i].1),
            None => None,
        }
    }

    /// Whether `alarm` has a configuration.
    pub fn contains(&self, alarm: &Alarm) -> (found: bool)
        ensures
            found == self@.contains_key(alarm@),
    {
        self.get(alarm).is_some()
    }

    /// The number of alarms that have a configuration.
    pub fn len(&self) -> (n: usize)
        ensures
            n == self@.len(),
            self@.dom().finite(),
    {
        proof {
            use_type_invariant(self);
            let keys = entry_keys(self.entries@);
            keys.unique_seq_to_set();
            vstd::seq_lib::seq_to_set_is_finite(keys);
            assert(self@.dom() =~= keys.to_set());
        }
        self.entries.len()
    }

    /// Whether no alarm has a configuration.
    pub fn is_empty(&self) -> (empty: bool)
        ensures
            empty == self@.is_empty(),
    {
        proof {
            let keys = entry_keys(self.entries@);
            if keys.len() > 0 {
                assert(keys.contains(keys[0]));
                assert(self@.dom().contains(keys[0]));
            }
        }
        self.entries.len() == 0
    }

    /// The alarms that have a configuration, each once and with it.
    pub fn entries(&self) -> (entries: &Vec<(Alarm, AlarmConfig)>)
        ensures
            entry_keys(entries@).no_duplicates(),
            forall|alarm: AlarmView| self@.contains_key(alarm) <==> entry_keys(entries@).contains(alarm),
            forall|i: int|
                0 <= i < entries.len() ==> self@[#[trigger] entries[i].0@] == entries[i].1@,
    {
        proof {
            use_type_invariant(self);
            let keys = entry_keys(self.entries@);
            assert forall|i: int| 0 <= i < self.entries.len() implies self@[#[trigger] self.entries[i].0@]
                == self.entries[i].1@ by {
                assert(keys[i] == self.entries[i].0@);
            }
        }
        &self.entries
    }
}

/// The name in the error of [`required`] on `vars`: that of the first
/// setting that is missing, none where all that is needed is there.
///
/// Four variables have to be set. Of the two ways to deliver an alarm, a web
/// hook and a pager, one has to be configured, and the pager needs its source
/// and its routing key beside its token.
pub open spec fn missing_setting(vars: Variables) -> Option<Seq<char>> {
    if !vars.contains_key("RAILWAY_API_TOKEN"@) {
        Some("RAILWAY_API_TOKEN"@)
    } else if !vars.contains_key("ALARM_TOKEN"@) {
        Some("ALARM_TOKEN"@)
    } else if !vars.contains_key("RAILWAY_PROJECT_ID"@) {
        Some("RAILWAY_PROJECT_ID"@)
    } else if !vars.contains_key("RAILWAY_MONITORED_SERVICE_ID"@) {
        Some("RAILWAY_MONITORED_SERVICE_ID"@)
    } else if !vars.contains_key("WEB_HOOK_URL"@) && !vars.contains_key("PAGER_DUTY_TOKEN"@) {
        Some(
            "WEB_HOOK_URL or the combination PAGER_DUTY_TOKEN + PAGER_DUTY_SOURCE + PAGER_DUTY_ROUTING_KEY"@,
        )
    } else if vars.contains_key("PAGER_DUTY_TOKEN"@) && (!vars.contains_key("PAGER_DUTY_SOURCE"@)
        || !vars.contains_key("PAGER_DUTY_ROUTING_KEY"@)) {
        Some("PAGER_DUTY_SOURCE and PAGER_DUTY_ROUTING_KEY are required if PagerDuty is integrated"@)
    } else {
        None
    }
}

/// The value of the variable `name`, which has to be set.
fn required_var(env: &Environment, name: &'static str) -> (r: Result<String, Error>)
    ensures
        match r {
            Ok(value) => env@.contains_key(name@) && value@ == env@[name@],
            Err(error) => !env@.contains_key(name@) && error@ == ErrorView::MissingEnvVar(name@),
        },
{
    match env.var(name) {
        Some(value) => Ok(value.clone()),
        None => Err(Error::MissingEnvVar(name)),
    }
}

/// The settings that have to be there: the API token, the alarm token, the
/// project and the monitored service, in this order.
///
/// Fails with the name of the first setting that is missing.
pub fn required(env: &Environment) -> (r: Result<(String, String, String, String), Error>)
    ensures
        match missing_setting(env@) {
            Some(name) => r matches Err(error) && error@ == ErrorView::MissingEnvVar(name),
            None => r matches Ok(settings) && settings.0@ == env@["RAILWAY_API_TOKEN"@]
                && settings.1@ == env@["ALARM_TOKEN"@] && settings.2@ == env@["RAILWAY_PROJECT_ID"@]
                && settings.3@ == env@["RAILWAY_MONITORED_SERVICE_ID"@],
        },
{
    let railway_api_token = match required_var(env, "RAILWAY_API_TOKEN") {
        Ok(value) => value,
        Err(error) => return Err(error),
    };
    let alarm_token = match required_var(env, "ALARM_TOKEN") {
        Ok(value) => value,
        Err(error) => return Err(error),
    };
    let project_id = match required_var(env, "RAILWAY_PROJECT_ID") {
        Ok(value) => value,
        Err(error) => return Err(error),
    };
    let service_id = match required_var(env, "RAILWAY_MONITORED_SERVICE_ID") {
        Ok(value) => value,
        Err(error) => return Err(error),
    };
    if !env.is_set("WEB_HOOK_URL") && !env.is_set("PAGER_DUTY_TOKEN") {
        return Err(
            Error::MissingEnvVar(
                "WEB_HOOK_URL or the combination PAGER_DUTY_TOKEN + PAGER_DUTY_SOURCE + PAGER_DUTY_ROUTING_KEY",
            ),
        );
    }
    if env.is_set("PAGER_DUTY_TOKEN") && (!env.is_set("PAGER_DUTY_SOURCE") || !env.is_set(
        "PAGER_DUTY_ROUTING_KEY",
    )) {
        return Err(
            Error::MissingEnvVar(
                "PAGER_DUTY_SOURCE and PAGER_DUTY_ROUTING_KEY are required if PagerDuty is integrated",
            ),
        );
    }
    Ok((railway_api_token, alarm_token, project_id, service_id))
}

/// The number that the variable `key` is set to, or `fallback` where it is
/// not set.
fn read_setting(env: &Environment, key: String, fallback: u16) -> (r: Result<u16, Error>)
    ensures
        is_result(
            r,
            match setting(env@, key@, fallback) {
                Ok(value) => Ok(value),
                Err(fault) => Err(ErrorView::ParseIntWithMetadata(fault, key@)),
            },
        ),
{
    match env.var(key.as_str()) {
        Some(text) => match parse_u16(text.as_str()) {
            Ok(value) => Ok(value),
            Err(fault) => Err(Error::ParseIntWithMetadata(fault, key)),
        },
        None => Ok(fallback),
    }
}

/// The values of the three tunables for the alarms that do not set them
/// themselves.
fn read_defaults(env: &Environment) -> (r: Result<Defaults, Error>)
    ensures
        is_result(r, global_defaults(env@)),
{
    let period_minutes = match read_setting(
        env,
        Tunable::PeriodMinutes.global_name().to_owned(),
        Tunable::PeriodMinutes.default_value(),
    ) {
        Ok(value) => value,
        Err(error) => return Err(error),
    };
    let data_points = match read_setting(
        env,
        Tunable::DataPoints.global_name().to_owned(),
        Tunable::DataPoints.default_value(),
    ) {
        Ok(value) => value,
        Err(error) => return Err(error),
    };
    let data_points_to_alarm = match read_setting(
        env,
        Tunable::DataPointsToAlarm.global_name().to_owned(),
        Tunable::DataPointsToAlarm.default_value(),
    ) {
        Ok(value) => value,
        Err(error) => return Err(error),
    };
    Ok(Defaults { period_minutes, data_points, data_points_to_alarm })
}

/// Reads `tunable` of `alarm`, raises it to its minimum where it is below,
/// and says so in `warnings`.
fn read_tunable(
    env: &Environment,
    defaults: &Defaults,
    alarm: &Alarm,
    tunable: Tunable,
    warnings: &mut Vec<ClampWarning>,
) -> (r: Result<u16, Error>)
    ensures
        warning_views(final(warnings)@) == warning_views(old(warnings)@) + tunable_step(
            env@,
            *defaults,
            alarm@,
            tunable,
        ).0,
        is_result(r, tunable_step(env@, *defaults, alarm@, tunable).1),
{
    let key = alarm.name_with(tunable.suffix());
    let value = match env.var(key.as_str()) {
        Some(text) => match parse_u16(text.as_str()) {
            Ok(value) => value,
            Err(fault) => {
                assert(warning_views(warnings@) =~= warning_views(old(warnings)@)
                    + Seq::<ClampWarningView>::empty());
                return Err(Error::ParseIntWithMetadata(fault, key));
            },
        },
        None => defaults.get(tunable),
    };
    let minimum = tunable.minimum();
    if value < minimum {
        let warning = ClampWarning { key, minimum };
        warnings.push(warning);
        assert(warning_views(warnings@) =~= warning_views(old(warnings)@) + seq![warning@]);
        Ok(minimum)
    } else {
        assert(warning_views(warnings@) =~= warning_views(old(warnings)@)
            + Seq::<ClampWarningView>::empty());
        Ok(value)
    }
}

/// Reads the configuration of `alarm`, if it has one.
fn read_alarm(
    env: &Environment,
    defaults: &Defaults,
    alarm: &Alarm,
    warnings: &mut Vec<ClampWarning>,
) -> (r: Result<Option<AlarmConfig>, Error>)
    ensures
        warning_views(final(warnings)@) == warning_views(old(warnings)@) + alarm_outcome(
            env@,
            *defaults,
            alarm@,
        ).warnings,
        match alarm_outcome(env@, *defaults, alarm@).result {
            Ok(None) => r matches Ok(None),
            Ok(Some(wanted)) => r matches Ok(Some(config)) && config@ == wanted,
            Err(wanted) => r matches Err(error) && error@ == wanted,
        },
{
    let ghost before = warning_views(warnings@);
    assert(before =~= before + Seq::<ClampWarningView>::empty());
    let value = match env.var(alarm.name()) {
        Some(text) => text.clone(),
        None => return Ok(None),
    };
    if alarm.category() == AlarmCategory::Numeric {
        match check_float(value.as_str()) {
            Ok(_) => {},
            Err(fault) => return Err(
                Error::ParseFloatWithMetadata(fault, alarm.name().to_owned()),
            ),
        }
    }
    let ghost first = tunable_step(env@, *defaults, alarm@, Tunable::PeriodMinutes).0;
    let ghost second = tunable_step(env@, *defaults, alarm@, Tunable::DataPoints).0;
    let ghost third = tunable_step(env@, *defaults, alarm@, Tunable::DataPointsToAlarm).0;
    let period_minutes = match read_tunable(env, defaults, alarm, Tunable::PeriodMinutes, warnings) {
        Ok(value) => value,
        Err(error) => return Err(error),
    };
    let data_points = match read_tunable(env, defaults, alarm, Tunable::DataPoints, warnings) {
        Ok(value) => value,
        Err(error) => {
            assert(before + first + second =~= before + (first + second));
            return Err(error);
        },
    };
    let data_points_to_alarm = match read_tunable(
        env,
        defaults,
        alarm,
        Tunable::DataPointsToAlarm,
        warnings,
    ) {
        Ok(value) => value,
        Err(error) => {
            assert(before + first + second + third =~= before + (first + second + third));
            return Err(error);
        },
    };
    assert(before + first + second + third =~= before + (first + second + third));
    Ok(Some(AlarmConfig { value, period_minutes, data_points, data_points_to_alarm }))
}

/// Reads the configuration of `alarms` from `env`.
///
/// The global defaults of the three tunables are read first, then the alarms
/// in the order of `alarms`. An alarm whose name is not set in `env` gets no
/// configuration. Of one whose name is set, the value is kept as it is
/// written, and has to be the text of a floating-point number unless the
/// alarm is a signal; each tunable comes from the alarm's own variable, else
/// from the global default, and is raised to its minimum where it is below,
/// with a warning added to `warnings`. The first variable that cannot be read
/// ends the reading with its error; the warnings given until then stay.
pub fn optional(env: &Environment, alarms: &Vec<Alarm>, warnings: &mut Vec<ClampWarning>) -> (r:
    Result<AlarmConfigs, Error>)
    ensures
        warning_views(final(warnings)@) == warning_views(old(warnings)@) + resolution(
            env@,
            alarm_views(alarms@),
        ).warnings,
        match resolution(env@, alarm_views(alarms@)).result {
            Ok(wanted) => r matches Ok(configs) && configs@ == wanted,
            Err(wanted) => r matches Err(error) && error@ == wanted,
        },
{
    let ghost before = warning_views(warnings@);
    let ghost views = alarm_views(alarms@);
    assert(before =~= before + Seq::<ClampWarningView>::empty());
    let defaults = match read_defaults(env) {
        Ok(defaults) => defaults,
        Err(error) => return Err(error),
    };
    let mut configs = AlarmConfigs::new();
    let mut i: usize = 0;
    assert(views.take(0) =~= Seq::<AlarmView>::empty());
    while i < alarms.len()
        invariant
            i <= alarms.len(),
            views == alarm_views(alarms@),
            before == warning_views(old(warnings)@),
            global_defaults(env@) == Ok::<Defaults, ErrorView>(defaults),
            alarms_outcome(env@, defaults, views.take(i as int)).result == Ok::<
                Map<AlarmView, AlarmConfigView>,
                ErrorView,
            >(configs@),
            warning_views(warnings@) == before + alarms_outcome(
                env@,
                defaults,
                views.take(i as int),
            ).warnings,
        decreases alarms.len() - i,
    {
        let ghost done = alarms_outcome(env@, defaults, views.take(i as int)).warnings;
        let ghost next = alarm_outcome(env@, defaults, views[i as int]).warnings;
        proof {
            lemma_outcome_of_next(env@, defaults, views, i as int);
            assert(before + done + next =~= before + (done + next));
        }
        match read_alarm(env, &defaults, &alarms[i], warnings) {
            Ok(Some(config)) => {
                configs.insert(alarms[i].clone(), config);
            },
            Ok(None) => {},
            Err(error) => {
                proof {
                    lemma_error_ends_reading(env@, defaults, views, i + 1);
                }
                return Err(error);
            },
        }
        i = i + 1;
    }
    assert(views.take(i as int) =~= views);
    Ok(configs)
}

} // verus!
