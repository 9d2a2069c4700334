//! The three tunables of an alarm's evaluation window.

use vstd::prelude::*;

verus! {

/// The period, in minutes, that is used when none is configured.
pub const DEFAULT_PERIOD_MINUTES: u16 = 1;

/// The shortest period, in minutes, that an alarm can have.
pub const MIN_PERIOD_MINUTES: u16 = 1;

/// The number of data points that is used when none is configured.
pub const DEFAULT_DATA_POINTS: u16 = 5;

/// The smallest number of data points that an alarm can have.
pub const MIN_DATA_POINTS: u16 = 1;

/// The number of data points to alarm that is used when none is configured.
pub const DEFAULT_DATA_POINTS_TO_ALARM: u16 = 3;

/// The smallest number of data points to alarm that an alarm can have.
pub const MIN_DATA_POINTS_TO_ALARM: u16 = 1;

/// One of the three numbers that say how an alarm's window is evaluated.
#[derive(Clone, Copy, Debug, PartialEq, Eq, Structural)]
pub enum Tunable {
    /// The length of one evaluation period, in minutes.
    PeriodMinutes,
    /// The number of periods that are looked at.
    DataPoints,
    /// The number of those periods that have to breach for the alarm to fire.
    DataPointsToAlarm,
}

impl Tunable {
    /// The name of the variable that sets this tunable for every alarm.
    pub open spec fn global_key(self) -> Seq<char> {
        match self {
            Tunable::PeriodMinutes => "PERIOD_MINUTES"@,
            Tunable::DataPoints => "DATA_POINTS"@,
            Tunable::DataPointsToAlarm => "DATA_POINTS_TO_ALARM"@,
        }
    }

    /// What follows an alarm's name in the variable that sets this tunable
    /// for that alarm alone.
    pub open spec fn scoped_suffix(self) -> Seq<char> {
        match self {
            Tunable::PeriodMinutes => "_PERIOD_MINUTES"@,
            Tunable::DataPoints => "_DATA_POINTS"@,
            Tunable::DataPointsToAlarm => "_DATA_POINTS_TO_ALARM"@,
        }
    }

    /// The value that is used when no variable sets this tunable.
    pub open spec fn built_in(self) -> u16 {
        match self {
            Tunable::PeriodMinutes => DEFAULT_PERIOD_MINUTES,
            Tunable::DataPoints => DEFAULT_DATA_POINTS,
            Tunable::DataPointsToAlarm => DEFAULT_DATA_POINTS_TO_ALARM,
        }
    }

    /// The smallest value that this tunable can have.
    pub open spec fn floor(self) -> u16 {
        match self {
            Tunable::PeriodMinutes => MIN_PERIOD_MINUTES,
            Tunable::DataPoints => MIN_DATA_POINTS,
            Tunable::DataPointsToAlarm => MIN_DATA_POINTS_TO_ALARM,
        }
    }

    /// The name of the variable that sets this tunable for every alarm.
    pub fn global_name(self) -> (name: &'static str)
        ensures
            name@ == self.global_key(),
    {
        match self {
            Tunable::PeriodMinutes => "PERIOD_MINUTES",
            Tunable::DataPoints => "DATA_POINTS",
            Tunable::DataPointsToAlarm => "DATA_POINTS_TO_ALARM",
        }
    }

    /// What follows an alarm's name in the variable that sets this tunable
    /// for that alarm alone.
    pub fn suffix(self) -> (suffix: &'static str)
        ensures
            suffix@ == self.scoped_suffix(),
    {
        match self {
            Tunable::PeriodMinutes => "_PERIOD_MINUTES",
            Tunable::DataPoints => "_DATA_POINTS",
            Tunable::DataPointsToAlarm => "_DATA_POINTS_TO_ALARM",
        }
    }

    /// The value that is used when no variable sets this tunable.
    pub fn default_value(self) -> (value: u16)
        ensures
            value == self.built_in(),
    {
        match self {
            Tunable::PeriodMinutes => DEFAULT_PERIOD_MINUTES,
            Tunable::DataPoints => DEFAULT_DATA_POINTS,
            Tunable::DataPointsToAlarm => DEFAULT_DATA_POINTS_TO_ALARM,
        }
    }

    /// The smallest value that this tunable can have.
    pub fn minimum(self) -> (value: u16)
        ensures
            value == self.floor(),
    {
        match self {
            Tunable::PeriodMinutes => MIN_PERIOD_MINUTES,
            Tunable::DataPoints => MIN_DATA_POINTS,
            Tunable::DataPointsToAlarm => MIN_DATA_POINTS_TO_ALARM,
        }
    }
}

/// `value`, or `floor` where `value` is below it.
pub open spec fn at_least(value: u16, floor: u16) -> u16 {
    if value < floor {
        floor
    } else {
        value
    }
}

/// A set of values for the three tunables.
#[derive(Clone, Copy, Debug, PartialEq, Eq, Structural)]
pub struct Defaults {
    pub period_minutes: u16,
    pub data_points: u16,
    pub data_points_to_alarm: u16,
}

impl Defaults {
    /// The value that the set holds for `tunable`.
    pub open spec fn of(self, tunable: Tunable) -> u16 {
        match tunable {
            Tunable::PeriodMinutes => self.period_minutes,
            Tunable::DataPoints => self.data_points,
            Tunable::DataPointsToAlarm => self.data_points_to_alarm,
        }
    }

    /// The value that the set holds for `tunable`.
    pub fn get(&self, tunable: Tunable) -> (value: u16)
        ensures
            value == self.of(tunable),
    {
        match tunable {
            Tunable::PeriodMinutes => self.period_minutes,
            Tunable::DataPoints => self.data_points,
            Tunable::DataPointsToAlarm => self.data_points_to_alarm,
        }
    }
}

/// The notice that a tunable was configured below its minimum and has been
/// raised to it.
#[derive(Debug)]
pub struct ClampWarning {
    /// The alarm-scoped variable of the tunable.
    pub key: String,
    /// The minimum that the tunable was raised to.
    pub minimum: u16,
}

/// A [`ClampWarning`] as a plain value.
pub struct ClampWarningView {
    pub key: Seq<char>,
    pub minimum: u16,
}

impl View for ClampWarning {
    type V = ClampWarningView;

    open spec fn view(&self) -> ClampWarningView {
        ClampWarningView { key: self.key@, minimum: self.minimum }
    }
}

/// The warnings of `warnings` as plain values, in order.
pub open spec fn warning_views(warnings: Seq<ClampWarning>) -> Seq<ClampWarningView> {
    warnings.map_values(|warning: ClampWarning| warning@)
}

} // verus!
