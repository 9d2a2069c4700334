//! The kinds of alarm that can be configured.

use vstd::prelude::*;
use vstd::std_specs::cmp::PartialEqSpecImpl;
use vstd::string::StringExecFns;

verus! {

/// What the configured value of an alarm is.
#[derive(Clone, Copy, Debug, PartialEq, Eq, Structural)]
pub enum AlarmCategory {
    /// A threshold: the value has to be the text of a floating-point number.
    Numeric,
    /// A signal without a threshold: any text is taken as the value.
    Signal,
}

/// One kind of alarm: the name under which it is configured, and its category.
#[derive(Debug)]
pub struct Alarm {
    name: String,
    category: AlarmCategory,
}

/// An [`Alarm`] as a plain value.
pub struct AlarmView {
    pub name: Seq<char>,
    pub category: AlarmCategory,
}

impl View for Alarm {
    type V = AlarmView;

    closed spec fn view(&self) -> AlarmView {
        AlarmView { name: self.name@, category: self.category }
    }
}

impl Alarm {
    /// The alarm that is configured under `name`, of the given category.
    pub fn new(name: &str, category: AlarmCategory) -> (alarm: Alarm)
        ensures
            alarm@ == (AlarmView { name: name@, category }),
    {
        Alarm { name: name.to_owned(), category }
    }

    /// The name under which the alarm is configured.
    pub fn name(&self) -> (name: &str)
        ensures
            name@ == self@.name,
    {
        self.name.as_str()
    }

    /// The category of the alarm.
    pub fn category(&self) -> (category: AlarmCategory)
        ensures
            category == self@.category,
    {
        self.category
    }

    /// The name of the alarm followed by `suffix`.
    pub fn name_with(&self, suffix: &str) -> (key: String)
        ensures
            key@ == self@.name + suffix@,
    {
        let mut key = self.name.clone();
        key.append(suffix);
        key
    }
}

impl Clone for Alarm {
    fn clone(&self) -> (alarm: Alarm)
        ensures
            alarm@ == self@,
    {
        Alarm { name: self.name.clone(), category: self.category }
    }
}

impl PartialEq for Alarm {
    fn eq(&self, other: &Alarm) -> (equal: bool) {
        self.name == other.name && self.category == other.category
    }
}

impl PartialEqSpecImpl for Alarm {
    open spec fn obeys_eq_spec() -> bool {
        true
    }

    open spec fn eq_spec(&self, other: &Alarm) -> bool {
        self@ == other@
    }
}

} // verus!
