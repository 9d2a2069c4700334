//! The variables that a configuration is read from.
//!
//! An [`Environment`] is a finite mapping from names to values, both text. It
//! stands for the variables of a process without being them: reading a
//! configuration never touches anything but the mapping it is handed.

use vstd::hash_map::StringHashMap;
use vstd::prelude::*;

verus! {

/// A set of named text values.
pub struct Environment {
    vars: StringHashMap<String>,
}

impl View for Environment {
    type V = Map<Seq<char>, Seq<char>>;

    closed spec fn view(&self) -> Map<Seq<char>, Seq<char>> {
        self.vars@.map_values(|value: String| value@)
    }
}

impl Environment {
    /// An environment in which no variable is set.
    pub fn new() -> (env: Environment)
        ensures
            env@ == Map::<Seq<char>, Seq<char>>::empty(),
    {
        let env = Environment { vars: StringHashMap::new() };
        assert(env@ =~= Map::<Seq<char>, Seq<char>>::empty());
        env
    }

    /// Sets the variable `key` to `value`, whether or not it was set before.
    pub fn set_var(&mut self, key: &str, value: &str)
        ensures
            final(self)@ == old(self)@.insert(key@, value@),
    {
        self.vars.insert(key.to_owned(), value.to_owned());
        assert(self@ =~= old(self)@.insert(key@, value@));
    }

    /// Removes the variable `key`, if it is set.
    pub fn remove_var(&mut self, key: &str)
        ensures
            final(self)@ == old(self)@.remove(key@),
    {
        self.vars.remove(key);
        assert(self@ =~= old(self)@.remove(key@));
    }

    /// The value of the variable `key`, if it is set.
    pub fn var(&self, key: &str) -> (value: Option<&String>)
        ensures
            value is Some <==> self@.contains_key(key@),
            value matches Some(text) ==> text@ == self@[key@],
    {
        self.vars.get(key)
    }

    /// Whether the variable `key` is set.
    pub fn is_set(&self, key: &str) -> (set: bool)
        ensures
            set == self@.contains_key(key@),
    {
        self.vars.contains_key(key)
    }
}

} // verus!
