//! Alarm threshold configuration, resolved from a flat string-keyed environment.
//!
//! Every alarm of a caller-supplied list is looked up by its name. The ones
//! that are configured get a record of their threshold and of three window
//! tunables, each taken from an alarm-scoped variable, else from a global
//! variable, else from a built-in default, and never below its minimum.

pub mod alarm;
pub mod config;
pub mod environment;
pub mod error;
pub mod float;
pub mod guarantees;
pub mod integer;
pub mod resolution;
pub mod text;
pub mod tunable;
