//! A weekly reminder engine: recurring activation windows, alarms that fire
//! an action once per window entry, and a manager that polls a set of alarms.

pub mod alarm;
pub mod alarm_manager;
pub mod callback;
pub mod display;
pub mod label;
pub mod setup;
pub mod task;
pub mod time;
