//! A command-dispatch core for schema-described interactions.
//!
//! An incoming interaction names a command, possibly nested inside a group and
//! a subgroup, and carries untyped option values. This crate routes the
//! interaction to the registered command, turns the option values into the
//! typed arguments the command declares, decides the order in which hooks and
//! the handler run, and keeps the list of waiters that follow-up interactions
//! wake.
//!
//! Nothing here performs I/O or awaits: functions decide, and their callers act.

pub mod argument;
pub mod attr;
pub mod bindings;
pub mod builder;
pub mod button;
pub mod command;
pub mod context;
pub mod execution;
pub mod framework;
pub mod group;
pub mod interaction;
pub mod iter;
pub mod map;
pub mod message;
pub mod parse;
pub mod scan;
pub mod schema;
pub mod text;
pub mod value;
pub mod waiter;
