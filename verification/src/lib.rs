//! A lightweight cron daemon for containers: the verified core.
//!
//! Jobs are described by an INI file, a YAML file or labels on running
//! containers. Every source is normalized into the same attribute map
//! ([`attrs`], [`loader`]), the map is decoded into typed jobs ([`job`]),
//! and each job is driven by a scheduler that decides, outcome by outcome,
//! what the surrounding program has to do next ([`job::scheduler`]). The
//! executions themselves are taken step by step in the same way
//! ([`job::steps`]): the library says what to ask of the container runtime
//! or of the host, and the program around it does the asking.
//!
//! Four kinds of job exist:
//!
//! - `job-exec` runs a command in a running container;
//! - `job-run` runs a command in a container created for the run;
//! - `job-local` runs a command on the host;
//! - `job-service-run` runs a command in a one-shot service.
//!
//! Schedules are cron expressions of five or six fields, named presets, or
//! the shorthand `@every N<unit>` ([`schedule`]).
//!
//! The library does not log. What is worth a warning is handed out as a
//! value ([`notice`]), and errors say what went wrong ([`error`]).
pub mod attrs;
pub mod context;
pub mod error;
pub mod job;
pub mod loader;
pub mod notice;
pub mod schedule;
pub mod supervisor;
pub mod text;
