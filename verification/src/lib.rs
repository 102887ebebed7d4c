//! Process-metrics alerting engine and diagnostics library.
//!
//! The core of the crate is an alert-rule DSL parser and a stateful
//! evaluation engine that tracks per-process sample history and per-rule
//! trigger timers; around it stand the supporting domain types of the
//! surrounding diagnostics tool (command metadata, port bindings, security
//! analysis, formatters).

pub mod clock;
pub mod command_meta;
pub mod command_parser;
pub mod config;
pub mod docker;
pub mod features;
pub mod help;
pub mod i18n;
pub mod numfmt;
pub mod output;
pub mod port_parser;
pub mod portinfo;
pub mod procwatch;
pub mod strutil;
pub mod system_info;
pub mod viewdata;

