//! Verified core of the Immortal process supervisor.
//!
//! The library owns every reusable supervision rule: configuration
//! normalization and validation, the control protocol, the supervision state
//! machine, broker event handling, log routing, and rotation policy. Sockets,
//! files, clocks, and processes stay outside; they hand plain values in and
//! carry out the actions which come back.

pub mod build_info;
pub mod config;
pub mod control;
pub mod executor;
pub mod exit;
pub mod fault;
pub mod fields;
pub mod logging;
pub mod path;
pub mod pid_file;
pub mod platform;
pub mod process;
pub mod service_name;
pub mod status;
pub mod supervisor;
pub mod text;
