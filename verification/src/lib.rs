//! The control plane of a small fleet of digital-television tuners.
//!
//! Two parts decide everything and perform nothing. The tuner manager
//! (`manager`, `tuner`, `session`, `user`) is a priority-preemptive scheduler
//! over a fixed set of tuners. The EPG engine (`epg`, `scan`, `clocks`,
//! `update`) drives three periodic tasks and puts the sections of the Event
//! Information Table back together into the schedule of each service
//! (`schedule`, `eit`), from which the program catalogue is collected
//! (`catalogue`, `program`).
//!
//! Processes, files and clocks belong to the caller: it is told what to do
//! and reports what happened.

pub mod catalogue;
pub mod clocks;
pub mod command;
pub mod config;
pub mod eit;
pub mod epg;
pub mod error;
pub mod jst;
pub mod manager;
pub mod models;
pub mod ordered_map;
pub mod program;
pub mod scan;
pub mod schedule;
pub mod service;
pub mod session;
pub mod template;
pub mod text;
pub mod tuner;
pub mod update;
pub mod user;
