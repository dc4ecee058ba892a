//! Core of the neworder microsimulation framework: the simulation timeline,
//! the runtime environment flags, the Monte-Carlo seeding rules and the
//! driver that decides, step by step, which model callbacks run.

pub mod timeline;
pub mod env;
pub mod environment;
pub mod stream;
pub mod montecarlo;
pub mod logging;
pub mod paths;
pub mod simulation;
pub mod model;
pub mod command;
pub mod ffs;
