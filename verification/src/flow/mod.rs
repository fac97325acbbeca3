//! Flows: what starts them, when they run, and what they start in turn.

pub mod active_configs;
pub mod downstream;
pub mod finished_task;
pub mod listing;
pub mod main_loop;
pub mod outcome;
pub mod pending_flows;
pub mod service;
pub mod startup;
pub mod task_plan;
pub mod time_wheel;
pub mod triggering;
pub mod types;
