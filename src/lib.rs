//! A self-hosted continuous-integration core: branch resolution, change
//! detection, working-copy synchronisation and fail-fast workflow execution,
//! each written as a verified decision procedure over plain values.

pub mod branch;
pub mod cli;
pub mod cycle;
pub mod detect;
pub mod job;
pub mod logging;
pub mod repo;
pub mod service;
pub mod state;
pub mod sync;
pub mod text;
pub mod webhook;
pub mod workflow;
