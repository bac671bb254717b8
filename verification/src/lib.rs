//! Decision logic of a Windows physical-memory purging utility: the purge
//! plan and its outcome, the automatic-purge monitor, configuration rules,
//! release checking, dashboard state and every text the program renders.

pub mod text;
pub mod units;
pub mod percent;
pub mod config;
pub mod stats;
pub mod purge;
pub mod updater;
pub mod monitor;
pub mod dashboard;
pub mod report;
pub mod icon;

