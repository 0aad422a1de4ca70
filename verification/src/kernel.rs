//! Kernel-side handle families: process-list snapshots and the standard
//! console devices.

pub mod hprocesslist;
pub mod hstd;
