//! Workload generation for YCSB-style key-value benchmarks: configuration
//! presets, key-index distributions, and the decisions of the population and
//! measurement loops.

pub mod config;
pub mod keys;
pub mod workload;
