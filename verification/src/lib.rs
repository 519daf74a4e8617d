//! Verified core of a throughput-sampling experiment: counting events per
//! interval, deciding when to read the shared counters, and turning what was
//! read into exact rates and plot plans.

pub mod monitor;
pub mod sample;
pub mod sweep;
pub mod timer;
pub mod timeseries;
