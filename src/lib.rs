//! A fixed-capacity price ladder holding aggregated depth for one instrument.
pub mod book;
pub mod depth;
pub mod laws;
pub mod level;
pub mod units;
