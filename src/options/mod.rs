pub mod rerun;
pub mod signal;
pub mod stall;
