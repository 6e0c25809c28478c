pub mod cli;
pub mod options;
pub mod status_code;
pub mod status_constraints;
pub mod supervise;

pub use cli::Opts;
pub use status_constraints::StatusCode;
