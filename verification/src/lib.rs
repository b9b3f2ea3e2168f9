pub mod attendance;
pub mod cli;
pub mod config;
pub mod date;
pub mod quarters;
pub mod report;
