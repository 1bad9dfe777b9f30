//! Generation of systemd service units that run restic backups.
//!
//! A configuration names one data source and any number of repositories.
//! For each repository the library renders a backup unit and, where the
//! repository declares a retention policy, a forget unit and a prune unit.
//! Everything here is a function from configuration values to text; reading
//! the configuration and writing the units is left to the caller.

pub mod command;
pub mod config;
pub mod driver;
pub mod location;
pub mod paths;
pub mod sys;
pub mod text;
pub mod unit;
