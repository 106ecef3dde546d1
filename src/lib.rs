//! Credential checking and allow-list control for a captive-portal gateway.
pub mod pass_checker;
pub mod pass_db;
pub mod firewall;
pub mod shorewall;
pub mod workflow;
pub mod flash;
