//! The portal: its prelogin, its configuration, and its client-side checks.
pub mod config;
pub mod csc;
pub mod prelogin;
pub mod csc_report;
