//! Platform-specific search directories and PATH management.
//!
//! Putting JLink's directory on the persistent PATH takes a few outside
//! steps (reading the current setting, an elevated command, a shell profile
//! edit). Each platform's updater decides, from what each step reports,
//! which step comes next and whether the directory ended up persisted.

pub mod linux;
pub mod macos;

pub mod shared;
pub mod windows;

