//! Inspection of a packaged application: resolving where it lives and
//! rendering a report of its metadata, triggers, variables, host
//! requirements and components.
pub mod app_source;
pub mod cli;
pub mod component;
pub mod error;
pub mod files;
pub mod info;
pub mod metadata;
