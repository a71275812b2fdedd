//! Verified core of the wrec screen recorder: recording settings and their
//! preset limits, command-line parsing, target resolution, job bookkeeping
//! and the pixel arithmetic of the capture engine.

pub mod args;
pub mod backend;
pub mod capture;
pub mod config;
pub mod control;
pub mod desktop;
pub mod digits;
pub mod engine;
pub mod help;
pub mod form;
pub mod helper;
pub mod jobs;
pub mod macos_fallback;
pub mod panel;
pub mod paths;
pub mod protocol;
pub mod recorder;
pub mod report;
pub mod requests;
pub mod resolution;
pub mod settings;
pub mod store;
pub mod text;
pub mod windows_fallback;
