//! Ecosystem-impact testing for a library crate: planning which versions to
//! offer to each dependent, classifying the build outcomes and rendering the
//! five-column result table.

pub mod api;
pub mod cli;
pub mod compile;
pub mod config;
pub mod console_tables;
pub mod dependent;
pub mod error_extract;
pub mod export;
pub mod json;
pub mod manifest;
pub mod metadata;
pub mod orchestrator;
pub mod pipeline;
pub mod planner;
pub mod report;
pub mod results;
pub mod rewrite;
pub mod rows;
pub mod summary;
pub mod text;
pub mod versions;
pub mod width;
pub mod wire;
