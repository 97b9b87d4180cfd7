//! Boot orchestration planning library: domain model, plan and journal
//! file formats, payload classification, probe parsing and lifecycle
//! decisions for preparing internal boot payloads.

pub mod apply;
pub mod checkpoint;
pub mod cli;
pub mod error;
pub mod journal;
pub mod json;
pub mod lines;
pub mod linux_iso;
pub mod model;
pub mod paths;
pub mod plan_file;
pub mod probe;
pub mod record_file;
pub mod registration;
pub mod render;
pub mod round_trip;
pub mod service;
pub mod text;
pub mod windows;
pub mod winpe;
