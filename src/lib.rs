//! Lifecycle management for content-generation jobs and the export pipeline
//! that renders generated text into downstream file formats.

pub mod export;
pub mod formats;
pub mod laws;
pub mod manager;
pub mod prompt;
mod sources;
pub mod task;
pub mod text;
