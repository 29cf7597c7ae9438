//! Verified core of a video transcode-and-package pipeline.
//!
//! The library plans a set of renditions for an uploaded video, drives a
//! per-job state machine through transcoding, segmenting, packaging and
//! publishing, builds the adaptive-streaming master manifest, and computes
//! the remote object keys and the canonical playback URL. All file, process
//! and network work is performed by the surrounding application, which feeds
//! the outcomes back to the state machine as events and carries out the
//! actions it returns.

pub mod adapter;
pub mod config;
pub mod errors;
pub mod ids;
pub mod manifest;
pub mod paths;
pub mod pipeline;
pub mod planner;
pub mod publish;
pub mod text;
