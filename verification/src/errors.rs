//! Error taxonomy of the pipeline.
//!
//! `InputMissing` marks a prerequisite artifact that was absent (always fatal
//! to the job), `ToolFailed` a non-zero exit of an external tool with a
//! bounded tail of its diagnostic output, `OutputExists` a refusal to write
//! over a pre-existing artifact, `ResourceError` a failed local filesystem
//! operation, and `PublishError` a failed remote-storage call after local
//! packaging already succeeded.

use vstd::prelude::*;

verus! {

/// The stage of the job state machine in which a failure was recorded.
#[derive(Clone, Copy, PartialEq, Eq, Structural, Debug)]
pub enum Stage {
    Planning,
    Transcoding,
    Segmenting,
    Thumbnails,
    Packaging,
    Publishing,
}

/// Outcome of one external encoder invocation for one rendition.
#[derive(Clone, PartialEq, Eq, Debug)]
pub enum EncodeError {
    /// The source file was absent when the invocation was about to start.
    InputMissing,
    /// The deterministic output path was already occupied; the adapter never
    /// appends to a pre-existing file.
    OutputExists,
    /// The encoder exited non-zero; carries a bounded tail of its stderr.
    ToolFailed { stderr_tail: String },
}

/// Outcome of one external segmenter invocation for one rendition.
#[derive(Clone, PartialEq, Eq, Debug)]
pub enum SegmentError {
    /// The rendition's encoded artifact was absent.
    InputMissing,
    /// The segmenter exited non-zero; carries a bounded tail of its stderr.
    ToolFailed { stderr_tail: String },
}

/// Outcome of the external frame-extractor invocation.
#[derive(Clone, PartialEq, Eq, Debug)]
pub enum ThumbnailError {
    /// The original upload was absent.
    InputMissing,
    /// The frame extractor exited non-zero; carries a bounded stderr tail.
    ToolFailed { stderr_tail: String },
}

/// Terminal failure detail of a whole job, set once and never cleared.
#[derive(Clone, PartialEq, Eq, Debug)]
pub enum FailureDetail {
    /// A prerequisite artifact was absent.
    InputMissing,
    /// An artifact would have been written over a pre-existing file.
    OutputExists,
    /// An external tool exited non-zero.
    ToolFailed { stderr_tail: String },
    /// A local filesystem operation failed.
    ResourceError { message: String },
    /// The remote storage call failed after local packaging succeeded.
    PublishError { message: String },
}

/// A job's terminal failure: the stage it happened in and its detail.
#[derive(Clone, PartialEq, Eq, Debug)]
pub struct JobFailure {
    pub stage: Stage,
    pub detail: FailureDetail,
}

/// Rejection of a pipeline configuration at process start.
#[derive(Clone, Copy, PartialEq, Eq, Structural, Debug)]
pub enum ConfigError {
    /// The rendition table is empty.
    NoRenditions,
    /// Two renditions share a name, or a name is not a safe path segment.
    BadRenditionName,
    /// Quality parameters do not increase along the table (the table is
    /// ordered by descending target quality; a lower parameter means higher
    /// fidelity).
    QualityNotMonotonic,
    /// Declared bandwidths do not decrease along the table.
    BandwidthNotMonotonic,
    /// The bucket name, region or scratch root is empty.
    EmptyField,
    /// The segment duration or the thumbnail count is zero.
    ZeroParameter,
}

} // verus!
