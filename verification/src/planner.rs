//! Rendition planning.
//!
//! A pure, deterministic step: the configured rendition table becomes the
//! job's ordered rendition set, every entry starting with empty artifact
//! fields and `Pending` status. Configuration problems are caught by
//! `Config::validate` at process start; planning itself cannot fail.

use vstd::prelude::*;

use crate::config::{Config, RenditionConfig};

verus! {

/// Per-rendition progress: `Pending` through `Segmented` in order, or
/// `Failed` from any point on. The orchestrator starts a rendition's
/// segmenting in the same transition in which its transcode completes, so
/// `Transcoded` is momentary: a stored rendition is never observed in it.
#[derive(Clone, Copy, PartialEq, Eq, Structural, Debug)]
pub enum RenditionStatus {
    Pending,
    Transcoding,
    Transcoded,
    Segmenting,
    Segmented,
    Failed,
}

/// One quality variant of a job: its configured row plus its progress and
/// the local artifacts recorded so far.
#[derive(Clone, Debug)]
pub struct Rendition {
    pub name: String,
    pub quality: u32,
    pub bandwidth_bits: u64,
    pub status: RenditionStatus,
    pub video_path: Option<String>,
    pub stream_manifest_path: Option<String>,
    pub segment_paths: Vec<String>,
}

/// A rendition exactly as the planner produces it from one table row.
pub open spec fn fresh_rendition(rc: RenditionConfig, r: Rendition) -> bool {
    &&& r.name@ == rc.name@
    &&& r.quality == rc.quality
    &&& r.bandwidth_bits == rc.bandwidth_bits
    &&& r.status is Pending
    &&& r.video_path is None
    &&& r.stream_manifest_path is None
    &&& r.segment_paths@.len() == 0
}

/// Produce the job's rendition set from the configured table, in table
/// order, every entry `Pending` with empty artifact fields.
pub fn plan(cfg: &Config) -> (rs: Vec<Rendition>)
    ensures
        rs@.len() == cfg.renditions@.len(),
        forall|i: int|
            0 <= i < rs@.len() ==> fresh_rendition(cfg.renditions@[i], #[trigger] rs@[i]),
{
    let n = cfg.renditions.len();
    let mut rs: Vec<Rendition> = Vec::new();
    let mut i: usize = 0;
    while i < n
        invariant
            n == cfg.renditions@.len(),
            i <= n,
            rs@.len() == i,
            forall|j: int|
                0 <= j < i ==> fresh_rendition(cfg.renditions@[j], #[trigger] rs@[j]),
        decreases n - i,
    {
        let rc = &cfg.renditions[i];
        rs.push(
            Rendition {
                name: rc.name.clone(),
                quality: rc.quality,
                bandwidth_bits: rc.bandwidth_bits,
                status: RenditionStatus::Pending,
                video_path: None,
                stream_manifest_path: None,
                segment_paths: Vec::new(),
            },
        );
        i += 1;
    }
    rs
}

} // verus!
