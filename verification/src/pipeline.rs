//! The pipeline orchestrator: the per-job state machine.
//!
//! The orchestrator owns one job from creation to its terminal state. It
//! never performs file, process or network work itself: each call to
//! [`Job::start`] or [`Job::step`] returns the actions the surrounding
//! application must carry out (create or remove the scratch directory, check
//! the source, run the encoder, segmenter or frame extractor for one
//! rendition, write the master manifest, publish), and the application
//! reports every outcome back as an [`Event`]. Within one rendition,
//! segmenting starts only after that rendition's transcode succeeded;
//! across renditions no order is assumed. The first failure makes the whole
//! job `Failed`, asks for sibling cancellation, and — like success — removes
//! the scratch subtree, so a terminal job never leaves scratch behind and a
//! package is never partially published.

use vstd::prelude::*;

use crate::config::{valid_config, Config};
use crate::errors::{EncodeError, FailureDetail, JobFailure, SegmentError, Stage, ThumbnailError};
use crate::ids::JobId;
use crate::manifest::master_manifest_text;
use crate::paths::joined;
use crate::planner::{fresh_rendition, plan, Rendition, RenditionStatus};
use crate::publish::playback_url_text;

verus! {

/// The job lifecycle. `Published` and `Failed` are terminal; `Failed` is
/// reachable from every non-terminal state.
#[derive(Clone, Copy, PartialEq, Eq, Structural, Debug)]
pub enum JobState {
    Created,
    Planning,
    Transcoding,
    Segmenting,
    Packaging,
    Publishing,
    Published,
    Failed,
}

/// Progress of the thumbnail work, which runs concurrently with all
/// per-rendition work; `Done` carries how many images were written.
#[derive(Clone, Copy, PartialEq, Eq, Structural, Debug)]
pub enum ThumbStatus {
    NotStarted,
    Running,
    Done(u64),
}

/// What the segmenter produced for one rendition: the names of the media
/// segment files it wrote next to the stream manifest.
pub struct SegmentOutput {
    pub segment_files: Vec<String>,
}

/// An external outcome reported back to the state machine by the
/// application. Error payloads carry the adapters' structured results;
/// filesystem and remote-storage failures carry their message.
pub enum Event {
    ScratchReady { outcome: Result<(), String> },
    SourceChecked { present: bool },
    TranscodeDone { index: usize, outcome: Result<(), EncodeError> },
    SegmentDone { index: usize, outcome: Result<SegmentOutput, SegmentError> },
    ThumbnailsDone { outcome: Result<u64, ThumbnailError> },
    ManifestWritten { outcome: Result<(), String> },
    PublishDone { outcome: Result<(), String> },
}

/// Work the state machine asks the application to carry out.
#[derive(Clone, Copy, PartialEq, Eq, Structural, Debug)]
pub enum Action {
    CreateScratch,
    CheckSource,
    StartTranscode { index: usize },
    StartThumbnails,
    StartSegment { index: usize },
    WriteMasterManifest,
    StartPublish,
    CancelSiblings,
    RemoveScratch,
}

/// One upload-to-publish unit of work.
pub struct Job {
    pub config: Config,
    pub job_id: JobId,
    pub source_path: String,
    pub renditions: Vec<Rendition>,
    pub state: JobState,
    pub thumbnails: ThumbStatus,
    pub error: Option<JobFailure>,
    pub master_manifest: Option<String>,
    pub published_url: Option<String>,
    pub scratch_present: bool,
}

/// Terminal states: nothing further ever happens to the job.
pub open spec fn is_terminal(s: JobState) -> bool {
    s is Published || s is Failed
}

/// States in which the job holds a planned rendition set and work may be in
/// flight.
pub open spec fn is_active(s: JobState) -> bool {
    s is Transcoding || s is Segmenting || s is Packaging || s is Publishing
}

/// Every rendition has been segmented.
pub open spec fn all_segmented(rs: Seq<Rendition>) -> bool {
    forall|i: int| 0 <= i < rs.len() ==> (#[trigger] rs[i].status) is Segmented
}

/// Every rendition is past its transcode (segmenting or segmented).
pub open spec fn all_past_transcode(rs: Seq<Rendition>) -> bool {
    forall|i: int|
        0 <= i < rs.len() ==> (#[trigger] rs[i].status) is Segmenting || rs[i].status is Segmented
}

/// Every rendition's work has been started and none has failed on its own.
pub open spec fn statuses_started(rs: Seq<Rendition>) -> bool {
    forall|i: int|
        0 <= i < rs.len() ==> (#[trigger] rs[i].status) is Transcoding || rs[i].status is Segmenting
            || rs[i].status is Segmented
}

/// The rendition set carries exactly the configured table's rows, in order.
pub open spec fn renditions_match_config(rs: Seq<Rendition>, table: Seq<crate::config::RenditionConfig>) -> bool {
    &&& rs.len() == table.len()
    &&& forall|i: int|
        0 <= i < rs.len() ==> (#[trigger] rs[i]).name@ == table[i].name@ && rs[i].quality
            == table[i].quality && rs[i].bandwidth_bits == table[i].bandwidth_bits
}

/// The stored master manifest is exactly the built text of the job's
/// rendition set.
pub open spec fn manifest_pinned(j: Job) -> bool {
    j.master_manifest matches Some(t) && t@ == master_manifest_text(j.renditions@)
}

/// The stored playback URL is the canonical one for this job.
pub open spec fn url_pinned(j: Job) -> bool {
    j.published_url matches Some(u) && u@ == playback_url_text(
        j.config.s3.bucket_name@,
        j.config.s3.aws_region@,
        j.job_id@,
    )
}

impl Job {
    /// Well-formedness: established by `new` and preserved by `start` and
    /// every `step`.
    pub open spec fn wf(self) -> bool {
        &&& valid_config(self.config)
        &&& self.job_id.wf()
        &&& (self.state is Created || self.state is Planning ==> self.renditions@.len() == 0
            && self.error is None && self.master_manifest is None && self.published_url is None
            && self.thumbnails is NotStarted)
        &&& (self.state is Created ==> !self.scratch_present)
        &&& (is_active(self.state) || self.state is Published ==> renditions_match_config(
            self.renditions@,
            self.config.renditions@,
        ) && self.error is None)
        &&& (is_active(self.state) ==> self.scratch_present && self.published_url is None)
        &&& (self.state is Transcoding || self.state is Segmenting ==> (self.thumbnails is Running
            || self.thumbnails matches ThumbStatus::Done(_)) && self.master_manifest is None
            && statuses_started(self.renditions@))
        &&& (self.state is Segmenting ==> all_past_transcode(self.renditions@))
        &&& (self.state is Packaging || self.state is Publishing || self.state is Published
            ==> all_segmented(self.renditions@) && (self.thumbnails matches ThumbStatus::Done(_))
            && manifest_pinned(self))
        &&& (self.state is Published ==> url_pinned(self) && !self.scratch_present)
        &&& (self.state is Failed ==> self.error is Some && !self.scratch_present)
    }
}

/// The identity of the job never changes.
pub open spec fn unchanged_core(pre: Job, post: Job) -> bool {
    &&& post.config == pre.config
    &&& post.job_id == pre.job_id
    &&& post.source_path == pre.source_path
}

/// An event that arrives out of protocol is ignored: no change, no work.
pub open spec fn ignore_rel(pre: Job, post: Job, acts: Seq<Action>) -> bool {
    &&& post == pre
    &&& acts.len() == 0
}

/// The one way a job fails: terminal `Failed` state with the failure
/// recorded once, sibling work cancelled, and the scratch subtree removed.
/// `fidx` names the rendition whose own work failed, if one did.
pub open spec fn failure_rel(
    pre: Job,
    post: Job,
    acts: Seq<Action>,
    stage: Stage,
    detail: FailureDetail,
    fidx: Option<int>,
) -> bool {
    &&& unchanged_core(pre, post)
    &&& post.state is Failed
    &&& (post.error matches Some(f) && f.stage == stage && f.detail == detail)
    &&& !post.scratch_present
    &&& post.thumbnails == pre.thumbnails
    &&& post.master_manifest == pre.master_manifest
    &&& post.published_url == pre.published_url
    &&& match fidx {
        Option::None => post.renditions@ == pre.renditions@,
        Option::Some(i) => 0 <= i < pre.renditions@.len() && post.renditions@
            == pre.renditions@.update(
            i,
            Rendition { status: RenditionStatus::Failed, ..pre.renditions@[i] },
        ),
    }
    &&& acts =~= seq![Action::CancelSiblings, Action::RemoveScratch]
}

/// A rendition as the fan-out starts it from one table row.
pub open spec fn started_rendition(rc: crate::config::RenditionConfig, r: Rendition) -> bool {
    &&& r.name@ == rc.name@
    &&& r.quality == rc.quality
    &&& r.bandwidth_bits == rc.bandwidth_bits
    &&& r.status is Transcoding
    &&& r.video_path is None
    &&& r.stream_manifest_path is None
    &&& r.segment_paths@.len() == 0
}

/// A rendition right after its transcode succeeded: its encoded artifact is
/// recorded at the deterministic scratch path and its segmenting begins.
pub open spec fn transcoded_rendition(
    old_r: Rendition,
    new_r: Rendition,
    root: Seq<char>,
    id: Seq<char>,
) -> bool {
    &&& new_r.name == old_r.name
    &&& new_r.quality == old_r.quality
    &&& new_r.bandwidth_bits == old_r.bandwidth_bits
    &&& new_r.status is Segmenting
    &&& (new_r.video_path matches Some(p) && p@ == joined(joined(root, id), old_r.name@ + ".mp4"@))
    &&& new_r.stream_manifest_path == old_r.stream_manifest_path
    &&& new_r.segment_paths == old_r.segment_paths
}

/// A rendition right after its segmenting succeeded: its stream manifest is
/// recorded at the deterministic scratch path, its segments as reported.
pub open spec fn segmented_rendition(
    old_r: Rendition,
    new_r: Rendition,
    root: Seq<char>,
    id: Seq<char>,
    segs: Vec<String>,
) -> bool {
    &&& new_r.name == old_r.name
    &&& new_r.quality == old_r.quality
    &&& new_r.bandwidth_bits == old_r.bandwidth_bits
    &&& new_r.status is Segmented
    &&& new_r.video_path == old_r.video_path
    &&& (new_r.stream_manifest_path matches Some(p) && p@ == joined(
        joined(root, id),
        old_r.name@ + ".m3u8"@,
    ))
    &&& new_r.segment_paths == segs
}

/// Failure details carried over from a structured encoder error.
pub open spec fn encode_detail(e: EncodeError) -> FailureDetail {
    match e {
        EncodeError::InputMissing => FailureDetail::InputMissing,
        EncodeError::OutputExists => FailureDetail::OutputExists,
        EncodeError::ToolFailed { stderr_tail } => FailureDetail::ToolFailed { stderr_tail },
    }
}

/// Failure details carried over from a structured segmenter error.
pub open spec fn segment_detail(e: SegmentError) -> FailureDetail {
    match e {
        SegmentError::InputMissing => FailureDetail::InputMissing,
        SegmentError::ToolFailed { stderr_tail } => FailureDetail::ToolFailed { stderr_tail },
    }
}

/// Failure details carried over from a structured thumbnail error.
pub open spec fn thumbnail_detail(e: ThumbnailError) -> FailureDetail {
    match e {
        ThumbnailError::InputMissing => FailureDetail::InputMissing,
        ThumbnailError::ToolFailed { stderr_tail } => FailureDetail::ToolFailed { stderr_tail },
    }
}

/// `start`: the job leaves `Created` and asks for its scratch directory.
pub open spec fn start_rel(pre: Job, post: Job, acts: Seq<Action>) -> bool {
    &&& post == (Job { state: JobState::Planning, ..pre })
    &&& acts =~= seq![Action::CreateScratch]
}

/// The fan-out on a confirmed source: the planner's set, every rendition
/// transcoding, thumbnails running, one start action per rendition plus one
/// for the thumbnails.
pub open spec fn fanout_rel(pre: Job, post: Job, acts: Seq<Action>) -> bool {
    &&& unchanged_core(pre, post)
    &&& post.state is Transcoding
    &&& post.renditions@.len() == pre.config.renditions@.len()
    &&& forall|i: int|
        0 <= i < post.renditions@.len() ==> started_rendition(
            pre.config.renditions@[i],
            #[trigger] post.renditions@[i],
        )
    &&& post.thumbnails is Running
    &&& post.scratch_present
    &&& post.error is None
    &&& post.master_manifest is None
    &&& post.published_url is None
    &&& acts.len() == post.renditions@.len() + 1
    &&& forall|i: int|
        0 <= i < post.renditions@.len() ==> acts[i] == (Action::StartTranscode { index: i as usize })
    &&& acts[acts.len() - 1] == Action::StartThumbnails
}

/// The full transition relation of one `step`.
pub open spec fn step_rel(pre: Job, ev: Event, post: Job, acts: Seq<Action>) -> bool {
    match ev {
        Event::ScratchReady { outcome } => {
            if pre.state is Planning && !pre.scratch_present {
                match outcome {
                    Ok(_) => {
                        &&& post == (Job { scratch_present: true, ..pre })
                        &&& acts =~= seq![Action::CheckSource]
                    },
                    Err(m) => failure_rel(
                        pre,
                        post,
                        acts,
                        Stage::Planning,
                        FailureDetail::ResourceError { message: m },
                        None,
                    ),
                }
            } else {
                ignore_rel(pre, post, acts)
            }
        },
        Event::SourceChecked { present } => {
            if pre.state is Planning && pre.scratch_present {
                if present {
                    fanout_rel(pre, post, acts)
                } else {
                    failure_rel(
                        pre,
                        post,
                        acts,
                        Stage::Transcoding,
                        FailureDetail::InputMissing,
                        None,
                    )
                }
            } else {
                ignore_rel(pre, post, acts)
            }
        },
        Event::TranscodeDone { index, outcome } => {
            if pre.state is Transcoding && index < pre.renditions@.len()
                && pre.renditions@[index as int].status is Transcoding {
                match outcome {
                    Ok(_) => {
                        &&& unchanged_core(pre, post)
                        &&& post.renditions@.len() == pre.renditions@.len()
                        &&& transcoded_rendition(
                            pre.renditions@[index as int],
                            post.renditions@[index as int],
                            pre.config.scratch_root@,
                            pre.job_id@,
                        )
                        &&& forall|j: int|
                            0 <= j < pre.renditions@.len() && j != index
                                ==> post.renditions@[j] == pre.renditions@[j]
                        &&& post.state == (if all_past_transcode(post.renditions@) {
                            JobState::Segmenting
                        } else {
                            JobState::Transcoding
                        })
                        &&& post.thumbnails == pre.thumbnails
                        &&& post.error is None
                        &&& post.master_manifest is None
                        &&& post.published_url is None
                        &&& post.scratch_present
                        &&& acts =~= seq![Action::StartSegment { index }]
                    },
                    Err(e) => failure_rel(
                        pre,
                        post,
                        acts,
                        Stage::Transcoding,
                        encode_detail(e),
                        Some(index as int),
                    ),
                }
            } else {
                ignore_rel(pre, post, acts)
            }
        },
        Event::SegmentDone { index, outcome } => {
            if (pre.state is Transcoding || pre.state is Segmenting) && index
                < pre.renditions@.len() && pre.renditions@[index as int].status is Segmenting {
                match outcome {
                    Ok(out) => {
                        let done = all_segmented(post.renditions@) && (pre.thumbnails matches
                        ThumbStatus::Done(_));
                        &&& unchanged_core(pre, post)
                        &&& post.renditions@.len() == pre.renditions@.len()
                        &&& segmented_rendition(
                            pre.renditions@[index as int],
                            post.renditions@[index as int],
                            pre.config.scratch_root@,
                            pre.job_id@,
                            out.segment_files,
                        )
                        &&& forall|j: int|
                            0 <= j < pre.renditions@.len() && j != index
                                ==> post.renditions@[j] == pre.renditions@[j]
                        &&& post.state == (if done {
                            JobState::Packaging
                        } else if all_past_transcode(post.renditions@) {
                            JobState::Segmenting
                        } else {
                            JobState::Transcoding
                        })
                        &&& post.thumbnails == pre.thumbnails
                        &&& post.error is None
                        &&& post.published_url is None
                        &&& post.scratch_present
                        &&& (if done {
                            manifest_pinned(post) && acts =~= seq![Action::WriteMasterManifest]
                        } else {
                            post.master_manifest is None && acts.len() == 0
                        })
                    },
                    Err(e) => failure_rel(
                        pre,
                        post,
                        acts,
                        Stage::Segmenting,
                        segment_detail(e),
                        Some(index as int),
                    ),
                }
            } else {
                ignore_rel(pre, post, acts)
            }
        },
        Event::ThumbnailsDone { outcome } => {
            if (pre.state is Transcoding || pre.state is Segmenting)
                && pre.thumbnails is Running {
                match outcome {
                    Ok(n) => {
                        let done = all_segmented(pre.renditions@);
                        &&& unchanged_core(pre, post)
                        &&& post.renditions@ == pre.renditions@
                        &&& post.thumbnails == ThumbStatus::Done(n)
                        &&& post.state == (if done {
                            JobState::Packaging
                        } else {
                            pre.state
                        })
                        &&& post.error is None
                        &&& post.published_url is None
                        &&& post.scratch_present
                        &&& (if done {
                            manifest_pinned(post) && acts =~= seq![Action::WriteMasterManifest]
                        } else {
                            post.master_manifest is None && acts.len() == 0
                        })
                    },
                    Err(e) => failure_rel(
                        pre,
                        post,
                        acts,
                        Stage::Thumbnails,
                        thumbnail_detail(e),
                        None,
                    ),
                }
            } else {
                ignore_rel(pre, post, acts)
            }
        },
        Event::ManifestWritten { outcome } => {
            if pre.state is Packaging {
                match outcome {
                    Ok(_) => {
                        &&& post == (Job { state: JobState::Publishing, ..pre })
                        &&& acts =~= seq![Action::StartPublish]
                    },
                    Err(m) => failure_rel(
                        pre,
                        post,
                        acts,
                        Stage::Packaging,
                        FailureDetail::ResourceError { message: m },
                        None,
                    ),
                }
            } else {
                ignore_rel(pre, post, acts)
            }
        },
        Event::PublishDone { outcome } => {
            if pre.state is Publishing {
                match outcome {
                    Ok(_) => {
                        &&& unchanged_core(pre, post)
                        &&& post.state is Published
                        &&& post.renditions@ == pre.renditions@
                        &&& post.thumbnails == pre.thumbnails
                        &&& post.error is None
                        &&& post.master_manifest == pre.master_manifest
                        &&& url_pinned(post)
                        &&& !post.scratch_present
                        &&& acts =~= seq![Action::RemoveScratch]
                    },
                    Err(m) => failure_rel(
                        pre,
                        post,
                        acts,
                        Stage::Publishing,
                        FailureDetail::PublishError { message: m },
                        None,
                    ),
                }
            } else {
                ignore_rel(pre, post, acts)
            }
        },
    }
}

impl Job {
    /// Create a job over a validated configuration and a safe job id. The
    /// source path is the ingress's upload, read-only to the pipeline.
    pub fn new(config: Config, job_id: JobId, source_path: String) -> (j: Job)
        requires
            valid_config(config),
            job_id.wf(),
        ensures
            j.wf(),
            j.state is Created,
            j.config == config,
            j.job_id == job_id,
            j.source_path == source_path,
            j.renditions@.len() == 0,
            j.thumbnails is NotStarted,
            j.error is None,
            j.master_manifest is None,
            j.published_url is None,
            !j.scratch_present,
    {
        Job {
            config,
            job_id,
            source_path,
            renditions: Vec::new(),
            state: JobState::Created,
            thumbnails: ThumbStatus::NotStarted,
            error: None,
            master_manifest: None,
            published_url: None,
            scratch_present: false,
        }
    }

    /// Begin the job: enter `Planning` and ask for the scratch directory.
    pub fn start(&mut self) -> (acts: Vec<Action>)
        requires
            old(self).wf(),
            old(self).state is Created,
        ensures
            final(self).wf(),
            start_rel(*old(self), *final(self), acts@),
    {
        self.state = JobState::Planning;
        let mut acts: Vec<Action> = Vec::new();
        acts.push(Action::CreateScratch);
        proof {
            assert(acts@ =~= seq![Action::CreateScratch]);
        }
        acts
    }

    /// Record one terminal failure: the job fails as a whole, siblings are
    /// cancelled, the scratch subtree is removed.
    fn fail(&mut self, stage: Stage, detail: FailureDetail, fidx: Option<usize>) -> (acts: Vec<
        Action,
    >)
        requires
            fidx matches Some(i) ==> i < old(self).renditions@.len(),
        ensures
            failure_rel(
                *old(self),
                *final(self),
                acts@,
                stage,
                detail,
                match fidx {
                    Some(i) => Some(i as int),
                    None => None,
                },
            ),
    {
        if let Some(i) = fidx {
            self.renditions[i].status = RenditionStatus::Failed;
            proof {
                assert(self.renditions@ =~= old(self).renditions@.update(
                    fidx->0 as int,
                    Rendition {
                        status: RenditionStatus::Failed,
                        ..old(self).renditions@[fidx->0 as int]
                    },
                ));
            }
        }
        self.state = JobState::Failed;
        self.error = Some(JobFailure { stage, detail });
        self.scratch_present = false;
        let mut acts: Vec<Action> = Vec::new();
        acts.push(Action::CancelSiblings);
        acts.push(Action::RemoveScratch);
        proof {
            assert(acts@ =~= seq![Action::CancelSiblings, Action::RemoveScratch]);
        }
        acts
    }

    /// Feed one external outcome to the job. Out-of-protocol events are
    /// ignored; everything else moves the state machine exactly as
    /// [`step_rel`] describes.
    pub fn step(&mut self, ev: Event) -> (acts: Vec<Action>)
        requires
            old(self).wf(),
        ensures
            final(self).wf(),
            step_rel(*old(self), ev, *final(self), acts@),
    {
        match ev {
            Event::ScratchReady { outcome } => {
                if !(self.state == JobState::Planning && !self.scratch_present) {
                    return Vec::new();
                }
                match outcome {
                    Ok(_) => {
                        self.scratch_present = true;
                        let mut acts: Vec<Action> = Vec::new();
                        acts.push(Action::CheckSource);
                        proof {
                            assert(acts@ =~= seq![Action::CheckSource]);
                        }
                        acts
                    },
                    Err(m) => self.fail(
                        Stage::Planning,
                        FailureDetail::ResourceError { message: m },
                        None,
                    ),
                }
            },
            Event::SourceChecked { present } => {
                if !(self.state == JobState::Planning && self.scratch_present) {
                    return Vec::new();
                }
                if present {
                    self.fan_out()
                } else {
                    self.fail(Stage::Transcoding, FailureDetail::InputMissing, None)
                }
            },
            Event::TranscodeDone { index, outcome } => {
                if !(self.state == JobState::Transcoding && index < self.renditions.len()
                    && self.renditions[index].status == RenditionStatus::Transcoding) {
                    return Vec::new();
                }
                match outcome {
                    Ok(_) => self.transcode_succeeded(index),
                    Err(e) => self.fail(
                        Stage::Transcoding,
                        encode_detail_exec(e),
                        Some(index),
                    ),
                }
            },
            Event::SegmentDone { index, outcome } => {
                if !((self.state == JobState::Transcoding || self.state == JobState::Segmenting)
                    && index < self.renditions.len() && self.renditions[index].status
                    == RenditionStatus::Segmenting) {
                    return Vec::new();
                }
                match outcome {
                    Ok(out) => self.segment_succeeded(index, out),
                    Err(e) => self.fail(
                        Stage::Segmenting,
                        segment_detail_exec(e),
                        Some(index),
                    ),
                }
            },
            Event::ThumbnailsDone { outcome } => {
                if !((self.state == JobState::Transcoding || self.state == JobState::Segmenting)
                    && self.thumbnails == ThumbStatus::Running) {
                    return Vec::new();
                }
                match outcome {
                    Ok(n) => self.thumbnails_succeeded(n),
                    Err(e) => self.fail(Stage::Thumbnails, thumbnail_detail_exec(e), None),
                }
            },
            Event::ManifestWritten { outcome } => {
                if !(self.state == JobState::Packaging) {
                    return Vec::new();
                }
                match outcome {
                    Ok(_) => {
                        self.state = JobState::Publishing;
                        let mut acts: Vec<Action> = Vec::new();
                        acts.push(Action::StartPublish);
                        proof {
                            assert(acts@ =~= seq![Action::StartPublish]);
                        }
                        acts
                    },
                    Err(m) => self.fail(
                        Stage::Packaging,
                        FailureDetail::ResourceError { message: m },
                        None,
                    ),
                }
            },
            Event::PublishDone { outcome } => {
                if !(self.state == JobState::Publishing) {
                    return Vec::new();
                }
                match outcome {
                    Ok(_) => {
                        let url = crate::publish::playback_url(&self.config.s3, &self.job_id);
                        self.published_url = Some(url);
                        self.state = JobState::Published;
                        self.scratch_present = false;
                        let mut acts: Vec<Action> = Vec::new();
                        acts.push(Action::RemoveScratch);
                        proof {
                            assert(acts@ =~= seq![Action::RemoveScratch]);
                        }
                        acts
                    },
                    Err(m) => self.fail(
                        Stage::Publishing,
                        FailureDetail::PublishError { message: m },
                        None,
                    ),
                }
            },
        }
    }

    /// The fan-out after the source is confirmed: plan the renditions, start
    /// every transcode, start the thumbnails.
    #[verifier::loop_isolation(false)]
    fn fan_out(&mut self) -> (acts: Vec<Action>)
        requires
            old(self).wf(),
            old(self).state is Planning,
            old(self).scratch_present,
        ensures
            final(self).wf(),
            fanout_rel(*old(self), *final(self), acts@),
    {
        let mut rs = plan(&self.config);
        let n = rs.len();
        let mut i: usize = 0;
        while i < n
            invariant
                rs@.len() == n,
                i <= n,
                forall|j: int|
                    0 <= j < i ==> started_rendition(
                        self.config.renditions@[j],
                        #[trigger] rs@[j],
                    ),
                forall|j: int|
                    i <= j < n ==> fresh_rendition(self.config.renditions@[j], #[trigger] rs@[j]),
            decreases n - i,
        {
            rs[i].status = RenditionStatus::Transcoding;
            i += 1;
        }
        self.renditions = rs;
        self.state = JobState::Transcoding;
        self.thumbnails = ThumbStatus::Running;
        let mut acts: Vec<Action> = Vec::new();
        let mut k: usize = 0;
        while k < n
            invariant
                acts@.len() == k,
                k <= n,
                forall|j: int|
                    0 <= j < k ==> acts@[j] == (Action::StartTranscode { index: j as usize }),
            decreases n - k,
        {
            acts.push(Action::StartTranscode { index: k });
            k += 1;
        }
        acts.push(Action::StartThumbnails);
        acts
    }

    /// One rendition's transcode succeeded: record its artifact and start
    /// its segmenting at once, independent of every sibling.
    fn transcode_succeeded(&mut self, index: usize) -> (acts: Vec<Action>)
        requires
            old(self).wf(),
            old(self).state is Transcoding,
            index < old(self).renditions@.len(),
            old(self).renditions@[index as int].status is Transcoding,
        ensures
            final(self).wf(),
            step_rel(
                *old(self),
                Event::TranscodeDone { index, outcome: Ok(()) },
                *final(self),
                acts@,
            ),
    {
        let file = crate::paths::video_file_name(self.renditions[index].name.as_str());
        let p = crate::paths::resolve(
            self.config.scratch_root.as_str(),
            &self.job_id,
            file.as_str(),
        );
        self.renditions[index].status = RenditionStatus::Segmenting;
        self.renditions[index].video_path = Some(p);
        let past = all_past_transcode_exec(&self.renditions);
        self.state = if past {
            JobState::Segmenting
        } else {
            JobState::Transcoding
        };
        let mut acts: Vec<Action> = Vec::new();
        acts.push(Action::StartSegment { index });
        proof {
            assert(acts@ =~= seq![Action::StartSegment { index }]);
        }
        acts
    }

    /// One rendition's segmenting succeeded: record its stream manifest and
    /// segments; at the barrier (all renditions segmented, thumbnails done)
    /// build the master manifest and move to `Packaging`.
    fn segment_succeeded(&mut self, index: usize, out: SegmentOutput) -> (acts: Vec<Action>)
        requires
            old(self).wf(),
            old(self).state is Transcoding || old(self).state is Segmenting,
            index < old(self).renditions@.len(),
            old(self).renditions@[index as int].status is Segmenting,
        ensures
            final(self).wf(),
            step_rel(
                *old(self),
                Event::SegmentDone { index, outcome: Ok(out) },
                *final(self),
                acts@,
            ),
    {
        let file = crate::paths::stream_manifest_file_name(self.renditions[index].name.as_str());
        let p = crate::paths::resolve(
            self.config.scratch_root.as_str(),
            &self.job_id,
            file.as_str(),
        );
        self.renditions[index].status = RenditionStatus::Segmented;
        self.renditions[index].stream_manifest_path = Some(p);
        self.renditions[index].segment_paths = out.segment_files;
        let seg_all = all_segmented_exec(&self.renditions);
        let thumbs_done = matches!(self.thumbnails, ThumbStatus::Done(_));
        let mut acts: Vec<Action> = Vec::new();
        if seg_all && thumbs_done {
            let text = crate::manifest::build(&self.renditions);
            self.master_manifest = Some(text);
            self.state = JobState::Packaging;
            acts.push(Action::WriteMasterManifest);
            proof {
                assert(acts@ =~= seq![Action::WriteMasterManifest]);
            }
        } else if all_past_transcode_exec(&self.renditions) {
            self.state = JobState::Segmenting;
        } else {
            self.state = JobState::Transcoding;
        }
        acts
    }

    /// The thumbnails finished: record the count; at the barrier build the
    /// master manifest and move to `Packaging`.
    fn thumbnails_succeeded(&mut self, n: u64) -> (acts: Vec<Action>)
        requires
            old(self).wf(),
            old(self).state is Transcoding || old(self).state is Segmenting,
            old(self).thumbnails is Running,
        ensures
            final(self).wf(),
            step_rel(
                *old(self),
                Event::ThumbnailsDone { outcome: Ok(n) },
                *final(self),
                acts@,
            ),
    {
        self.thumbnails = ThumbStatus::Done(n);
        let seg_all = all_segmented_exec(&self.renditions);
        let mut acts: Vec<Action> = Vec::new();
        if seg_all {
            let text = crate::manifest::build(&self.renditions);
            self.master_manifest = Some(text);
            self.state = JobState::Packaging;
            acts.push(Action::WriteMasterManifest);
            proof {
                assert(acts@ =~= seq![Action::WriteMasterManifest]);
            }
        }
        acts
    }
}

/// After a job has failed, no event changes it or starts any further work:
/// the failed job is left exactly as it is, and no action — in particular no
/// segment invocation and no publish — is ever requested again. The same
/// holds of a published job.
pub proof fn lemma_terminal_job_starts_nothing(pre: Job, ev: Event, post: Job, acts: Seq<Action>)
    requires
        pre.wf(),
        is_terminal(pre.state),
        step_rel(pre, ev, post, acts),
    ensures
        post == pre,
        acts.len() == 0,
{
}

/// The publisher is asked to run only out of `Packaging` — a state
/// reachable only with every rendition segmented and the master manifest
/// built — so a job in which any rendition's work failed is never
/// published.
pub proof fn lemma_publish_only_from_packaging(
    pre: Job,
    ev: Event,
    post: Job,
    acts: Seq<Action>,
    i: int,
)
    requires
        pre.wf(),
        step_rel(pre, ev, post, acts),
        0 <= i < acts.len(),
        acts[i] == Action::StartPublish,
    ensures
        pre.state is Packaging,
        all_segmented(pre.renditions@),
        pre.error is None,
        manifest_pinned(pre),
{
}

/// Cleanup: in any well-formed job that reached a terminal state —
/// `Published` or `Failed` — the scratch subtree is gone.
pub proof fn lemma_terminal_scratch_removed(j: Job)
    requires
        j.wf(),
        is_terminal(j.state),
    ensures
        !j.scratch_present,
{
}

/// Every transition into a terminal state carries the scratch-removal
/// action: cleanup runs on every exit path, success and failure alike, and
/// the terminal job records its scratch subtree as gone.
pub proof fn lemma_terminal_transition_removes_scratch(
    pre: Job,
    ev: Event,
    post: Job,
    acts: Seq<Action>,
)
    requires
        pre.wf(),
        step_rel(pre, ev, post, acts),
        is_terminal(post.state),
        !is_terminal(pre.state),
    ensures
        acts.contains(Action::RemoveScratch),
        !post.scratch_present,
{
    if post.state is Published {
        assert(acts[0] == Action::RemoveScratch);
    } else {
        assert(acts[1] == Action::RemoveScratch);
    }
}

/// A published package is a function of the configured table, the storage
/// constants and the job id alone: two runs of the same job that both
/// reached `Published` — whatever order their per-rendition work completed
/// in — carry identical master manifest text and identical playback URLs.
pub proof fn lemma_published_package_deterministic(a: Job, b: Job)
    requires
        a.wf(),
        b.wf(),
        a.state is Published,
        b.state is Published,
        a.config.renditions@.len() == b.config.renditions@.len(),
        forall|i: int|
            0 <= i < a.config.renditions@.len() ==> (#[trigger] a.config.renditions@[i]).name@
                == b.config.renditions@[i].name@ && a.config.renditions@[i].bandwidth_bits
                == b.config.renditions@[i].bandwidth_bits,
        a.config.s3.bucket_name@ == b.config.s3.bucket_name@,
        a.config.s3.aws_region@ == b.config.s3.aws_region@,
        a.job_id@ == b.job_id@,
    ensures
        a.master_manifest->0@ == b.master_manifest->0@,
        a.published_url->0@ == b.published_url->0@,
{
    assert forall|i: int|
        0 <= i < a.renditions@.len() implies (#[trigger] a.renditions@[i]).name@
        == b.renditions@[i].name@ && a.renditions@[i].bandwidth_bits
        == b.renditions@[i].bandwidth_bits by {
        assert(a.renditions@[i].name@ == a.config.renditions@[i].name@);
        assert(b.renditions@[i].name@ == b.config.renditions@[i].name@);
    }
    crate::manifest::lemma_manifest_from_rows(a.renditions@, b.renditions@);
}

/// Whether every rendition reached `Segmented`.
#[verifier::loop_isolation(false)]
fn all_segmented_exec(rs: &Vec<Rendition>) -> (b: bool)
    ensures
        b == all_segmented(rs@),
{
    let n = rs.len();
    let mut i: usize = 0;
    while i < n
        invariant
            i <= n,
            forall|j: int| 0 <= j < i ==> (#[trigger] rs@[j].status) is Segmented,
        decreases n - i,
    {
        if !(rs[i].status == RenditionStatus::Segmented) {
            return false;
        }
        i += 1;
    }
    true
}

/// Whether every rendition is past its transcode.
#[verifier::loop_isolation(false)]
fn all_past_transcode_exec(rs: &Vec<Rendition>) -> (b: bool)
    ensures
        b == all_past_transcode(rs@),
{
    let n = rs.len();
    let mut i: usize = 0;
    while i < n
        invariant
            i <= n,
            forall|j: int|
                0 <= j < i ==> (#[trigger] rs@[j].status) is Segmenting || rs@[j].status
                    is Segmented,
        decreases n - i,
    {
        if !(rs[i].status == RenditionStatus::Segmenting || rs[i].status
            == RenditionStatus::Segmented) {
            return false;
        }
        i += 1;
    }
    true
}

/// Carry a structured encoder error into the job's failure detail.
fn encode_detail_exec(e: EncodeError) -> (d: FailureDetail)
    ensures
        d == encode_detail(e),
{
    match e {
        EncodeError::InputMissing => FailureDetail::InputMissing,
        EncodeError::OutputExists => FailureDetail::OutputExists,
        EncodeError::ToolFailed { stderr_tail } => FailureDetail::ToolFailed { stderr_tail },
    }
}

/// Carry a structured segmenter error into the job's failure detail.
fn segment_detail_exec(e: SegmentError) -> (d: FailureDetail)
    ensures
        d == segment_detail(e),
{
    match e {
        SegmentError::InputMissing => FailureDetail::InputMissing,
        SegmentError::ToolFailed { stderr_tail } => FailureDetail::ToolFailed { stderr_tail },
    }
}

/// Carry a structured thumbnail error into the job's failure detail.
fn thumbnail_detail_exec(e: ThumbnailError) -> (d: FailureDetail)
    ensures
        d == thumbnail_detail(e),
{
    match e {
        ThumbnailError::InputMissing => FailureDetail::InputMissing,
        ThumbnailError::ToolFailed { stderr_tail } => FailureDetail::ToolFailed { stderr_tail },
    }
}

} // verus!
