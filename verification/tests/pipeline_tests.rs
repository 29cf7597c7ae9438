use vod_pipeline::config::{default_rendition_table, Config, S3Constants};
use vod_pipeline::errors::{EncodeError, FailureDetail, Stage};
use vod_pipeline::ids::JobId;
use vod_pipeline::pipeline::{Action, Event, Job, JobState, SegmentOutput};
use vod_pipeline::planner::RenditionStatus;

fn config() -> Config {
    Config {
        s3: S3Constants {
            bucket_name: "clips".to_string(),
            aws_region: "us-east-2".to_string(),
        },
        scratch_root: "uploads".to_string(),
        segment_seconds: 10,
        thumbnail_count: 5,
        thumbnail_stride: 50,
        renditions: default_rendition_table(),
    }
}

fn new_job(id: &str) -> Job {
    let cfg = config();
    assert_eq!(cfg.validate(), Ok(()));
    Job::new(cfg, JobId::new(id.to_string()).expect("safe id"), "uploads/src.mp4".to_string())
}

/// Drive a fresh job to the fan-out: scratch created, source present.
fn to_transcoding(job: &mut Job) {
    let acts = job.start();
    assert_eq!(acts, vec![Action::CreateScratch]);
    let acts = job.step(Event::ScratchReady { outcome: Ok(()) });
    assert_eq!(acts, vec![Action::CheckSource]);
    let acts = job.step(Event::SourceChecked { present: true });
    assert_eq!(
        acts,
        vec![
            Action::StartTranscode { index: 0 },
            Action::StartTranscode { index: 1 },
            Action::StartTranscode { index: 2 },
            Action::StartThumbnails,
        ]
    );
    assert_eq!(job.state, JobState::Transcoding);
}

fn segments_for(name: &str) -> SegmentOutput {
    SegmentOutput { segment_files: vec![format!("{}_000.ts", name), format!("{}_001.ts", name)] }
}

#[test]
fn scenario_valid_source_publishes_full_package() {
    let mut job = new_job("vid-1");
    to_transcoding(&mut job);

    for i in 0..3usize {
        let acts = job.step(Event::TranscodeDone { index: i, outcome: Ok(()) });
        assert_eq!(acts, vec![Action::StartSegment { index: i }]);
    }
    assert_eq!(job.state, JobState::Segmenting);
    assert_eq!(
        job.renditions[0].video_path.as_deref(),
        Some("uploads/vid-1/high.mp4")
    );

    let acts = job.step(Event::ThumbnailsDone { outcome: Ok(5) });
    assert_eq!(acts, Vec::<Action>::new());

    let names = ["high", "mid", "low"];
    for i in 0..3usize {
        let acts = job.step(Event::SegmentDone {
            index: i,
            outcome: Ok(segments_for(names[i])),
        });
        if i < 2 {
            assert_eq!(acts, Vec::<Action>::new());
        } else {
            assert_eq!(acts, vec![Action::WriteMasterManifest]);
        }
    }
    assert_eq!(job.state, JobState::Packaging);
    assert_eq!(
        job.renditions[1].stream_manifest_path.as_deref(),
        Some("uploads/vid-1/mid.m3u8")
    );
    assert_eq!(
        job.master_manifest.as_deref(),
        Some(
            "#EXTM3U\n\
             #EXT-X-STREAM-INF:BANDWIDTH=5000000\nhigh.m3u8\n\
             #EXT-X-STREAM-INF:BANDWIDTH=3000000\nmid.m3u8\n\
             #EXT-X-STREAM-INF:BANDWIDTH=1500000\nlow.m3u8\n"
        )
    );

    let acts = job.step(Event::ManifestWritten { outcome: Ok(()) });
    assert_eq!(acts, vec![Action::StartPublish]);
    let acts = job.step(Event::PublishDone { outcome: Ok(()) });
    assert_eq!(acts, vec![Action::RemoveScratch]);

    assert_eq!(job.state, JobState::Published);
    assert!(!job.scratch_present);
    assert_eq!(
        job.published_url.as_deref(),
        Some("https://clips.s3.us-east-2.amazonaws.com/videos/vid-1/master.m3u8")
    );
    for r in &job.renditions {
        assert_eq!(r.status, RenditionStatus::Segmented);
        assert_eq!(r.segment_paths.len(), 2);
    }

    // The package: 3 encoded files, 3 stream manifests with their segment
    // sets, the master manifest and 5 thumbnails, all under the job prefix.
    let mut files: Vec<String> = Vec::new();
    for n in names {
        files.push(vod_pipeline::paths::video_file_name(n));
        files.push(vod_pipeline::paths::stream_manifest_file_name(n));
    }
    for r in &job.renditions {
        for s in &r.segment_paths {
            files.push(s.clone());
        }
    }
    files.push(vod_pipeline::paths::master_manifest_file_name());
    for i in 1..=5u64 {
        files.push(vod_pipeline::paths::thumbnail_file_name(i));
    }
    let keys = vod_pipeline::publish::package_keys(&job.job_id, &files);
    assert_eq!(keys.len(), 3 + 3 + 6 + 1 + 5);
    for (k, f) in keys.iter().zip(files.iter()) {
        assert_eq!(k, &format!("videos/vid-1/{}", f));
    }
}

#[test]
fn scenario_missing_source_fails_before_any_work() {
    let mut job = new_job("vid-2");
    let _ = job.start();
    let _ = job.step(Event::ScratchReady { outcome: Ok(()) });
    let acts = job.step(Event::SourceChecked { present: false });
    assert_eq!(acts, vec![Action::CancelSiblings, Action::RemoveScratch]);
    assert_eq!(job.state, JobState::Failed);
    assert!(!job.scratch_present);
    let failure = job.error.as_ref().expect("terminal failure recorded");
    assert_eq!(failure.stage, Stage::Transcoding);
    assert_eq!(failure.detail, FailureDetail::InputMissing);
    assert!(job.published_url.is_none());
    assert!(job.master_manifest.is_none());

    // Nothing starts afterwards: the machine never asks for any upload.
    let acts = job.step(Event::ThumbnailsDone { outcome: Ok(5) });
    assert_eq!(acts, Vec::<Action>::new());
    assert_eq!(job.state, JobState::Failed);
}

#[test]
fn scenario_encoder_failure_cancels_siblings_and_never_publishes() {
    let mut job = new_job("vid-3");
    to_transcoding(&mut job);

    let acts = job.step(Event::TranscodeDone {
        index: 1,
        outcome: Err(EncodeError::ToolFailed { stderr_tail: "exit status 1".to_string() }),
    });
    assert_eq!(acts, vec![Action::CancelSiblings, Action::RemoveScratch]);
    assert_eq!(job.state, JobState::Failed);
    let failure = job.error.as_ref().expect("terminal failure recorded");
    assert_eq!(failure.stage, Stage::Transcoding);
    assert_eq!(
        failure.detail,
        FailureDetail::ToolFailed { stderr_tail: "exit status 1".to_string() }
    );
    assert_eq!(job.renditions[1].status, RenditionStatus::Failed);
    assert!(!job.scratch_present);

    // Late sibling outcomes are ignored: no segment ever starts after the
    // failure is recorded, no manifest is built, nothing is published.
    let acts = job.step(Event::TranscodeDone { index: 0, outcome: Ok(()) });
    assert_eq!(acts, Vec::<Action>::new());
    let acts = job.step(Event::SegmentDone {
        index: 0,
        outcome: Ok(segments_for("high")),
    });
    assert_eq!(acts, Vec::<Action>::new());
    let acts = job.step(Event::PublishDone { outcome: Ok(()) });
    assert_eq!(acts, Vec::<Action>::new());
    assert_eq!(job.state, JobState::Failed);
    assert!(job.master_manifest.is_none());
    assert!(job.published_url.is_none());
}

#[test]
fn reversed_completion_order_gives_identical_package() {
    let forward: Vec<usize> = vec![0, 1, 2];
    let reversed: Vec<usize> = vec![2, 1, 0];
    let names = ["high", "mid", "low"];

    let mut packages: Vec<(String, String)> = Vec::new();
    for order in [forward, reversed] {
        let mut job = new_job("same-job");
        to_transcoding(&mut job);
        for &i in &order {
            let _ = job.step(Event::TranscodeDone { index: i, outcome: Ok(()) });
        }
        let _ = job.step(Event::ThumbnailsDone { outcome: Ok(5) });
        for &i in &order {
            let _ = job.step(Event::SegmentDone {
                index: i,
                outcome: Ok(segments_for(names[i])),
            });
        }
        let _ = job.step(Event::ManifestWritten { outcome: Ok(()) });
        let _ = job.step(Event::PublishDone { outcome: Ok(()) });
        assert_eq!(job.state, JobState::Published);
        packages.push((
            job.master_manifest.clone().expect("manifest built"),
            job.published_url.clone().expect("url computed"),
        ));
    }
    assert_eq!(packages[0].0, packages[1].0);
    assert_eq!(packages[0].1, packages[1].1);
}

#[test]
fn thumbnails_finishing_last_trigger_the_packaging_barrier() {
    let mut job = new_job("vid-4");
    to_transcoding(&mut job);
    let names = ["high", "mid", "low"];
    for i in 0..3usize {
        let _ = job.step(Event::TranscodeDone { index: i, outcome: Ok(()) });
        let acts = job.step(Event::SegmentDone {
            index: i,
            outcome: Ok(segments_for(names[i])),
        });
        // The barrier also waits for the thumbnails.
        assert_eq!(acts, Vec::<Action>::new());
    }
    assert_eq!(job.state, JobState::Segmenting);
    let acts = job.step(Event::ThumbnailsDone { outcome: Ok(3) });
    assert_eq!(acts, vec![Action::WriteMasterManifest]);
    assert_eq!(job.state, JobState::Packaging);
}

#[test]
fn out_of_protocol_events_are_ignored() {
    let mut job = new_job("vid-5");
    to_transcoding(&mut job);
    // A segment outcome for a rendition that has not finished transcoding.
    let acts = job.step(Event::SegmentDone { index: 0, outcome: Ok(segments_for("high")) });
    assert_eq!(acts, Vec::<Action>::new());
    assert_eq!(job.state, JobState::Transcoding);
    // A publish outcome long before publishing.
    let acts = job.step(Event::PublishDone { outcome: Ok(()) });
    assert_eq!(acts, Vec::<Action>::new());
    assert_eq!(job.state, JobState::Transcoding);
    // An index out of range.
    let acts = job.step(Event::TranscodeDone { index: 9, outcome: Ok(()) });
    assert_eq!(acts, Vec::<Action>::new());
}

#[test]
fn published_jobs_ignore_every_further_event() {
    let mut job = new_job("vid-6");
    to_transcoding(&mut job);
    let names = ["high", "mid", "low"];
    for i in 0..3usize {
        let _ = job.step(Event::TranscodeDone { index: i, outcome: Ok(()) });
    }
    let _ = job.step(Event::ThumbnailsDone { outcome: Ok(5) });
    for i in 0..3usize {
        let _ = job.step(Event::SegmentDone { index: i, outcome: Ok(segments_for(names[i])) });
    }
    let _ = job.step(Event::ManifestWritten { outcome: Ok(()) });
    let _ = job.step(Event::PublishDone { outcome: Ok(()) });
    assert_eq!(job.state, JobState::Published);

    let acts = job.step(Event::PublishDone { outcome: Err("late".to_string()) });
    assert_eq!(acts, Vec::<Action>::new());
    assert_eq!(job.state, JobState::Published);
    assert!(job.error.is_none());
}

#[test]
fn pre_existing_encoder_output_fails_the_job() {
    let mut job = new_job("vid-9");
    to_transcoding(&mut job);
    let acts = job.step(Event::TranscodeDone { index: 0, outcome: Err(EncodeError::OutputExists) });
    assert_eq!(acts, vec![Action::CancelSiblings, Action::RemoveScratch]);
    assert_eq!(job.state, JobState::Failed);
    let failure = job.error.as_ref().expect("terminal failure recorded");
    assert_eq!(failure.stage, Stage::Transcoding);
    assert_eq!(failure.detail, FailureDetail::OutputExists);
}

#[test]
fn segmenter_failure_is_recorded_in_its_own_stage() {
    let mut job = new_job("vid-10");
    to_transcoding(&mut job);
    let _ = job.step(Event::TranscodeDone { index: 0, outcome: Ok(()) });
    let acts = job.step(Event::SegmentDone {
        index: 0,
        outcome: Err(vod_pipeline::errors::SegmentError::ToolFailed {
            stderr_tail: "bad stream".to_string(),
        }),
    });
    assert_eq!(acts, vec![Action::CancelSiblings, Action::RemoveScratch]);
    assert_eq!(job.state, JobState::Failed);
    let failure = job.error.as_ref().expect("terminal failure recorded");
    assert_eq!(failure.stage, Stage::Segmenting);
    assert_eq!(
        failure.detail,
        FailureDetail::ToolFailed { stderr_tail: "bad stream".to_string() }
    );
    assert_eq!(job.renditions[0].status, RenditionStatus::Failed);
}

#[test]
fn thumbnail_failure_fails_the_whole_job() {
    let mut job = new_job("vid-11");
    to_transcoding(&mut job);
    let acts = job.step(Event::ThumbnailsDone {
        outcome: Err(vod_pipeline::errors::ThumbnailError::InputMissing),
    });
    assert_eq!(acts, vec![Action::CancelSiblings, Action::RemoveScratch]);
    assert_eq!(job.state, JobState::Failed);
    let failure = job.error.as_ref().expect("terminal failure recorded");
    assert_eq!(failure.stage, Stage::Thumbnails);
    assert_eq!(failure.detail, FailureDetail::InputMissing);
    assert!(!job.scratch_present);
}

#[test]
fn scratch_creation_failure_is_a_resource_error() {
    let mut job = new_job("vid-7");
    let _ = job.start();
    let acts = job.step(Event::ScratchReady { outcome: Err("disk full".to_string()) });
    assert_eq!(acts, vec![Action::CancelSiblings, Action::RemoveScratch]);
    assert_eq!(job.state, JobState::Failed);
    let failure = job.error.as_ref().expect("terminal failure recorded");
    assert_eq!(failure.stage, Stage::Planning);
    assert_eq!(
        failure.detail,
        FailureDetail::ResourceError { message: "disk full".to_string() }
    );
    assert!(!job.scratch_present);
}

#[test]
fn publish_failure_is_terminal_and_cleans_up() {
    let mut job = new_job("vid-8");
    to_transcoding(&mut job);
    let names = ["high", "mid", "low"];
    for i in 0..3usize {
        let _ = job.step(Event::TranscodeDone { index: i, outcome: Ok(()) });
        let _ = job.step(Event::SegmentDone { index: i, outcome: Ok(segments_for(names[i])) });
    }
    let _ = job.step(Event::ThumbnailsDone { outcome: Ok(5) });
    let _ = job.step(Event::ManifestWritten { outcome: Ok(()) });
    let acts = job.step(Event::PublishDone { outcome: Err("remote store unreachable".to_string()) });
    assert_eq!(acts, vec![Action::CancelSiblings, Action::RemoveScratch]);
    assert_eq!(job.state, JobState::Failed);
    let failure = job.error.as_ref().expect("terminal failure recorded");
    assert_eq!(failure.stage, Stage::Publishing);
    assert_eq!(
        failure.detail,
        FailureDetail::PublishError { message: "remote store unreachable".to_string() }
    );
    assert!(!job.scratch_present);
    assert!(job.published_url.is_none());
}
