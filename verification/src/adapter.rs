//! Adapters for the external tools.
//!
//! The encoder, segmenter and frame extractor run as child processes of the
//! surrounding application; the pipeline treats each as an opaque command
//! that is given an argument list and comes back with an exit status and
//! diagnostic output. This module is the pure half of each adapter: the
//! exact argument contract per invocation, and the translation of observed
//! facts (prerequisite present, output fresh, exit status, stderr) into the
//! structured per-rendition result.

use vstd::prelude::*;

use crate::errors::{EncodeError, SegmentError, ThumbnailError};
use crate::text::{dec_rep, u64_to_dec, views_of};

verus! {

/// Longest stderr tail carried into a failure detail, in characters.
pub const STDERR_TAIL_MAX: usize = 400;

/// The bounded tail of a tool's diagnostic output.
pub open spec fn tail_text(s: Seq<char>) -> Seq<char> {
    if s.len() <= STDERR_TAIL_MAX {
        s
    } else {
        s.subrange(s.len() - STDERR_TAIL_MAX, s.len() as int)
    }
}

/// Keep only the last `STDERR_TAIL_MAX` characters of a diagnostic.
pub fn stderr_tail(s: &str) -> (t: String)
    ensures
        t@ == tail_text(s@),
{
    let n = s.unicode_len();
    if n <= STDERR_TAIL_MAX {
        s.to_owned()
    } else {
        s.substring_char(n - STDERR_TAIL_MAX, n).to_owned()
    }
}

/// The encoder's argument contract for one rendition: force timestamp
/// regeneration, bounded probe and analyze limits, explicit pixel format and
/// codec, the single rate-control knob, one output path.
pub open spec fn transcode_args_text(
    input: Seq<char>,
    quality: u32,
    output: Seq<char>,
) -> Seq<Seq<char>> {
    seq![
        "-fflags"@,
        "+genpts"@,
        "-i"@,
        input,
        "-analyzeduration"@,
        "100M"@,
        "-probesize"@,
        "50M"@,
        "-pix_fmt"@,
        "yuv420p"@,
        "-vcodec"@,
        "libx264"@,
        "-crf"@,
        dec_rep(quality as nat),
        output,
    ]
}

/// Build the encoder's argument list for one rendition.
pub fn transcode_args(input: &str, quality: u32, output: &str) -> (args: Vec<String>)
    ensures
        views_of(args@) == transcode_args_text(input@, quality, output@),
{
    let mut args: Vec<String> = Vec::new();
    args.push(String::from_str("-fflags"));
    args.push(String::from_str("+genpts"));
    args.push(String::from_str("-i"));
    args.push(String::from_str(input));
    args.push(String::from_str("-analyzeduration"));
    args.push(String::from_str("100M"));
    args.push(String::from_str("-probesize"));
    args.push(String::from_str("50M"));
    args.push(String::from_str("-pix_fmt"));
    args.push(String::from_str("yuv420p"));
    args.push(String::from_str("-vcodec"));
    args.push(String::from_str("libx264"));
    args.push(String::from_str("-crf"));
    args.push(u64_to_dec(quality as u64));
    args.push(String::from_str(output));
    proof {
        assert(views_of(args@) =~= transcode_args_text(input@, quality, output@));
    }
    args
}

/// The segmenter's argument contract for one rendition: fixed segment
/// duration, unbounded playlist, stale segments replaced on a re-run.
pub open spec fn segment_args_text(
    input: Seq<char>,
    segment_seconds: u64,
    output: Seq<char>,
) -> Seq<Seq<char>> {
    seq![
        "-i"@,
        input,
        "-profile:v"@,
        "baseline"@,
        "-start_number"@,
        "0"@,
        "-hls_time"@,
        dec_rep(segment_seconds as nat),
        "-hls_list_size"@,
        "0"@,
        "-hls_flags"@,
        "delete_segments"@,
        "-f"@,
        "hls"@,
        output,
    ]
}

/// Build the segmenter's argument list for one rendition.
pub fn segment_args(input: &str, segment_seconds: u64, output: &str) -> (args: Vec<String>)
    ensures
        views_of(args@) == segment_args_text(input@, segment_seconds, output@),
{
    let mut args: Vec<String> = Vec::new();
    args.push(String::from_str("-i"));
    args.push(String::from_str(input));
    args.push(String::from_str("-profile:v"));
    args.push(String::from_str("baseline"));
    args.push(String::from_str("-start_number"));
    args.push(String::from_str("0"));
    args.push(String::from_str("-hls_time"));
    args.push(u64_to_dec(segment_seconds));
    args.push(String::from_str("-hls_list_size"));
    args.push(String::from_str("0"));
    args.push(String::from_str("-hls_flags"));
    args.push(String::from_str("delete_segments"));
    args.push(String::from_str("-f"));
    args.push(String::from_str("hls"));
    args.push(String::from_str(output));
    proof {
        assert(views_of(args@) =~= segment_args_text(input@, segment_seconds, output@));
    }
    args
}

/// The frame extractor's argument contract: sample every `stride`-th frame
/// of the original upload and write `count` numbered images.
pub open spec fn thumbnail_args_text(
    input: Seq<char>,
    stride: u64,
    count: u64,
    output_pattern: Seq<char>,
) -> Seq<Seq<char>> {
    seq![
        "-i"@,
        input,
        "-vf"@,
        "thumbnail,select='not(mod(n,"@ + dec_rep(stride as nat) + "))'"@,
        "-frames:v"@,
        dec_rep(count as nat),
        output_pattern,
    ]
}

/// Build the frame extractor's argument list.
pub fn thumbnail_args(input: &str, stride: u64, count: u64, output_pattern: &str) -> (args: Vec<
    String,
>)
    ensures
        views_of(args@) == thumbnail_args_text(input@, stride, count, output_pattern@),
{
    let select = String::from_str("thumbnail,select='not(mod(n,").concat(
        u64_to_dec(stride).as_str(),
    ).concat("))'");
    let mut args: Vec<String> = Vec::new();
    args.push(String::from_str("-i"));
    args.push(String::from_str(input));
    args.push(String::from_str("-vf"));
    args.push(select);
    args.push(String::from_str("-frames:v"));
    args.push(u64_to_dec(count));
    args.push(String::from_str(output_pattern));
    proof {
        assert(views_of(args@) =~= thumbnail_args_text(input@, stride, count, output_pattern@));
    }
    args
}

/// Interpret one encoder invocation for one rendition. A missing source
/// fails before any process is spawned; a pre-existing output is refused so
/// a retried run can never mix bytes into an old artifact; a non-zero exit
/// carries the bounded stderr tail. Success is all-or-nothing.
pub fn transcode_outcome(
    input_present: bool,
    output_fresh: bool,
    exit_ok: bool,
    stderr: &str,
) -> (r: Result<(), EncodeError>)
    ensures
        !input_present ==> r == Err::<(), EncodeError>(EncodeError::InputMissing),
        input_present && !output_fresh ==> r == Err::<(), EncodeError>(EncodeError::OutputExists),
        input_present && output_fresh && exit_ok ==> r == Ok::<(), EncodeError>(()),
        input_present && output_fresh && !exit_ok ==> (r matches Err(
            EncodeError::ToolFailed { stderr_tail: t },
        ) && t@ == tail_text(stderr@)),
{
    if !input_present {
        Err(EncodeError::InputMissing)
    } else if !output_fresh {
        Err(EncodeError::OutputExists)
    } else if exit_ok {
        Ok(())
    } else {
        Err(EncodeError::ToolFailed { stderr_tail: stderr_tail(stderr) })
    }
}

/// Interpret one segmenter invocation for one rendition: the rendition's
/// encoded artifact must exist, and a non-zero exit carries the bounded
/// stderr tail.
pub fn segment_outcome(input_present: bool, exit_ok: bool, stderr: &str) -> (r: Result<
    (),
    SegmentError,
>)
    ensures
        !input_present ==> r == Err::<(), SegmentError>(SegmentError::InputMissing),
        input_present && exit_ok ==> r == Ok::<(), SegmentError>(()),
        input_present && !exit_ok ==> (r matches Err(SegmentError::ToolFailed { stderr_tail: t })
            && t@ == tail_text(stderr@)),
{
    if !input_present {
        Err(SegmentError::InputMissing)
    } else if exit_ok {
        Ok(())
    } else {
        Err(SegmentError::ToolFailed { stderr_tail: stderr_tail(stderr) })
    }
}

/// Interpret the frame-extractor invocation: the original upload must
/// exist, a non-zero exit carries the bounded stderr tail, and on success
/// however many images were written are reported — fewer than requested is
/// not an error.
pub fn thumbnail_outcome(input_present: bool, exit_ok: bool, stderr: &str, produced: u64) -> (r:
    Result<u64, ThumbnailError>)
    ensures
        !input_present ==> r == Err::<u64, ThumbnailError>(ThumbnailError::InputMissing),
        input_present && exit_ok ==> r == Ok::<u64, ThumbnailError>(produced),
        input_present && !exit_ok ==> (r matches Err(
            ThumbnailError::ToolFailed { stderr_tail: t },
        ) && t@ == tail_text(stderr@)),
{
    if !input_present {
        Err(ThumbnailError::InputMissing)
    } else if exit_ok {
        Ok(produced)
    } else {
        Err(ThumbnailError::ToolFailed { stderr_tail: stderr_tail(stderr) })
    }
}

} // verus!
