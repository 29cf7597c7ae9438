//! Scratch-store path composition and artifact naming.
//!
//! Pure path arithmetic over the per-job scratch subtree
//! `{scratch_root}/{job_id}/…`; nothing here touches disk. Every adapter and
//! the publisher resolve their artifact locations through these functions,
//! so one job's artifacts can never be composed into another job's subtree.

use vstd::prelude::*;

use crate::ids::JobId;
use crate::text::dec_rep;

verus! {

/// `a`, a separator, then `b`.
pub open spec fn joined(a: Seq<char>, b: Seq<char>) -> Seq<char> {
    a + "/"@ + b
}

/// The job's scratch directory: `{root}/{job_id}`.
pub fn scratch_dir(root: &str, job_id: &JobId) -> (p: String)
    ensures
        p@ == joined(root@, job_id@),
{
    root.to_owned().concat("/").concat(job_id.as_str())
}

/// A file inside the job's scratch directory: `{root}/{job_id}/{name}`.
/// Pure composition, shared by every adapter; never touches disk.
pub fn resolve(root: &str, job_id: &JobId, name: &str) -> (p: String)
    ensures
        p@ == joined(joined(root@, job_id@), name@),
{
    root.to_owned().concat("/").concat(job_id.as_str()).concat("/").concat(name)
}

/// File name of a rendition's encoded single-file artifact.
pub fn video_file_name(rendition_name: &str) -> (n: String)
    ensures
        n@ == rendition_name@ + ".mp4"@,
{
    rendition_name.to_owned().concat(".mp4")
}

/// File name of a rendition's stream manifest.
pub fn stream_manifest_file_name(rendition_name: &str) -> (n: String)
    ensures
        n@ == rendition_name@ + ".m3u8"@,
{
    rendition_name.to_owned().concat(".m3u8")
}

/// File name of the master manifest.
pub fn master_manifest_file_name() -> (n: String)
    ensures
        n@ == "master.m3u8"@,
{
    String::from_str("master.m3u8")
}

/// The numbered thumbnail file name: `thumbnail-{i:02}.png`, the number
/// zero-padded to two digits.
pub open spec fn thumbnail_name_text(i: nat) -> Seq<char> {
    "thumbnail-"@ + (if i < 10 {
        seq!['0'] + dec_rep(i)
    } else {
        dec_rep(i)
    }) + ".png"@
}

/// File name of the `i`-th preview thumbnail.
pub fn thumbnail_file_name(i: u64) -> (n: String)
    ensures
        n@ == thumbnail_name_text(i as nat),
{
    proof {
        reveal_strlit("0");
    }
    let digits = crate::text::u64_to_dec(i);
    let padded = if i < 10 {
        String::from_str("0").concat(digits.as_str())
    } else {
        digits
    };
    let n = String::from_str("thumbnail-").concat(padded.as_str()).concat(".png");
    proof {
        assert("0"@ =~= seq!['0']);
        assert(n@ =~= thumbnail_name_text(i as nat));
    }
    n
}

/// The pattern handed to the frame extractor for its numbered outputs.
pub fn thumbnail_pattern() -> (n: String)
    ensures
        n@ == "thumbnail-%02d.png"@,
{
    String::from_str("thumbnail-%02d.png")
}

} // verus!
