//! Publishing arithmetic.
//!
//! The remote half of publishing — the object-storage calls — lives in the
//! surrounding application. This module fixes what makes the published
//! package canonical: the object key of every file in the job's package,
//! partitioned under the job's own prefix, and the playback URL that names
//! the published master manifest.

use vstd::prelude::*;

use crate::config::S3Constants;
use crate::ids::JobId;

verus! {

/// The remote key of one package file: `videos/{job_id}/{file_name}`.
pub open spec fn object_key_text(job_id: Seq<char>, file_name: Seq<char>) -> Seq<char> {
    "videos/"@ + job_id + "/"@ + file_name
}

/// The canonical playback URL of the published package:
/// `https://{bucket}.s3.{region}.amazonaws.com/videos/{job_id}/master.m3u8`.
pub open spec fn playback_url_text(
    bucket: Seq<char>,
    region: Seq<char>,
    job_id: Seq<char>,
) -> Seq<char> {
    "https://"@ + bucket + ".s3."@ + region + ".amazonaws.com/videos/"@ + job_id
        + "/master.m3u8"@
}

/// The remote object key for one file of the job's package.
pub fn object_key(job_id: &JobId, file_name: &str) -> (k: String)
    ensures
        k@ == object_key_text(job_id@, file_name@),
{
    String::from_str("videos/").concat(job_id.as_str()).concat("/").concat(file_name)
}

/// The remote object keys for a whole package, one per file, in order.
pub fn package_keys(job_id: &JobId, file_names: &Vec<String>) -> (ks: Vec<String>)
    ensures
        ks@.len() == file_names@.len(),
        forall|i: int|
            0 <= i < ks@.len() ==> (#[trigger] ks@[i])@ == object_key_text(
                job_id@,
                file_names@[i]@,
            ),
{
    let n = file_names.len();
    let mut ks: Vec<String> = Vec::new();
    let mut i: usize = 0;
    while i < n
        invariant
            n == file_names@.len(),
            i <= n,
            ks@.len() == i,
            forall|j: int|
                0 <= j < i ==> (#[trigger] ks@[j])@ == object_key_text(
                    job_id@,
                    file_names@[j]@,
                ),
        decreases n - i,
    {
        ks.push(object_key(job_id, file_names[i].as_str()));
        i += 1;
    }
    ks
}

/// The canonical playback URL for a job published with these constants.
pub fn playback_url(c: &S3Constants, job_id: &JobId) -> (u: String)
    ensures
        u@ == playback_url_text(c.bucket_name@, c.aws_region@, job_id@),
{
    String::from_str("https://")
        .concat(c.bucket_name.as_str())
        .concat(".s3.")
        .concat(c.aws_region.as_str())
        .concat(".amazonaws.com/videos/")
        .concat(job_id.as_str())
        .concat("/master.m3u8")
}

} // verus!
