//! Pipeline configuration.
//!
//! The configuration is an explicit, validated object handed to the
//! orchestrator at construction: object-storage constants, the scratch root,
//! the segment duration, the thumbnail parameters, and the rendition table.
//! The table is ordered by descending target quality; the encoder quality
//! parameter (lower value, higher fidelity) must increase along it and the
//! declared bandwidth must decrease along it.

use vstd::prelude::*;

use crate::errors::ConfigError;
use crate::ids::is_safe_segment;

verus! {

/// Remote object-storage constants: the bucket published to and its region.
pub struct S3Constants {
    pub bucket_name: String,
    pub aws_region: String,
}

/// One row of the rendition table: a label, the encoder quality parameter,
/// and the bandwidth declared for the rendition in the master manifest.
/// The quality parameter is a rate-control knob, not a bitrate; the declared
/// bandwidth is kept as its own field so the manifest never reuses the knob
/// as a bandwidth figure.
#[derive(Clone, Debug)]
pub struct RenditionConfig {
    pub name: String,
    pub quality: u32,
    pub bandwidth_bits: u64,
}

/// The validated configuration of the whole pipeline.
pub struct Config {
    pub s3: S3Constants,
    pub scratch_root: String,
    pub segment_seconds: u64,
    pub thumbnail_count: u64,
    pub thumbnail_stride: u64,
    pub renditions: Vec<RenditionConfig>,
}

/// Every rendition name is a safe path segment.
pub open spec fn names_safe(rs: Seq<RenditionConfig>) -> bool {
    forall|i: int| 0 <= i < rs.len() ==> is_safe_segment(#[trigger] rs[i].name@)
}

/// No two renditions share a name.
pub open spec fn names_unique(rs: Seq<RenditionConfig>) -> bool {
    forall|i: int, j: int| 0 <= i < j < rs.len() ==> rs[i].name@ != rs[j].name@
}

/// The quality parameter strictly increases along the table.
pub open spec fn quality_increasing(rs: Seq<RenditionConfig>) -> bool {
    forall|i: int| 0 <= i && i + 1 < rs.len() ==> rs[i].quality < #[trigger] rs[i + 1].quality
}

/// The declared bandwidth strictly decreases along the table.
pub open spec fn bandwidth_decreasing(rs: Seq<RenditionConfig>) -> bool {
    forall|i: int| 0 <= i && i + 1 < rs.len() ==> rs[i].bandwidth_bits > #[trigger] rs[i + 1].bandwidth_bits
}

/// The exact outcome of validation, checks taken in order.
pub open spec fn spec_validate(c: Config) -> Result<(), ConfigError> {
    if c.renditions@.len() == 0 {
        Err(ConfigError::NoRenditions)
    } else if !(names_safe(c.renditions@) && names_unique(c.renditions@)) {
        Err(ConfigError::BadRenditionName)
    } else if !quality_increasing(c.renditions@) {
        Err(ConfigError::QualityNotMonotonic)
    } else if !bandwidth_decreasing(c.renditions@) {
        Err(ConfigError::BandwidthNotMonotonic)
    } else if c.s3.bucket_name@.len() == 0 || c.s3.aws_region@.len() == 0
        || c.scratch_root@.len() == 0 {
        Err(ConfigError::EmptyField)
    } else if c.segment_seconds == 0 || c.thumbnail_count == 0 || c.thumbnail_stride == 0 {
        Err(ConfigError::ZeroParameter)
    } else {
        Ok(())
    }
}

/// A configuration the orchestrator accepts.
pub open spec fn valid_config(c: Config) -> bool {
    &&& c.renditions@.len() >= 1
    &&& names_safe(c.renditions@)
    &&& names_unique(c.renditions@)
    &&& quality_increasing(c.renditions@)
    &&& bandwidth_decreasing(c.renditions@)
    &&& c.s3.bucket_name@.len() >= 1
    &&& c.s3.aws_region@.len() >= 1
    &&& c.scratch_root@.len() >= 1
    &&& c.segment_seconds >= 1
    &&& c.thumbnail_count >= 1
    &&& c.thumbnail_stride >= 1
}

impl Config {
    /// Validate the configuration at process start. Returns `Ok` exactly on
    /// valid configurations, and otherwise the first failed check in order.
    pub fn validate(&self) -> (r: Result<(), ConfigError>)
        ensures
            r == spec_validate(*self),
            r is Ok <==> valid_config(*self),
    {
        let n = self.renditions.len();
        if n == 0 {
            return Err(ConfigError::NoRenditions);
        }
        if !check_names(&self.renditions) {
            return Err(ConfigError::BadRenditionName);
        }
        let mut i: usize = 0;
        while i + 1 < n
            invariant
                n == self.renditions@.len(),
                n >= 1,
                i < n,
                names_safe(self.renditions@),
                names_unique(self.renditions@),
                forall|j: int|
                    0 <= j < i ==> self.renditions@[j].quality
                        < #[trigger] self.renditions@[j + 1].quality,
            decreases n - i,
        {
            if self.renditions[i].quality >= self.renditions[i + 1].quality {
                proof {
                    assert(!quality_increasing(self.renditions@)) by {
                        assert(self.renditions@[i as int].quality
                            >= self.renditions@[i as int + 1].quality);
                    }
                }
                return Err(ConfigError::QualityNotMonotonic);
            }
            i += 1;
        }
        let mut i: usize = 0;
        while i + 1 < n
            invariant
                n == self.renditions@.len(),
                n >= 1,
                i < n,
                names_safe(self.renditions@),
                names_unique(self.renditions@),
                quality_increasing(self.renditions@),
                forall|j: int|
                    0 <= j < i ==> self.renditions@[j].bandwidth_bits
                        > #[trigger] self.renditions@[j + 1].bandwidth_bits,
            decreases n - i,
        {
            if self.renditions[i].bandwidth_bits <= self.renditions[i + 1].bandwidth_bits {
                proof {
                    assert(!bandwidth_decreasing(self.renditions@)) by {
                        assert(self.renditions@[i as int].bandwidth_bits
                            <= self.renditions@[i as int + 1].bandwidth_bits);
                    }
                }
                return Err(ConfigError::BandwidthNotMonotonic);
            }
            i += 1;
        }
        if self.s3.bucket_name.as_str().unicode_len() == 0
            || self.s3.aws_region.as_str().unicode_len() == 0
            || self.scratch_root.as_str().unicode_len() == 0 {
            return Err(ConfigError::EmptyField);
        }
        if self.segment_seconds == 0 || self.thumbnail_count == 0 || self.thumbnail_stride == 0 {
            return Err(ConfigError::ZeroParameter);
        }
        Ok(())
    }
}

/// Whether every name in the table is safe and no name repeats.
fn check_names(rs: &Vec<RenditionConfig>) -> (b: bool)
    ensures
        b == (names_safe(rs@) && names_unique(rs@)),
{
    let n = rs.len();
    let mut i: usize = 0;
    while i < n
        invariant
            n == rs@.len(),
            i <= n,
            forall|j: int| 0 <= j < i ==> is_safe_segment(#[trigger] rs@[j].name@),
            forall|j: int, k: int| 0 <= j < k < i ==> rs@[j].name@ != rs@[k].name@,
        decreases n - i,
    {
        if !crate::ids::check_safe_segment(rs[i].name.as_str()) {
            return false;
        }
        let mut j: usize = 0;
        while j < i
            invariant
                n == rs@.len(),
                j <= i < n,
                forall|k: int| 0 <= k < j ==> rs@[k].name@ != rs@[i as int].name@,
            decreases i - j,
        {
            if rs[j].name == rs[i].name {
                return false;
            }
            j += 1;
        }
        i += 1;
    }
    true
}

/// The standard three-row rendition table: `high`, `mid` and `low`, quality
/// parameters 23, 28 and 35, declared bandwidths five, three and one and a
/// half million bits per second.
pub fn default_rendition_table() -> (rs: Vec<RenditionConfig>)
    ensures
        rs@.len() == 3,
        rs@[0].name@ == "high"@ && rs@[0].quality == 23 && rs@[0].bandwidth_bits == 5000000,
        rs@[1].name@ == "mid"@ && rs@[1].quality == 28 && rs@[1].bandwidth_bits == 3000000,
        rs@[2].name@ == "low"@ && rs@[2].quality == 35 && rs@[2].bandwidth_bits == 1500000,
        names_safe(rs@),
        names_unique(rs@),
        quality_increasing(rs@),
        bandwidth_decreasing(rs@),
{
    proof {
        reveal_strlit("high");
        reveal_strlit("mid");
        reveal_strlit("low");
    }
    let mut rs: Vec<RenditionConfig> = Vec::new();
    rs.push(RenditionConfig { name: String::from_str("high"), quality: 23, bandwidth_bits: 5000000 });
    rs.push(RenditionConfig { name: String::from_str("mid"), quality: 28, bandwidth_bits: 3000000 });
    rs.push(RenditionConfig { name: String::from_str("low"), quality: 35, bandwidth_bits: 1500000 });
    proof {
        assert(is_safe_segment(rs@[0].name@));
        assert(is_safe_segment(rs@[1].name@));
        assert(is_safe_segment(rs@[2].name@));
        assert(rs@[0].name@.len() != rs@[1].name@.len());
        assert(rs@[1].name@[0] != rs@[2].name@[0]);
        assert(rs@[0].name@.len() != rs@[2].name@.len());
        assert forall|i: int| 0 <= i && i + 1 < rs@.len() implies rs@[i].quality
            < #[trigger] rs@[i + 1].quality by {
            assert(rs@[0].quality == 23 && rs@[1].quality == 28 && rs@[2].quality == 35);
        }
        assert forall|i: int| 0 <= i && i + 1 < rs@.len() implies rs@[i].bandwidth_bits
            > #[trigger] rs@[i + 1].bandwidth_bits by {
            assert(rs@[0].bandwidth_bits == 5000000 && rs@[1].bandwidth_bits == 3000000
                && rs@[2].bandwidth_bits == 1500000);
        }
    }
    rs
}

} // verus!
