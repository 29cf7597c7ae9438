//! Job identifiers.
//!
//! A job id names the job's scratch directory and its remote object-key
//! prefix, so it is validated as a safe path segment before it is ever used:
//! only lower-case letters, digits and hyphens, non-empty and bounded in
//! length. Fresh ids are drawn from the process's random source in the
//! hyphenated UUID form, which satisfies that validation.

use vstd::prelude::*;

verus! {

/// Longest accepted job id, in characters.
pub const MAX_ID_LEN: usize = 64;

/// Characters accepted in a job id or a rendition name: safe both as a
/// filesystem path segment and as a remote object-key segment.
pub open spec fn id_char(c: char) -> bool {
    ||| ('a' as u32) <= c as u32 && c as u32 <= ('z' as u32)
    ||| ('0' as u32) <= c as u32 && c as u32 <= ('9' as u32)
    ||| c == '-'
    ||| c == '_'
}

/// A non-empty, bounded string of safe characters.
pub open spec fn is_safe_segment(s: Seq<char>) -> bool {
    &&& 1 <= s.len() <= MAX_ID_LEN
    &&& forall|i: int| 0 <= i < s.len() ==> id_char(s[i])
}

/// A lower-case hyphenated UUID: 36 characters, hyphens at positions 8, 13,
/// 18 and 23, lower-case hexadecimal digits everywhere else.
pub open spec fn is_hyphenated_uuid(s: Seq<char>) -> bool {
    &&& s.len() == 36
    &&& forall|i: int|
        0 <= i < 36 ==> (if i == 8 || i == 13 || i == 18 || i == 23 {
            s[i] == '-'
        } else {
            ||| ('0' as u32) <= s[i] as u32 && s[i] as u32 <= ('9' as u32)
            ||| ('a' as u32) <= s[i] as u32 && s[i] as u32 <= ('f' as u32)
        })
}

/// An opaque job identifier, known to be a safe path segment.
#[derive(Clone, PartialEq, Eq, Debug)]
pub struct JobId {
    id: String,
}

impl View for JobId {
    type V = Seq<char>;

    closed spec fn view(&self) -> Seq<char> {
        self.id@
    }
}

impl JobId {
    /// Every constructed `JobId` satisfies this.
    pub open spec fn wf(&self) -> bool {
        is_safe_segment(self@)
    }

    /// Validate a string as a job id; accepts exactly the safe segments.
    pub fn new(id: String) -> (r: Option<JobId>)
        ensures
            r is Some <==> is_safe_segment(id@),
            r is Some ==> r->0@ == id@ && r->0.wf(),
    {
        if check_safe_segment(id.as_str()) {
            Some(JobId { id })
        } else {
            None
        }
    }

    /// The id as a string slice.
    pub fn as_str(&self) -> (r: &str)
        ensures
            r@ == self@,
    {
        self.id.as_str()
    }
}

/// Whether every character of `s` is safe and the length is in bounds.
pub fn check_safe_segment(s: &str) -> (b: bool)
    ensures
        b == is_safe_segment(s@),
{
    let n = s.unicode_len();
    if n < 1 || n > MAX_ID_LEN {
        return false;
    }
    let mut i: usize = 0;
    while i < n
        invariant
            n == s@.len(),
            i <= n,
            forall|j: int| 0 <= j < i ==> id_char(s@[j]),
        decreases n - i,
    {
        let c = s.get_char(i);
        let v = c as u32;
        let ok = (97 <= v && v <= 122) || (48 <= v && v <= 57) || c == '-' || c == '_';
        if !ok {
            return false;
        }
        i += 1;
    }
    true
}

/// Relies on `uuid::Uuid::new_v4` together with uuid's `Display`
/// implementation, which renders the lower-case hyphenated form: 36
/// characters with hyphens at positions 8, 13, 18 and 23 and lower-case hex
/// digits elsewhere. Nothing else is assumed of the randomly drawn value.
#[verifier::external_body]
fn random_uuid_hyphenated() -> (r: String)
    ensures
        is_hyphenated_uuid(r@),
{
    uuid::Uuid::new_v4().to_string()
}

/// Draw a fresh random job id in hyphenated UUID form.
pub fn fresh_job_id() -> (j: JobId)
    ensures
        j.wf(),
        is_hyphenated_uuid(j@),
{
    let id = random_uuid_hyphenated();
    proof {
        assert forall|i: int| 0 <= i < id@.len() implies id_char(id@[i]) by {
            assert(is_hyphenated_uuid(id@));
        }
    }
    JobId { id }
}

} // verus!
