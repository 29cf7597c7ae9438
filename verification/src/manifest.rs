//! The master manifest builder.
//!
//! A pure function from the job's rendition set to the top-level
//! adaptive-streaming playlist: a header line, then per rendition one
//! bandwidth-annotation line carrying the rendition's declared bandwidth and
//! one stream-reference line naming its stream manifest, in the set's
//! declared order. The caller (the orchestrator) only passes renditions that
//! reached `Segmented`; the builder does not re-check disk state.

use vstd::prelude::*;

use crate::ids::{id_char, is_safe_segment};
use crate::planner::Rendition;
use crate::text::{
    count_char, dec_rep, lemma_count_char_absent, lemma_count_char_concat, lemma_dec_rep_digits,
    u64_to_dec,
};

verus! {

/// The bandwidth-annotation line for one rendition, newline included.
pub open spec fn bandwidth_line(bandwidth_bits: u64) -> Seq<char> {
    "#EXT-X-STREAM-INF:BANDWIDTH="@ + dec_rep(bandwidth_bits as nat) + "\n"@
}

/// The stream-reference line for one rendition, newline included.
pub open spec fn stream_line(name: Seq<char>) -> Seq<char> {
    name + ".m3u8\n"@
}

/// The per-rendition lines of the manifest, in declared order.
pub open spec fn manifest_entries(rs: Seq<Rendition>) -> Seq<char>
    decreases rs.len(),
{
    if rs.len() == 0 {
        Seq::empty()
    } else {
        manifest_entries(rs.drop_last()) + bandwidth_line(rs.last().bandwidth_bits) + stream_line(
            rs.last().name@,
        )
    }
}

/// The whole master manifest: header line, then the per-rendition lines.
pub open spec fn master_manifest_text(rs: Seq<Rendition>) -> Seq<char> {
    "#EXTM3U\n"@ + manifest_entries(rs)
}

/// Build the master manifest for a rendition set whose members all reached
/// `Segmented`. Deterministic: the text is a function of the set alone.
pub fn build(renditions: &Vec<Rendition>) -> (text: String)
    requires
        forall|i: int|
            0 <= i < renditions@.len() ==> (#[trigger] renditions@[i].status) is Segmented,
    ensures
        text@ == master_manifest_text(renditions@),
{
    let n = renditions.len();
    let mut text = String::from_str("#EXTM3U\n");
    let mut i: usize = 0;
    while i < n
        invariant
            n == renditions@.len(),
            i <= n,
            text@ == "#EXTM3U\n"@ + manifest_entries(renditions@.take(i as int)),
        decreases n - i,
    {
        text.append("#EXT-X-STREAM-INF:BANDWIDTH=");
        let digits = u64_to_dec(renditions[i].bandwidth_bits);
        text.append(digits.as_str());
        text.append("\n");
        text.append(renditions[i].name.as_str());
        text.append(".m3u8\n");
        proof {
            let taken = renditions@.take(i + 1);
            assert(taken.drop_last() =~= renditions@.take(i as int));
            assert(taken.last() == renditions@[i as int]);
            assert(text@ =~= "#EXTM3U\n"@ + manifest_entries(taken));
        }
        i += 1;
    }
    proof {
        assert(renditions@.take(n as int) =~= renditions@);
    }
    text
}

/// The manifest lists its renditions and nothing else: with safe rendition
/// names, the text holds exactly `1 + 2 * len` newline-terminated lines —
/// the header, then one bandwidth line and one stream-reference line per
/// rendition, in declared order.
pub proof fn lemma_manifest_line_count(rs: Seq<Rendition>)
    requires
        forall|i: int| 0 <= i < rs.len() ==> is_safe_segment(#[trigger] rs[i].name@),
    ensures
        count_char(master_manifest_text(rs), '\n') == 1 + 2 * rs.len(),
{
    lemma_header_newlines();
    lemma_entries_newlines(rs);
    lemma_count_char_concat("#EXTM3U\n"@, manifest_entries(rs), '\n');
}

/// Byte-for-byte determinism: two manifests built over the same rendition
/// set are identical.
pub proof fn lemma_build_deterministic(rs: Seq<Rendition>, t1: Seq<char>, t2: Seq<char>)
    requires
        t1 == master_manifest_text(rs),
        t2 == master_manifest_text(rs),
    ensures
        t1 == t2,
{
}

/// The manifest text depends only on each rendition's name and declared
/// bandwidth, in order: any two rendition sets that agree on those rows
/// produce identical text, whatever their statuses or artifact paths.
pub proof fn lemma_manifest_from_rows(a: Seq<Rendition>, b: Seq<Rendition>)
    requires
        a.len() == b.len(),
        forall|i: int|
            0 <= i < a.len() ==> (#[trigger] a[i]).name@ == b[i].name@ && a[i].bandwidth_bits
                == b[i].bandwidth_bits,
    ensures
        master_manifest_text(a) == master_manifest_text(b),
{
    lemma_entries_from_rows(a, b);
}

/// The per-rendition lines depend only on the name and bandwidth rows.
proof fn lemma_entries_from_rows(a: Seq<Rendition>, b: Seq<Rendition>)
    requires
        a.len() == b.len(),
        forall|i: int|
            0 <= i < a.len() ==> (#[trigger] a[i]).name@ == b[i].name@ && a[i].bandwidth_bits
                == b[i].bandwidth_bits,
    ensures
        manifest_entries(a) == manifest_entries(b),
    decreases a.len(),
{
    if a.len() > 0 {
        assert forall|i: int|
            0 <= i < a.drop_last().len() implies (#[trigger] a.drop_last()[i]).name@
            == b.drop_last()[i].name@ && a.drop_last()[i].bandwidth_bits
            == b.drop_last()[i].bandwidth_bits by {
            assert(a.drop_last()[i] == a[i]);
            assert(b.drop_last()[i] == b[i]);
        }
        lemma_entries_from_rows(a.drop_last(), b.drop_last());
        assert(a.last().name@ == b.last().name@ && a.last().bandwidth_bits
            == b.last().bandwidth_bits);
    }
}

/// The header contributes exactly one newline.
proof fn lemma_header_newlines()
    ensures
        count_char("#EXTM3U\n"@, '\n') == 1,
{
    reveal_strlit("#EXTM3U\n");
    let s = "#EXTM3U\n"@;
    assert forall|i: int| 0 <= i < s.drop_last().len() implies s.drop_last()[i] != '\n' by {
        assert(s.drop_last()[i] == s[i]);
    }
    lemma_count_char_absent(s.drop_last(), '\n');
    assert(count_char(s, '\n') == count_char(s.drop_last(), '\n') + 1);
}

/// One bandwidth line contributes exactly one newline.
proof fn lemma_bandwidth_line_newlines(bandwidth_bits: u64)
    ensures
        count_char(bandwidth_line(bandwidth_bits), '\n') == 1,
{
    reveal_strlit("#EXT-X-STREAM-INF:BANDWIDTH=");
    reveal_strlit("\n");
    let prefix = "#EXT-X-STREAM-INF:BANDWIDTH="@;
    let digits = dec_rep(bandwidth_bits as nat);
    assert forall|i: int| 0 <= i < prefix.len() implies prefix[i] != '\n' by {}
    lemma_count_char_absent(prefix, '\n');
    lemma_dec_rep_digits(bandwidth_bits as nat);
    assert forall|i: int| 0 <= i < digits.len() implies digits[i] != '\n' by {
        assert(crate::text::digit_char(digits[i]));
    }
    lemma_count_char_absent(digits, '\n');
    let nl = "\n"@;
    assert(nl.len() == 1);
    assert(nl.last() == '\n');
    assert(nl.drop_last() =~= Seq::<char>::empty());
    assert(count_char(nl.drop_last(), '\n') == 0);
    assert(count_char(nl, '\n') == 1);
    lemma_count_char_concat(prefix, digits, '\n');
    lemma_count_char_concat(prefix + digits, nl, '\n');
}

/// One stream-reference line over a safe name contributes exactly one
/// newline.
proof fn lemma_stream_line_newlines(name: Seq<char>)
    requires
        is_safe_segment(name),
    ensures
        count_char(stream_line(name), '\n') == 1,
{
    reveal_strlit(".m3u8\n");
    let suffix = ".m3u8\n"@;
    assert forall|i: int| 0 <= i < name.len() implies name[i] != '\n' by {
        assert(id_char(name[i]));
    }
    lemma_count_char_absent(name, '\n');
    assert forall|i: int| 0 <= i < suffix.drop_last().len() implies suffix.drop_last()[i] != '\n' by {
        assert(suffix.drop_last()[i] == suffix[i]);
    }
    lemma_count_char_absent(suffix.drop_last(), '\n');
    assert(count_char(suffix, '\n') == count_char(suffix.drop_last(), '\n') + 1);
    lemma_count_char_concat(name, suffix, '\n');
}

/// The per-rendition lines contribute two newlines per rendition.
proof fn lemma_entries_newlines(rs: Seq<Rendition>)
    requires
        forall|i: int| 0 <= i < rs.len() ==> is_safe_segment(#[trigger] rs[i].name@),
    ensures
        count_char(manifest_entries(rs), '\n') == 2 * rs.len(),
    decreases rs.len(),
{
    if rs.len() > 0 {
        lemma_entries_newlines(rs.drop_last());
        lemma_bandwidth_line_newlines(rs.last().bandwidth_bits);
        lemma_stream_line_newlines(rs.last().name@);
        lemma_count_char_concat(
            manifest_entries(rs.drop_last()),
            bandwidth_line(rs.last().bandwidth_bits),
            '\n',
        );
        lemma_count_char_concat(
            manifest_entries(rs.drop_last()) + bandwidth_line(rs.last().bandwidth_bits),
            stream_line(rs.last().name@),
            '\n',
        );
    }
}

} // verus!
