//! Character-level helpers: decimal rendering of integers, character classes
//! for identifiers that become path segments, and counting characters in a
//! sequence (used to reason about line structure of generated manifests).

use vstd::prelude::*;

verus! {

/// The character for one decimal digit.
pub open spec fn dec_digit(d: nat) -> char {
    if d == 0 {
        '0'
    } else if d == 1 {
        '1'
    } else if d == 2 {
        '2'
    } else if d == 3 {
        '3'
    } else if d == 4 {
        '4'
    } else if d == 5 {
        '5'
    } else if d == 6 {
        '6'
    } else if d == 7 {
        '7'
    } else if d == 8 {
        '8'
    } else {
        '9'
    }
}

/// Decimal representation of a natural number, most significant digit first,
/// with no leading zeros (zero itself is "0").
pub open spec fn dec_rep(n: nat) -> Seq<char>
    decreases n,
{
    if n < 10 {
        seq![dec_digit(n)]
    } else {
        dec_rep(n / 10).push(dec_digit(n % 10))
    }
}

/// One decimal digit as a string slice.
fn digit_str(d: u64) -> (s: &'static str)
    requires
        d < 10,
    ensures
        s@ == seq![dec_digit(d as nat)],
{
    proof {
        reveal_strlit("0");
        reveal_strlit("1");
        reveal_strlit("2");
        reveal_strlit("3");
        reveal_strlit("4");
        reveal_strlit("5");
        reveal_strlit("6");
        reveal_strlit("7");
        reveal_strlit("8");
        reveal_strlit("9");
    }
    let s: &'static str = if d == 0 {
        "0"
    } else if d == 1 {
        "1"
    } else if d == 2 {
        "2"
    } else if d == 3 {
        "3"
    } else if d == 4 {
        "4"
    } else if d == 5 {
        "5"
    } else if d == 6 {
        "6"
    } else if d == 7 {
        "7"
    } else if d == 8 {
        "8"
    } else {
        "9"
    };
    proof {
        assert(s@ =~= seq![dec_digit(d as nat)]);
    }
    s
}

/// How often `c` occurs in `s`.
pub open spec fn count_char(s: Seq<char>, c: char) -> nat
    decreases s.len(),
{
    if s.len() == 0 {
        0
    } else {
        count_char(s.drop_last(), c) + (if s.last() == c {
            1nat
        } else {
            0nat
        })
    }
}

/// Counting distributes over concatenation.
pub proof fn lemma_count_char_concat(a: Seq<char>, b: Seq<char>, c: char)
    ensures
        count_char(a + b, c) == count_char(a, c) + count_char(b, c),
    decreases b.len(),
{
    if b.len() == 0 {
        assert(a + b =~= a);
    } else {
        lemma_count_char_concat(a, b.drop_last(), c);
        assert((a + b).drop_last() =~= a + b.drop_last());
        assert((a + b).last() == b.last());
    }
}

/// A sequence free of `c` counts zero occurrences of it.
pub proof fn lemma_count_char_absent(s: Seq<char>, c: char)
    requires
        forall|i: int| 0 <= i < s.len() ==> s[i] != c,
    ensures
        count_char(s, c) == 0,
    decreases s.len(),
{
    if s.len() > 0 {
        lemma_count_char_absent(s.drop_last(), c);
    }
}

/// A decimal digit character.
pub open spec fn digit_char(c: char) -> bool {
    ('0' as u32) <= c as u32 && c as u32 <= ('9' as u32)
}

/// The decimal rendering of a number consists of digits alone.
pub proof fn lemma_dec_rep_digits(n: nat)
    ensures
        forall|i: int| 0 <= i < dec_rep(n).len() ==> digit_char(#[trigger] dec_rep(n)[i]),
    decreases n,
{
    if n < 10 {
        assert(dec_rep(n)[0] == dec_digit(n));
        assert(digit_char(dec_digit(n)));
    } else {
        lemma_dec_rep_digits(n / 10);
        assert forall|i: int| 0 <= i < dec_rep(n).len() implies digit_char(
            #[trigger] dec_rep(n)[i],
        ) by {
            if i < dec_rep(n).len() - 1 {
                assert(dec_rep(n)[i] == dec_rep(n / 10)[i]);
            } else {
                assert(dec_rep(n)[i] == dec_digit(n % 10));
                assert(digit_char(dec_digit(n % 10)));
            }
        }
    }
}

/// The views of a sequence of strings.
pub open spec fn views_of(v: Seq<String>) -> Seq<Seq<char>> {
    v.map_values(|s: String| s@)
}

/// Render a number in decimal.
pub fn u64_to_dec(n: u64) -> (s: String)
    ensures
        s@ == dec_rep(n as nat),
    decreases n,
{
    if n < 10 {
        let s = digit_str(n).to_owned();
        proof {
            assert(s@ =~= dec_rep(n as nat));
        }
        s
    } else {
        let prefix = u64_to_dec(n / 10);
        let last = digit_str(n % 10);
        let s = prefix.concat(last);
        proof {
            assert(s@ =~= dec_rep(n as nat));
        }
        s
    }
}

} // verus!
