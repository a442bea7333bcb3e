//! Detection of the node's "account sequence mismatch" hint in error text.
use vstd::prelude::*;
use crate::text::{
    chars_of, copy_range, find_char, find_char_from, find_sub, find_sub_from, matches_at, occurs_at,
    parse_u64_range, parse_u64_spec,
};

verus! {

/// The text that a node puts before the sequence number it expected.
pub open spec fn mismatch_prefix() -> Seq<char> {
    "account sequence mismatch, expected "@
}

/// The expected sequence announced at the start of `line`: the line starts
/// with the mismatch prefix, and what stands between it and the next comma
/// is a `u64`.
pub open spec fn expected_sequence_at_start(line: Seq<char>) -> Option<u64> {
    let p = mismatch_prefix();
    if occurs_at(line, p, 0) {
        let rest = line.subrange(p.len() as int, line.len() as int);
        match find_char_from(rest, ',', 0) {
            Some(k) => parse_u64_spec(rest.subrange(0, k)),
            None => None,
        }
    } else {
        None
    }
}

/// The expected sequence announced by one line: the text from the first
/// occurrence of the mismatch prefix in the line announces it.
pub open spec fn expected_sequence_in_line(line: Seq<char>) -> Option<u64> {
    match find_sub_from(line, mismatch_prefix(), 0) {
        Some(i) => expected_sequence_at_start(line.subrange(i, line.len() as int)),
        None => None,
    }
}

/// Where the line that starts at `i` ends: its newline, or the end of `s`.
pub open spec fn line_end(s: Seq<char>, i: int) -> int {
    match find_char_from(s, '\n', i) {
        Some(j) => j,
        None => s.len() as int,
    }
}

proof fn lemma_find_char_from_bounds(s: Seq<char>, c: char, from: int)
    ensures
        find_char_from(s, c, from) matches Some(j) ==> from <= j < s.len() && s[j] == c,
    decreases s.len() - from,
{
    if 0 <= from < s.len() && s[from] != c {
        lemma_find_char_from_bounds(s, c, from + 1);
    }
}

#[via_fn]
proof fn expected_sequence_from_decreases(s: Seq<char>, i: int) {
    if 0 <= i < s.len() {
        lemma_find_char_from_bounds(s, '\n', i);
        assert(i <= line_end(s, i) <= s.len());
    }
}

/// The expected sequence announced by the first line, at or after index `i`,
/// that announces one.
pub open spec fn expected_sequence_from(s: Seq<char>, i: int) -> Option<u64>
    decreases s.len() + 1 - i
    via expected_sequence_from_decreases
{
    if i < 0 || i >= s.len() {
        None
    } else {
        match expected_sequence_in_line(s.subrange(i, line_end(s, i))) {
            Some(n) => Some(n),
            None => expected_sequence_from(s, line_end(s, i) + 1),
        }
    }
}

/// The expected sequence announced by the first line of `s` that announces one.
pub open spec fn expected_sequence(s: Seq<char>) -> Option<u64> {
    expected_sequence_from(s, 0)
}

fn mismatch_prefix_chars() -> (r: Vec<char>)
    ensures
        r@ == mismatch_prefix(),
{
    chars_of("account sequence mismatch, expected ")
}

/// The expected sequence announced by the line `s[from..to]`.
fn expected_sequence_in_range(s: &Vec<char>, p: &Vec<char>, from: usize, to: usize) -> (r: Option<u64>)
    requires
        from <= to <= s@.len(),
        p@ == mismatch_prefix(),
    ensures
        r == expected_sequence_at_start(s@.subrange(from as int, to as int)),
{
    let ghost line = s@.subrange(from as int, to as int);
    if to - from < p.len() {
        return None;
    }
    if !matches_at(s, p, from) {
        assert(!occurs_at(line, p@, 0)) by {
            if occurs_at(line, p@, 0) {
                assert(s@.subrange(from as int, from + p@.len()) == line.subrange(0, p@.len() as int));
            }
        }
        return None;
    }
    assert(occurs_at(line, p@, 0)) by {
        assert(s@.subrange(from as int, from + p@.len()) == line.subrange(0, p@.len() as int));
    }
    let start = from + p.len();
    let ghost rest = line.subrange(p@.len() as int, line.len() as int);
    assert(rest == s@.subrange(start as int, to as int));
    let mut k = start;
    while k < to
        invariant
            start <= k <= to <= s@.len(),
            rest == s@.subrange(start as int, to as int),
            line == s@.subrange(from as int, to as int),
            p@ == mismatch_prefix(),
            start == from + p@.len(),
            occurs_at(line, p@, 0),
            rest == line.subrange(p@.len() as int, line.len() as int),
            find_char_from(rest, ',', 0) == find_char_from(rest, ',', k - start),
        decreases to - k,
    {
        if s[k] == ',' {
            assert(rest[k - start] == ',');
            assert(find_char_from(rest, ',', k - start) == Some((k - start) as int));
            assert(rest.subrange(0, k - start) == s@.subrange(start as int, k as int));
            return parse_u64_range(s, start, k);
        }
        assert(rest[k - start] != ',');
        k = k + 1;
    }
    assert(find_char_from(rest, ',', rest.len() as int) is None);
    None
}

/// Returns the sequence number that the node expected, read from the first
/// line of `message` that holds "account sequence mismatch, expected N,",
/// wherever in that line it stands.
pub fn get_expected_sequence(message: &str) -> (r: Option<u64>)
    ensures
        r == expected_sequence(message@),
{
    let s = chars_of(message);
    let p = mismatch_prefix_chars();
    let mut i: usize = 0;
    while i < s.len()
        invariant
            s@ == message@,
            p@ == mismatch_prefix(),
            i <= s@.len() + 1,
            expected_sequence(s@) == expected_sequence_from(s@, i as int),
        decreases s@.len() + 1 - i,
    {
        proof {
            lemma_find_char_from_bounds(s@, '\n', i as int);
        }
        let end = match find_char(&s, '\n', i) {
            Some(j) => j,
            None => s.len(),
        };
        assert(end == line_end(s@, i as int));
        assert(i < s@.len());
        let line = copy_range(&s, i, end);
        let found = match find_sub(&line, &p, 0) {
            Some(k) => expected_sequence_in_range(&line, &p, k, line.len()),
            None => None,
        };
        assert(line@.subrange(0, line@.len() as int) == line@);
        assert(expected_sequence_from(s@, i as int) == match found {
            Some(n) => Some(n),
            None => expected_sequence_from(s@, end + 1),
        });
        if let Some(n) = found {
            return Some(n);
        }
        if end == s.len() {
            return None;
        }
        i = end + 1;
    }
    None
}

/// Returns the sequence number that the node expected when `message` itself
/// reads "account sequence mismatch, expected N, ...".
pub fn get_expected_sequence_single(message: &str) -> (r: Option<u64>)
    ensures
        r == expected_sequence_at_start(message@),
{
    let s = chars_of(message);
    let p = mismatch_prefix_chars();
    assert(s@.subrange(0, s@.len() as int) == s@);
    expected_sequence_in_range(&s, &p, 0, s.len())
}

} // verus!
