//! The line index of a source text: the byte offset of every line start.
//!
//! A text's lines start at offset `0` and just after every newline, so a
//! text with a trailing newline has one final empty line, and a text
//! without newlines is a single line.

use crate::text::{
    byte_len, char_utf8_width, chars_of, lemma_byte_len_take_all, lemma_byte_len_take_le,
    lemma_byte_len_take_succ, lemma_char_width_bounds,
};
use vstd::prelude::*;

verus! {

/// The byte offsets of every line start in a text: `0`, then the offset
/// just after each newline, in increasing order.
pub open spec fn line_starts_spec(s: Seq<char>) -> Seq<int>
    decreases s.len(),
{
    if s.len() == 0 {
        seq![0]
    } else {
        let prev = line_starts_spec(s.drop_last());
        if s.last() == '\n' {
            prev.push(byte_len(s) as int)
        } else {
            prev
        }
    }
}

/// The index of the greatest entry of `table` that is at most `b`, in a
/// table whose first entry is at most `b`.
pub open spec fn greatest_le(table: Seq<int>, b: int) -> int
    decreases table.len(),
{
    if table.len() <= 1 {
        0
    } else if table.last() <= b {
        table.len() - 1
    } else {
        greatest_le(table.drop_last(), b)
    }
}

/// The line holding the byte at offset `b`: the line whose start is the
/// greatest line start at most `b`. Offsets past the end of the text
/// resolve to the last line.
pub open spec fn line_index_spec(s: Seq<char>, b: int) -> int {
    greatest_le(line_starts_spec(s), b)
}

/// The byte offset where the given line starts: an entry of the table
/// for a real line, the total byte length for the one-past-last empty
/// line, and nothing beyond that.
pub open spec fn line_start_spec(s: Seq<char>, line: int) -> Option<int> {
    let table = line_starts_spec(s);
    if 0 <= line < table.len() {
        Some(table[line])
    } else if line == table.len() {
        Some(byte_len(s) as int)
    } else {
        None
    }
}

/// The half-open byte range of the given line: from its start to the
/// start of the next line.
pub open spec fn line_range_spec(s: Seq<char>, line: int) -> Option<(int, int)> {
    match (line_start_spec(s, line), line_start_spec(s, line + 1)) {
        (Some(lo), Some(hi)) => Some((lo, hi)),
        _ => None,
    }
}

/// The line start table is never empty, begins with `0`, is strictly
/// increasing, and stays within the text's byte length.
pub proof fn lemma_line_starts_increasing(s: Seq<char>)
    ensures
        line_starts_spec(s).len() >= 1,
        line_starts_spec(s)[0] == 0,
        forall|i: int, j: int|
            0 <= i < j < line_starts_spec(s).len() ==> line_starts_spec(s)[i]
                < line_starts_spec(s)[j],
        forall|i: int|
            0 <= i < line_starts_spec(s).len() ==> line_starts_spec(s)[i] <= byte_len(s),
    decreases s.len(),
{
    if s.len() == 0 {
    } else {
        let prev = s.drop_last();
        lemma_line_starts_increasing(prev);
        assert(prev =~= s.take(s.len() - 1));
        lemma_byte_len_take_succ(s, s.len() - 1);
        lemma_byte_len_take_all(s);
        lemma_char_width_bounds(s.last());
    }
}

/// `greatest_le` returns the index of the greatest entry at most `b`: the
/// entry there is at most `b` and the next entry, if any, is beyond `b`.
pub proof fn lemma_greatest_le(table: Seq<int>, b: int)
    requires
        table.len() >= 1,
        table[0] <= b,
        forall|i: int, j: int| 0 <= i < j < table.len() ==> table[i] < table[j],
    ensures
        0 <= greatest_le(table, b) < table.len(),
        table[greatest_le(table, b)] <= b,
        greatest_le(table, b) + 1 < table.len() ==> b < table[greatest_le(table, b) + 1],
    decreases table.len(),
{
    if table.len() <= 1 {
    } else if table.last() <= b {
    } else {
        let prev = table.drop_last();
        lemma_greatest_le(prev, b);
        let r = greatest_le(prev, b);
        if r + 1 < table.len() {
            if r + 1 < prev.len() {
                assert(b < prev[r + 1]);
            } else {
                assert(r + 1 == table.len() - 1);
            }
        }
    }
}

/// Only one index can hold the greatest entry at most `b`, so anything
/// with `greatest_le`'s properties is `greatest_le`.
pub proof fn lemma_greatest_le_unique(table: Seq<int>, b: int, l: int)
    requires
        table.len() >= 1,
        table[0] <= b,
        forall|i: int, j: int| 0 <= i < j < table.len() ==> table[i] < table[j],
        0 <= l < table.len(),
        table[l] <= b,
        l + 1 < table.len() ==> b < table[l + 1],
    ensures
        l == greatest_le(table, b),
{
    lemma_greatest_le(table, b);
    let r = greatest_le(table, b);
    if l < r {
        assert(table[l + 1] <= table[r]);
    } else if r < l {
        assert(table[r + 1] <= table[l]);
    }
}

/// Every valid byte offset lies inside the byte range of the line that
/// `line_index_spec` assigns it.
pub proof fn lemma_line_range_contains_offset(s: Seq<char>, b: int)
    requires
        0 <= b < byte_len(s),
    ensures
        line_range_spec(s, line_index_spec(s, b)) is Some,
        line_range_spec(s, line_index_spec(s, b))->Some_0.0 <= b,
        b < line_range_spec(s, line_index_spec(s, b))->Some_0.1,
{
    let table = line_starts_spec(s);
    lemma_line_starts_increasing(s);
    lemma_greatest_le(table, b);
}

/// True when the `usize` entries of `v` are exactly the mathematical
/// table `t`.
pub open spec fn matches_table(v: Seq<usize>, t: Seq<int>) -> bool {
    v.len() == t.len() && forall|i: int| 0 <= i < v.len() ==> v[i] == t[i]
}

/// Computes the line start table of a text.
pub fn compute_line_starts(text: &str) -> (v: Vec<usize>)
    requires
        byte_len(text@) <= usize::MAX,
    ensures
        matches_table(v@, line_starts_spec(text@)),
{
    let chars = chars_of(text);
    let ghost s = text@;
    let n = chars.len();
    let total = text.len();
    proof {
        lemma_byte_len_take_all(s);
        assert(s.take(0) =~= Seq::<char>::empty());
    }
    let mut v: Vec<usize> = Vec::new();
    v.push(0);
    let mut b: usize = 0;
    let mut i: usize = 0;
    while i < n
        invariant
            i <= n,
            n == s.len(),
            chars@ == s,
            byte_len(s) == total,
            b == byte_len(s.take(i as int)),
            matches_table(v@, line_starts_spec(s.take(i as int))),
        decreases n - i,
    {
        let c = chars[i];
        proof {
            lemma_byte_len_take_succ(s, i as int);
            lemma_byte_len_take_le(s, i as int + 1, n as int);
            lemma_byte_len_take_all(s);
            assert(s.take(i as int + 1).drop_last() =~= s.take(i as int));
            assert(byte_len(s.take(i as int + 1)) <= byte_len(s));
        }
        let w = char_utf8_width(c);
        b = b + w;
        if c == '\n' {
            v.push(b);
        }
        i = i + 1;
    }
    proof {
        assert(s.take(n as int) =~= s);
    }
    v
}

/// Finds the greatest line start at most `b` by binary search over the
/// table.
pub fn greatest_start_le(table: &Vec<usize>, b: usize) -> (r: usize)
    requires
        table@.len() >= 1,
        table@[0] == 0,
        forall|i: int, j: int| 0 <= i < j < table@.len() ==> table@[i] < table@[j],
    ensures
        r < table@.len(),
        table@[r as int] <= b,
        r + 1 < table@.len() ==> b < table@[r as int + 1],
{
    let n = table.len();
    let mut lo: usize = 0;
    let mut hi: usize = n - 1;
    while lo < hi
        invariant
            n == table@.len(),
            0 <= lo <= hi < n,
            table@[lo as int] <= b,
            hi + 1 < table@.len() ==> b < table@[hi as int + 1],
            forall|i: int, j: int| 0 <= i < j < table@.len() ==> table@[i] < table@[j],
        decreases hi - lo,
    {
        let diff = hi - lo;
        proof {
            assert(diff < table@.len());
            assert((diff + 1) / 2 <= diff);
        }
        let mid = lo + (diff + 1) / 2;
        if table[mid] <= b {
            lo = mid;
        } else {
            hi = mid - 1;
        }
    }
    lo
}

} // verus!
