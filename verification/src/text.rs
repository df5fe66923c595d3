//! Byte lengths of source text.
//!
//! Byte offsets into a source string count UTF-8 code units. These
//! functions tie the character view of a string to those offsets.

use vstd::prelude::*;
use vstd::string::StrSliceExecFns;
use vstd::utf8::{char_is_scalar, encode_scalar, encode_utf8};

verus! {

/// The characters of a string, in order.
pub fn chars_of(s: &str) -> (v: Vec<char>)
    ensures
        v@ == s@,
{
    let n = s.unicode_len();
    let mut v: Vec<char> = Vec::new();
    let mut i: usize = 0;
    while i < n
        invariant
            i <= n,
            n == s@.len(),
            v@ == s@.take(i as int),
        decreases n - i,
    {
        v.push(s.get_char(i));
        i = i + 1;
        proof {
            assert(v@ =~= s@.take(i as int));
        }
    }
    proof {
        assert(s@.take(n as int) =~= s@);
    }
    v
}

/// The number of bytes in the UTF-8 encoding of one character.
pub open spec fn char_width(c: char) -> nat {
    encode_scalar(c as u32).len()
}

/// The number of bytes in the UTF-8 encoding of a character sequence;
/// byte offsets into source text count these.
pub open spec fn byte_len(s: Seq<char>) -> nat {
    encode_utf8(s).len()
}

/// A character is encoded in one to four bytes.
pub broadcast proof fn lemma_char_width_bounds(c: char)
    ensures
        1 <= #[trigger] char_width(c) <= 4,
{
}

/// The encoding of a concatenation is the concatenation of the
/// encodings, so byte lengths add up.
pub proof fn lemma_byte_len_concat(a: Seq<char>, b: Seq<char>)
    ensures
        byte_len(a + b) == byte_len(a) + byte_len(b),
    decreases a.len(),
{
    if a.len() == 0 {
        assert(a + b =~= b);
        assert(encode_utf8(a).len() == 0);
    } else {
        assert((a + b).len() > 0);
        assert((a + b)[0] == a[0]);
        assert((a + b).drop_first() =~= a.drop_first() + b);
        lemma_byte_len_concat(a.drop_first(), b);
    }
}

/// One character's encoding is its own width.
pub proof fn lemma_byte_len_singleton(c: char)
    ensures
        byte_len(seq![c]) == char_width(c),
{
    reveal_with_fuel(encode_utf8, 2);
    assert(seq![c].drop_first() =~= Seq::<char>::empty());
}

/// Extending a prefix by one character extends its byte length by that
/// character's width.
pub proof fn lemma_byte_len_take_succ(s: Seq<char>, i: int)
    requires
        0 <= i < s.len(),
    ensures
        byte_len(s.take(i + 1)) == byte_len(s.take(i)) + char_width(s[i]),
{
    assert(s.take(i + 1) =~= s.take(i) + seq![s[i]]);
    lemma_byte_len_concat(s.take(i), seq![s[i]]);
    lemma_byte_len_singleton(s[i]);
}

/// Byte lengths of adjacent slices add up.
pub proof fn lemma_byte_len_subrange_split(s: Seq<char>, a: int, b: int, c: int)
    requires
        0 <= a <= b <= c <= s.len(),
    ensures
        byte_len(s.subrange(a, c)) == byte_len(s.subrange(a, b)) + byte_len(s.subrange(b, c)),
{
    assert(s.subrange(a, c) =~= s.subrange(a, b) + s.subrange(b, c));
    lemma_byte_len_concat(s.subrange(a, b), s.subrange(b, c));
}

/// Byte length grows with the prefix.
pub proof fn lemma_byte_len_take_le(s: Seq<char>, i: int, j: int)
    requires
        0 <= i <= j <= s.len(),
    ensures
        byte_len(s.take(i)) <= byte_len(s.take(j)),
    decreases j - i,
{
    if i < j {
        lemma_byte_len_take_succ(s, i);
        lemma_byte_len_take_le(s, i + 1, j);
    }
}

/// A whole sequence is its own prefix.
pub proof fn lemma_byte_len_take_all(s: Seq<char>)
    ensures
        byte_len(s.take(s.len() as int)) == byte_len(s),
{
    assert(s.take(s.len() as int) =~= s);
}

/// The number of bytes that the characters of `chars` between `from`
/// and `to` take.
pub fn width_range(chars: &Vec<char>, from: usize, to: usize) -> (w: usize)
    requires
        from <= to <= chars@.len(),
        byte_len(chars@.subrange(from as int, to as int)) <= usize::MAX,
    ensures
        w == byte_len(chars@.subrange(from as int, to as int)),
{
    proof {
        assert(chars@.subrange(from as int, from as int) =~= Seq::<char>::empty());
    }
    let mut w: usize = 0;
    let mut k: usize = from;
    while k < to
        invariant
            from <= k <= to <= chars@.len(),
            w == byte_len(chars@.subrange(from as int, k as int)),
            byte_len(chars@.subrange(from as int, to as int)) <= usize::MAX,
        decreases to - k,
    {
        proof {
            lemma_byte_len_subrange_split(chars@, from as int, k as int, k as int + 1);
            lemma_byte_len_subrange_split(chars@, from as int, k as int + 1, to as int);
            assert(chars@.subrange(k as int, k as int + 1) =~= seq![chars@[k as int]]);
            lemma_byte_len_singleton(chars@[k as int]);
        }
        w = w + char_utf8_width(chars[k]);
        k = k + 1;
    }
    w
}

/// The width of one character, computed from its scalar value.
pub fn char_utf8_width(c: char) -> (w: usize)
    ensures
        w == char_width(c),
{
    proof {
        broadcast use char_is_scalar;

    }
    let u = c as u32;
    if u < 0x80 {
        1
    } else if u < 0x800 {
        2
    } else if u < 0x10000 {
        3
    } else {
        4
    }
}

} // verus!
