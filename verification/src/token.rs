//! Tokens and the tokenization of source text.
//!
//! Tokenization is maximal munch: at every position the longest match
//! wins, a keyword beats an identifier of the same length, and a
//! multi-character operator beats its one-character prefix. Every byte
//! of the input lands in the span of exactly one recognized category;
//! whitespace is consumed but dropped from the returned sequence, and a
//! byte sequence matching no category becomes an explicit error token,
//! never a failure.

use crate::lexer::{
    lemma_run_len_bound, lemma_string_body_len_bound, next_token_exec,
};
use crate::span::Span;
use crate::text::{
    byte_len, chars_of, lemma_byte_len_subrange_split, lemma_char_width_bounds, width_range,
};
use vstd::prelude::*;
use vstd::utf8::{encode_scalar, encode_utf8};

verus! {

/// The classification of one token.
#[derive(Clone, Copy, Debug, Hash, PartialEq, Eq, Structural)]
pub enum Kind {
    Identifier,
    Float,
    Integer,
    Bool,
    Char,
    String,
    Var,
    If,
    Else,
    Type,
    Def,
    Match,
    While,
    Union,
    Impl,
    Alias,
    Ampersand2,
    Ampersand,
    Pipe2,
    Pipe,
    Caret,
    LeftShift,
    RightShift,
    Plus,
    Minus,
    Star,
    Slash,
    Percent,
    StarStar,
    Equal,
    EqualEqual,
    Bang,
    NotEqual,
    LessThan,
    LessThanEqual,
    GreaterThan,
    GreaterThanEqual,
    Dot,
    Comma,
    Colon,
    Semicolon,
    LeftParen,
    RightParen,
    LeftCurly,
    RightCurly,
    LeftBracket,
    RightBracket,
    ThinArrow,
    Comment,
    Error,
}

/// One token: a classification and the byte range it covers.
#[derive(Clone, Copy, Debug, Hash, PartialEq, Eq, Structural)]
pub struct Token {
    pub kind: Kind,
    pub span: Span,
}

/// The name that `char::is_alphabetic` answers to: whether a character
/// is a Unicode letter, a function of the character alone.
pub uninterp spec fn char_alphabetic(c: char) -> bool;

/// The name that `char::is_alphanumeric` answers to: whether a
/// character is a Unicode letter or number, a function of the character
/// alone.
pub uninterp spec fn char_alphanumeric(c: char) -> bool;

/// Relies on `char::is_alphabetic`: the answer depends on the character
/// alone, and on ASCII it holds exactly for the letters `a`-`z` and
/// `A`-`Z`.
#[verifier::external_body]
pub(crate) fn exec_char_alphabetic(c: char) -> (r: bool)
    ensures
        r == char_alphabetic(c),
        (97 <= (c as u32) <= 122) || (65 <= (c as u32) <= 90) ==> r,
        (c as u32) < 128 && !(97 <= (c as u32) <= 122) && !(65 <= (c as u32) <= 90) ==> !r,
{
    c.is_alphabetic()
}

/// Relies on `char::is_alphanumeric`: the answer depends on the
/// character alone, and on ASCII it holds exactly for the letters and
/// the digits `0`-`9`.
#[verifier::external_body]
pub(crate) fn exec_char_alphanumeric(c: char) -> (r: bool)
    ensures
        r == char_alphanumeric(c),
        (97 <= (c as u32) <= 122) || (65 <= (c as u32) <= 90) || (48 <= (c as u32) <= 57) ==> r,
        (c as u32) < 128 && !(97 <= (c as u32) <= 122) && !(65 <= (c as u32) <= 90) && !(48 <= (c as u32)
            <= 57) ==> !r,
{
    c.is_alphanumeric()
}

/// Whitespace: space, tab, newline or form feed.
pub open spec fn is_space(c: char) -> bool {
    c == ' ' || c == '\t' || c == '\n' || (c as u32) == 12
}

/// An ASCII decimal digit.
pub open spec fn is_digit(c: char) -> bool {
    48 <= (c as u32) <= 57
}

/// A binary digit.
pub open spec fn is_bin_digit(c: char) -> bool {
    (c as u32) == 48 || (c as u32) == 49
}

/// An ASCII hexadecimal digit.
pub open spec fn is_hex_digit(c: char) -> bool {
    is_digit(c) || 97 <= (c as u32) <= 102 || 65 <= (c as u32) <= 70
}

/// A character that can begin an identifier: a letter.
pub open spec fn is_ident_start(c: char) -> bool {
    char_alphabetic(c)
}

/// A character that can continue an identifier: a letter, a number or
/// an underscore.
pub open spec fn is_ident_continue(c: char) -> bool {
    char_alphanumeric(c) || c == '_'
}

/// The whitespace class, as a value.
pub open spec fn space_pred() -> spec_fn(char) -> bool {
    |c: char| is_space(c)
}

/// The digit-or-underscore class, as a value.
pub open spec fn digit_us_pred() -> spec_fn(char) -> bool {
    |c: char| is_digit(c) || c == '_'
}

/// The binary-digit-or-underscore class, as a value.
pub open spec fn bin_us_pred() -> spec_fn(char) -> bool {
    |c: char| is_bin_digit(c) || c == '_'
}

/// The hex-digit-or-underscore class, as a value.
pub open spec fn hex_us_pred() -> spec_fn(char) -> bool {
    |c: char| is_hex_digit(c) || c == '_'
}

/// The identifier-continue class, as a value.
pub open spec fn ident_cont_pred() -> spec_fn(char) -> bool {
    |c: char| is_ident_continue(c)
}

/// The everything-but-newline class, as a value.
pub open spec fn not_newline_pred() -> spec_fn(char) -> bool {
    |c: char| c != '\n'
}

/// The length of the maximal run of characters satisfying `pred`,
/// starting at position `i`.
pub open spec fn run_len(s: Seq<char>, i: int, pred: spec_fn(char) -> bool) -> int
    decreases s.len() - i,
{
    if i < 0 || i >= s.len() || !pred(s[i]) {
        0
    } else {
        1 + run_len(s, i + 1, pred)
    }
}

/// The keyword or literal kind an identifier-shaped word stands for,
/// or `Identifier` if it is none of them.
pub open spec fn keyword_kind(w: Seq<char>) -> Kind {
    if w == seq!['v', 'a', 'r'] {
        Kind::Var
    } else if w == seq!['i', 'f'] {
        Kind::If
    } else if w == seq!['e', 'l', 's', 'e'] {
        Kind::Else
    } else if w == seq!['t', 'y', 'p', 'e'] {
        Kind::Type
    } else if w == seq!['d', 'e', 'f'] {
        Kind::Def
    } else if w == seq!['m', 'a', 't', 'c', 'h'] {
        Kind::Match
    } else if w == seq!['w', 'h', 'i', 'l', 'e'] {
        Kind::While
    } else if w == seq!['u', 'n', 'i', 'o', 'n'] {
        Kind::Union
    } else if w == seq!['i', 'm', 'p', 'l'] {
        Kind::Impl
    } else if w == seq!['a', 'l', 'i', 'a', 's'] {
        Kind::Alias
    } else if w == seq!['t', 'r', 'u', 'e'] {
        Kind::Bool
    } else if w == seq!['f', 'a', 'l', 's', 'e'] {
        Kind::Bool
    } else {
        Kind::Identifier
    }
}

/// The identifier, keyword or boolean token starting at `i`, which must
/// hold an identifier-start character: the maximal identifier-continue
/// run, classified by [`keyword_kind`].
pub open spec fn ident_token(s: Seq<char>, i: int) -> (Kind, int, bool) {
    let l = 1 + run_len(s, i + 1, ident_cont_pred());
    (keyword_kind(s.subrange(i, i + l)), l, true)
}

/// The number token starting at `i`, which must hold a decimal digit:
/// the longest match among a decimal, binary (`0b`) or hexadecimal
/// (`0x`) integer and a float with a fractional part and/or exponent.
pub open spec fn number_token(s: Seq<char>, i: int) -> (Kind, int, bool) {
    let d = 1 + run_len(s, i + 1, digit_us_pred());
    let int_len = if s[i] == '0' && i + 2 < s.len() && s[i + 1] == 'b' && is_bin_digit(s[i + 2]) {
        3 + run_len(s, i + 3, bin_us_pred())
    } else if s[i] == '0' && i + 2 < s.len() && s[i + 1] == 'x' && is_hex_digit(s[i + 2]) {
        3 + run_len(s, i + 3, hex_us_pred())
    } else {
        d
    };
    let after_int = i + d;
    let has_frac = after_int + 1 < s.len() && s[after_int] == '.' && is_digit(s[after_int + 1]);
    let base_end = if has_frac {
        after_int + 2 + run_len(s, after_int + 2, digit_us_pred())
    } else {
        after_int
    };
    let digit_start = if base_end + 1 < s.len() && (s[base_end + 1] == '+' || s[base_end + 1]
        == '-') {
        base_end + 2
    } else {
        base_end + 1
    };
    let has_exp = base_end < s.len() && (s[base_end] == 'e' || s[base_end] == 'E') && digit_start
        < s.len() && is_digit(s[digit_start]);
    if has_exp {
        (Kind::Float, digit_start + 1 + run_len(s, digit_start + 1, digit_us_pred()) - i, true)
    } else if has_frac {
        (Kind::Float, base_end - i, true)
    } else {
        (Kind::Integer, int_len, true)
    }
}

/// The number of characters of a string-literal body starting at `j`
/// (just after the opening quote), up to and including the closing
/// quote; `-1` when the literal never closes. A backslash escapes the
/// character after it.
pub open spec fn string_body_len(s: Seq<char>, j: int) -> int
    decreases s.len() - j,
{
    if j < 0 || j >= s.len() {
        -1
    } else if s[j] == '"' {
        1
    } else if s[j] == '\\' {
        if j + 1 >= s.len() {
            -1
        } else {
            let rest = string_body_len(s, j + 2);
            if rest < 0 {
                -1
            } else {
                2 + rest
            }
        }
    } else {
        let rest = string_body_len(s, j + 1);
        if rest < 0 {
            -1
        } else {
            1 + rest
        }
    }
}

/// The operator or punctuation token starting at `i`: a two-character
/// operator where one matches, else a one-character one, else a
/// one-character error token.
pub open spec fn operator_token(s: Seq<char>, i: int) -> (Kind, int, bool) {
    let c = s[i];
    let two = i + 1 < s.len();
    if two && c == '&' && s[i + 1] == '&' {
        (Kind::Ampersand2, 2, true)
    } else if two && c == '|' && s[i + 1] == '|' {
        (Kind::Pipe2, 2, true)
    } else if two && c == '<' && s[i + 1] == '<' {
        (Kind::LeftShift, 2, true)
    } else if two && c == '>' && s[i + 1] == '>' {
        (Kind::RightShift, 2, true)
    } else if two && c == '*' && s[i + 1] == '*' {
        (Kind::StarStar, 2, true)
    } else if two && c == '=' && s[i + 1] == '=' {
        (Kind::EqualEqual, 2, true)
    } else if two && c == '!' && s[i + 1] == '=' {
        (Kind::NotEqual, 2, true)
    } else if two && c == '<' && s[i + 1] == '=' {
        (Kind::LessThanEqual, 2, true)
    } else if two && c == '>' && s[i + 1] == '=' {
        (Kind::GreaterThanEqual, 2, true)
    } else if two && c == '-' && s[i + 1] == '>' {
        (Kind::ThinArrow, 2, true)
    } else if c == '&' {
        (Kind::Ampersand, 1, true)
    } else if c == '|' {
        (Kind::Pipe, 1, true)
    } else if c == '^' {
        (Kind::Caret, 1, true)
    } else if c == '+' {
        (Kind::Plus, 1, true)
    } else if c == '-' {
        (Kind::Minus, 1, true)
    } else if c == '*' {
        (Kind::Star, 1, true)
    } else if c == '/' {
        (Kind::Slash, 1, true)
    } else if c == '%' {
        (Kind::Percent, 1, true)
    } else if c == '=' {
        (Kind::Equal, 1, true)
    } else if c == '!' {
        (Kind::Bang, 1, true)
    } else if c == '<' {
        (Kind::LessThan, 1, true)
    } else if c == '>' {
        (Kind::GreaterThan, 1, true)
    } else if c == '.' {
        (Kind::Dot, 1, true)
    } else if c == ',' {
        (Kind::Comma, 1, true)
    } else if c == ':' {
        (Kind::Colon, 1, true)
    } else if c == ';' {
        (Kind::Semicolon, 1, true)
    } else if c == '(' {
        (Kind::LeftParen, 1, true)
    } else if c == ')' {
        (Kind::RightParen, 1, true)
    } else if c == '{' {
        (Kind::LeftCurly, 1, true)
    } else if c == '}' {
        (Kind::RightCurly, 1, true)
    } else if c == '[' {
        (Kind::LeftBracket, 1, true)
    } else if c == ']' {
        (Kind::RightBracket, 1, true)
    } else {
        (Kind::Error, 1, true)
    }
}

/// The token starting at position `i`: its kind, its length in
/// characters, and whether it is kept in the output (whitespace is
/// consumed but not kept).
#[verifier::opaque]
pub open spec fn next_token(s: Seq<char>, i: int) -> (Kind, int, bool)
    recommends
        0 <= i < s.len(),
{
    let c = s[i];
    if is_space(c) {
        (Kind::Error, 1 + run_len(s, i + 1, space_pred()), false)
    } else if c == '/' && i + 1 < s.len() && s[i + 1] == '/' {
        (Kind::Comment, 2 + run_len(s, i + 2, not_newline_pred()), true)
    } else if is_digit(c) {
        number_token(s, i)
    } else if is_ident_start(c) {
        ident_token(s, i)
    } else if c == '\'' {
        if i + 2 < s.len() && s[i + 1] != '\'' && s[i + 2] == '\'' {
            (Kind::Char, 3, true)
        } else {
            (Kind::Error, 1, true)
        }
    } else if c == '"' {
        let body = string_body_len(s, i + 1);
        if body >= 0 {
            (Kind::String, 1 + body, true)
        } else {
            (Kind::Error, 1, true)
        }
    } else {
        operator_token(s, i)
    }
}

/// A token before whitespace is filtered out: a classification, a byte
/// range, and whether the token is kept.
pub struct RawToken {
    pub kind: Kind,
    pub start: int,
    pub end: int,
    pub emit: bool,
}

/// The tokens of `s` from position `i` on, with `b` the byte offset of
/// position `i`: repeatedly take the next token and attach the byte
/// range it covers.
pub open spec fn scan_raw(s: Seq<char>, i: int, b: int) -> Seq<RawToken>
    decreases s.len() - i,
{
    if !(0 <= i < s.len()) {
        seq![]
    } else {
        let t = next_token(s, i);
        let step = if 1 <= t.1 && i + t.1 <= s.len() {
            t.1
        } else {
            1
        };
        let w = byte_len(s.subrange(i, i + step));
        seq![RawToken { kind: t.0, start: b, end: b + w, emit: t.2 }] + scan_raw(
            s,
            i + step,
            b + w,
        )
    }
}

/// The kept tokens of a raw token sequence, as [`Token`] values.
pub open spec fn emitted(raw: Seq<RawToken>) -> Seq<Token>
    decreases raw.len(),
{
    if raw.len() == 0 {
        seq![]
    } else {
        let rest = emitted(raw.drop_first());
        if raw.first().emit {
            seq![
                Token {
                    kind: raw.first().kind,
                    span: Span::new_spec(raw.first().start, raw.first().end),
                },
            ] + rest
        } else {
            rest
        }
    }
}

/// The token sequence of a whole text: every token from the start, with
/// whitespace dropped.
pub open spec fn lex_spec(s: Seq<char>) -> Seq<Token> {
    emitted(scan_raw(s, 0, 0))
}

/// Every token is at least one character long and stays inside the
/// text.
pub proof fn lemma_next_token_bounds(s: Seq<char>, i: int)
    requires
        0 <= i < s.len(),
    ensures
        1 <= next_token(s, i).1,
        i + next_token(s, i).1 <= s.len(),
{
    reveal(next_token);
    let c = s[i];
    if is_space(c) {
        lemma_run_len_bound(s, i + 1, space_pred());
    } else if c == '/' && i + 1 < s.len() && s[i + 1] == '/' {
        lemma_run_len_bound(s, i + 2, not_newline_pred());
    } else if is_digit(c) {
        lemma_run_len_bound(s, i + 1, digit_us_pred());
        let d = 1 + run_len(s, i + 1, digit_us_pred());
        if s[i] == '0' && i + 2 < s.len() && s[i + 1] == 'b' && is_bin_digit(s[i + 2]) {
            lemma_run_len_bound(s, i + 3, bin_us_pred());
        } else if s[i] == '0' && i + 2 < s.len() && s[i + 1] == 'x' && is_hex_digit(s[i + 2]) {
            lemma_run_len_bound(s, i + 3, hex_us_pred());
        }
        let after_int = i + d;
        let has_frac = after_int + 1 < s.len() && s[after_int] == '.' && is_digit(
            s[after_int + 1],
        );
        let base_end = if has_frac {
            after_int + 2 + run_len(s, after_int + 2, digit_us_pred())
        } else {
            after_int
        };
        if has_frac {
            lemma_run_len_bound(s, after_int + 2, digit_us_pred());
        }
        let digit_start = if base_end + 1 < s.len() && (s[base_end + 1] == '+' || s[base_end + 1]
            == '-') {
            base_end + 2
        } else {
            base_end + 1
        };
        if base_end < s.len() && (s[base_end] == 'e' || s[base_end] == 'E') && digit_start
            < s.len() && is_digit(s[digit_start]) {
            lemma_run_len_bound(s, digit_start + 1, digit_us_pred());
        }
    } else if is_ident_start(c) {
        lemma_run_len_bound(s, i + 1, ident_cont_pred());
    } else if c == '\'' {
    } else if c == '"' {
        lemma_string_body_len_bound(s, i + 1);
    } else {
    }
}

/// A nonempty character sequence encodes to at least one byte.
pub proof fn lemma_byte_len_pos(s: Seq<char>)
    requires
        s.len() > 0,
    ensures
        byte_len(s) >= 1,
{
    assert(encode_utf8(s) == encode_scalar(s[0] as u32) + encode_utf8(s.drop_first()));
    lemma_char_width_bounds(s[0]);
}

/// Splitting off the first raw token from `emitted`.
proof fn lemma_emitted_cons(r: RawToken, rest: Seq<RawToken>)
    ensures
        emitted(seq![r] + rest) == if r.emit {
            seq![Token { kind: r.kind, span: Span::new_spec(r.start, r.end) }] + emitted(rest)
        } else {
            emitted(rest)
        },
{
    let raw = seq![r] + rest;
    assert(raw.first() == r);
    assert(raw.drop_first() =~= rest);
}

/// Raw tokens tile the text's bytes exactly: the first starts where
/// scanning starts, each ends where the next begins, none is empty, and
/// the last ends at the end of the text — no gaps and no overlaps, with
/// whitespace still included.
/// One unfolding of [`scan_raw`]: the first token covers the next
/// `step` characters and `w` bytes, and the rest is a scan from there.
proof fn lemma_scan_step(s: Seq<char>, i: int, b: int) -> (r: (int, int))
    requires
        0 <= i < s.len(),
    ensures
        1 <= r.0,
        i + r.0 <= s.len(),
        r.1 == byte_len(s.subrange(i, i + r.0)),
        scan_raw(s, i, b).len() == 1 + scan_raw(s, i + r.0, b + r.1).len(),
        scan_raw(s, i, b)[0].start == b,
        scan_raw(s, i, b)[0].end == b + r.1,
        scan_raw(s, i, b).drop_first() == scan_raw(s, i + r.0, b + r.1),
{
    reveal(next_token);
    lemma_next_token_bounds(s, i);
    let t = next_token(s, i);
    let step = t.1;
    let w = byte_len(s.subrange(i, i + step));
    assert(scan_raw(s, i, b) == seq![RawToken { kind: t.0, start: b, end: b + w, emit: t.2 }]
        + scan_raw(s, i + step, b + w));
    assert(scan_raw(s, i, b).drop_first() =~= scan_raw(s, i + step, b + w));
    (step, w as int)
}

/// The raw tokens `raw` tile the byte range `[b, e)`: the first starts
/// at `b`, each is nonempty and begins where the one before it ended,
/// and the last ends at `e`.
pub open spec fn tiles(raw: Seq<RawToken>, b: int, e: int) -> bool
    decreases raw.len(),
{
    if raw.len() == 0 {
        b == e
    } else {
        raw[0].start == b && b < raw[0].end && tiles(raw.drop_first(), raw[0].end, e)
    }
}

/// The scan of a text from position `i` at byte offset `b` tiles the
/// remaining bytes exactly: no gaps, no overlaps, and nothing left
/// over, with whitespace still included.
pub proof fn lemma_scan_covers(s: Seq<char>, i: int, b: int)
    requires
        0 <= i <= s.len(),
    ensures
        tiles(scan_raw(s, i, b), b, b + byte_len(s.subrange(i, s.len() as int))),
    decreases s.len() - i,
{
    if i < s.len() {
        let (step, w) = lemma_scan_step(s, i, b);
        lemma_byte_len_pos(s.subrange(i, i + step));
        lemma_byte_len_subrange_split(s, i, i + step, s.len() as int);
        lemma_scan_covers(s, i + step, b + w);
    } else {
        assert(scan_raw(s, i, b) == Seq::<RawToken>::empty());
        assert(byte_len(s.subrange(i, s.len() as int)) == 0) by {
            assert(s.subrange(i, s.len() as int) =~= Seq::<char>::empty());
        }
    }
}

/// The tokens of a whole text, whitespace included, cover its bytes
/// `[0, byte_len)` with no gaps and no overlaps.
pub proof fn lemma_lex_covers(s: Seq<char>)
    ensures
        tiles(scan_raw(s, 0, 0), 0, byte_len(s) as int),
{
    lemma_scan_covers(s, 0, 0);
    assert(s.subrange(0, s.len() as int) =~= s);
}

/// What tiling says of each token by index: spans are nonempty, in
/// order, adjacent, and together cover `[b, e)`.
pub proof fn lemma_tiles_props(raw: Seq<RawToken>, b: int, e: int)
    requires
        tiles(raw, b, e),
    ensures
        raw.len() == 0 ==> b == e,
        raw.len() > 0 ==> raw[0].start == b,
        raw.len() > 0 ==> raw[raw.len() - 1].end == e,
        forall|k: int| 0 <= k < raw.len() ==> (#[trigger] raw[k]).start < raw[k].end,
        forall|k: int|
            #![trigger raw[k], raw[k + 1]]
            0 <= k < raw.len() - 1 ==> raw[k].end == raw[k + 1].start,
    decreases raw.len(),
{
    if raw.len() > 0 {
        let rest = raw.drop_first();
        lemma_tiles_props(rest, raw[0].end, e);
        assert forall|k: int| 0 <= k < raw.len() implies (#[trigger] raw[k]).start
            < raw[k].end by {
            if k > 0 {
                assert(raw[k] == rest[k - 1]);
            }
        }
        assert forall|k: int|
            #![trigger raw[k], raw[k + 1]]
            0 <= k < raw.len() - 1 implies raw[k].end == raw[k + 1].start by {
            if k == 0 {
                assert(raw[1] == rest[0]);
            } else {
                assert(raw[k] == rest[k - 1]);
                assert(raw[k + 1] == rest[k]);
            }
        }
        if raw.len() > 1 {
            assert(raw[raw.len() - 1] == rest[rest.len() - 1]);
        }
    }
}

/// Takes an input and converts it into a sequence of tokens.
///
/// Lexing is total: it terminates on every input, an empty input gives
/// an empty sequence, and malformed input degrades to error tokens
/// rather than failing. The byte-length bound is what the `u32` byte
/// offsets of [`Span`] can address.
pub fn lex(text: &str) -> (tokens: Vec<Token>)
    requires
        byte_len(text@) <= u32::MAX,
    ensures
        tokens@ == lex_spec(text@),
        text@.len() == 0 ==> tokens@.len() == 0,
{
    let ghost s = text@;
    let chars = chars_of(text);
    let n = chars.len();
    let mut out: Vec<Token> = Vec::new();
    let mut i: usize = 0;
    let mut b: usize = 0;
    proof {
        assert(s.take(0) =~= Seq::<char>::empty());
        assert(byte_len(s.take(0)) == 0);
    }
    while i < n
        invariant
            i <= n,
            n == s.len(),
            chars@ == s,
            byte_len(s) <= u32::MAX,
            b == byte_len(s.take(i as int)),
            lex_spec(s) == out@ + emitted(scan_raw(s, i as int, b as int)),
        decreases n - i,
    {
        let t = next_token_exec(&chars, i);
        let step = t.1;
        proof {
            assert(s.take(i as int) =~= s.subrange(0, i as int));
            assert(s.take(i as int + step as int) =~= s.subrange(0, i as int + step as int));
            lemma_byte_len_subrange_split(s, 0, i as int, i as int + step as int);
            lemma_byte_len_subrange_split(s, 0, i as int + step as int, s.len() as int);
            assert(s.subrange(0, s.len() as int) =~= s);
        }
        let w = width_range(&chars, i, i + step);
        let span = Span::new(b as u32, (b + w) as u32);
        let ghost r0 = RawToken { kind: t.0, start: b as int, end: b as int + w, emit: t.2 };
        proof {
            assert(scan_raw(s, i as int, b as int) == seq![r0] + scan_raw(
                s,
                i as int + step as int,
                b as int + w,
            ));
            lemma_emitted_cons(r0, scan_raw(s, i as int + step as int, b as int + w));
            assert(span == Span::new_spec(r0.start, r0.end));
        }
        if t.2 {
            out.push(Token { kind: t.0, span });
        }
        proof {
            assert(lex_spec(s) =~= out@ + emitted(
                scan_raw(s, i as int + step as int, b as int + w),
            ));
        }
        b = b + w;
        i = i + step;
    }
    proof {
        assert(emitted(scan_raw(s, i as int, b as int)) =~= Seq::<Token>::empty());
        assert(lex_spec(s) =~= out@);
    }
    out
}

} // verus!
