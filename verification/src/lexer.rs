//! The scanner behind [`lex`](crate::token::lex): a hand-written
//! maximal-munch automaton, one pass over the characters of the input.

use crate::token::{
    bin_us_pred, digit_us_pred, exec_char_alphabetic, exec_char_alphanumeric, hex_us_pred,
    ident_cont_pred, is_bin_digit, is_digit, is_hex_digit, is_ident_continue, is_space,
    keyword_kind, next_token, not_newline_pred, number_token, operator_token, run_len, space_pred,
    string_body_len, Kind,
};
use vstd::prelude::*;

verus! {

/// A maximal run is pinned by its end: everything before satisfies the
/// class, and the run stops right where the class first fails.
pub proof fn lemma_run_len_end(s: Seq<char>, i: int, r: int, pred: spec_fn(char) -> bool)
    requires
        0 <= i <= r <= s.len(),
        forall|j: int| i <= j < r ==> pred(s[j]),
        r < s.len() ==> !pred(s[r]),
    ensures
        run_len(s, i, pred) == r - i,
    decreases r - i,
{
    if i < r {
        lemma_run_len_end(s, i + 1, r, pred);
    }
}

/// A run never leaves the sequence.
pub proof fn lemma_run_len_bound(s: Seq<char>, i: int, pred: spec_fn(char) -> bool)
    requires
        0 <= i <= s.len(),
    ensures
        0 <= run_len(s, i, pred),
        i + run_len(s, i, pred) <= s.len(),
    decreases s.len() - i,
{
    if i < s.len() && pred(s[i]) {
        lemma_run_len_bound(s, i + 1, pred);
    }
}

/// A string body is unterminated, or at least one character long and
/// inside the sequence.
pub proof fn lemma_string_body_len_bound(s: Seq<char>, j: int)
    requires
        0 <= j,
    ensures
        string_body_len(s, j) == -1 || (1 <= string_body_len(s, j) && j + string_body_len(s, j)
            <= s.len()),
    decreases s.len() - j,
{
    if j < s.len() {
        if s[j] == '"' {
        } else if s[j] == '\\' {
            if j + 1 < s.len() {
                lemma_string_body_len_bound(s, j + 2);
            }
        } else {
            lemma_string_body_len_bound(s, j + 1);
        }
    }
}

/// Whether `c` is whitespace.
pub(crate) fn is_space_exec(c: char) -> (r: bool)
    ensures
        r == is_space(c),
{
    c == ' ' || c == '\t' || c == '\n' || (c as u32) == 12
}

/// Whether `c` is an ASCII decimal digit.
pub(crate) fn is_digit_exec(c: char) -> (r: bool)
    ensures
        r == is_digit(c),
{
    let u = c as u32;
    48 <= u && u <= 57
}

/// Whether `c` is a binary digit.
pub(crate) fn is_bin_digit_exec(c: char) -> (r: bool)
    ensures
        r == is_bin_digit(c),
{
    let u = c as u32;
    u == 48 || u == 49
}

/// Whether `c` is an ASCII hexadecimal digit.
pub(crate) fn is_hex_digit_exec(c: char) -> (r: bool)
    ensures
        r == is_hex_digit(c),
{
    let u = c as u32;
    (48 <= u && u <= 57) || (97 <= u && u <= 102) || (65 <= u && u <= 70)
}

/// Whether `c` can continue an identifier.
pub(crate) fn is_ident_continue_exec(c: char) -> (r: bool)
    ensures
        r == is_ident_continue(c),
{
    if c == '_' {
        true
    } else {
        exec_char_alphanumeric(c)
    }
}

/// The end of the whitespace run starting at `from`.
pub(crate) fn scan_space_end(chars: &Vec<char>, from: usize) -> (r: usize)
    requires
        from <= chars@.len(),
    ensures
        from <= r <= chars@.len(),
        run_len(chars@, from as int, space_pred()) == r - from,
{
    let n = chars.len();
    let mut j: usize = from;
    while j < n && is_space_exec(chars[j])
        invariant
            from <= j <= n,
            n == chars@.len(),
            forall|k: int| from <= k < j ==> is_space(#[trigger] chars@[k]),
        decreases n - j,
    {
        j = j + 1;
    }
    proof {
        lemma_run_len_end(chars@, from as int, j as int, space_pred());
    }
    j
}

/// The end of the digit-or-underscore run starting at `from`.
pub(crate) fn scan_digit_us_end(chars: &Vec<char>, from: usize) -> (r: usize)
    requires
        from <= chars@.len(),
    ensures
        from <= r <= chars@.len(),
        run_len(chars@, from as int, digit_us_pred()) == r - from,
{
    let n = chars.len();
    let mut j: usize = from;
    while j < n && (is_digit_exec(chars[j]) || chars[j] == '_')
        invariant
            from <= j <= n,
            n == chars@.len(),
            forall|k: int| from <= k < j ==> is_digit(#[trigger] chars@[k]) || chars@[k] == '_',
        decreases n - j,
    {
        j = j + 1;
    }
    proof {
        lemma_run_len_end(chars@, from as int, j as int, digit_us_pred());
    }
    j
}

/// The end of the binary-digit-or-underscore run starting at `from`.
pub(crate) fn scan_bin_us_end(chars: &Vec<char>, from: usize) -> (r: usize)
    requires
        from <= chars@.len(),
    ensures
        from <= r <= chars@.len(),
        run_len(chars@, from as int, bin_us_pred()) == r - from,
{
    let n = chars.len();
    let mut j: usize = from;
    while j < n && (is_bin_digit_exec(chars[j]) || chars[j] == '_')
        invariant
            from <= j <= n,
            n == chars@.len(),
            forall|k: int| from <= k < j ==> is_bin_digit(#[trigger] chars@[k]) || chars@[k] == '_',
        decreases n - j,
    {
        j = j + 1;
    }
    proof {
        lemma_run_len_end(chars@, from as int, j as int, bin_us_pred());
    }
    j
}

/// The end of the hex-digit-or-underscore run starting at `from`.
pub(crate) fn scan_hex_us_end(chars: &Vec<char>, from: usize) -> (r: usize)
    requires
        from <= chars@.len(),
    ensures
        from <= r <= chars@.len(),
        run_len(chars@, from as int, hex_us_pred()) == r - from,
{
    let n = chars.len();
    let mut j: usize = from;
    while j < n && (is_hex_digit_exec(chars[j]) || chars[j] == '_')
        invariant
            from <= j <= n,
            n == chars@.len(),
            forall|k: int| from <= k < j ==> is_hex_digit(#[trigger] chars@[k]) || chars@[k] == '_',
        decreases n - j,
    {
        j = j + 1;
    }
    proof {
        lemma_run_len_end(chars@, from as int, j as int, hex_us_pred());
    }
    j
}

/// The end of the identifier-continue run starting at `from`.
pub(crate) fn scan_ident_end(chars: &Vec<char>, from: usize) -> (r: usize)
    requires
        from <= chars@.len(),
    ensures
        from <= r <= chars@.len(),
        run_len(chars@, from as int, ident_cont_pred()) == r - from,
{
    let n = chars.len();
    let mut j: usize = from;
    while j < n && is_ident_continue_exec(chars[j])
        invariant
            from <= j <= n,
            n == chars@.len(),
            forall|k: int| from <= k < j ==> is_ident_continue(#[trigger] chars@[k]),
        decreases n - j,
    {
        j = j + 1;
    }
    proof {
        lemma_run_len_end(chars@, from as int, j as int, ident_cont_pred());
    }
    j
}

/// The end of the run of non-newline characters starting at `from`.
pub(crate) fn scan_line_end(chars: &Vec<char>, from: usize) -> (r: usize)
    requires
        from <= chars@.len(),
    ensures
        from <= r <= chars@.len(),
        run_len(chars@, from as int, not_newline_pred()) == r - from,
{
    let n = chars.len();
    let mut j: usize = from;
    while j < n && chars[j] != '\n'
        invariant
            from <= j <= n,
            n == chars@.len(),
            forall|k: int| from <= k < j ==> #[trigger] chars@[k] != '\n',
        decreases n - j,
    {
        j = j + 1;
    }
    proof {
        lemma_run_len_end(chars@, from as int, j as int, not_newline_pred());
    }
    j
}

/// The kind of the identifier-shaped word at `[i, i + l)`: the keyword
/// or boolean it spells, or `Identifier`.
pub(crate) fn keyword_lookup(chars: &Vec<char>, i: usize, l: usize) -> (k: Kind)
    requires
        1 <= l,
        i + l <= chars@.len(),
    ensures
        k == keyword_kind(chars@.subrange(i as int, i as int + l as int)),
{
    let ghost w = chars@.subrange(i as int, i as int + l as int);
    let n = chars.len();
    proof {
        assert(i + l <= n);
    }
    let k = if l == 2 && chars[i] == 'i' && chars[i + 1] == 'f' {
        proof {
            assert(w =~= seq!['i', 'f']);
        }
        Kind::If
    } else if l == 3 && chars[i] == 'v' && chars[i + 1] == 'a' && chars[i + 2] == 'r' {
        proof {
            assert(w =~= seq!['v', 'a', 'r']);
        }
        Kind::Var
    } else if l == 3 && chars[i] == 'd' && chars[i + 1] == 'e' && chars[i + 2] == 'f' {
        proof {
            assert(w =~= seq!['d', 'e', 'f']);
        }
        Kind::Def
    } else if l == 4 && chars[i] == 'e' && chars[i + 1] == 'l' && chars[i + 2] == 's' && chars[i
        + 3] == 'e' {
        proof {
            assert(w =~= seq!['e', 'l', 's', 'e']);
        }
        Kind::Else
    } else if l == 4 && chars[i] == 't' && chars[i + 1] == 'y' && chars[i + 2] == 'p' && chars[i
        + 3] == 'e' {
        proof {
            assert(w =~= seq!['t', 'y', 'p', 'e']);
        }
        Kind::Type
    } else if l == 4 && chars[i] == 'i' && chars[i + 1] == 'm' && chars[i + 2] == 'p' && chars[i
        + 3] == 'l' {
        proof {
            assert(w =~= seq!['i', 'm', 'p', 'l']);
        }
        Kind::Impl
    } else if l == 4 && chars[i] == 't' && chars[i + 1] == 'r' && chars[i + 2] == 'u' && chars[i
        + 3] == 'e' {
        proof {
            assert(w =~= seq!['t', 'r', 'u', 'e']);
        }
        Kind::Bool
    } else if l == 5 && chars[i] == 'm' && chars[i + 1] == 'a' && chars[i + 2] == 't' && chars[i
        + 3] == 'c' && chars[i + 4] == 'h' {
        proof {
            assert(w =~= seq!['m', 'a', 't', 'c', 'h']);
        }
        Kind::Match
    } else if l == 5 && chars[i] == 'w' && chars[i + 1] == 'h' && chars[i + 2] == 'i' && chars[i
        + 3] == 'l' && chars[i + 4] == 'e' {
        proof {
            assert(w =~= seq!['w', 'h', 'i', 'l', 'e']);
        }
        Kind::While
    } else if l == 5 && chars[i] == 'u' && chars[i + 1] == 'n' && chars[i + 2] == 'i' && chars[i
        + 3] == 'o' && chars[i + 4] == 'n' {
        proof {
            assert(w =~= seq!['u', 'n', 'i', 'o', 'n']);
        }
        Kind::Union
    } else if l == 5 && chars[i] == 'a' && chars[i + 1] == 'l' && chars[i + 2] == 'i' && chars[i
        + 3] == 'a' && chars[i + 4] == 's' {
        proof {
            assert(w =~= seq!['a', 'l', 'i', 'a', 's']);
        }
        Kind::Alias
    } else if l == 5 && chars[i] == 'f' && chars[i + 1] == 'a' && chars[i + 2] == 'l' && chars[i
        + 3] == 's' && chars[i + 4] == 'e' {
        proof {
            assert(w =~= seq!['f', 'a', 'l', 's', 'e']);
        }
        Kind::Bool
    } else {
        proof {
            assert(w.len() == l);
            assert(forall|m: int| 0 <= m < l ==> w[m] == chars@[i + m]);
            if w == seq!['v', 'a', 'r'] {
                assert(w[0] == 'v' && w[1] == 'a' && w[2] == 'r');
            }
            if w == seq!['i', 'f'] {
                assert(w[0] == 'i' && w[1] == 'f');
            }
            if w == seq!['e', 'l', 's', 'e'] {
                assert(w[0] == 'e' && w[1] == 'l' && w[2] == 's' && w[3] == 'e');
            }
            if w == seq!['t', 'y', 'p', 'e'] {
                assert(w[0] == 't' && w[1] == 'y' && w[2] == 'p' && w[3] == 'e');
            }
            if w == seq!['d', 'e', 'f'] {
                assert(w[0] == 'd' && w[1] == 'e' && w[2] == 'f');
            }
            if w == seq!['m', 'a', 't', 'c', 'h'] {
                assert(w[0] == 'm' && w[1] == 'a' && w[2] == 't' && w[3] == 'c' && w[4] == 'h');
            }
            if w == seq!['w', 'h', 'i', 'l', 'e'] {
                assert(w[0] == 'w' && w[1] == 'h' && w[2] == 'i' && w[3] == 'l' && w[4] == 'e');
            }
            if w == seq!['u', 'n', 'i', 'o', 'n'] {
                assert(w[0] == 'u' && w[1] == 'n' && w[2] == 'i' && w[3] == 'o' && w[4] == 'n');
            }
            if w == seq!['i', 'm', 'p', 'l'] {
                assert(w[0] == 'i' && w[1] == 'm' && w[2] == 'p' && w[3] == 'l');
            }
            if w == seq!['a', 'l', 'i', 'a', 's'] {
                assert(w[0] == 'a' && w[1] == 'l' && w[2] == 'i' && w[3] == 'a' && w[4] == 's');
            }
            if w == seq!['t', 'r', 'u', 'e'] {
                assert(w[0] == 't' && w[1] == 'r' && w[2] == 'u' && w[3] == 'e');
            }
            if w == seq!['f', 'a', 'l', 's', 'e'] {
                assert(w[0] == 'f' && w[1] == 'a' && w[2] == 'l' && w[3] == 's' && w[4] == 'e');
            }
        }
        Kind::Identifier
    };
    k
}

/// The number token at `i`, whose character is a decimal digit.
pub(crate) fn number_token_exec(chars: &Vec<char>, i: usize) -> (t: (Kind, usize, bool))
    requires
        i < chars@.len(),
        is_digit(chars@[i as int]),
    ensures
        t.0 == number_token(chars@, i as int).0,
        t.1 == number_token(chars@, i as int).1,
        t.2 == number_token(chars@, i as int).2,
        1 <= t.1,
        i + t.1 <= chars@.len(),
{
    let n = chars.len();
    let d_end = scan_digit_us_end(chars, i + 1);
    let int_end: usize = if chars[i] == '0' && i + 1 < n && i + 2 < n && chars[i + 1] == 'b'
        && is_bin_digit_exec(chars[i + 2]) {
        scan_bin_us_end(chars, i + 3)
    } else if chars[i] == '0' && i + 1 < n && i + 2 < n && chars[i + 1] == 'x'
        && is_hex_digit_exec(chars[i + 2]) {
        scan_hex_us_end(chars, i + 3)
    } else {
        d_end
    };
    let has_frac = d_end < n && d_end + 1 < n && chars[d_end] == '.' && is_digit_exec(
        chars[d_end + 1],
    );
    let base_end: usize = if has_frac {
        scan_digit_us_end(chars, d_end + 2)
    } else {
        d_end
    };
    if base_end < n && (chars[base_end] == 'e' || chars[base_end] == 'E') {
        let ds: usize = if base_end + 1 < n && (chars[base_end + 1] == '+' || chars[base_end + 1]
            == '-') {
            base_end + 2
        } else {
            base_end + 1
        };
        if ds < n && is_digit_exec(chars[ds]) {
            let exp_end = scan_digit_us_end(chars, ds + 1);
            return (Kind::Float, exp_end - i, true);
        }
    }
    if has_frac {
        (Kind::Float, base_end - i, true)
    } else {
        (Kind::Integer, int_end - i, true)
    }
}

/// How far a partly scanned string literal reaches: `-1` when it never
/// closes from here, else the distance to just past the closing quote.
spec fn rest_or_fail(d: int, body: int) -> int {
    if body < 0 {
        -1
    } else {
        d + body
    }
}

/// The string-literal token at `i`, whose character is a double quote:
/// the whole literal, or a one-character error token when it never
/// closes.
pub(crate) fn string_token_exec(chars: &Vec<char>, i: usize) -> (t: (Kind, usize, bool))
    requires
        i < chars@.len(),
        chars@[i as int] == '"',
    ensures
        string_body_len(chars@, i as int + 1) >= 0 ==> t == (
            Kind::String,
            (1 + string_body_len(chars@, i as int + 1)) as usize,
            true,
        ),
        string_body_len(chars@, i as int + 1) < 0 ==> t == (Kind::Error, 1usize, true),
        1 <= t.1,
        i + t.1 <= chars@.len(),
{
    let ghost s = chars@;
    let n = chars.len();
    let mut j: usize = i + 1;
    loop
        invariant
            i + 1 <= j <= n,
            n == s.len(),
            chars@ == s,
            string_body_len(s, i as int + 1) == rest_or_fail(
                j - (i + 1),
                string_body_len(s, j as int),
            ),
        decreases n - j,
    {
        if j >= n {
            return (Kind::Error, 1, true);
        }
        let c = chars[j];
        if c == '"' {
            proof {
                lemma_string_body_len_bound(s, i as int + 1);
            }
            return (Kind::String, j - i + 1, true);
        }
        if c == '\\' {
            if j + 1 < n {
                j = j + 2;
            } else {
                return (Kind::Error, 1, true);
            }
        } else {
            j = j + 1;
        }
    }
}

/// The operator, punctuation or error token at `i`.
pub(crate) fn operator_token_exec(chars: &Vec<char>, i: usize) -> (t: (Kind, usize, bool))
    requires
        i < chars@.len(),
    ensures
        t.0 == operator_token(chars@, i as int).0,
        t.1 == operator_token(chars@, i as int).1,
        t.2 == operator_token(chars@, i as int).2,
        1 <= t.1,
        i + t.1 <= chars@.len(),
{
    let n = chars.len();
    let c = chars[i];
    let two = i + 1 < n;
    if two && c == '&' && chars[i + 1] == '&' {
        (Kind::Ampersand2, 2, true)
    } else if two && c == '|' && chars[i + 1] == '|' {
        (Kind::Pipe2, 2, true)
    } else if two && c == '<' && chars[i + 1] == '<' {
        (Kind::LeftShift, 2, true)
    } else if two && c == '>' && chars[i + 1] == '>' {
        (Kind::RightShift, 2, true)
    } else if two && c == '*' && chars[i + 1] == '*' {
        (Kind::StarStar, 2, true)
    } else if two && c == '=' && chars[i + 1] == '=' {
        (Kind::EqualEqual, 2, true)
    } else if two && c == '!' && chars[i + 1] == '=' {
        (Kind::NotEqual, 2, true)
    } else if two && c == '<' && chars[i + 1] == '=' {
        (Kind::LessThanEqual, 2, true)
    } else if two && c == '>' && chars[i + 1] == '=' {
        (Kind::GreaterThanEqual, 2, true)
    } else if two && c == '-' && chars[i + 1] == '>' {
        (Kind::ThinArrow, 2, true)
    } else if c == '&' {
        (Kind::Ampersand, 1, true)
    } else if c == '|' {
        (Kind::Pipe, 1, true)
    } else if c == '^' {
        (Kind::Caret, 1, true)
    } else if c == '+' {
        (Kind::Plus, 1, true)
    } else if c == '-' {
        (Kind::Minus, 1, true)
    } else if c == '*' {
        (Kind::Star, 1, true)
    } else if c == '/' {
        (Kind::Slash, 1, true)
    } else if c == '%' {
        (Kind::Percent, 1, true)
    } else if c == '=' {
        (Kind::Equal, 1, true)
    } else if c == '!' {
        (Kind::Bang, 1, true)
    } else if c == '<' {
        (Kind::LessThan, 1, true)
    } else if c == '>' {
        (Kind::GreaterThan, 1, true)
    } else if c == '.' {
        (Kind::Dot, 1, true)
    } else if c == ',' {
        (Kind::Comma, 1, true)
    } else if c == ':' {
        (Kind::Colon, 1, true)
    } else if c == ';' {
        (Kind::Semicolon, 1, true)
    } else if c == '(' {
        (Kind::LeftParen, 1, true)
    } else if c == ')' {
        (Kind::RightParen, 1, true)
    } else if c == '{' {
        (Kind::LeftCurly, 1, true)
    } else if c == '}' {
        (Kind::RightCurly, 1, true)
    } else if c == '[' {
        (Kind::LeftBracket, 1, true)
    } else if c == ']' {
        (Kind::RightBracket, 1, true)
    } else {
        (Kind::Error, 1, true)
    }
}

/// The token at position `i`, with its length in characters.
pub(crate) fn next_token_exec(chars: &Vec<char>, i: usize) -> (t: (Kind, usize, bool))
    requires
        i < chars@.len(),
    ensures
        t.0 == next_token(chars@, i as int).0,
        t.1 == next_token(chars@, i as int).1,
        t.2 == next_token(chars@, i as int).2,
        1 <= t.1,
        i + t.1 <= chars@.len(),
{
    proof {
        reveal(next_token);
    }
    let n = chars.len();
    let c = chars[i];
    if is_space_exec(c) {
        let e = scan_space_end(chars, i + 1);
        (Kind::Error, e - i, false)
    } else if c == '/' && i + 1 < n && chars[i + 1] == '/' {
        let e = scan_line_end(chars, i + 2);
        (Kind::Comment, e - i, true)
    } else if is_digit_exec(c) {
        number_token_exec(chars, i)
    } else if exec_char_alphabetic(c) {
        let e = scan_ident_end(chars, i + 1);
        let k = keyword_lookup(chars, i, e - i);
        (k, e - i, true)
    } else if c == '\'' {
        if i + 1 < n && i + 2 < n && chars[i + 1] != '\'' && chars[i + 2] == '\'' {
            (Kind::Char, 3, true)
        } else {
            (Kind::Error, 1, true)
        }
    } else if c == '"' {
        proof {
            lemma_string_body_len_bound(chars@, i as int + 1);
        }
        string_token_exec(chars, i)
    } else {
        operator_token_exec(chars, i)
    }
}

} // verus!
