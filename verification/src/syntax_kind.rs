//! The kinds of syntax nodes and tokens of the concrete syntax tree.

use vstd::prelude::*;
use vstd::string::StrSliceExecFns;

verus! {

/// The kind of syntax node, e.g. `IDENT`, `USE_KW`, or `STRUCT`.
#[allow(bad_style)]
#[derive(Clone, Copy, PartialEq, Eq, PartialOrd, Ord, Hash, Debug, Structural)]
pub enum SyntaxKind {
    EOF,
    SEMICOLON,
    COLON,
    COMMA,
    DOT,
    L_PAREN,
    R_PAREN,
    L_CURLY,
    R_CURLY,
    L_BRACK,
    R_BRACK,
    AMP2,
    PIPE2,
    AMP,
    PIPE,
    CARET,
    SHR,
    SHL,
    PLUS,
    MINUS,
    STAR,
    SLASH,
    PERCENT,
    STAR2,
    EQ,
    EQ2,
    NEQ,
    L_ANGLE,
    R_ANGLE,
    LTEQ,
    GTEQ,
    BANG,
    AMPEQ,
    PIPEEQ,
    CARETEQ,
    SHREQ,
    SHLEQ,
    PLUSEQ,
    MINUSEQ,
    STAREQ,
    SLASHEQ,
    PERCENTEQ,
    THIN_ARROW,
    VAR_KW,
    IF_KW,
    ELSE_KW,
    TYPE_KW,
    DEF_KW,
    MATCH_KW,
    WHILE_KW,
    BREAK_KW,
    CONTINUE_KW,
    UNION_KW,
    TRUE_KW,
    FALSE_KW,
    INT_NUMBER,
    FLOAT_NUMBER,
    CHAR,
    STRING,
    ERROR,
    IDENT,
    WHITESPACE,
    COMMENT,
    PROGRAM,
    TYPE_DEF,
    TYPE_IMPL,
    TYPE_ALIAS,
    TYPE_TRAIT,
    TYPE_UNION,
    FN_DEF,
    PARAMETER_LIST,
    VAR_STMT,
    EXPR_STMT,
    PAREN_EXPR,
    TUPLE_EXPR,
    NAMED_TUPLE_EXPR,
    IF_EXPR,
    MATCH_EXPR,
    MATCH_ARM,
    WHILE_EXPR,
    CONTINUE,
    BREAK,
    CALL_EXPR,
    PREFIX_EXPR,
    BINARY_EXPR,
    CMP_EXPR,
    BLOCK_EXPR,
    CONDITION,
    LITERAL,
    NAME,
    __LAST,
}

/// The kinds that are reserved words.
pub open spec fn is_keyword_spec(k: SyntaxKind) -> bool {
    ||| k == SyntaxKind::VAR_KW
    ||| k == SyntaxKind::IF_KW
    ||| k == SyntaxKind::ELSE_KW
    ||| k == SyntaxKind::TYPE_KW
    ||| k == SyntaxKind::DEF_KW
    ||| k == SyntaxKind::MATCH_KW
    ||| k == SyntaxKind::WHILE_KW
    ||| k == SyntaxKind::BREAK_KW
    ||| k == SyntaxKind::CONTINUE_KW
    ||| k == SyntaxKind::UNION_KW
    ||| k == SyntaxKind::TRUE_KW
    ||| k == SyntaxKind::FALSE_KW
}

/// The kinds that are operator or punctuation glyphs.
pub open spec fn is_punct_spec(k: SyntaxKind) -> bool {
    ||| k == SyntaxKind::SEMICOLON
    ||| k == SyntaxKind::COLON
    ||| k == SyntaxKind::COMMA
    ||| k == SyntaxKind::DOT
    ||| k == SyntaxKind::L_PAREN
    ||| k == SyntaxKind::R_PAREN
    ||| k == SyntaxKind::L_CURLY
    ||| k == SyntaxKind::R_CURLY
    ||| k == SyntaxKind::L_BRACK
    ||| k == SyntaxKind::R_BRACK
    ||| k == SyntaxKind::AMP2
    ||| k == SyntaxKind::PIPE2
    ||| k == SyntaxKind::AMP
    ||| k == SyntaxKind::PIPE
    ||| k == SyntaxKind::CARET
    ||| k == SyntaxKind::SHR
    ||| k == SyntaxKind::SHL
    ||| k == SyntaxKind::PLUS
    ||| k == SyntaxKind::MINUS
    ||| k == SyntaxKind::STAR
    ||| k == SyntaxKind::SLASH
    ||| k == SyntaxKind::PERCENT
    ||| k == SyntaxKind::STAR2
    ||| k == SyntaxKind::EQ
    ||| k == SyntaxKind::EQ2
    ||| k == SyntaxKind::NEQ
    ||| k == SyntaxKind::L_ANGLE
    ||| k == SyntaxKind::R_ANGLE
    ||| k == SyntaxKind::LTEQ
    ||| k == SyntaxKind::GTEQ
    ||| k == SyntaxKind::BANG
    ||| k == SyntaxKind::AMPEQ
    ||| k == SyntaxKind::PIPEEQ
    ||| k == SyntaxKind::CARETEQ
    ||| k == SyntaxKind::SHREQ
    ||| k == SyntaxKind::SHLEQ
    ||| k == SyntaxKind::PLUSEQ
    ||| k == SyntaxKind::MINUSEQ
    ||| k == SyntaxKind::STAREQ
    ||| k == SyntaxKind::SLASHEQ
    ||| k == SyntaxKind::PERCENTEQ
    ||| k == SyntaxKind::THIN_ARROW
}

/// The kinds that are literals.
pub open spec fn is_literal_spec(k: SyntaxKind) -> bool {
    ||| k == SyntaxKind::INT_NUMBER
    ||| k == SyntaxKind::FLOAT_NUMBER
    ||| k == SyntaxKind::CHAR
    ||| k == SyntaxKind::STRING
}

/// The keyword kind a word spells, if any.
pub open spec fn from_keyword_spec(w: Seq<char>) -> Option<SyntaxKind> {
    if w == seq!['v', 'a', 'r'] {
        Some(SyntaxKind::VAR_KW)
    } else if w == seq!['i', 'f'] {
        Some(SyntaxKind::IF_KW)
    } else if w == seq!['e', 'l', 's', 'e'] {
        Some(SyntaxKind::ELSE_KW)
    } else if w == seq!['t', 'y', 'p', 'e'] {
        Some(SyntaxKind::TYPE_KW)
    } else if w == seq!['d', 'e', 'f'] {
        Some(SyntaxKind::DEF_KW)
    } else if w == seq!['m', 'a', 't', 'c', 'h'] {
        Some(SyntaxKind::MATCH_KW)
    } else if w == seq!['w', 'h', 'i', 'l', 'e'] {
        Some(SyntaxKind::WHILE_KW)
    } else if w == seq!['b', 'r', 'e', 'a', 'k'] {
        Some(SyntaxKind::BREAK_KW)
    } else if w == seq!['c', 'o', 'n', 't', 'i', 'n', 'u', 'e'] {
        Some(SyntaxKind::CONTINUE_KW)
    } else if w == seq!['u', 'n', 'i', 'o', 'n'] {
        Some(SyntaxKind::UNION_KW)
    } else if w == seq!['t', 'r', 'u', 'e'] {
        Some(SyntaxKind::TRUE_KW)
    } else if w == seq!['f', 'a', 'l', 's', 'e'] {
        Some(SyntaxKind::FALSE_KW)
    } else {
        None
    }
}

/// The punctuation kind a single character spells, if any.
pub open spec fn from_char_spec(c: char) -> Option<SyntaxKind> {
    if c == ';' {
        Some(SyntaxKind::SEMICOLON)
    } else if c == ':' {
        Some(SyntaxKind::COLON)
    } else if c == ',' {
        Some(SyntaxKind::COMMA)
    } else if c == '.' {
        Some(SyntaxKind::DOT)
    } else if c == '(' {
        Some(SyntaxKind::L_PAREN)
    } else if c == ')' {
        Some(SyntaxKind::R_PAREN)
    } else if c == '{' {
        Some(SyntaxKind::L_CURLY)
    } else if c == '}' {
        Some(SyntaxKind::R_CURLY)
    } else if c == '[' {
        Some(SyntaxKind::L_BRACK)
    } else if c == ']' {
        Some(SyntaxKind::R_BRACK)
    } else if c == '&' {
        Some(SyntaxKind::AMP)
    } else if c == '|' {
        Some(SyntaxKind::PIPE)
    } else if c == '^' {
        Some(SyntaxKind::CARET)
    } else if c == '+' {
        Some(SyntaxKind::PLUS)
    } else if c == '-' {
        Some(SyntaxKind::MINUS)
    } else if c == '*' {
        Some(SyntaxKind::STAR)
    } else if c == '/' {
        Some(SyntaxKind::SLASH)
    } else if c == '%' {
        Some(SyntaxKind::PERCENT)
    } else if c == '=' {
        Some(SyntaxKind::EQ)
    } else if c == '<' {
        Some(SyntaxKind::L_ANGLE)
    } else if c == '>' {
        Some(SyntaxKind::R_ANGLE)
    } else if c == '!' {
        Some(SyntaxKind::BANG)
    } else {
        None
    }
}

impl SyntaxKind {
    /// Whether this kind is a reserved word.
    pub fn is_keyword(self) -> (r: bool)
        ensures
            r == is_keyword_spec(self),
    {
        match self {
            SyntaxKind::VAR_KW | SyntaxKind::IF_KW | SyntaxKind::ELSE_KW | SyntaxKind::TYPE_KW
                | SyntaxKind::DEF_KW | SyntaxKind::MATCH_KW | SyntaxKind::WHILE_KW
                | SyntaxKind::BREAK_KW | SyntaxKind::CONTINUE_KW | SyntaxKind::UNION_KW
                | SyntaxKind::TRUE_KW | SyntaxKind::FALSE_KW => true,
            _ => false,
        }
    }

    /// Whether this kind is an operator or punctuation glyph.
    pub fn is_punct(self) -> (r: bool)
        ensures
            r == is_punct_spec(self),
    {
        match self {
            SyntaxKind::SEMICOLON | SyntaxKind::COLON | SyntaxKind::COMMA | SyntaxKind::DOT
                | SyntaxKind::L_PAREN | SyntaxKind::R_PAREN | SyntaxKind::L_CURLY
                | SyntaxKind::R_CURLY | SyntaxKind::L_BRACK | SyntaxKind::R_BRACK
                | SyntaxKind::AMP2 | SyntaxKind::PIPE2 | SyntaxKind::AMP | SyntaxKind::PIPE
                | SyntaxKind::CARET | SyntaxKind::SHR | SyntaxKind::SHL | SyntaxKind::PLUS
                | SyntaxKind::MINUS | SyntaxKind::STAR | SyntaxKind::SLASH | SyntaxKind::PERCENT
                | SyntaxKind::STAR2 | SyntaxKind::EQ | SyntaxKind::EQ2 | SyntaxKind::NEQ
                | SyntaxKind::L_ANGLE | SyntaxKind::R_ANGLE | SyntaxKind::LTEQ | SyntaxKind::GTEQ
                | SyntaxKind::BANG | SyntaxKind::AMPEQ | SyntaxKind::PIPEEQ | SyntaxKind::CARETEQ
                | SyntaxKind::SHREQ | SyntaxKind::SHLEQ | SyntaxKind::PLUSEQ
                | SyntaxKind::MINUSEQ | SyntaxKind::STAREQ | SyntaxKind::SLASHEQ
                | SyntaxKind::PERCENTEQ | SyntaxKind::THIN_ARROW => true,
            _ => false,
        }
    }

    /// Whether this kind is a literal.
    pub fn is_literal(self) -> (r: bool)
        ensures
            r == is_literal_spec(self),
    {
        match self {
            SyntaxKind::INT_NUMBER | SyntaxKind::FLOAT_NUMBER | SyntaxKind::CHAR
                | SyntaxKind::STRING => true,
            _ => false,
        }
    }

    /// The keyword kind the given word spells, if it is a reserved
    /// word.
    pub fn from_keyword(ident: &str) -> (r: Option<SyntaxKind>)
        ensures
            r == from_keyword_spec(ident@),
    {
        let ghost w = ident@;
        let n = ident.unicode_len();
        if n == 3 && ident.get_char(0) == 'v' && ident.get_char(1) == 'a' && ident.get_char(2)
            == 'r' {
            proof {
                assert(w =~= seq!['v', 'a', 'r']);
            }
            Some(SyntaxKind::VAR_KW)
        } else if n == 2 && ident.get_char(0) == 'i' && ident.get_char(1) == 'f' {
            proof {
                assert(w =~= seq!['i', 'f']);
            }
            Some(SyntaxKind::IF_KW)
        } else if n == 4 && ident.get_char(0) == 'e' && ident.get_char(1) == 'l' && ident.get_char(
            2,
        ) == 's' && ident.get_char(3) == 'e' {
            proof {
                assert(w =~= seq!['e', 'l', 's', 'e']);
            }
            Some(SyntaxKind::ELSE_KW)
        } else if n == 4 && ident.get_char(0) == 't' && ident.get_char(1) == 'y' && ident.get_char(
            2,
        ) == 'p' && ident.get_char(3) == 'e' {
            proof {
                assert(w =~= seq!['t', 'y', 'p', 'e']);
            }
            Some(SyntaxKind::TYPE_KW)
        } else if n == 3 && ident.get_char(0) == 'd' && ident.get_char(1) == 'e' && ident.get_char(
            2,
        ) == 'f' {
            proof {
                assert(w =~= seq!['d', 'e', 'f']);
            }
            Some(SyntaxKind::DEF_KW)
        } else if n == 5 && ident.get_char(0) == 'm' && ident.get_char(1) == 'a' && ident.get_char(
            2,
        ) == 't' && ident.get_char(3) == 'c' && ident.get_char(4) == 'h' {
            proof {
                assert(w =~= seq!['m', 'a', 't', 'c', 'h']);
            }
            Some(SyntaxKind::MATCH_KW)
        } else if n == 5 && ident.get_char(0) == 'w' && ident.get_char(1) == 'h' && ident.get_char(
            2,
        ) == 'i' && ident.get_char(3) == 'l' && ident.get_char(4) == 'e' {
            proof {
                assert(w =~= seq!['w', 'h', 'i', 'l', 'e']);
            }
            Some(SyntaxKind::WHILE_KW)
        } else if n == 5 && ident.get_char(0) == 'b' && ident.get_char(1) == 'r' && ident.get_char(
            2,
        ) == 'e' && ident.get_char(3) == 'a' && ident.get_char(4) == 'k' {
            proof {
                assert(w =~= seq!['b', 'r', 'e', 'a', 'k']);
            }
            Some(SyntaxKind::BREAK_KW)
        } else if n == 8 && ident.get_char(0) == 'c' && ident.get_char(1) == 'o' && ident.get_char(
            2,
        ) == 'n' && ident.get_char(3) == 't' && ident.get_char(4) == 'i' && ident.get_char(5)
            == 'n' && ident.get_char(6) == 'u' && ident.get_char(7) == 'e' {
            proof {
                assert(w =~= seq!['c', 'o', 'n', 't', 'i', 'n', 'u', 'e']);
            }
            Some(SyntaxKind::CONTINUE_KW)
        } else if n == 5 && ident.get_char(0) == 'u' && ident.get_char(1) == 'n' && ident.get_char(
            2,
        ) == 'i' && ident.get_char(3) == 'o' && ident.get_char(4) == 'n' {
            proof {
                assert(w =~= seq!['u', 'n', 'i', 'o', 'n']);
            }
            Some(SyntaxKind::UNION_KW)
        } else if n == 4 && ident.get_char(0) == 't' && ident.get_char(1) == 'r' && ident.get_char(
            2,
        ) == 'u' && ident.get_char(3) == 'e' {
            proof {
                assert(w =~= seq!['t', 'r', 'u', 'e']);
            }
            Some(SyntaxKind::TRUE_KW)
        } else if n == 5 && ident.get_char(0) == 'f' && ident.get_char(1) == 'a' && ident.get_char(
            2,
        ) == 'l' && ident.get_char(3) == 's' && ident.get_char(4) == 'e' {
            proof {
                assert(w =~= seq!['f', 'a', 'l', 's', 'e']);
            }
            Some(SyntaxKind::FALSE_KW)
        } else {
            proof {
                if w == seq!['v', 'a', 'r'] {
                    assert(w[0] == 'v' && w[1] == 'a' && w[2] == 'r');
                }
                if w == seq!['i', 'f'] {
                    assert(w[0] == 'i' && w[1] == 'f');
                }
                if w == seq!['e', 'l', 's', 'e'] {
                    assert(w[0] == 'e' && w[1] == 'l' && w[2] == 's' && w[3] == 'e');
                }
                if w == seq!['t', 'y', 'p', 'e'] {
                    assert(w[0] == 't' && w[1] == 'y' && w[2] == 'p' && w[3] == 'e');
                }
                if w == seq!['d', 'e', 'f'] {
                    assert(w[0] == 'd' && w[1] == 'e' && w[2] == 'f');
                }
                if w == seq!['m', 'a', 't', 'c', 'h'] {
                    assert(w[0] == 'm' && w[1] == 'a' && w[2] == 't' && w[3] == 'c' && w[4] == 'h');
                }
                if w == seq!['w', 'h', 'i', 'l', 'e'] {
                    assert(w[0] == 'w' && w[1] == 'h' && w[2] == 'i' && w[3] == 'l' && w[4] == 'e');
                }
                if w == seq!['b', 'r', 'e', 'a', 'k'] {
                    assert(w[0] == 'b' && w[1] == 'r' && w[2] == 'e' && w[3] == 'a' && w[4] == 'k');
                }
                if w == seq!['c', 'o', 'n', 't', 'i', 'n', 'u', 'e'] {
                    assert(w[0] == 'c' && w[1] == 'o' && w[2] == 'n' && w[3] == 't' && w[4] == 'i'
                        && w[5] == 'n' && w[6] == 'u' && w[7] == 'e');
                }
                if w == seq!['u', 'n', 'i', 'o', 'n'] {
                    assert(w[0] == 'u' && w[1] == 'n' && w[2] == 'i' && w[3] == 'o' && w[4] == 'n');
                }
                if w == seq!['t', 'r', 'u', 'e'] {
                    assert(w[0] == 't' && w[1] == 'r' && w[2] == 'u' && w[3] == 'e');
                }
                if w == seq!['f', 'a', 'l', 's', 'e'] {
                    assert(w[0] == 'f' && w[1] == 'a' && w[2] == 'l' && w[3] == 's' && w[4] == 'e');
                }
            }
            None
        }
    }

    /// The punctuation kind the given character spells, if any.
    pub fn from_char(c: char) -> (r: Option<SyntaxKind>)
        ensures
            r == from_char_spec(c),
    {
        if c == ';' {
            Some(SyntaxKind::SEMICOLON)
        } else if c == ':' {
            Some(SyntaxKind::COLON)
        } else if c == ',' {
            Some(SyntaxKind::COMMA)
        } else if c == '.' {
            Some(SyntaxKind::DOT)
        } else if c == '(' {
            Some(SyntaxKind::L_PAREN)
        } else if c == ')' {
            Some(SyntaxKind::R_PAREN)
        } else if c == '{' {
            Some(SyntaxKind::L_CURLY)
        } else if c == '}' {
            Some(SyntaxKind::R_CURLY)
        } else if c == '[' {
            Some(SyntaxKind::L_BRACK)
        } else if c == ']' {
            Some(SyntaxKind::R_BRACK)
        } else if c == '&' {
            Some(SyntaxKind::AMP)
        } else if c == '|' {
            Some(SyntaxKind::PIPE)
        } else if c == '^' {
            Some(SyntaxKind::CARET)
        } else if c == '+' {
            Some(SyntaxKind::PLUS)
        } else if c == '-' {
            Some(SyntaxKind::MINUS)
        } else if c == '*' {
            Some(SyntaxKind::STAR)
        } else if c == '/' {
            Some(SyntaxKind::SLASH)
        } else if c == '%' {
            Some(SyntaxKind::PERCENT)
        } else if c == '=' {
            Some(SyntaxKind::EQ)
        } else if c == '<' {
            Some(SyntaxKind::L_ANGLE)
        } else if c == '>' {
            Some(SyntaxKind::R_ANGLE)
        } else if c == '!' {
            Some(SyntaxKind::BANG)
        } else {
            None
        }
    }
}

} // verus!
