use cell_front::{lex, File, Kind, SourceDatabase};

fn kinds(text: &str) -> Vec<Kind> {
    lex(text).iter().map(|t| t.kind).collect()
}

#[test]
fn lexing_an_empty_string_yields_no_tokens() {
    assert_eq!(lex(""), vec![]);
}

#[test]
fn lexing_a_small_expression() {
    let tokens = lex("x1 = 2 + 3.5 // c");
    let expected = [
        (Kind::Identifier, 0, 2),
        (Kind::Equal, 3, 4),
        (Kind::Integer, 5, 6),
        (Kind::Plus, 7, 8),
        (Kind::Float, 9, 12),
        (Kind::Comment, 13, 17),
    ];
    assert_eq!(tokens.len(), expected.len());
    for (token, (kind, start, end)) in tokens.iter().zip(expected) {
        assert_eq!(token.kind, kind);
        assert_eq!(token.span.start(), start);
        assert_eq!(token.span.end(), end);
    }
}

#[test]
fn token_spans_cover_the_input_in_order_without_overlap() {
    let text = "x1 = 2 + 3.5 // c";
    let tokens = lex(text);
    let mut last_end = 0;
    for token in &tokens {
        assert!(token.span.start() >= last_end);
        assert!(token.span.start() < token.span.end());
        last_end = token.span.end();
    }
    assert_eq!(last_end as usize, text.len());
}

#[test]
fn maximal_munch_takes_the_double_ampersand_first() {
    assert_eq!(kinds("&& &"), vec![Kind::Ampersand2, Kind::Ampersand]);
}

#[test]
fn multi_character_operators_beat_their_prefixes() {
    assert_eq!(
        kinds("** * << <= < -> - >= >> != == ="),
        vec![
            Kind::StarStar,
            Kind::Star,
            Kind::LeftShift,
            Kind::LessThanEqual,
            Kind::LessThan,
            Kind::ThinArrow,
            Kind::Minus,
            Kind::GreaterThanEqual,
            Kind::RightShift,
            Kind::NotEqual,
            Kind::EqualEqual,
            Kind::Equal,
        ]
    );
}

#[test]
fn keywords_beat_identifiers_and_longer_identifiers_beat_keywords() {
    assert_eq!(
        kinds("var impl alias if else type def match while union"),
        vec![
            Kind::Var,
            Kind::Impl,
            Kind::Alias,
            Kind::If,
            Kind::Else,
            Kind::Type,
            Kind::Def,
            Kind::Match,
            Kind::While,
            Kind::Union,
        ]
    );
    assert_eq!(kinds("variable"), vec![Kind::Identifier]);
    assert_eq!(kinds("truex"), vec![Kind::Identifier]);
}

#[test]
fn booleans_are_their_own_literal_kind() {
    assert_eq!(kinds("true false"), vec![Kind::Bool, Kind::Bool]);
}

#[test]
fn integer_forms() {
    assert_eq!(
        kinds("12 1_000 0b101 0x1F 0xdead_beef"),
        vec![Kind::Integer, Kind::Integer, Kind::Integer, Kind::Integer, Kind::Integer]
    );
}

#[test]
fn float_forms() {
    assert_eq!(
        kinds("3.5 1e5 2.5e-3 7E+2"),
        vec![Kind::Float, Kind::Float, Kind::Float, Kind::Float]
    );
}

#[test]
fn a_dot_without_fraction_stays_an_integer_and_a_dot() {
    assert_eq!(kinds("3."), vec![Kind::Integer, Kind::Dot]);
}

#[test]
fn an_exponent_without_digits_is_not_a_float() {
    assert_eq!(kinds("12e"), vec![Kind::Integer, Kind::Identifier]);
}

#[test]
fn an_incomplete_binary_prefix_falls_back_to_the_digit() {
    assert_eq!(kinds("0b"), vec![Kind::Integer, Kind::Identifier]);
}

#[test]
fn character_literals() {
    assert_eq!(kinds("'a'"), vec![Kind::Char]);
    assert_eq!(kinds("''"), vec![Kind::Error, Kind::Error]);
    assert_eq!(kinds("'ab'"), vec![Kind::Error, Kind::Identifier, Kind::Error]);
}

#[test]
fn string_literals() {
    assert_eq!(kinds("\"hi\""), vec![Kind::String]);
    assert_eq!(kinds("\"a \\\" b\""), vec![Kind::String]);
    assert_eq!(kinds("\"\""), vec![Kind::String]);
}

#[test]
fn an_unterminated_string_degrades_to_an_error_token() {
    assert_eq!(kinds("\"ab"), vec![Kind::Error, Kind::Identifier]);
}

#[test]
fn comments_run_to_the_end_of_the_line() {
    let tokens = lex("// one\nx");
    assert_eq!(tokens[0].kind, Kind::Comment);
    assert_eq!(tokens[0].span.end(), 6);
    assert_eq!(tokens[1].kind, Kind::Identifier);
}

#[test]
fn unrecognized_bytes_become_error_tokens() {
    assert_eq!(kinds("@"), vec![Kind::Error]);
    assert_eq!(kinds("a @ b"), vec![Kind::Identifier, Kind::Error, Kind::Identifier]);
}

#[test]
fn identifiers_may_hold_letters_beyond_ascii() {
    assert_eq!(kinds("héllo"), vec![Kind::Identifier]);
    let tokens = lex("é+");
    assert_eq!(tokens[0].kind, Kind::Identifier);
    assert_eq!(tokens[0].span.end(), 2);
    assert_eq!(tokens[1].kind, Kind::Plus);
    assert_eq!(tokens[1].span.start(), 2);
    assert_eq!(tokens[1].span.end(), 3);
}

#[test]
fn underscore_alone_does_not_start_an_identifier() {
    assert_eq!(kinds("_x"), vec![Kind::Error, Kind::Identifier]);
    assert_eq!(kinds("x_1"), vec![Kind::Identifier]);
}

#[test]
fn punctuation_kinds() {
    assert_eq!(
        kinds(". , : ; ( ) { } [ ] ^ % / ! | &"),
        vec![
            Kind::Dot,
            Kind::Comma,
            Kind::Colon,
            Kind::Semicolon,
            Kind::LeftParen,
            Kind::RightParen,
            Kind::LeftCurly,
            Kind::RightCurly,
            Kind::LeftBracket,
            Kind::RightBracket,
            Kind::Caret,
            Kind::Percent,
            Kind::Slash,
            Kind::Bang,
            Kind::Pipe,
            Kind::Ampersand,
        ]
    );
    assert_eq!(kinds("|| |"), vec![Kind::Pipe2, Kind::Pipe]);
}

#[test]
fn lexing_through_the_source_database() {
    let mut db = SourceDatabase::new();
    let id = db.intern_file(File::new("main.cl", "var x = 1;"));
    let tokens = db.lex(id);
    let got: Vec<Kind> = tokens.iter().map(|t| t.kind).collect();
    assert_eq!(
        got,
        vec![Kind::Var, Kind::Identifier, Kind::Equal, Kind::Integer, Kind::Semicolon]
    );
}
