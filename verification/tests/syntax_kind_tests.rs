use cell_front::syntax_kind::SyntaxKind;

#[test]
fn keywords_are_keywords_and_nothing_else_is() {
    assert!(SyntaxKind::VAR_KW.is_keyword());
    assert!(SyntaxKind::FALSE_KW.is_keyword());
    assert!(!SyntaxKind::IDENT.is_keyword());
    assert!(!SyntaxKind::PLUS.is_keyword());
    assert!(!SyntaxKind::EOF.is_keyword());
}

#[test]
fn puncts_are_puncts_and_nothing_else_is() {
    assert!(SyntaxKind::SEMICOLON.is_punct());
    assert!(SyntaxKind::THIN_ARROW.is_punct());
    assert!(SyntaxKind::SHLEQ.is_punct());
    assert!(!SyntaxKind::VAR_KW.is_punct());
    assert!(!SyntaxKind::STRING.is_punct());
}

#[test]
fn literals_are_literals_and_nothing_else_is() {
    assert!(SyntaxKind::INT_NUMBER.is_literal());
    assert!(SyntaxKind::FLOAT_NUMBER.is_literal());
    assert!(SyntaxKind::CHAR.is_literal());
    assert!(SyntaxKind::STRING.is_literal());
    assert!(!SyntaxKind::IDENT.is_literal());
    assert!(!SyntaxKind::TRUE_KW.is_literal());
}

#[test]
fn from_keyword_knows_every_reserved_word() {
    assert_eq!(SyntaxKind::from_keyword("var"), Some(SyntaxKind::VAR_KW));
    assert_eq!(SyntaxKind::from_keyword("if"), Some(SyntaxKind::IF_KW));
    assert_eq!(SyntaxKind::from_keyword("else"), Some(SyntaxKind::ELSE_KW));
    assert_eq!(SyntaxKind::from_keyword("type"), Some(SyntaxKind::TYPE_KW));
    assert_eq!(SyntaxKind::from_keyword("def"), Some(SyntaxKind::DEF_KW));
    assert_eq!(SyntaxKind::from_keyword("match"), Some(SyntaxKind::MATCH_KW));
    assert_eq!(SyntaxKind::from_keyword("while"), Some(SyntaxKind::WHILE_KW));
    assert_eq!(SyntaxKind::from_keyword("break"), Some(SyntaxKind::BREAK_KW));
    assert_eq!(SyntaxKind::from_keyword("continue"), Some(SyntaxKind::CONTINUE_KW));
    assert_eq!(SyntaxKind::from_keyword("union"), Some(SyntaxKind::UNION_KW));
    assert_eq!(SyntaxKind::from_keyword("true"), Some(SyntaxKind::TRUE_KW));
    assert_eq!(SyntaxKind::from_keyword("false"), Some(SyntaxKind::FALSE_KW));
}

#[test]
fn from_keyword_rejects_everything_else() {
    assert_eq!(SyntaxKind::from_keyword("vars"), None);
    assert_eq!(SyntaxKind::from_keyword("i"), None);
    assert_eq!(SyntaxKind::from_keyword(""), None);
    assert_eq!(SyntaxKind::from_keyword("Trued"), None);
}

#[test]
fn from_char_knows_single_glyphs() {
    assert_eq!(SyntaxKind::from_char(';'), Some(SyntaxKind::SEMICOLON));
    assert_eq!(SyntaxKind::from_char('('), Some(SyntaxKind::L_PAREN));
    assert_eq!(SyntaxKind::from_char('<'), Some(SyntaxKind::L_ANGLE));
    assert_eq!(SyntaxKind::from_char('!'), Some(SyntaxKind::BANG));
    assert_eq!(SyntaxKind::from_char('a'), None);
    assert_eq!(SyntaxKind::from_char('@'), None);
}
