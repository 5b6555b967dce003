use lexer::token::Token;

#[test]
fn keywords_classify_to_keyword_variants() {
    assert_eq!(Token::from(String::from("fn")), Token::Function);
    assert_eq!(Token::from(String::from("let")), Token::Let);
    assert_eq!(Token::from(String::from("true")), Token::True);
    assert_eq!(Token::from(String::from("false")), Token::False);
    assert_eq!(Token::from(String::from("if")), Token::If);
    assert_eq!(Token::from(String::from("else")), Token::Else);
    assert_eq!(Token::from(String::from("return")), Token::Return);
}

#[test]
fn keywords_never_classify_to_ident() {
    for kw in ["fn", "let", "true", "false", "if", "else", "return"] {
        let tok = Token::from(String::from(kw));
        assert!(!matches!(tok, Token::Ident(_)));
    }
}

#[test]
fn digit_runs_classify_to_int_verbatim() {
    assert_eq!(Token::from(String::from("5")), Token::Int(String::from("5")));
    assert_eq!(
        Token::from(String::from("12345")),
        Token::Int(String::from("12345"))
    );
    assert_eq!(Token::from(String::from("0")), Token::Int(String::from("0")));
    // No trimming and no numeric normalization: leading zeros stay.
    assert_eq!(
        Token::from(String::from("007")),
        Token::Int(String::from("007"))
    );
    // No overflow check: far beyond any machine integer, kept as text.
    assert_eq!(
        Token::from(String::from("99999999999999999999999999")),
        Token::Int(String::from("99999999999999999999999999"))
    );
}

#[test]
fn other_runs_classify_to_ident_verbatim() {
    assert_eq!(Token::from(String::from("x")), Token::Ident(String::from("x")));
    assert_eq!(
        Token::from(String::from("foo_bar")),
        Token::Ident(String::from("foo_bar"))
    );
    // A single non-digit makes the whole run an identifier.
    assert_eq!(
        Token::from(String::from("1a")),
        Token::Ident(String::from("1a"))
    );
    // Near-keywords are ordinary identifiers.
    assert_eq!(
        Token::from(String::from("lets")),
        Token::Ident(String::from("lets"))
    );
    assert_eq!(
        Token::from(String::from("Fn")),
        Token::Ident(String::from("Fn"))
    );
}

#[test]
fn empty_string_classifies_to_empty_ident() {
    assert_eq!(Token::from(String::new()), Token::Ident(String::new()));
}

#[test]
fn two_char_operators_classify_first() {
    assert_eq!(Token::from(String::from("==")), Token::Equal);
    assert_eq!(Token::from(String::from("!=")), Token::NotEqual);
}

#[test]
fn single_chars_classify_to_operators_and_delimiters() {
    assert_eq!(Token::from('='), Token::Assign);
    assert_eq!(Token::from(';'), Token::Semicolon);
    assert_eq!(Token::from('('), Token::LParen);
    assert_eq!(Token::from(')'), Token::RParen);
    assert_eq!(Token::from(','), Token::Comma);
    assert_eq!(Token::from('+'), Token::Plus);
    assert_eq!(Token::from('-'), Token::Minus);
    assert_eq!(Token::from('!'), Token::Bang);
    assert_eq!(Token::from('*'), Token::Asterisk);
    assert_eq!(Token::from('/'), Token::Slash);
    assert_eq!(Token::from('<'), Token::LessThan);
    assert_eq!(Token::from('>'), Token::GreaterThan);
    assert_eq!(Token::from('{'), Token::LBrace);
    assert_eq!(Token::from('}'), Token::RBrace);
}

#[test]
fn nul_char_classifies_to_eof() {
    assert_eq!(Token::from('\0'), Token::Eof);
}

#[test]
fn unmapped_chars_classify_to_illegal() {
    assert_eq!(Token::from('@'), Token::Illegal);
    assert_eq!(Token::from('#'), Token::Illegal);
    assert_eq!(Token::from('a'), Token::Illegal);
    assert_eq!(Token::from('0'), Token::Illegal);
    assert_eq!(Token::from(' '), Token::Illegal);
    assert_eq!(Token::from('é'), Token::Illegal);
}

#[test]
fn mapped_char_literal_reproduces_the_char() {
    for ch in [
        '=', ';', '(', ')', ',', '+', '-', '!', '*', '/', '<', '>', '{', '}', '\0',
    ] {
        let tok = Token::from(ch);
        assert_eq!(tok.literal(), ch.to_string());
    }
}

#[test]
fn scenario_let_statement_stream() {
    // The raw units `let x = 5 ;` as a scanner would hand them over:
    // accumulated runs through the string entry point, single operator
    // and delimiter characters through the character entry point.
    let tokens = vec![
        Token::from(String::from("let")),
        Token::from(String::from("x")),
        Token::from('='),
        Token::from(String::from("5")),
        Token::from(';'),
    ];
    assert_eq!(
        tokens,
        vec![
            Token::Let,
            Token::Ident(String::from("x")),
            Token::Assign,
            Token::Int(String::from("5")),
            Token::Semicolon,
        ]
    );
}
