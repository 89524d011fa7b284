use rlox::lox::Lox;
use rlox::scanner::Scanner;
use rlox::token::Literal;
use rlox::token::Token;
use rlox::token::TokenKind;

fn scan(src: &str) -> (Vec<Token>, Lox) {
    let mut lox = Lox::new();
    let mut scanner = Scanner::new(String::from(src));
    let toks = scanner.scan_tokens(&mut lox);
    (toks, lox)
}

fn kinds(toks: &[Token]) -> Vec<TokenKind> {
    toks.iter().map(|t| t.kind).collect()
}

fn text_literal(t: &Token) -> &str {
    match &t.literal {
        Literal::Text(s) => s.as_str(),
        _ => panic!("expected a text literal"),
    }
}

fn numeric_literal(t: &Token) -> &str {
    match &t.literal {
        Literal::Numeric(s) => s.as_str(),
        _ => panic!("expected a numeric literal"),
    }
}

#[test]
fn empty_input_yields_only_sentinel() {
    let (toks, lox) = scan("");
    assert_eq!(toks.len(), 1);
    assert_eq!(toks[0].kind, TokenKind::Eof);
    assert_eq!(toks[0].lexeme, "");
    assert_eq!(toks[0].line, 1);
    assert!(!lox.had_error);
    assert!(lox.messages.is_empty());
}

#[test]
fn whitespace_only_yields_sentinel_at_line_one() {
    let (toks, lox) = scan("  \t \r ");
    assert_eq!(kinds(&toks), vec![TokenKind::Eof]);
    assert_eq!(toks[0].line, 1);
    assert!(!lox.had_error);
}

#[test]
fn newlines_only_advance_the_line_counter() {
    let (toks, lox) = scan("\n\n\n");
    assert_eq!(kinds(&toks), vec![TokenKind::Eof]);
    assert_eq!(toks[0].line, 4);
    assert!(!lox.had_error);
}

#[test]
fn single_character_tokens_match_the_table() {
    let table: Vec<(&str, TokenKind)> = vec![
        ("(", TokenKind::LeftParen),
        (")", TokenKind::RightParen),
        ("{", TokenKind::LeftBrace),
        ("}", TokenKind::RightBrace),
        (",", TokenKind::Comma),
        (".", TokenKind::Dot),
        ("-", TokenKind::Minus),
        ("+", TokenKind::Plus),
        (";", TokenKind::Semicolon),
        ("*", TokenKind::Star),
        ("/", TokenKind::Slash),
        ("!", TokenKind::Bang),
        ("=", TokenKind::Equal),
        ("<", TokenKind::Less),
        (">", TokenKind::Greater),
    ];
    for (src, kind) in table {
        let (toks, lox) = scan(src);
        assert_eq!(kinds(&toks), vec![kind, TokenKind::Eof], "input {:?}", src);
        assert_eq!(toks[0].lexeme, src);
        assert_eq!(toks[0].line, 1);
        assert!(!lox.had_error);
    }
}

#[test]
fn two_character_operators_consume_both_characters() {
    let table: Vec<(&str, TokenKind)> = vec![
        ("!=", TokenKind::BangEqual),
        ("==", TokenKind::EqualEqual),
        ("<=", TokenKind::LessEqual),
        (">=", TokenKind::GreaterEqual),
    ];
    for (src, kind) in table {
        let (toks, _) = scan(src);
        assert_eq!(kinds(&toks), vec![kind, TokenKind::Eof], "input {:?}", src);
        assert_eq!(toks[0].lexeme, src);
    }
}

#[test]
fn bang_then_other_is_two_tokens() {
    let (toks, _) = scan("!x");
    assert_eq!(
        kinds(&toks),
        vec![TokenKind::Bang, TokenKind::Identifier, TokenKind::Eof]
    );
}

#[test]
fn number_with_fraction() {
    let (toks, lox) = scan("123.45");
    assert_eq!(kinds(&toks), vec![TokenKind::Number, TokenKind::Eof]);
    assert_eq!(toks[0].lexeme, "123.45");
    assert_eq!(numeric_literal(&toks[0]), "123.45");
    let value: f64 = numeric_literal(&toks[0]).parse().unwrap();
    assert_eq!(value, 123.45);
    assert!(!lox.had_error);
}

#[test]
fn trailing_dot_is_not_part_of_the_number() {
    let (toks, _) = scan("123.");
    assert_eq!(
        kinds(&toks),
        vec![TokenKind::Number, TokenKind::Dot, TokenKind::Eof]
    );
    assert_eq!(toks[0].lexeme, "123");
    assert_eq!(numeric_literal(&toks[0]), "123");
    assert_eq!(toks[1].lexeme, ".");
}

#[test]
fn integer_number() {
    let (toks, _) = scan("7");
    assert_eq!(kinds(&toks), vec![TokenKind::Number, TokenKind::Eof]);
    assert_eq!(numeric_literal(&toks[0]), "7");
}

#[test]
fn string_literal_strips_the_quotes() {
    let (toks, lox) = scan("\"hi\"");
    assert_eq!(kinds(&toks), vec![TokenKind::String, TokenKind::Eof]);
    assert_eq!(toks[0].lexeme, "\"hi\"");
    assert_eq!(text_literal(&toks[0]), "hi");
    assert!(!lox.had_error);
}

#[test]
fn string_over_two_lines_increments_line_once() {
    let (toks, lox) = scan("\"a\n\"");
    assert_eq!(kinds(&toks), vec![TokenKind::String, TokenKind::Eof]);
    assert_eq!(text_literal(&toks[0]), "a\n");
    assert_eq!(toks[0].line, 2);
    assert_eq!(toks[1].line, 2);
    assert!(!lox.had_error);
}

#[test]
fn empty_string_literal() {
    let (toks, lox) = scan("\"\"");
    assert_eq!(kinds(&toks), vec![TokenKind::String, TokenKind::Eof]);
    assert_eq!(toks[0].lexeme, "\"\"");
    assert_eq!(text_literal(&toks[0]), "");
    assert!(!lox.had_error);
}

#[test]
fn leading_dot_is_its_own_token() {
    let (toks, _) = scan(".5");
    assert_eq!(
        kinds(&toks),
        vec![TokenKind::Dot, TokenKind::Number, TokenKind::Eof]
    );
    assert_eq!(toks[1].lexeme, "5");
}

#[test]
fn unterminated_string_reports_exactly_one_error() {
    let (toks, lox) = scan("\"abc");
    assert_eq!(kinds(&toks), vec![TokenKind::Eof]);
    assert!(lox.had_error);
    assert_eq!(lox.messages.len(), 1);
    assert_eq!(lox.messages[0], "[line 1] Error: Unterminated string.");
    assert_eq!(toks.last().unwrap().kind, TokenKind::Eof);
}

#[test]
fn unterminated_string_error_carries_the_final_line() {
    let (toks, lox) = scan("\"a\n\nb");
    assert_eq!(kinds(&toks), vec![TokenKind::Eof]);
    assert_eq!(lox.messages, vec!["[line 3] Error: Unterminated string."]);
}

#[test]
fn comment_contributes_no_tokens() {
    let (toks, lox) = scan("// ignore\nvar x;");
    assert_eq!(
        kinds(&toks),
        vec![
            TokenKind::Var,
            TokenKind::Identifier,
            TokenKind::Semicolon,
            TokenKind::Eof
        ]
    );
    assert_eq!(toks[1].lexeme, "x");
    assert_eq!(toks[0].line, 2);
    assert!(!lox.had_error);
}

#[test]
fn comment_at_end_of_input() {
    let (toks, _) = scan("1 // one");
    assert_eq!(kinds(&toks), vec![TokenKind::Number, TokenKind::Eof]);
}

#[test]
fn keyword_is_matched_on_the_full_run() {
    let (toks, _) = scan("classic");
    assert_eq!(kinds(&toks), vec![TokenKind::Identifier, TokenKind::Eof]);
    assert_eq!(toks[0].lexeme, "classic");
    assert_eq!(text_literal(&toks[0]), "classic");
}

#[test]
fn all_sixteen_keywords() {
    let table: Vec<(&str, TokenKind)> = vec![
        ("and", TokenKind::And),
        ("class", TokenKind::Class),
        ("else", TokenKind::Else),
        ("false", TokenKind::False),
        ("for", TokenKind::For),
        ("fun", TokenKind::Fun),
        ("if", TokenKind::If),
        ("nil", TokenKind::Nil),
        ("or", TokenKind::Or),
        ("print", TokenKind::Print),
        ("return", TokenKind::Return),
        ("super", TokenKind::Super),
        ("this", TokenKind::This),
        ("true", TokenKind::True),
        ("var", TokenKind::Var),
        ("while", TokenKind::While),
    ];
    for (src, kind) in table {
        let (toks, _) = scan(src);
        assert_eq!(kinds(&toks), vec![kind, TokenKind::Eof], "input {:?}", src);
        assert_eq!(toks[0].lexeme, src);
    }
}

#[test]
fn underscore_starts_an_identifier() {
    let (toks, _) = scan("_private");
    assert_eq!(kinds(&toks), vec![TokenKind::Identifier, TokenKind::Eof]);
    assert_eq!(toks[0].lexeme, "_private");
}

#[test]
fn underscore_does_not_continue_an_identifier() {
    let (toks, lox) = scan("ab_c");
    assert_eq!(
        kinds(&toks),
        vec![TokenKind::Identifier, TokenKind::Identifier, TokenKind::Eof]
    );
    assert_eq!(toks[0].lexeme, "ab");
    assert_eq!(toks[1].lexeme, "_c");
    assert!(!lox.had_error);
}

#[test]
fn unexpected_character_is_reported_and_skipped() {
    let (toks, lox) = scan("@;");
    assert_eq!(kinds(&toks), vec![TokenKind::Semicolon, TokenKind::Eof]);
    assert!(lox.had_error);
    assert_eq!(lox.messages, vec!["[line 1] Error: Unexpected character."]);
}

#[test]
fn several_unexpected_characters_give_several_reports() {
    let (_, lox) = scan("@\n#");
    assert_eq!(
        lox.messages,
        vec![
            "[line 1] Error: Unexpected character.",
            "[line 2] Error: Unexpected character."
        ]
    );
}

#[test]
fn lexemes_are_exact_source_slices() {
    let src = "var answer = 42.5;";
    let (toks, _) = scan(src);
    for t in toks.iter().take(toks.len() - 1) {
        assert!(
            src.contains(&t.lexeme),
            "lexeme {:?} not a slice of {:?}",
            t.lexeme,
            src
        );
    }
    assert_eq!(toks[0].lexeme, "var");
    assert_eq!(toks[1].lexeme, "answer");
    assert_eq!(toks[2].lexeme, "=");
    assert_eq!(toks[3].lexeme, "42.5");
    assert_eq!(toks[4].lexeme, ";");
    assert_eq!(toks[5].lexeme, "");
}

#[test]
fn line_numbers_follow_newlines() {
    let (toks, _) = scan("a\nb\n\nc");
    assert_eq!(toks[0].line, 1);
    assert_eq!(toks[1].line, 2);
    assert_eq!(toks[2].line, 4);
    assert_eq!(toks[3].line, 4);
}

#[test]
fn scanning_is_deterministic() {
    let src = "var x = \"a\n b\"; // tail\n 1.5 @";
    let (t1, l1) = scan(src);
    let (t2, l2) = scan(src);
    assert_eq!(t1.len(), t2.len());
    for (a, b) in t1.iter().zip(t2.iter()) {
        assert_eq!(a.kind, b.kind);
        assert_eq!(a.lexeme, b.lexeme);
        assert_eq!(a.line, b.line);
    }
    assert_eq!(l1.had_error, l2.had_error);
    assert_eq!(l1.messages, l2.messages);
}

#[test]
fn mixed_statement_scans_in_order() {
    let (toks, lox) = scan("if (x >= 10) { print \"big\"; }");
    assert_eq!(
        kinds(&toks),
        vec![
            TokenKind::If,
            TokenKind::LeftParen,
            TokenKind::Identifier,
            TokenKind::GreaterEqual,
            TokenKind::Number,
            TokenKind::RightParen,
            TokenKind::LeftBrace,
            TokenKind::Print,
            TokenKind::String,
            TokenKind::Semicolon,
            TokenKind::RightBrace,
            TokenKind::Eof
        ]
    );
    assert!(!lox.had_error);
}
