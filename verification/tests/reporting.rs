use rlox::lox::Lox;
use rlox::scanner::Scanner;
use rlox::token::Literal;
use rlox::token::Token;
use rlox::token::TokenKind;

#[test]
fn error_message_has_the_exact_format() {
    let mut lox = Lox::new();
    lox.error(7, String::from("Something went wrong."));
    assert!(lox.had_error);
    assert_eq!(lox.messages, vec!["[line 7] Error: Something went wrong."]);
}

#[test]
fn report_error_behaves_like_error() {
    let mut lox = Lox::new();
    lox.report_error(12, String::from("Unexpected character."));
    assert!(lox.had_error);
    assert_eq!(lox.messages, vec!["[line 12] Error: Unexpected character."]);
}

#[test]
fn multi_digit_line_numbers_render_in_decimal() {
    let mut lox = Lox::new();
    lox.error(120450, String::from("m"));
    assert_eq!(lox.messages, vec!["[line 120450] Error: m"]);
    lox.error(0, String::from("m"));
    assert_eq!(lox.messages[1], "[line 0] Error: m");
}

#[test]
fn clear_error_resets_the_flag_but_keeps_messages() {
    let mut lox = Lox::new();
    lox.error(1, String::from("x"));
    assert!(lox.had_error);
    lox.clear_error();
    assert!(!lox.had_error);
    assert_eq!(lox.messages.len(), 1);
}

#[test]
fn error_flag_is_sticky_over_scans() {
    let mut lox = Lox::new();
    let mut s1 = Scanner::new(String::from("@"));
    s1.scan_tokens(&mut lox);
    assert!(lox.had_error);
    let mut s2 = Scanner::new(String::from("ok"));
    s2.scan_tokens(&mut lox);
    assert!(lox.had_error);
    assert_eq!(lox.messages.len(), 1);
}

#[test]
fn token_display_is_kind_space_lexeme() {
    let t = Token::new(
        TokenKind::LeftParen,
        String::from("("),
        Literal::Absent,
        1,
    );
    assert_eq!(t.to_str(), "LeftParen (");
    let t = Token::new(
        TokenKind::Identifier,
        String::from("answer"),
        Literal::Text(String::from("answer")),
        3,
    );
    assert_eq!(t.to_str(), "Identifier answer");
    let t = Token::new(TokenKind::Eof, String::new(), Literal::Absent, 9);
    assert_eq!(t.to_str(), "Eof ");
}

#[test]
fn scanned_tokens_display_stably() {
    let mut lox = Lox::new();
    let mut scanner = Scanner::new(String::from("var x = 1;"));
    let toks = scanner.scan_tokens(&mut lox);
    let shown: Vec<String> = toks.iter().map(|t| t.to_str()).collect();
    assert_eq!(
        shown,
        vec!["Var var", "Identifier x", "Equal =", "Number 1", "Semicolon ;", "Eof "]
    );
}

#[test]
fn get_literal_gives_the_fixed_spelling_for_operators_and_keywords() {
    let t = Token::new(TokenKind::Plus, String::from("+"), Literal::Absent, 1);
    assert_eq!(t.get_literal(), "+");
    let t = Token::new(TokenKind::Var, String::from("var"), Literal::Absent, 1);
    assert_eq!(t.get_literal(), "var");
    let t = Token::new(TokenKind::Nil, String::from("nil"), Literal::Absent, 1);
    assert_eq!(t.get_literal(), "Nil");
    let t = Token::new(TokenKind::Eof, String::new(), Literal::Absent, 1);
    assert_eq!(t.get_literal(), "EOF");
}

#[test]
fn get_literal_gives_the_payload_for_literal_tokens() {
    let t = Token::new(
        TokenKind::String,
        String::from("\"hi\""),
        Literal::Text(String::from("hi")),
        1,
    );
    assert_eq!(t.get_literal(), "hi");
    let t = Token::new(
        TokenKind::Number,
        String::from("2.5"),
        Literal::Numeric(String::from("2.5")),
        1,
    );
    assert_eq!(t.get_literal(), "2.5");
}
