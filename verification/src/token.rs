//! Token data model: kinds, literal payloads, and the immutable `Token`
//! value produced by the scanner.

use vstd::prelude::*;
use vstd::string::*;

verus! {

/// Closed set of token tags: single-character and one/two-character
/// operators, the three literal classes, the reserved words, and the
/// end-of-input sentinel.
#[derive(Clone, Copy, PartialEq, Eq, Structural, Debug)]
pub enum TokenKind {
    LeftParen,
    RightParen,
    LeftBrace,
    RightBrace,
    Comma,
    Dot,
    Minus,
    Plus,
    Semicolon,
    Slash,
    Star,
    Bang,
    BangEqual,
    Equal,
    EqualEqual,
    Greater,
    GreaterEqual,
    Less,
    LessEqual,
    Identifier,
    String,
    Number,
    And,
    Class,
    Else,
    False,
    Fun,
    For,
    If,
    Nil,
    Or,
    Print,
    Return,
    Super,
    This,
    True,
    Var,
    While,
    Eof,
}

/// Typed literal payload of a token: absent for operators, keywords and the
/// sentinel; the decoded text for identifiers and string literals; the exact
/// numeric text for number literals (its double-precision value is the
/// consumer's parse of that text).
pub enum Literal {
    Absent,
    Text(std::string::String),
    Numeric(std::string::String),
}

/// Mathematical model of a `Literal`.
#[verifier::ext_equal]
pub ghost enum LitModel {
    Absent,
    Text(Seq<char>),
    Numeric(Seq<char>),
}

impl View for Literal {
    type V = LitModel;

    open spec fn view(&self) -> LitModel {
        match self {
            Literal::Absent => LitModel::Absent,
            Literal::Text(s) => LitModel::Text(s@),
            Literal::Numeric(s) => LitModel::Numeric(s@),
        }
    }
}

/// Mathematical model of a `Token`.
#[verifier::ext_equal]
pub ghost struct TokenModel {
    pub kind: TokenKind,
    pub lexeme: Seq<char>,
    pub literal: LitModel,
    pub line: nat,
}

/// Immutable classified unit of source text: kind, exact source slice,
/// optional literal payload, and the source line it was emitted on.
pub struct Token {
    pub kind: TokenKind,
    pub lexeme: std::string::String,
    pub literal: Literal,
    pub line: usize,
}

impl View for Token {
    type V = TokenModel;

    open spec fn view(&self) -> TokenModel {
        TokenModel {
            kind: self.kind,
            lexeme: self.lexeme@,
            literal: self.literal@,
            line: self.line as nat,
        }
    }
}

impl DeepView for Token {
    type V = TokenModel;

    open spec fn deep_view(&self) -> TokenModel {
        self.view()
    }
}

/// The spelling of a token kind, as used by the stable debug rendering.
pub open spec fn spec_kind_name(k: TokenKind) -> Seq<char> {
    match k {
        TokenKind::LeftParen => "LeftParen"@,
        TokenKind::RightParen => "RightParen"@,
        TokenKind::LeftBrace => "LeftBrace"@,
        TokenKind::RightBrace => "RightBrace"@,
        TokenKind::Comma => "Comma"@,
        TokenKind::Dot => "Dot"@,
        TokenKind::Minus => "Minus"@,
        TokenKind::Plus => "Plus"@,
        TokenKind::Semicolon => "Semicolon"@,
        TokenKind::Slash => "Slash"@,
        TokenKind::Star => "Star"@,
        TokenKind::Bang => "Bang"@,
        TokenKind::BangEqual => "BangEqual"@,
        TokenKind::Equal => "Equal"@,
        TokenKind::EqualEqual => "EqualEqual"@,
        TokenKind::Greater => "Greater"@,
        TokenKind::GreaterEqual => "GreaterEqual"@,
        TokenKind::Less => "Less"@,
        TokenKind::LessEqual => "LessEqual"@,
        TokenKind::Identifier => "Identifier"@,
        TokenKind::String => "String"@,
        TokenKind::Number => "Number"@,
        TokenKind::And => "And"@,
        TokenKind::Class => "Class"@,
        TokenKind::Else => "Else"@,
        TokenKind::False => "False"@,
        TokenKind::Fun => "Fun"@,
        TokenKind::For => "For"@,
        TokenKind::If => "If"@,
        TokenKind::Nil => "Nil"@,
        TokenKind::Or => "Or"@,
        TokenKind::Print => "Print"@,
        TokenKind::Return => "Return"@,
        TokenKind::Super => "Super"@,
        TokenKind::This => "This"@,
        TokenKind::True => "True"@,
        TokenKind::Var => "Var"@,
        TokenKind::While => "While"@,
        TokenKind::Eof => "Eof"@,
    }
}

/// The text form of a token's literal: the fixed spelling for operators and
/// keywords, the literal payload for identifier, string and number tokens.
pub open spec fn spec_literal_text(t: TokenModel) -> Seq<char> {
    match t.kind {
        TokenKind::LeftParen => "("@,
        TokenKind::RightParen => ")"@,
        TokenKind::LeftBrace => "{"@,
        TokenKind::RightBrace => "}"@,
        TokenKind::Comma => ","@,
        TokenKind::Dot => "."@,
        TokenKind::Minus => "-"@,
        TokenKind::Plus => "+"@,
        TokenKind::Semicolon => ";"@,
        TokenKind::Slash => "/"@,
        TokenKind::Star => "*"@,
        TokenKind::Bang => "!"@,
        TokenKind::BangEqual => "!="@,
        TokenKind::Equal => "="@,
        TokenKind::EqualEqual => "=="@,
        TokenKind::Greater => ">"@,
        TokenKind::GreaterEqual => ">="@,
        TokenKind::Less => "<"@,
        TokenKind::LessEqual => "<="@,
        TokenKind::Identifier => match t.literal {
            LitModel::Text(s) => s,
            _ => Seq::empty(),
        },
        TokenKind::String => match t.literal {
            LitModel::Text(s) => s,
            _ => Seq::empty(),
        },
        TokenKind::Number => match t.literal {
            LitModel::Numeric(s) => s,
            _ => Seq::empty(),
        },
        TokenKind::And => "and"@,
        TokenKind::Class => "class"@,
        TokenKind::Else => "else"@,
        TokenKind::False => "false"@,
        TokenKind::Fun => "fun"@,
        TokenKind::For => "for"@,
        TokenKind::If => "if"@,
        TokenKind::Nil => "Nil"@,
        TokenKind::Or => "or"@,
        TokenKind::Print => "print"@,
        TokenKind::Return => "return"@,
        TokenKind::Super => "super"@,
        TokenKind::This => "this"@,
        TokenKind::True => "true"@,
        TokenKind::Var => "var"@,
        TokenKind::While => "while"@,
        TokenKind::Eof => "EOF"@,
    }
}

/// The stable debug rendering of a token: its kind's spelling, a space, and
/// its lexeme.
pub open spec fn spec_token_display(t: TokenModel) -> Seq<char> {
    spec_kind_name(t.kind) + " "@ + t.lexeme
}

/// The spelling of a token kind.
pub fn kind_name(k: TokenKind) -> (r: &'static str)
    ensures
        r@ == spec_kind_name(k),
{
    match k {
        TokenKind::LeftParen => "LeftParen",
        TokenKind::RightParen => "RightParen",
        TokenKind::LeftBrace => "LeftBrace",
        TokenKind::RightBrace => "RightBrace",
        TokenKind::Comma => "Comma",
        TokenKind::Dot => "Dot",
        TokenKind::Minus => "Minus",
        TokenKind::Plus => "Plus",
        TokenKind::Semicolon => "Semicolon",
        TokenKind::Slash => "Slash",
        TokenKind::Star => "Star",
        TokenKind::Bang => "Bang",
        TokenKind::BangEqual => "BangEqual",
        TokenKind::Equal => "Equal",
        TokenKind::EqualEqual => "EqualEqual",
        TokenKind::Greater => "Greater",
        TokenKind::GreaterEqual => "GreaterEqual",
        TokenKind::Less => "Less",
        TokenKind::LessEqual => "LessEqual",
        TokenKind::Identifier => "Identifier",
        TokenKind::String => "String",
        TokenKind::Number => "Number",
        TokenKind::And => "And",
        TokenKind::Class => "Class",
        TokenKind::Else => "Else",
        TokenKind::False => "False",
        TokenKind::Fun => "Fun",
        TokenKind::For => "For",
        TokenKind::If => "If",
        TokenKind::Nil => "Nil",
        TokenKind::Or => "Or",
        TokenKind::Print => "Print",
        TokenKind::Return => "Return",
        TokenKind::Super => "Super",
        TokenKind::This => "This",
        TokenKind::True => "True",
        TokenKind::Var => "Var",
        TokenKind::While => "While",
        TokenKind::Eof => "Eof",
    }
}

impl Token {
    /// A token's literal payload matches its kind.
    pub open spec fn wf(self) -> bool {
        &&& (self.kind == TokenKind::Identifier || self.kind == TokenKind::String)
            ==> self.literal@ is Text
        &&& self.kind == TokenKind::Number ==> self.literal@ is Numeric
    }

    pub fn new(kind: TokenKind, lexeme: std::string::String, literal: Literal, line: usize) -> (t: Token)
        ensures
            t@ == (TokenModel { kind, lexeme: lexeme@, literal: literal@, line: line as nat }),
    {
        Token { kind, lexeme, literal, line }
    }

    /// Deterministic rendering `"<KIND> <lexeme>"` used for debug and
    /// read-eval-loop display.
    pub fn to_str(&self) -> (r: std::string::String)
        ensures
            r@ == spec_token_display(self@),
    {
        String::from_str(kind_name(self.kind)).concat(" ").concat(self.lexeme.as_str())
    }

    /// The text form of this token's literal, per `spec_literal_text`.
    pub fn get_literal(&self) -> (r: std::string::String)
        requires
            self.wf(),
        ensures
            r@ == spec_literal_text(self@),
    {
        match self.kind {
            TokenKind::LeftParen => String::from_str("("),
            TokenKind::RightParen => String::from_str(")"),
            TokenKind::LeftBrace => String::from_str("{"),
            TokenKind::RightBrace => String::from_str("}"),
            TokenKind::Comma => String::from_str(","),
            TokenKind::Dot => String::from_str("."),
            TokenKind::Minus => String::from_str("-"),
            TokenKind::Plus => String::from_str("+"),
            TokenKind::Semicolon => String::from_str(";"),
            TokenKind::Slash => String::from_str("/"),
            TokenKind::Star => String::from_str("*"),
            TokenKind::Bang => String::from_str("!"),
            TokenKind::BangEqual => String::from_str("!="),
            TokenKind::Equal => String::from_str("="),
            TokenKind::EqualEqual => String::from_str("=="),
            TokenKind::Greater => String::from_str(">"),
            TokenKind::GreaterEqual => String::from_str(">="),
            TokenKind::Less => String::from_str("<"),
            TokenKind::LessEqual => String::from_str("<="),
            TokenKind::Identifier | TokenKind::String => match &self.literal {
                Literal::Text(s) => s.clone(),
                _ => String::new(),
            },
            TokenKind::Number => match &self.literal {
                Literal::Numeric(s) => s.clone(),
                _ => String::new(),
            },
            TokenKind::And => String::from_str("and"),
            TokenKind::Class => String::from_str("class"),
            TokenKind::Else => String::from_str("else"),
            TokenKind::False => String::from_str("false"),
            TokenKind::Fun => String::from_str("fun"),
            TokenKind::For => String::from_str("for"),
            TokenKind::If => String::from_str("if"),
            TokenKind::Nil => String::from_str("Nil"),
            TokenKind::Or => String::from_str("or"),
            TokenKind::Print => String::from_str("print"),
            TokenKind::Return => String::from_str("return"),
            TokenKind::Super => String::from_str("super"),
            TokenKind::This => String::from_str("this"),
            TokenKind::True => String::from_str("true"),
            TokenKind::Var => String::from_str("var"),
            TokenKind::While => String::from_str("while"),
            TokenKind::Eof => String::from_str("EOF"),
        }
    }
}

} // verus!
