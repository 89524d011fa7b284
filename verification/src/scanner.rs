//! Single-pass scanner: walks the source text once, dispatching on each
//! character, and produces the token sequence of `lexing::scan_spec`
//! exactly, reporting lexical errors through the diagnostics sink.

use crate::lexing::alnum_run_end;
use crate::lexing::comment_run_end;
use crate::lexing::digit_run_end;
use crate::lexing::eof_tok;
use crate::lexing::ident_step;
use crate::lexing::is_alnum_char;
use crate::lexing::is_alpha_char;
use crate::lexing::is_digit_char;
use crate::lexing::lemma_newline_count_extend;
use crate::lexing::lemma_scan_from_unfold;
use crate::lexing::lemma_step_in_range;
use crate::lexing::newline_count;
use crate::lexing::number_step;
use crate::lexing::scan_from;
use crate::lexing::scan_spec;
use crate::lexing::spec_keyword_kind;
use crate::lexing::spec_step;
use crate::lexing::string_body_end;
use crate::lexing::DiagModel;
use crate::lox::diags_text;
use crate::lox::Lox;
use crate::token::LitModel;
use crate::token::Literal;
use crate::token::Token;
use crate::token::TokenKind;
use crate::token::TokenModel;
use vstd::prelude::*;
use vstd::string::*;

verus! {

/// An ASCII decimal digit.
fn is_digit(c: char) -> (b: bool)
    ensures
        b == is_digit_char(c),
{
    '0' as u32 <= c as u32 && c as u32 <= '9' as u32
}

/// An identifier-continuation character: an ASCII letter or digit.
fn is_alnum(c: char) -> (b: bool)
    ensures
        b == is_alnum_char(c),
{
    ('a' as u32 <= c as u32 && c as u32 <= 'z' as u32) || ('A' as u32 <= c as u32 && c as u32
        <= 'Z' as u32) || ('0' as u32 <= c as u32 && c as u32 <= '9' as u32)
}

/// The keyword table: maps each of the sixteen reserved spellings to its
/// token kind; every other spelling is an ordinary identifier.
fn keyword_kind(w: &String) -> (r: Option<TokenKind>)
    ensures
        r == spec_keyword_kind(w@),
{
    if *w == String::from_str("and") {
        Some(TokenKind::And)
    } else if *w == String::from_str("class") {
        Some(TokenKind::Class)
    } else if *w == String::from_str("else") {
        Some(TokenKind::Else)
    } else if *w == String::from_str("false") {
        Some(TokenKind::False)
    } else if *w == String::from_str("for") {
        Some(TokenKind::For)
    } else if *w == String::from_str("fun") {
        Some(TokenKind::Fun)
    } else if *w == String::from_str("if") {
        Some(TokenKind::If)
    } else if *w == String::from_str("nil") {
        Some(TokenKind::Nil)
    } else if *w == String::from_str("or") {
        Some(TokenKind::Or)
    } else if *w == String::from_str("print") {
        Some(TokenKind::Print)
    } else if *w == String::from_str("return") {
        Some(TokenKind::Return)
    } else if *w == String::from_str("super") {
        Some(TokenKind::Super)
    } else if *w == String::from_str("this") {
        Some(TokenKind::This)
    } else if *w == String::from_str("true") {
        Some(TokenKind::True)
    } else if *w == String::from_str("var") {
        Some(TokenKind::Var)
    } else if *w == String::from_str("while") {
        Some(TokenKind::While)
    } else {
        None
    }
}

/// Stateful single-pass scanning engine.  Created fresh per source text;
/// the cursors satisfy `0 <= start <= current <= length` throughout, and
/// `line` counts newlines consumed so far, starting at 1.
pub struct Scanner {
    pub source: String,
    pub length: usize,
    pub start: usize,
    pub current: usize,
    pub line: usize,
}

impl Scanner {
    /// Cursor and line-counter invariant of one scanning pass.
    pub open spec fn wf(self) -> bool {
        &&& self.length == self.source@.len()
        &&& self.source@.len() < usize::MAX
        &&& self.start <= self.current <= self.source@.len()
        &&& 1 <= self.line
        &&& self.line <= 1 + self.current
    }

    /// A fresh scanner over `source`, cursors at the start, on line 1.
    /// The character count must fit the cursor type.
    pub fn new(source: String) -> (s: Scanner)
        requires
            source@.len() < usize::MAX,
        ensures
            s.wf(),
            s.source@ == source@,
            s.start == 0,
            s.current == 0,
            s.line == 1,
    {
        let length = source.as_str().unicode_len();
        Scanner { source, length, start: 0, current: 0, line: 1 }
    }

    /// The whole source has been consumed.
    fn is_at_end(&self) -> (b: bool)
        requires
            self.wf(),
        ensures
            b == (self.current >= self.source@.len()),
    {
        self.current >= self.length
    }

    /// Consume and return the character under the cursor.
    fn advance(&mut self) -> (c: char)
        requires
            old(self).wf(),
            old(self).current < old(self).source@.len(),
        ensures
            final(self).wf(),
            c == old(self).source@[old(self).current as int],
            *final(self) == (Scanner { current: (old(self).current + 1) as usize, ..*old(self) }),
    {
        let c = self.source.as_str().get_char(self.current);
        self.current = self.current + 1;
        c
    }

    /// The character under the cursor, or `'\0'` at the end of input.
    fn peek(&self) -> (c: char)
        requires
            self.wf(),
        ensures
            c == if self.current < self.source@.len() {
                self.source@[self.current as int]
            } else {
                '\0'
            },
    {
        if self.current >= self.length {
            '\0'
        } else {
            self.source.as_str().get_char(self.current)
        }
    }

    /// The character one past the cursor, if any.
    fn peek_next(&self) -> (r: Option<char>)
        requires
            self.wf(),
        ensures
            r == if self.current + 1 < self.source@.len() {
                Some(self.source@[self.current as int + 1])
            } else {
                Option::<char>::None
            },
    {
        if self.current >= self.length {
            None
        } else if self.current + 1 >= self.length {
            None
        } else {
            Some(self.source.as_str().get_char(self.current + 1))
        }
    }

    /// Probe the character under the cursor for `expected`: consume it and
    /// answer true when it matches, leave the cursor in place otherwise.
    fn match_char(&mut self, expected: char) -> (b: bool)
        requires
            old(self).wf(),
        ensures
            final(self).wf(),
            b == (old(self).current < old(self).source@.len() && old(self).source@[old(
                self,
            ).current as int] == expected),
            *final(self) == (Scanner {
                current: if b {
                    (old(self).current + 1) as usize
                } else {
                    old(self).current
                },
                ..*old(self)
            }),
    {
        if self.is_at_end() {
            return false;
        }
        if self.source.as_str().get_char(self.current) != expected {
            return false;
        }
        self.current = self.current + 1;
        true
    }

    /// A character that may begin an identifier: an ASCII letter or an
    /// underscore.
    fn is_alpha(&self, c: char) -> (b: bool)
        ensures
            b == is_alpha_char(c),
    {
        ('a' as u32 <= c as u32 && c as u32 <= 'z' as u32) || ('A' as u32 <= c as u32 && c as u32
            <= 'Z' as u32) || c == '_'
    }

    /// Emit a literal-free token covering `source[start .. current)`.
    fn add_token(&self, toks: &mut Vec<Token>, kind: TokenKind)
        requires
            self.wf(),
        ensures
            final(toks).deep_view() == old(toks).deep_view().push(
                TokenModel {
                    kind,
                    lexeme: self.source@.subrange(self.start as int, self.current as int),
                    literal: LitModel::Absent,
                    line: self.line as nat,
                },
            ),
    {
        let text = String::from_str(
            self.source.as_str().substring_char(self.start, self.current),
        );
        let token = Token::new(kind, text, Literal::Absent, self.line);
        toks.push(token);
        proof {
            assert(toks.deep_view() =~= old(toks).deep_view().push(token@));
        }
    }

    /// Emit a token with the given literal payload, covering
    /// `source[start .. current)`.
    fn add_token_literal(&self, toks: &mut Vec<Token>, kind: TokenKind, literal: Literal)
        requires
            self.wf(),
        ensures
            final(toks).deep_view() == old(toks).deep_view().push(
                TokenModel {
                    kind,
                    lexeme: self.source@.subrange(self.start as int, self.current as int),
                    literal: literal@,
                    line: self.line as nat,
                },
            ),
    {
        let text = String::from_str(
            self.source.as_str().substring_char(self.start, self.current),
        );
        let token = Token::new(kind, text, literal, self.line);
        toks.push(token);
        proof {
            assert(toks.deep_view() =~= old(toks).deep_view().push(token@));
        }
    }

    /// Consume the rest of a number literal whose first digit has just
    /// been consumed, and emit its `Number` token.
    fn number(&mut self, toks: &mut Vec<Token>)
        requires
            old(self).wf(),
            old(self).current == old(self).start + 1,
            old(self).start < old(self).source@.len(),
            is_digit_char(old(self).source@[old(self).start as int]),
        ensures
            final(self).wf(),
            ({
                let st = number_step(
                    old(self).source@,
                    old(self).start as nat,
                    old(self).line as nat,
                );
                &&& final(self).current as nat == st.next
                &&& final(self).line == old(self).line
                &&& final(self).source == old(self).source
                &&& final(self).length == old(self).length
                &&& final(self).start == old(self).start
                &&& final(toks).deep_view() == old(toks).deep_view() + st.toks
            }),
    {
        let ghost src = old(self).source@;
        let ghost i = old(self).start as nat;
        proof {
            assert(digit_run_end(src, i) == digit_run_end(src, i + 1));
        }
        #[verifier::loop_isolation(false)]
        while is_digit(self.peek())
            invariant
                self.wf(),
                *self == (Scanner { current: self.current, ..*old(self) }),
                old(self).start + 1 <= self.current,
                digit_run_end(src, i) == digit_run_end(src, self.current as nat),
            decreases src.len() - self.current,
        {
            self.advance();
        }
        proof {
            assert(digit_run_end(src, self.current as nat) == self.current as nat);
        }
        let ghost d = digit_run_end(src, i);
        let dot = self.peek();
        let after = self.peek_next();
        if dot == '.' && after.is_some() && is_digit(after.unwrap()) {
            self.advance();
            proof {
                assert(digit_run_end(src, d + 1) == digit_run_end(src, self.current as nat));
            }
            #[verifier::loop_isolation(false)]
            while is_digit(self.peek())
                invariant
                    self.wf(),
                    *self == (Scanner { current: self.current, ..*old(self) }),
                    old(self).start + 1 <= self.current,
                    digit_run_end(src, d + 1) == digit_run_end(src, self.current as nat),
                decreases src.len() - self.current,
            {
                self.advance();
            }
            proof {
                assert(digit_run_end(src, self.current as nat) == self.current as nat);
            }
        }
        let text = String::from_str(
            self.source.as_str().substring_char(self.start, self.current),
        );
        self.add_token_literal(toks, TokenKind::Number, Literal::Numeric(text));
    }

    /// Consume the rest of an identifier whose first character has just
    /// been consumed, classify it through the keyword table, and emit the
    /// matching token.
    fn identifier(&mut self, toks: &mut Vec<Token>)
        requires
            old(self).wf(),
            old(self).current == old(self).start + 1,
            old(self).start < old(self).source@.len(),
        ensures
            final(self).wf(),
            ({
                let st = ident_step(
                    old(self).source@,
                    old(self).start as nat,
                    old(self).line as nat,
                );
                &&& final(self).current as nat == st.next
                &&& final(self).line == old(self).line
                &&& final(self).source == old(self).source
                &&& final(self).length == old(self).length
                &&& final(self).start == old(self).start
                &&& final(toks).deep_view() == old(toks).deep_view() + st.toks
            }),
    {
        let ghost src = old(self).source@;
        let ghost i = old(self).start as nat;
        #[verifier::loop_isolation(false)]
        while is_alnum(self.peek())
            invariant
                self.wf(),
                *self == (Scanner { current: self.current, ..*old(self) }),
                old(self).start + 1 <= self.current,
                alnum_run_end(src, i + 1) == alnum_run_end(src, self.current as nat),
            decreases src.len() - self.current,
        {
            self.advance();
        }
        proof {
            assert(alnum_run_end(src, self.current as nat) == self.current as nat);
        }
        let lexeme = String::from_str(
            self.source.as_str().substring_char(self.start, self.current),
        );
        match keyword_kind(&lexeme) {
            Some(kind) => self.add_token(toks, kind),
            None => self.add_token_literal(toks, TokenKind::Identifier, Literal::Text(lexeme)),
        }
    }

    /// Dispatch on one character: consume one lexeme starting at the cursor
    /// (with `start` parked there), emit its token or diagnostic, and leave
    /// the cursor and line counter exactly where `lexing::spec_step` says.
    fn scan_token(&mut self, toks: &mut Vec<Token>, lox: &mut Lox)
        requires
            old(self).wf(),
            old(self).current < old(self).source@.len(),
            old(self).start == old(self).current,
        ensures
            final(self).wf(),
            ({
                let st = spec_step(
                    old(self).source@,
                    old(self).current as nat,
                    old(self).line as nat,
                );
                &&& final(self).current as nat == st.next
                &&& final(self).line as nat == st.line
                &&& final(self).source == old(self).source
                &&& final(self).length == old(self).length
                &&& final(self).start == old(self).start
                &&& final(toks).deep_view() == old(toks).deep_view() + st.toks
                &&& final(lox)@.messages == old(lox)@.messages + diags_text(st.diags)
                &&& final(lox)@.had_error == (old(lox)@.had_error || st.diags.len() > 0)
            }),
    {
        let ghost src = self.source@;
        let ghost i0 = self.current as nat;
        let ghost l0 = self.line as nat;
        let c = self.advance();
        match c {
            '(' => self.add_token(toks, TokenKind::LeftParen),
            ')' => self.add_token(toks, TokenKind::RightParen),
            '{' => self.add_token(toks, TokenKind::LeftBrace),
            '}' => self.add_token(toks, TokenKind::RightBrace),
            ',' => self.add_token(toks, TokenKind::Comma),
            '.' => self.add_token(toks, TokenKind::Dot),
            '-' => self.add_token(toks, TokenKind::Minus),
            '+' => self.add_token(toks, TokenKind::Plus),
            ';' => self.add_token(toks, TokenKind::Semicolon),
            '*' => self.add_token(toks, TokenKind::Star),
            '!' => {
                let kind = if self.match_char('=') {
                    TokenKind::BangEqual
                } else {
                    TokenKind::Bang
                };
                self.add_token(toks, kind);
            },
            '=' => {
                let kind = if self.match_char('=') {
                    TokenKind::EqualEqual
                } else {
                    TokenKind::Equal
                };
                self.add_token(toks, kind);
            },
            '<' => {
                let kind = if self.match_char('=') {
                    TokenKind::LessEqual
                } else {
                    TokenKind::Less
                };
                self.add_token(toks, kind);
            },
            '>' => {
                let kind = if self.match_char('=') {
                    TokenKind::GreaterEqual
                } else {
                    TokenKind::Greater
                };
                self.add_token(toks, kind);
            },
            '/' => {
                if self.match_char('/') {
                    // A comment runs to the end of the line and emits nothing.
                    #[verifier::loop_isolation(false)]
                    while self.peek() != '\n' && !self.is_at_end()
                        invariant
                            self.wf(),
                            *self == (Scanner { current: self.current, ..*old(self) }),
                            i0 + 2 <= self.current,
                            comment_run_end(src, i0 + 2) == comment_run_end(
                                src,
                                self.current as nat,
                            ),
                        decreases src.len() - self.current,
                    {
                        self.advance();
                    }
                    proof {
                        assert(comment_run_end(src, self.current as nat) == self.current as nat);
                    }
                } else {
                    self.add_token(toks, TokenKind::Slash);
                }
            },
            ' ' | '\r' | '\t' => {},
            '\n' => {
                self.line = self.line + 1;
            },
            '"' => {
                #[verifier::loop_isolation(false)]
                while self.peek() != '"' && !self.is_at_end()
                    invariant
                        self.wf(),
                        *self == (Scanner {
                            current: self.current,
                            line: self.line,
                            ..*old(self)
                        }),
                        i0 + 1 <= self.current,
                        self.line <= self.current,
                        string_body_end(src, i0 + 1) == string_body_end(src, self.current as nat),
                        self.line as nat == l0 + newline_count(src, i0 + 1, self.current as nat),
                    decreases src.len() - self.current,
                {
                    proof {
                        lemma_newline_count_extend(src, i0 + 1, self.current as nat);
                    }
                    if self.peek() == '\n' {
                        self.line = self.line + 1;
                    }
                    self.advance();
                }
                proof {
                    assert(string_body_end(src, self.current as nat) == self.current as nat);
                }
                if self.is_at_end() {
                    lox.error(self.line, String::from_str("Unterminated string."));
                } else {
                    self.advance();
                    let value = String::from_str(
                        self.source.as_str().substring_char(self.start + 1, self.current - 1),
                    );
                    self.add_token_literal(toks, TokenKind::String, Literal::Text(value));
                }
            },
            _ => {
                if is_digit(c) {
                    self.number(toks);
                } else if self.is_alpha(c) {
                    self.identifier(toks);
                } else {
                    lox.error(self.line, String::from_str("Unexpected character."));
                }
            },
        }
        proof {
            let st = spec_step(src, i0, l0);
            assert(toks.deep_view() =~= old(toks).deep_view() + st.toks);
            assert(lox@.messages =~= old(lox)@.messages + diags_text(st.diags));
        }
    }

    /// One whole scanning pass: walk the source from the start, emit every
    /// token of the scanning model in order, close with the end-of-input
    /// sentinel, and report every diagnostic of the model through `lox`.
    pub fn scan_tokens(&mut self, lox: &mut Lox) -> (toks: Vec<Token>)
        requires
            old(self).wf(),
            old(self).start == 0,
            old(self).current == 0,
            old(self).line == 1,
        ensures
            final(self).wf(),
            final(self).source == old(self).source,
            toks.deep_view() == scan_spec(old(self).source@).toks,
            final(lox)@.messages == old(lox)@.messages + diags_text(
                scan_spec(old(self).source@).diags,
            ),
            final(lox)@.had_error == (old(lox)@.had_error || scan_spec(
                old(self).source@,
            ).diags.len() > 0),
    {
        let ghost src = self.source@;
        let ghost total = scan_spec(src);
        let mut toks: Vec<Token> = Vec::new();
        let ghost mut gdiags: Seq<DiagModel> = Seq::empty();
        proof {
            assert(toks.deep_view() =~= Seq::<TokenModel>::empty());
            assert(diags_text(gdiags) =~= Seq::<Seq<char>>::empty());
            assert(toks.deep_view() + total.toks =~= total.toks);
            assert(gdiags + total.diags =~= total.diags);
            assert(old(lox)@.messages + diags_text(gdiags) =~= old(lox)@.messages);
        }
        #[verifier::loop_isolation(false)]
        while !self.is_at_end()
            invariant
                self.wf(),
                self.source == old(self).source,
                self.length == old(self).length,
                total.toks == toks.deep_view() + scan_from(
                    src,
                    self.current as nat,
                    self.line as nat,
                ).toks,
                total.diags == gdiags + scan_from(src, self.current as nat, self.line as nat).diags,
                total.end_line == scan_from(src, self.current as nat, self.line as nat).end_line,
                lox@.messages == old(lox)@.messages + diags_text(gdiags),
                lox@.had_error == (old(lox)@.had_error || gdiags.len() > 0),
            decreases src.len() - self.current,
        {
            self.start = self.current;
            let ghost i0 = self.current as nat;
            let ghost l0 = self.line as nat;
            let ghost tv0 = toks.deep_view();
            let ghost d0 = gdiags;
            self.scan_token(&mut toks, lox);
            proof {
                lemma_step_in_range(src, i0, l0);
                lemma_scan_from_unfold(src, i0, l0);
                let st = spec_step(src, i0, l0);
                gdiags = d0 + st.diags;
                assert(total.toks =~= toks.deep_view() + scan_from(
                    src,
                    self.current as nat,
                    self.line as nat,
                ).toks);
                assert(total.diags =~= gdiags + scan_from(
                    src,
                    self.current as nat,
                    self.line as nat,
                ).diags);
                assert(diags_text(d0 + st.diags) =~= diags_text(d0) + diags_text(st.diags));
                assert(lox@.messages =~= old(lox)@.messages + diags_text(gdiags));
            }
        }
        let eof = Token::new(TokenKind::Eof, String::new(), Literal::Absent, self.line);
        toks.push(eof);
        proof {
            assert(eof@ =~= eof_tok(self.line as nat));
            assert(toks.deep_view() =~= total.toks);
            assert(lox@.messages =~= old(lox)@.messages + diags_text(total.diags));
        }
        toks
    }
}

} // verus!
