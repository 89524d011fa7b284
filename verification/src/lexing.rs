//! Mathematical model of the scanning pass.
//!
//! `scan_spec` gives, for any source character sequence, the exact token
//! sequence, the exact diagnostics, and the final line counter that one
//! scanning pass produces.  The executable scanner is proved to return
//! precisely this model's output, so every property of scanning can be
//! stated and proved against these definitions.

use crate::token::LitModel;
use crate::token::TokenKind;
use crate::token::TokenModel;
use vstd::prelude::*;

verus! {

/// The two recoverable lexical error kinds.
#[derive(Clone, Copy, PartialEq, Eq, Structural, Debug)]
pub enum LexError {
    UnexpectedCharacter,
    UnterminatedString,
}

/// One reported diagnostic: its error kind and the source line it was
/// reported at.
#[verifier::ext_equal]
pub ghost struct DiagModel {
    pub line: nat,
    pub err: LexError,
}

/// Everything one scanning pass produces from some position to the end of
/// the source: the emitted tokens (sentinel included), the diagnostics, and
/// the final value of the line counter.
#[verifier::ext_equal]
pub ghost struct ScanModel {
    pub toks: Seq<TokenModel>,
    pub diags: Seq<DiagModel>,
    pub end_line: nat,
}

/// The effect of dispatching on one character: at most one token, the
/// diagnostics, the position after the consumed lexeme, and the updated
/// line counter.
#[verifier::ext_equal]
pub ghost struct StepModel {
    pub toks: Seq<TokenModel>,
    pub diags: Seq<DiagModel>,
    pub next: nat,
    pub line: nat,
}

/// An ASCII decimal digit.
pub open spec fn is_digit_char(c: char) -> bool {
    '0' as u32 <= c as u32 && c as u32 <= '9' as u32
}

/// An ASCII letter.
pub open spec fn is_letter_char(c: char) -> bool {
    ('a' as u32 <= c as u32 && c as u32 <= 'z' as u32) || ('A' as u32 <= c as u32 && c as u32
        <= 'Z' as u32)
}

/// A character that may begin an identifier: a letter or an underscore.
pub open spec fn is_alpha_char(c: char) -> bool {
    is_letter_char(c) || c == '_'
}

/// A character that may continue an identifier: a letter or a digit
/// (underscores are admitted in the start position only).
pub open spec fn is_alnum_char(c: char) -> bool {
    is_letter_char(c) || is_digit_char(c)
}

/// Whitespace consumed without effect: space, carriage return, tab.
pub open spec fn is_blank_char(c: char) -> bool {
    c == ' ' || c == '\r' || c == '\t'
}

/// End of the maximal digit run beginning at `i`.
pub open spec fn digit_run_end(src: Seq<char>, i: nat) -> nat
    decreases src.len() - i,
{
    if i < src.len() && is_digit_char(src[i as int]) {
        digit_run_end(src, i + 1)
    } else {
        i
    }
}

/// End of the maximal identifier-continuation run beginning at `i`.
pub open spec fn alnum_run_end(src: Seq<char>, i: nat) -> nat
    decreases src.len() - i,
{
    if i < src.len() && is_alnum_char(src[i as int]) {
        alnum_run_end(src, i + 1)
    } else {
        i
    }
}

/// First position at or after `i` holding a newline, or the end of the
/// source: a line comment is discarded up to but excluding this position.
pub open spec fn comment_run_end(src: Seq<char>, i: nat) -> nat
    decreases src.len() - i,
{
    if i < src.len() && src[i as int] != '\n' {
        comment_run_end(src, i + 1)
    } else {
        i
    }
}

/// First position at or after `i` holding a closing double quote, or the
/// end of the source if the string literal is never terminated.
pub open spec fn string_body_end(src: Seq<char>, i: nat) -> nat
    decreases src.len() - i,
{
    if i < src.len() && src[i as int] != '"' {
        string_body_end(src, i + 1)
    } else {
        i
    }
}

/// Number of newline characters in `src[i .. j)`.
pub open spec fn newline_count(src: Seq<char>, i: nat, j: nat) -> nat
    decreases j - i,
{
    if i < j {
        (if i < src.len() && src[i as int] == '\n' {
            1 as nat
        } else {
            0 as nat
        }) + newline_count(src, i + 1, j)
    } else {
        0
    }
}

/// The keyword table: the token kind reserved for `w`, or `None` when `w`
/// is an ordinary identifier.
pub open spec fn spec_keyword_kind(w: Seq<char>) -> Option<TokenKind> {
    if w == "and"@ {
        Some(TokenKind::And)
    } else if w == "class"@ {
        Some(TokenKind::Class)
    } else if w == "else"@ {
        Some(TokenKind::Else)
    } else if w == "false"@ {
        Some(TokenKind::False)
    } else if w == "for"@ {
        Some(TokenKind::For)
    } else if w == "fun"@ {
        Some(TokenKind::Fun)
    } else if w == "if"@ {
        Some(TokenKind::If)
    } else if w == "nil"@ {
        Some(TokenKind::Nil)
    } else if w == "or"@ {
        Some(TokenKind::Or)
    } else if w == "print"@ {
        Some(TokenKind::Print)
    } else if w == "return"@ {
        Some(TokenKind::Return)
    } else if w == "super"@ {
        Some(TokenKind::Super)
    } else if w == "this"@ {
        Some(TokenKind::This)
    } else if w == "true"@ {
        Some(TokenKind::True)
    } else if w == "var"@ {
        Some(TokenKind::Var)
    } else if w == "while"@ {
        Some(TokenKind::While)
    } else {
        None
    }
}

/// A step that emits one literal-free token covering `src[i .. i + width)`.
pub open spec fn single_tok(src: Seq<char>, i: nat, line: nat, k: TokenKind, width: nat) -> StepModel {
    StepModel {
        toks: seq![
            TokenModel {
                kind: k,
                lexeme: src.subrange(i as int, (i + width) as int),
                literal: LitModel::Absent,
                line,
            },
        ],
        diags: seq![],
        next: i + width,
        line,
    }
}

/// A step for `!`, `=`, `<` or `>`: probe one character for `=` and emit
/// the two-character kind when it is present, the one-character kind
/// otherwise.
pub open spec fn two_char_tok(src: Seq<char>, i: nat, line: nat, short: TokenKind, long: TokenKind) -> StepModel {
    if i + 1 < src.len() && src[(i + 1) as int] == '=' {
        single_tok(src, i, line, long, 2)
    } else {
        single_tok(src, i, line, short, 1)
    }
}

/// A step that consumes a string literal opened by the quote at `i`: the
/// line counter advances over embedded newlines; an unterminated literal
/// reports one diagnostic and emits no token; a terminated one emits a
/// `String` token whose literal is the text strictly between the quotes.
pub open spec fn string_step(src: Seq<char>, i: nat, line: nat) -> StepModel {
    let j = string_body_end(src, i + 1);
    let line2 = line + newline_count(src, i + 1, j);
    if j >= src.len() {
        StepModel {
            toks: seq![],
            diags: seq![DiagModel { line: line2, err: LexError::UnterminatedString }],
            next: j,
            line: line2,
        }
    } else {
        StepModel {
            toks: seq![
                TokenModel {
                    kind: TokenKind::String,
                    lexeme: src.subrange(i as int, (j + 1) as int),
                    literal: LitModel::Text(src.subrange((i + 1) as int, j as int)),
                    line: line2,
                },
            ],
            diags: seq![],
            next: j + 1,
            line: line2,
        }
    }
}

/// A `Number` token covering `src[i .. e)`, whose literal is that exact
/// numeric text.
pub open spec fn number_tok(src: Seq<char>, i: nat, line: nat, e: nat) -> StepModel {
    StepModel {
        toks: seq![
            TokenModel {
                kind: TokenKind::Number,
                lexeme: src.subrange(i as int, e as int),
                literal: LitModel::Numeric(src.subrange(i as int, e as int)),
                line,
            },
        ],
        diags: seq![],
        next: e,
        line,
    }
}

/// A step that consumes a number literal begun by the digit at `i`: a
/// maximal digit run, then a fractional part only when a `.` is directly
/// followed by a digit (a trailing `.` is left for the next dispatch).
pub open spec fn number_step(src: Seq<char>, i: nat, line: nat) -> StepModel {
    let d = digit_run_end(src, i);
    if d + 1 < src.len() && src[d as int] == '.' && is_digit_char(src[(d + 1) as int]) {
        number_tok(src, i, line, digit_run_end(src, d + 1))
    } else {
        number_tok(src, i, line, d)
    }
}

/// A step that consumes an identifier begun by the character at `i`: the
/// maximal continuation run, classified through the keyword table on the
/// full lexeme.
pub open spec fn ident_step(src: Seq<char>, i: nat, line: nat) -> StepModel {
    let e = alnum_run_end(src, i + 1);
    let w = src.subrange(i as int, e as int);
    match spec_keyword_kind(w) {
        Some(k) => StepModel {
            toks: seq![TokenModel { kind: k, lexeme: w, literal: LitModel::Absent, line }],
            diags: seq![],
            next: e,
            line,
        },
        None => StepModel {
            toks: seq![
                TokenModel {
                    kind: TokenKind::Identifier,
                    lexeme: w,
                    literal: LitModel::Text(w),
                    line,
                },
            ],
            diags: seq![],
            next: e,
            line,
        },
    }
}

/// A step that consumes nothing but the character at `i` and emits
/// neither token nor diagnostic, advancing the line counter by `bump`.
pub open spec fn skip_step(i: nat, line: nat, bump: nat) -> StepModel {
    StepModel { toks: seq![], diags: seq![], next: i + 1, line: line + bump }
}

/// Dispatch on the character at position `i`: the complete per-character
/// classification of one scanning step.
pub open spec fn spec_step(src: Seq<char>, i: nat, line: nat) -> StepModel
    recommends
        i < src.len(),
{
    let c = src[i as int];
    if c == '(' {
        single_tok(src, i, line, TokenKind::LeftParen, 1)
    } else if c == ')' {
        single_tok(src, i, line, TokenKind::RightParen, 1)
    } else if c == '{' {
        single_tok(src, i, line, TokenKind::LeftBrace, 1)
    } else if c == '}' {
        single_tok(src, i, line, TokenKind::RightBrace, 1)
    } else if c == ',' {
        single_tok(src, i, line, TokenKind::Comma, 1)
    } else if c == '.' {
        single_tok(src, i, line, TokenKind::Dot, 1)
    } else if c == '-' {
        single_tok(src, i, line, TokenKind::Minus, 1)
    } else if c == '+' {
        single_tok(src, i, line, TokenKind::Plus, 1)
    } else if c == ';' {
        single_tok(src, i, line, TokenKind::Semicolon, 1)
    } else if c == '*' {
        single_tok(src, i, line, TokenKind::Star, 1)
    } else if c == '!' {
        two_char_tok(src, i, line, TokenKind::Bang, TokenKind::BangEqual)
    } else if c == '=' {
        two_char_tok(src, i, line, TokenKind::Equal, TokenKind::EqualEqual)
    } else if c == '<' {
        two_char_tok(src, i, line, TokenKind::Less, TokenKind::LessEqual)
    } else if c == '>' {
        two_char_tok(src, i, line, TokenKind::Greater, TokenKind::GreaterEqual)
    } else if c == '/' {
        if i + 1 < src.len() && src[(i + 1) as int] == '/' {
            StepModel { toks: seq![], diags: seq![], next: comment_run_end(src, i + 2), line }
        } else {
            single_tok(src, i, line, TokenKind::Slash, 1)
        }
    } else if is_blank_char(c) {
        skip_step(i, line, 0)
    } else if c == '\n' {
        skip_step(i, line, 1)
    } else if c == '"' {
        string_step(src, i, line)
    } else if is_digit_char(c) {
        number_step(src, i, line)
    } else if is_alpha_char(c) {
        ident_step(src, i, line)
    } else {
        StepModel {
            toks: seq![],
            diags: seq![DiagModel { line, err: LexError::UnexpectedCharacter }],
            next: i + 1,
            line,
        }
    }
}

/// The end-of-input sentinel token, emitted exactly once, always last,
/// with an empty lexeme.
pub open spec fn eof_tok(line: nat) -> TokenModel {
    TokenModel { kind: TokenKind::Eof, lexeme: Seq::empty(), literal: LitModel::Absent, line }
}

/// Scanning from position `i` with line counter `line` to the end of the
/// source.  (The recursion bounds the next position into `(i, len]` purely
/// to justify termination; `lemma_step_in_range` shows the bound never
/// truncates an actual step.)
pub open spec fn scan_from(src: Seq<char>, i: nat, line: nat) -> ScanModel
    decreases src.len() - i,
{
    if i < src.len() {
        let st = spec_step(src, i, line);
        let n = if st.next <= i {
            i + 1
        } else if st.next > src.len() {
            src.len()
        } else {
            st.next
        };
        let rest = scan_from(src, n, st.line);
        ScanModel {
            toks: st.toks + rest.toks,
            diags: st.diags + rest.diags,
            end_line: rest.end_line,
        }
    } else {
        ScanModel { toks: seq![eof_tok(line)], diags: seq![], end_line: line }
    }
}

/// One whole scanning pass: from the start of the source, on line 1.
pub open spec fn scan_spec(src: Seq<char>) -> ScanModel {
    scan_from(src, 0, 1)
}

/// A maximal digit run ends between its start and the end of the source.
pub proof fn lemma_digit_run_end_bounds(src: Seq<char>, i: nat)
    requires
        i <= src.len(),
    ensures
        i <= digit_run_end(src, i) <= src.len(),
    decreases src.len() - i,
{
    if i < src.len() && is_digit_char(src[i as int]) {
        lemma_digit_run_end_bounds(src, i + 1);
    }
}

/// A maximal identifier run ends between its start and the end of the
/// source.
pub proof fn lemma_alnum_run_end_bounds(src: Seq<char>, i: nat)
    requires
        i <= src.len(),
    ensures
        i <= alnum_run_end(src, i) <= src.len(),
    decreases src.len() - i,
{
    if i < src.len() && is_alnum_char(src[i as int]) {
        lemma_alnum_run_end_bounds(src, i + 1);
    }
}

/// A discarded comment ends between its start and the end of the source.
pub proof fn lemma_comment_run_end_bounds(src: Seq<char>, i: nat)
    requires
        i <= src.len(),
    ensures
        i <= comment_run_end(src, i) <= src.len(),
    decreases src.len() - i,
{
    if i < src.len() && src[i as int] != '\n' {
        lemma_comment_run_end_bounds(src, i + 1);
    }
}

/// A string body ends between its start and the end of the source.
pub proof fn lemma_string_body_end_bounds(src: Seq<char>, i: nat)
    requires
        i <= src.len(),
    ensures
        i <= string_body_end(src, i) <= src.len(),
    decreases src.len() - i,
{
    if i < src.len() && src[i as int] != '"' {
        lemma_string_body_end_bounds(src, i + 1);
    }
}

/// Extending a newline count by one position adds one exactly when that
/// position holds a newline.
pub proof fn lemma_newline_count_extend(src: Seq<char>, i: nat, j: nat)
    requires
        i <= j < src.len(),
    ensures
        newline_count(src, i, j + 1) == newline_count(src, i, j) + (if src[j as int] == '\n' {
            1 as nat
        } else {
            0 as nat
        }),
    decreases j - i,
{
    if i < j {
        lemma_newline_count_extend(src, i + 1, j);
    } else {
        assert(newline_count(src, j + 1, j + 1) == 0);
    }
}

/// Every dispatch step consumes at least one character and never moves
/// past the end of the source.
pub proof fn lemma_step_in_range(src: Seq<char>, i: nat, line: nat)
    requires
        i < src.len(),
    ensures
        i < spec_step(src, i, line).next <= src.len(),
{
    let c = src[i as int];
    if c == '/' && i + 1 < src.len() && src[(i + 1) as int] == '/' {
        lemma_comment_run_end_bounds(src, i + 2);
    } else if c == '"' {
        lemma_string_body_end_bounds(src, i + 1);
    } else if is_digit_char(c) {
        let d = digit_run_end(src, i);
        lemma_digit_run_end_bounds(src, i + 1);
        assert(digit_run_end(src, i) == digit_run_end(src, i + 1));
        if d + 1 < src.len() && src[d as int] == '.' && is_digit_char(src[(d + 1) as int]) {
            lemma_digit_run_end_bounds(src, d + 1);
        }
    } else if is_alpha_char(c) {
        lemma_alnum_run_end_bounds(src, i + 1);
    }
}

/// Unfolding one step of `scan_from`: the whole scan from `i` is the step
/// at `i` followed by the scan from the step's next position.
pub proof fn lemma_scan_from_unfold(src: Seq<char>, i: nat, line: nat)
    requires
        i < src.len(),
    ensures
        ({
            let st = spec_step(src, i, line);
            let rest = scan_from(src, st.next, st.line);
            scan_from(src, i, line) == (ScanModel {
                toks: st.toks + rest.toks,
                diags: st.diags + rest.diags,
                end_line: rest.end_line,
            })
        }),
{
    lemma_step_in_range(src, i, line);
}

} // verus!
