//! Proved laws of the scanning model.
//!
//! Each law is stated over `lexing::scan_spec`, which the executable
//! scanner is proved to implement exactly, so these statements carry over
//! to every run of `Scanner::scan_tokens`.

use crate::lexing::eof_tok;
use crate::lexing::is_blank_char;
use crate::lexing::lemma_scan_from_unfold;
use crate::lexing::lemma_step_in_range;
use crate::lexing::newline_count;
use crate::lexing::scan_from;
use crate::lexing::scan_spec;
use crate::lexing::spec_step;
use crate::lexing::DiagModel;
use crate::lexing::LexError;
use crate::lexing::ScanModel;
use crate::token::LitModel;
use crate::token::TokenKind;
use crate::token::TokenModel;
use vstd::prelude::*;

verus! {

/// Scanning a whitespace-only suffix consumes it without emitting a token
/// or a diagnostic, advancing the line counter once per newline.
proof fn lemma_scan_blank_from(src: Seq<char>, i: nat, line: nat)
    requires
        i <= src.len(),
        forall|k: int| i <= k < src.len() ==> is_blank_char(#[trigger] src[k]) || src[k] == '\n',
    ensures
        scan_from(src, i, line) == (ScanModel {
            toks: seq![eof_tok(line + newline_count(src, i, src.len()))],
            diags: Seq::empty(),
            end_line: line + newline_count(src, i, src.len()),
        }),
    decreases src.len() - i,
{
    if i < src.len() {
        let st = spec_step(src, i, line);
        lemma_scan_from_unfold(src, i, line);
        lemma_scan_blank_from(src, i + 1, st.line);
        assert(scan_from(src, i, line) =~= (ScanModel {
            toks: seq![eof_tok(line + newline_count(src, i, src.len()))],
            diags: Seq::empty(),
            end_line: line + newline_count(src, i, src.len()),
        }));
    } else {
        assert(newline_count(src, i, src.len()) == 0);
    }
}

/// Input containing only whitespace and newlines yields exactly one token:
/// the end-of-input sentinel, on line `1 + number of newlines`, and no
/// diagnostic.
pub proof fn lemma_whitespace_only(src: Seq<char>)
    requires
        forall|k: int| 0 <= k < src.len() ==> is_blank_char(#[trigger] src[k]) || src[k] == '\n',
    ensures
        scan_spec(src).toks == seq![eof_tok(1 + newline_count(src, 0, src.len()))],
        scan_spec(src).diags == Seq::<DiagModel>::empty(),
{
    lemma_scan_blank_from(src, 0, 1);
}

/// The fixed table of characters that scan to exactly one token on their
/// own: the single-character operators and punctuation, and the four
/// probe characters when no `=` follows them.
pub open spec fn single_char_kind(c: char) -> Option<TokenKind> {
    if c == '(' {
        Some(TokenKind::LeftParen)
    } else if c == ')' {
        Some(TokenKind::RightParen)
    } else if c == '{' {
        Some(TokenKind::LeftBrace)
    } else if c == '}' {
        Some(TokenKind::RightBrace)
    } else if c == ',' {
        Some(TokenKind::Comma)
    } else if c == '.' {
        Some(TokenKind::Dot)
    } else if c == '-' {
        Some(TokenKind::Minus)
    } else if c == '+' {
        Some(TokenKind::Plus)
    } else if c == ';' {
        Some(TokenKind::Semicolon)
    } else if c == '*' {
        Some(TokenKind::Star)
    } else if c == '/' {
        Some(TokenKind::Slash)
    } else if c == '!' {
        Some(TokenKind::Bang)
    } else if c == '=' {
        Some(TokenKind::Equal)
    } else if c == '<' {
        Some(TokenKind::Less)
    } else if c == '>' {
        Some(TokenKind::Greater)
    } else {
        None
    }
}

/// Every single-character operator or punctuation input produces exactly
/// one token, of the kind the fixed table gives it, followed by the
/// sentinel, with no diagnostic.
pub proof fn lemma_single_character_token(src: Seq<char>, k: TokenKind)
    requires
        src.len() == 1,
        single_char_kind(src[0]) == Some(k),
    ensures
        scan_spec(src).toks == seq![
            TokenModel { kind: k, lexeme: src, literal: LitModel::Absent, line: 1 },
            eof_tok(1),
        ],
        scan_spec(src).diags == Seq::<DiagModel>::empty(),
{
    lemma_scan_from_unfold(src, 0, 1);
    let st = spec_step(src, 0, 1);
    assert(scan_from(src, 1, 1).toks =~= seq![eof_tok(1)]);
    assert(st.toks[0].lexeme =~= src);
    assert(scan_spec(src).toks =~= seq![
        TokenModel { kind: k, lexeme: src, literal: LitModel::Absent, line: 1 },
        eof_tok(1),
    ]);
    assert(scan_spec(src).diags =~= Seq::<DiagModel>::empty());
}

/// Every token of a scan from position `i` has a lexeme that is an exact
/// slice of the source (the sentinel's empty lexeme included, as the empty
/// slice).
proof fn lemma_slices_from(src: Seq<char>, i: nat, line: nat)
    requires
        i <= src.len(),
    ensures
        forall|k: int|
            0 <= k < scan_from(src, i, line).toks.len() ==> (exists|s: int, e: int|
                0 <= s <= e <= src.len() && (#[trigger] scan_from(src, i, line).toks[k]).lexeme
                    == src.subrange(s, e)),
    decreases src.len() - i,
{
    let r = scan_from(src, i, line);
    if i < src.len() {
        let st = spec_step(src, i, line);
        lemma_step_in_range(src, i, line);
        lemma_scan_from_unfold(src, i, line);
        lemma_slices_from(src, st.next, st.line);
        let rest = scan_from(src, st.next, st.line);
        assert forall|k: int| 0 <= k < r.toks.len() implies (exists|s: int, e: int|
            0 <= s <= e <= src.len() && (#[trigger] r.toks[k]).lexeme == src.subrange(s, e)) by {
            if k < st.toks.len() {
                assert(st.toks.len() == 1);
                let e0 = st.next as int;
                let s0 = i as int;
                if st.toks[0].lexeme == src.subrange(s0, e0) {
                } else {
                    // The string step's lexeme stops at the closing quote,
                    // one position before the step's next cursor.
                    assert(st.toks[0].lexeme == src.subrange(s0, e0 - 1));
                }
                assert(r.toks[k] == st.toks[k]);
            } else {
                assert(r.toks[k] == rest.toks[k - st.toks.len()]);
            }
        }
    } else {
        assert(r.toks[0].lexeme =~= src.subrange(0, 0));
    }
}

/// Every emitted token's lexeme equals the exact substring of the source
/// spanning its capture; the sentinel carries the empty slice.
pub proof fn lemma_lexemes_are_source_slices(src: Seq<char>)
    ensures
        forall|k: int|
            0 <= k < scan_spec(src).toks.len() ==> (exists|s: int, e: int|
                0 <= s <= e <= src.len() && (#[trigger] scan_spec(src).toks[k]).lexeme
                    == src.subrange(s, e)),
{
    lemma_slices_from(src, 0, 1);
}

/// A scan from any position ends with the sentinel as its last token, and
/// emits the sentinel kind nowhere else.
proof fn lemma_sentinel_from(src: Seq<char>, i: nat, line: nat)
    requires
        i <= src.len(),
    ensures
        scan_from(src, i, line).toks.len() >= 1,
        scan_from(src, i, line).toks.last() == eof_tok(scan_from(src, i, line).end_line),
        forall|k: int|
            0 <= k < scan_from(src, i, line).toks.len() - 1 ==> (#[trigger] scan_from(
                src,
                i,
                line,
            ).toks[k]).kind != TokenKind::Eof,
    decreases src.len() - i,
{
    let r = scan_from(src, i, line);
    if i < src.len() {
        let st = spec_step(src, i, line);
        lemma_step_in_range(src, i, line);
        lemma_scan_from_unfold(src, i, line);
        lemma_sentinel_from(src, st.next, st.line);
        let rest = scan_from(src, st.next, st.line);
        assert(r.toks.last() == rest.toks.last());
        assert forall|k: int| 0 <= k < r.toks.len() - 1 implies (#[trigger] r.toks[k]).kind
            != TokenKind::Eof by {
            if k < st.toks.len() {
                assert(st.toks[k].kind != TokenKind::Eof);
            } else {
                assert(r.toks[k] == rest.toks[k - st.toks.len()]);
            }
        }
    }
}

/// The token sequence of every scan ends with exactly one end-of-input
/// sentinel: it is the last token, it carries an empty lexeme and the
/// final line counter, and no other token has the sentinel kind.
pub proof fn lemma_sentinel_last(src: Seq<char>)
    ensures
        scan_spec(src).toks.len() >= 1,
        scan_spec(src).toks.last() == eof_tok(scan_spec(src).end_line),
        forall|k: int|
            0 <= k < scan_spec(src).toks.len() - 1 ==> (#[trigger] scan_spec(src).toks[k]).kind
                != TokenKind::Eof,
{
    lemma_sentinel_from(src, 0, 1);
}

/// Diagnostics of a scan from any position contain at most one
/// unterminated-string report: such a report is only ever issued at the
/// very end of the input, after which the pass stops.
proof fn lemma_unterminated_from(src: Seq<char>, i: nat, line: nat)
    requires
        i <= src.len(),
    ensures
        forall|k1: int, k2: int|
            (0 <= k1 < scan_from(src, i, line).diags.len() && 0 <= k2 < scan_from(
                src,
                i,
                line,
            ).diags.len() && (#[trigger] scan_from(src, i, line).diags[k1]).err
                == LexError::UnterminatedString && (#[trigger] scan_from(src, i, line).diags[k2]).err
                == LexError::UnterminatedString) ==> k1 == k2,
    decreases src.len() - i,
{
    let r = scan_from(src, i, line);
    if i < src.len() {
        let st = spec_step(src, i, line);
        lemma_step_in_range(src, i, line);
        lemma_scan_from_unfold(src, i, line);
        lemma_unterminated_from(src, st.next, st.line);
        let rest = scan_from(src, st.next, st.line);
        assert forall|k1: int, k2: int|
            (0 <= k1 < r.diags.len() && 0 <= k2 < r.diags.len() && (#[trigger] r.diags[k1]).err
                == LexError::UnterminatedString && (#[trigger] r.diags[k2]).err
                == LexError::UnterminatedString) implies k1 == k2 by {
            if st.diags.len() > 0 && st.diags[0].err == LexError::UnterminatedString {
                // An unterminated string consumes the rest of the input, so
                // nothing follows it.
                assert(st.next == src.len());
                assert(rest.diags.len() == 0);
                assert(r.diags.len() == 1);
            } else {
                assert forall|k: int|
                    0 <= k < st.diags.len() implies (#[trigger] st.diags[k]).err
                    != LexError::UnterminatedString by {}
                assert(r.diags[k1] == rest.diags[k1 - st.diags.len()]);
                assert(r.diags[k2] == rest.diags[k2 - st.diags.len()]);
            }
        }
    }
}

/// A scan reports the unterminated-string error at most once, whatever the
/// input.
pub proof fn lemma_at_most_one_unterminated(src: Seq<char>)
    ensures
        forall|k1: int, k2: int|
            (0 <= k1 < scan_spec(src).diags.len() && 0 <= k2 < scan_spec(src).diags.len() && (
            #[trigger] scan_spec(src).diags[k1]).err == LexError::UnterminatedString && (
            #[trigger] scan_spec(src).diags[k2]).err == LexError::UnterminatedString) ==> k1 == k2,
{
    lemma_unterminated_from(src, 0, 1);
}

/// Scanning is a deterministic pure function of the source text: whatever
/// two scans of the same source produce, their token sequences, their
/// diagnostics and their final line counters are identical.
pub proof fn lemma_scan_deterministic(src: Seq<char>, r1: ScanModel, r2: ScanModel)
    requires
        r1 == scan_spec(src),
        r2 == scan_spec(src),
    ensures
        r1.toks == r2.toks,
        r1.diags == r2.diags,
        r1.end_line == r2.end_line,
{
}

} // verus!
