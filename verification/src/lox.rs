//! Diagnostics sink: collects formatted lexical error reports and a sticky
//! error flag across one or more scans.
//!
//! The sink is passed explicitly into each scan; the driver owns it, prints
//! its messages, and may clear the flag between interactive lines.

use crate::lexing::DiagModel;
use crate::lexing::LexError;
use vstd::prelude::*;
use vstd::string::*;

verus! {

/// Decimal digit character for a value below ten.
pub open spec fn digit_char(d: nat) -> char {
    if d == 0 {
        '0'
    } else if d == 1 {
        '1'
    } else if d == 2 {
        '2'
    } else if d == 3 {
        '3'
    } else if d == 4 {
        '4'
    } else if d == 5 {
        '5'
    } else if d == 6 {
        '6'
    } else if d == 7 {
        '7'
    } else if d == 8 {
        '8'
    } else {
        '9'
    }
}

/// Decimal rendering of `n`, most significant digit first, no sign and no
/// leading zeros (a single `'0'` for zero).
pub open spec fn dec_str(n: nat) -> Seq<char>
    decreases n,
{
    if n < 10 {
        seq![digit_char(n)]
    } else {
        dec_str(n / 10) + seq![digit_char(n % 10)]
    }
}

/// The exact diagnostic format: `"[line {line}] Error{location}: {message}"`.
pub open spec fn report_text(line: nat, location: Seq<char>, message: Seq<char>) -> Seq<char> {
    "[line "@ + dec_str(line) + "] Error"@ + location + ": "@ + message
}

/// A diagnostic with the (currently always empty) location part.
pub open spec fn error_text(line: nat, message: Seq<char>) -> Seq<char> {
    report_text(line, Seq::empty(), message)
}

/// The fixed message for each lexical error kind.
pub open spec fn lex_error_message(e: LexError) -> Seq<char> {
    match e {
        LexError::UnexpectedCharacter => "Unexpected character."@,
        LexError::UnterminatedString => "Unterminated string."@,
    }
}

/// The formatted report for one diagnostic of the scanning model.
pub open spec fn diag_text(d: DiagModel) -> Seq<char> {
    error_text(d.line, lex_error_message(d.err))
}

/// The formatted reports for a diagnostic sequence, in order.
pub open spec fn diags_text(ds: Seq<DiagModel>) -> Seq<Seq<char>> {
    ds.map_values(|d: DiagModel| diag_text(d))
}

/// One decimal digit as a string slice.
fn digit_str(d: usize) -> (r: &'static str)
    requires
        d < 10,
    ensures
        r@ == seq![digit_char(d as nat)],
{
    proof {
        reveal_strlit("0");
        reveal_strlit("1");
        reveal_strlit("2");
        reveal_strlit("3");
        reveal_strlit("4");
        reveal_strlit("5");
        reveal_strlit("6");
        reveal_strlit("7");
        reveal_strlit("8");
        reveal_strlit("9");
    }
    let r: &'static str = match d {
        0 => "0",
        1 => "1",
        2 => "2",
        3 => "3",
        4 => "4",
        5 => "5",
        6 => "6",
        7 => "7",
        8 => "8",
        _ => "9",
    };
    proof {
        assert(r@ =~= seq![digit_char(d as nat)]);
    }
    r
}

/// Decimal rendering of `n` as a fresh string.
fn dec_render(n: usize) -> (r: String)
    ensures
        r@ == dec_str(n as nat),
    decreases n,
{
    if n < 10 {
        String::from_str(digit_str(n))
    } else {
        assert(n / 10 < n && n / 10 >= 1) by (nonlinear_arith)
            requires
                n >= 10,
        ;
        let r = dec_render(n / 10).concat(digit_str(n % 10));
        proof {
            assert(r@ =~= dec_str(n as nat));
        }
        r
    }
}

/// Mathematical model of the sink: the sticky flag and the formatted
/// messages, oldest first.
#[verifier::ext_equal]
pub ghost struct LoxModel {
    pub had_error: bool,
    pub messages: Seq<Seq<char>>,
}

/// Error-reporting sink.  `had_error` is sticky over `error` calls; the
/// driver clears it between interactive lines with `clear_error`.
pub struct Lox {
    pub had_error: bool,
    pub messages: Vec<String>,
}

impl View for Lox {
    type V = LoxModel;

    open spec fn view(&self) -> LoxModel {
        LoxModel { had_error: self.had_error, messages: self.messages.deep_view() }
    }
}

impl Lox {
    /// A fresh sink: no error seen, no message collected.
    pub fn new() -> (l: Lox)
        ensures
            l@ == (LoxModel { had_error: false, messages: Seq::empty() }),
    {
        let l = Lox { had_error: false, messages: Vec::new() };
        proof {
            assert(l@.messages =~= Seq::<Seq<char>>::empty());
        }
        l
    }

    /// Append one formatted report and set the sticky flag.
    fn report(&mut self, line: usize, location: String, message: String)
        ensures
            final(self)@ == (LoxModel {
                had_error: true,
                messages: old(self)@.messages.push(
                    report_text(line as nat, location@, message@),
                ),
            }),
    {
        let mut text = String::from_str("[line ");
        text.append(dec_render(line).as_str());
        text.append("] Error");
        text.append(location.as_str());
        text.append(": ");
        text.append(message.as_str());
        self.messages.push(text);
        self.had_error = true;
        proof {
            assert(self@.messages =~= old(self)@.messages.push(
                report_text(line as nat, location@, message@),
            ));
        }
    }

    /// Report a lexical error at `line`, with an empty location part.
    pub fn error(&mut self, line: usize, message: String)
        ensures
            final(self)@ == (LoxModel {
                had_error: true,
                messages: old(self)@.messages.push(error_text(line as nat, message@)),
            }),
    {
        self.report(line, String::new(), message);
    }

    /// Report a lexical error at `line`: the sink's whole public reporting
    /// surface, equivalent to `error`.
    pub fn report_error(&mut self, line: usize, message: String)
        ensures
            final(self)@ == (LoxModel {
                had_error: true,
                messages: old(self)@.messages.push(error_text(line as nat, message@)),
            }),
    {
        self.error(line, message);
    }

    /// Clear the sticky flag, keeping the collected messages: used by the
    /// interactive driver after each line.
    pub fn clear_error(&mut self)
        ensures
            final(self)@ == (LoxModel { had_error: false, messages: old(self)@.messages }),
    {
        self.had_error = false;
    }
}

} // verus!
