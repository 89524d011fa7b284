//! Lexical front end for a small dynamically-typed scripting language.
//!
//! The library turns raw source text into an ordered sequence of classified
//! tokens, terminated by a single end-of-input sentinel.  Lexical errors are
//! collected through an explicit diagnostics sink rather than aborting the
//! pass.  The scanning algorithm is specified by a recursive model over the
//! source character sequence, and the executable scanner is proved to produce
//! exactly the tokens and diagnostics of that model.

pub mod lexing;
pub mod lox;
pub mod props;
pub mod scanner;
pub mod token;
