//! Structured parse diagnostics.

use vstd::prelude::*;
use crate::token::{SpecToken, TokenCursor};

verus! {

/// What went wrong, following the parser's error taxonomy.
#[derive(Debug, Clone, Copy, PartialEq, Eq)]
pub enum ErrorKind {
    /// A specific token kind was required and a different one stood there.
    SyntaxError,
    /// End of input was reached while a construct was still open.
    UnterminatedConstruct,
    /// The grammar was recognized but is intentionally unimplemented.
    UnsupportedConstruct,
    /// A cursor or scope invariant was violated; a correct parse never
    /// reaches this.
    InternalInconsistency,
}

/// A source position: line and column range of the offending token.
#[derive(Debug, Clone, Copy, PartialEq, Eq)]
pub struct Position {
    pub line: u64,
    pub col_start: u64,
    pub col_end: u64,
}

/// A structured diagnostic: the kind of failure plus, when a token can be
/// blamed, its position.
#[derive(Debug, Clone, Copy, PartialEq, Eq)]
pub struct ParseError {
    pub kind: ErrorKind,
    pub at: Option<Position>,
}

/// The source position carried by a token.
pub open spec fn spec_pos_of(t: SpecToken) -> Position {
    Position { line: t.line, col_start: t.col_start, col_end: t.col_end }
}

/// The position to blame for a failure at index `i`: the token there, or the
/// last token when the input ended too early, or nothing on empty input.
pub open spec fn spec_err_pos(toks: Seq<SpecToken>, i: int) -> Option<Position> {
    if 0 <= i < toks.len() {
        Some(spec_pos_of(toks[i]))
    } else if toks.len() > 0 {
        Some(spec_pos_of(toks[toks.len() - 1]))
    } else {
        None
    }
}

/// The diagnostic for a failure of `kind` observed at index `i`.
pub open spec fn spec_err(kind: ErrorKind, toks: Seq<SpecToken>, i: int) -> ParseError {
    ParseError { kind, at: spec_err_pos(toks, i) }
}

/// Build the diagnostic position for a failure at `idx` from the cursor's
/// token sequence.
pub fn diag_pos(c: &TokenCursor, idx: usize) -> (p: Option<Position>)
    ensures
        p == spec_err_pos(c.toks(), idx as int),
{
    let n = c.len();
    if idx < n {
        let t = c.at(idx);
        Some(Position { line: t.line, col_start: t.col_start, col_end: t.col_end })
    } else if n > 0 {
        let t = c.at(n - 1);
        Some(Position { line: t.line, col_start: t.col_start, col_end: t.col_end })
    } else {
        None
    }
}

/// Build the diagnostic for a failure of `kind` at `idx`.
pub fn err_at(c: &TokenCursor, kind: ErrorKind, idx: usize) -> (e: ParseError)
    ensures
        e == spec_err(kind, c.toks(), idx as int),
{
    ParseError { kind, at: diag_pos(c, idx) }
}

} // verus!
