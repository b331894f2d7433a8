//! Tokens, their mathematical view, and the cursor the parser walks them with.

use vstd::prelude::*;

verus! {

/// The kind of a lexed token, together with any payload the lexer attached.
#[derive(Debug)]
pub enum TokenType {
    KeywordFn,
    KeywordStruct,
    KeywordEnum,
    KeywordTrait,
    KeywordImpl,
    OpenParen,
    CloseParen,
    Comma,
    OperatorColon,
    OperatorArrow,
    OperatorAssign,
    OperatorLes,
    OperatorAdd,
    OperatorSub,
    OperatorMul,
    OperatorDiv,
    Identifier(String),
    LiteralNum(u64),
    LiteralStr(String),
    IdentTier(usize),
    Eof,
}

/// Mathematical mirror of `TokenType`: strings become character sequences.
pub ghost enum SpecTokenType {
    KeywordFn,
    KeywordStruct,
    KeywordEnum,
    KeywordTrait,
    KeywordImpl,
    OpenParen,
    CloseParen,
    Comma,
    OperatorColon,
    OperatorArrow,
    OperatorAssign,
    OperatorLes,
    OperatorAdd,
    OperatorSub,
    OperatorMul,
    OperatorDiv,
    Identifier(Seq<char>),
    LiteralNum(u64),
    LiteralStr(Seq<char>),
    IdentTier(usize),
    Eof,
}

impl View for TokenType {
    type V = SpecTokenType;

    open spec fn view(&self) -> SpecTokenType {
        match self {
            TokenType::KeywordFn => SpecTokenType::KeywordFn,
            TokenType::KeywordStruct => SpecTokenType::KeywordStruct,
            TokenType::KeywordEnum => SpecTokenType::KeywordEnum,
            TokenType::KeywordTrait => SpecTokenType::KeywordTrait,
            TokenType::KeywordImpl => SpecTokenType::KeywordImpl,
            TokenType::OpenParen => SpecTokenType::OpenParen,
            TokenType::CloseParen => SpecTokenType::CloseParen,
            TokenType::Comma => SpecTokenType::Comma,
            TokenType::OperatorColon => SpecTokenType::OperatorColon,
            TokenType::OperatorArrow => SpecTokenType::OperatorArrow,
            TokenType::OperatorAssign => SpecTokenType::OperatorAssign,
            TokenType::OperatorLes => SpecTokenType::OperatorLes,
            TokenType::OperatorAdd => SpecTokenType::OperatorAdd,
            TokenType::OperatorSub => SpecTokenType::OperatorSub,
            TokenType::OperatorMul => SpecTokenType::OperatorMul,
            TokenType::OperatorDiv => SpecTokenType::OperatorDiv,
            TokenType::Identifier(s) => SpecTokenType::Identifier(s@),
            TokenType::LiteralNum(x) => SpecTokenType::LiteralNum(*x),
            TokenType::LiteralStr(s) => SpecTokenType::LiteralStr(s@),
            TokenType::IdentTier(x) => SpecTokenType::IdentTier(*x),
            TokenType::Eof => SpecTokenType::Eof,
        }
    }
}

impl Clone for TokenType {
    fn clone(&self) -> (r: Self)
        ensures
            r@ == self@,
    {
        match self {
            TokenType::KeywordFn => TokenType::KeywordFn,
            TokenType::KeywordStruct => TokenType::KeywordStruct,
            TokenType::KeywordEnum => TokenType::KeywordEnum,
            TokenType::KeywordTrait => TokenType::KeywordTrait,
            TokenType::KeywordImpl => TokenType::KeywordImpl,
            TokenType::OpenParen => TokenType::OpenParen,
            TokenType::CloseParen => TokenType::CloseParen,
            TokenType::Comma => TokenType::Comma,
            TokenType::OperatorColon => TokenType::OperatorColon,
            TokenType::OperatorArrow => TokenType::OperatorArrow,
            TokenType::OperatorAssign => TokenType::OperatorAssign,
            TokenType::OperatorLes => TokenType::OperatorLes,
            TokenType::OperatorAdd => TokenType::OperatorAdd,
            TokenType::OperatorSub => TokenType::OperatorSub,
            TokenType::OperatorMul => TokenType::OperatorMul,
            TokenType::OperatorDiv => TokenType::OperatorDiv,
            TokenType::Identifier(s) => TokenType::Identifier(s.clone()),
            TokenType::LiteralNum(x) => TokenType::LiteralNum(*x),
            TokenType::LiteralStr(s) => TokenType::LiteralStr(s.clone()),
            TokenType::IdentTier(x) => TokenType::IdentTier(*x),
            TokenType::Eof => TokenType::Eof,
        }
    }
}

/// One lexed token: a kind plus its source position (line, column range).
#[derive(Debug)]
pub struct Token {
    pub t_type: TokenType,
    pub line: u64,
    pub col_start: u64,
    pub col_end: u64,
}

/// Mathematical mirror of `Token`.
pub ghost struct SpecToken {
    pub t_type: SpecTokenType,
    pub line: u64,
    pub col_start: u64,
    pub col_end: u64,
}

impl View for Token {
    type V = SpecToken;

    open spec fn view(&self) -> SpecToken {
        SpecToken {
            t_type: self.t_type@,
            line: self.line,
            col_start: self.col_start,
            col_end: self.col_end,
        }
    }
}

impl Clone for Token {
    fn clone(&self) -> (r: Self)
        ensures
            r@ == self@,
    {
        Token {
            t_type: self.t_type.clone(),
            line: self.line,
            col_start: self.col_start,
            col_end: self.col_end,
        }
    }
}

/// The token sequence is exhausted: either past the end, or at the lexer's
/// end-of-file sentinel.
pub open spec fn at_eof(toks: Seq<SpecToken>, i: int) -> bool {
    i >= toks.len() || toks[i].t_type is Eof
}

/// The token at `i` is a tier marker at least as deep as `tier` ("this line
/// still belongs to the block").
pub open spec fn tier_at_least_at(toks: Seq<SpecToken>, i: int, tier: int) -> bool {
    &&& !at_eof(toks, i)
    &&& toks[i].t_type matches SpecTokenType::IdentTier(x) && x >= tier
}

/// The token at `i` is a tier marker strictly shallower than `tier`
/// ("the block ended here").
pub open spec fn dedents_at(toks: Seq<SpecToken>, i: int, tier: int) -> bool {
    0 <= i < toks.len() && (toks[i].t_type matches SpecTokenType::IdentTier(x) && x < tier)
}

/// A positioned, peekable, steppable view over the token sequence.
/// The single integer index is the only navigation state.
pub struct TokenCursor {
    tokens: Vec<Token>,
    curr: usize,
}

impl TokenCursor {
    /// The token sequence, as mathematics.
    pub closed spec fn toks(&self) -> Seq<SpecToken> {
        self.tokens@.map_values(|t: Token| t@)
    }

    /// The current index.
    pub closed spec fn pos(&self) -> int {
        self.curr as int
    }

    /// The index never runs past the end of the sequence.
    pub closed spec fn wf(&self) -> bool {
        self.curr <= self.tokens@.len()
    }

    pub fn new(tokens: Vec<Token>) -> (c: TokenCursor)
        ensures
            c.wf(),
            c.pos() == 0,
            c.toks() == tokens@.map_values(|t: Token| t@),
    {
        TokenCursor { tokens, curr: 0 }
    }

    pub fn len(&self) -> (n: usize)
        ensures
            n == self.toks().len(),
    {
        proof {
            assert(self.toks().len() == self.tokens@.len());
        }
        self.tokens.len()
    }

    pub fn index(&self) -> (i: usize)
        ensures
            i as int == self.pos(),
    {
        self.curr
    }

    pub fn is_eof(&self) -> (r: bool)
        requires
            self.wf(),
        ensures
            r == at_eof(self.toks(), self.pos()),
    {
        self.curr >= self.tokens.len() || matches!(self.tokens[self.curr].t_type, TokenType::Eof)
    }

    /// Consume and return the current token.
    pub fn next(&mut self) -> (t: Token)
        requires
            old(self).wf(),
            old(self).pos() < old(self).toks().len(),
        ensures
            final(self).wf(),
            final(self).toks() == old(self).toks(),
            final(self).pos() == old(self).pos() + 1,
            t@ == old(self).toks()[old(self).pos()],
    {
        proof {
            assert(self.toks().len() == self.tokens@.len());
            assert(self.tokens@.len() == self.tokens.len());
        }
        let t = self.tokens[self.curr].clone();
        self.curr = self.curr + 1;
        t
    }

    /// Inspect the current token without consuming it.
    pub fn peek(&self) -> (t: &Token)
        requires
            self.wf(),
            self.pos() < self.toks().len(),
        ensures
            t@ == self.toks()[self.pos()],
    {
        &self.tokens[self.curr]
    }

    /// Random-access peek.
    pub fn at(&self, idx: usize) -> (t: &Token)
        requires
            idx < self.toks().len(),
        ensures
            t@ == self.toks()[idx as int],
    {
        &self.tokens[idx]
    }

    /// Step past the current token without returning it.
    pub fn forward(&mut self)
        requires
            old(self).wf(),
            old(self).pos() < old(self).toks().len(),
        ensures
            final(self).wf(),
            final(self).toks() == old(self).toks(),
            final(self).pos() == old(self).pos() + 1,
    {
        proof {
            assert(self.toks().len() == self.tokens@.len());
            assert(self.tokens@.len() == self.tokens.len());
        }
        self.curr = self.curr + 1;
    }
}


/// Two token kinds are the same, payloads included.
pub open spec fn kind_eq(a: SpecTokenType, b: SpecTokenType) -> bool {
    match (a, b) {
        (SpecTokenType::KeywordFn, SpecTokenType::KeywordFn) => true,
        (SpecTokenType::KeywordStruct, SpecTokenType::KeywordStruct) => true,
        (SpecTokenType::KeywordEnum, SpecTokenType::KeywordEnum) => true,
        (SpecTokenType::KeywordTrait, SpecTokenType::KeywordTrait) => true,
        (SpecTokenType::KeywordImpl, SpecTokenType::KeywordImpl) => true,
        (SpecTokenType::OpenParen, SpecTokenType::OpenParen) => true,
        (SpecTokenType::CloseParen, SpecTokenType::CloseParen) => true,
        (SpecTokenType::Comma, SpecTokenType::Comma) => true,
        (SpecTokenType::OperatorColon, SpecTokenType::OperatorColon) => true,
        (SpecTokenType::OperatorArrow, SpecTokenType::OperatorArrow) => true,
        (SpecTokenType::OperatorAssign, SpecTokenType::OperatorAssign) => true,
        (SpecTokenType::OperatorLes, SpecTokenType::OperatorLes) => true,
        (SpecTokenType::OperatorAdd, SpecTokenType::OperatorAdd) => true,
        (SpecTokenType::OperatorSub, SpecTokenType::OperatorSub) => true,
        (SpecTokenType::OperatorMul, SpecTokenType::OperatorMul) => true,
        (SpecTokenType::OperatorDiv, SpecTokenType::OperatorDiv) => true,
        (SpecTokenType::Identifier(x), SpecTokenType::Identifier(y)) => x == y,
        (SpecTokenType::LiteralNum(x), SpecTokenType::LiteralNum(y)) => x == y,
        (SpecTokenType::LiteralStr(x), SpecTokenType::LiteralStr(y)) => x == y,
        (SpecTokenType::IdentTier(x), SpecTokenType::IdentTier(y)) => x == y,
        (SpecTokenType::Eof, SpecTokenType::Eof) => true,
        _ => false,
    }
}

/// Decide `kind_eq` on concrete token kinds.
pub fn token_type_eq(a: &TokenType, b: &TokenType) -> (r: bool)
    ensures
        r == kind_eq(a@, b@),
{
    match (a, b) {
        (TokenType::KeywordFn, TokenType::KeywordFn) => true,
        (TokenType::KeywordStruct, TokenType::KeywordStruct) => true,
        (TokenType::KeywordEnum, TokenType::KeywordEnum) => true,
        (TokenType::KeywordTrait, TokenType::KeywordTrait) => true,
        (TokenType::KeywordImpl, TokenType::KeywordImpl) => true,
        (TokenType::OpenParen, TokenType::OpenParen) => true,
        (TokenType::CloseParen, TokenType::CloseParen) => true,
        (TokenType::Comma, TokenType::Comma) => true,
        (TokenType::OperatorColon, TokenType::OperatorColon) => true,
        (TokenType::OperatorArrow, TokenType::OperatorArrow) => true,
        (TokenType::OperatorAssign, TokenType::OperatorAssign) => true,
        (TokenType::OperatorLes, TokenType::OperatorLes) => true,
        (TokenType::OperatorAdd, TokenType::OperatorAdd) => true,
        (TokenType::OperatorSub, TokenType::OperatorSub) => true,
        (TokenType::OperatorMul, TokenType::OperatorMul) => true,
        (TokenType::OperatorDiv, TokenType::OperatorDiv) => true,
        (TokenType::Identifier(x), TokenType::Identifier(y)) => *x == *y,
        (TokenType::LiteralNum(x), TokenType::LiteralNum(y)) => *x == *y,
        (TokenType::LiteralStr(x), TokenType::LiteralStr(y)) => *x == *y,
        (TokenType::IdentTier(x), TokenType::IdentTier(y)) => *x == *y,
        (TokenType::Eof, TokenType::Eof) => true,
        _ => false,
    }
}

/// `kind_eq` coincides with equality of kinds.
pub proof fn lemma_kind_eq(a: SpecTokenType, b: SpecTokenType)
    ensures
        kind_eq(a, b) == (a == b),
{
}

/// The index where a block that starts at `i` with tier `tier` ends: the
/// first position at or after `i` that is exhausted or carries a tier marker
/// strictly shallower than `tier`.
pub open spec fn spec_scope_end(toks: Seq<SpecToken>, i: int, tier: int) -> int
    decreases toks.len() - i,
{
    if at_eof(toks, i) || dedents_at(toks, i, tier) {
        i
    } else {
        spec_scope_end(toks, i + 1, tier)
    }
}

impl TokenCursor {
    /// Consume and return true iff the current token matches `kind` exactly;
    /// otherwise leave the cursor unchanged and return false.
    pub fn assert_next(&mut self, kind: &TokenType) -> (r: bool)
        requires
            old(self).wf(),
        ensures
            final(self).wf(),
            final(self).toks() == old(self).toks(),
            r == (!at_eof(old(self).toks(), old(self).pos())
                && old(self).toks()[old(self).pos()].t_type == kind@),
            final(self).pos() == if r { old(self).pos() + 1 } else { old(self).pos() },
    {
        proof {
            assert(self.toks().len() == self.tokens@.len());
            assert(self.tokens@.len() == self.tokens.len());
        }
        if self.is_eof() {
            return false;
        }
        let matched = token_type_eq(&self.tokens[self.curr].t_type, kind);
        proof {
            lemma_kind_eq(self.tokens@[self.curr as int].t_type@, kind@);
        }
        if matched {
            self.curr = self.curr + 1;
        }
        matched
    }

    /// Consume and return true iff the current token is a tier marker at
    /// least as deep as `tier`; otherwise leave the cursor unchanged.
    pub fn assert_next_tier(&mut self, tier: usize) -> (r: bool)
        requires
            old(self).wf(),
        ensures
            final(self).wf(),
            final(self).toks() == old(self).toks(),
            r == tier_at_least_at(old(self).toks(), old(self).pos(), tier as int),
            final(self).pos() == if r { old(self).pos() + 1 } else { old(self).pos() },
    {
        proof {
            assert(self.toks().len() == self.tokens@.len());
            assert(self.tokens@.len() == self.tokens.len());
        }
        if self.is_eof() {
            return false;
        }
        let matched = match &self.tokens[self.curr].t_type {
            TokenType::IdentTier(x) => *x >= tier,
            _ => false,
        };
        if matched {
            self.curr = self.curr + 1;
        }
        matched
    }

    /// Bounds that well-formedness gives: the position lies within the
    /// sequence, whose length fits a machine word.
    pub proof fn lemma_bounds(&self)
        requires
            self.wf(),
        ensures
            0 <= self.pos() <= self.toks().len(),
            self.toks().len() <= usize::MAX,
    {
        assert(self.toks().len() == self.tokens@.len());
        assert(self.tokens@.len() == self.tokens.len());
    }

    /// True iff the current token matches `kind` exactly, without consuming.
    pub fn peek_is(&self, kind: &TokenType) -> (r: bool)
        requires
            self.wf(),
        ensures
            r == (!at_eof(self.toks(), self.pos())
                && self.toks()[self.pos()].t_type == kind@),
    {
        proof {
            assert(self.toks().len() == self.tokens@.len());
            assert(self.tokens@.len() == self.tokens.len());
        }
        if self.is_eof() {
            return false;
        }
        let m = token_type_eq(&self.tokens[self.curr].t_type, kind);
        proof {
            lemma_kind_eq(self.tokens@[self.curr as int].t_type@, kind@);
        }
        m
    }

    /// The scan of the scope resolver stops at `idx`: the sequence is
    /// exhausted there, or a tier marker dedents past `tier`.
    pub fn scan_stops(&self, idx: usize, tier: usize) -> (r: bool)
        requires
            idx as int <= self.toks().len(),
        ensures
            r == (at_eof(self.toks(), idx as int) || dedents_at(self.toks(), idx as int, tier as int)),
    {
        proof {
            assert(self.toks().len() == self.tokens@.len());
            assert(self.tokens@.len() == self.tokens.len());
        }
        if idx >= self.tokens.len() {
            return true;
        }
        match &self.tokens[idx].t_type {
            TokenType::Eof => true,
            TokenType::IdentTier(x) => *x < tier,
            _ => false,
        }
    }

    /// True iff the current token is a tier marker at least as deep as
    /// `tier`, without consuming anything.
    pub fn tier_at_least(&self, tier: usize) -> (r: bool)
        requires
            self.wf(),
        ensures
            r == tier_at_least_at(self.toks(), self.pos(), tier as int),
    {
        proof {
            assert(self.toks().len() == self.tokens@.len());
            assert(self.tokens@.len() == self.tokens.len());
        }
        if self.is_eof() {
            return false;
        }
        match &self.tokens[self.curr].t_type {
            TokenType::IdentTier(x) => *x >= tier,
            _ => false,
        }
    }
}

} // verus!
