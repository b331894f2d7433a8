//! The parser: executable recursive descent, each method proved to compute
//! the corresponding grammar function.

use vstd::prelude::*;
use vstd::string::StringExecFns;
use crate::ast::{AstBlock, AstExpr, AstNode, AstProgram, EnumDef, FnArg, FnDef, Scope, SpecWithScope,
    SpecExpr, SpecFnArg, SpecFnDef, SpecNode, SpecTypeBinding, StructDef, TraitDef, Type,
    TypeBinding, VarDef, WithScope, expr_view, exprs_view, node_view, nodes_view, type_view,
    types_view};
use crate::diag::{ErrorKind, ParseError, err_at};
use crate::grammar::{SigParts, St, spec_parse_add_tail, spec_parse_block, spec_parse_call_args,
    spec_parse_definion, spec_parse_expr, spec_parse_expr_add, spec_parse_expr_call,
    spec_parse_expr_mul, spec_parse_expr_primary, spec_parse_fn_args, spec_parse_fn_body,
    spec_parse_fn_definion, spec_parse_fn_ret, spec_parse_mul_tail, spec_parse_program_items,
    spec_parse_stmt, spec_parse_stmts, spec_parse_tuple_items, spec_parse_type,
    spec_parse_type_anna, spec_parse_type_primary, spec_prim_type_of};
use crate::names::{push_decimal, spec_sym_name};
use crate::token::{SpecToken, Token, TokenCursor, TokenType};

verus! {

/// The parser: owns the cursor, the symbol counter, the definition tables,
/// and the resulting AST.
pub struct Parser {
    pub sym_id: usize,
    pub fn_def: Vec<WithScope<FnDef>>,
    pub struct_def: Vec<WithScope<StructDef>>,
    pub enum_def: Vec<WithScope<EnumDef>>,
    pub trait_def: Vec<WithScope<TraitDef>>,
    pub var_def: Vec<WithScope<VarDef>>,
    pub tokens: TokenCursor,
    pub ast: AstNode,
}

impl Parser {
    /// The symbol counter, as mathematics.
    pub open spec fn sym(&self) -> nat {
        self.sym_id as nat
    }

    /// The token sequence, as mathematics.
    pub open spec fn toks(&self) -> Seq<SpecToken> {
        self.tokens.toks()
    }

    /// The grammar-level state this parser is in.
    pub open spec fn st(&self) -> St {
        St {
            i: self.tokens.pos(),
            sym: self.sym(),
            fns: self.fn_def@.map_values(|w: WithScope<FnDef>| w@),
        }
    }

    /// Well-formedness: the cursor is in bounds and the symbol counter never
    /// runs ahead of it (each fresh symbol costs consumed tokens).
    pub open spec fn wf(&self) -> bool {
        self.tokens.wf() && self.sym() <= self.tokens.pos()
    }
}

/// The parts of two parsers not touched by expression or type parsing:
/// symbol counter, all definition tables, and the stored AST.
pub open spec fn same_defs(a: &Parser, b: &Parser) -> bool {
    &&& a.sym() == b.sym()
    &&& a.fn_def == b.fn_def
    &&& same_aux(a, b)
}

/// The parts of two parsers no parsing step but the whole parse touches:
/// the unimplemented definition tables and the stored AST.
pub open spec fn same_aux(a: &Parser, b: &Parser) -> bool {
    &&& a.struct_def == b.struct_def
    &&& a.enum_def == b.enum_def
    &&& a.trait_def == b.trait_def
    &&& a.var_def == b.var_def
    &&& a.ast == b.ast
}

/// The primitive type an identifier names, or `Unknown`.
fn prim_type_of(name: &String) -> (ty: Type)
    ensures
        type_view(ty) == spec_prim_type_of(name@),
{
    if *name == String::from_str("i8") {
        Type::I8
    } else if *name == String::from_str("i16") {
        Type::I16
    } else if *name == String::from_str("i32") {
        Type::I32
    } else if *name == String::from_str("i64") {
        Type::I64
    } else if *name == String::from_str("i128") {
        Type::I128
    } else if *name == String::from_str("u8") {
        Type::U8
    } else if *name == String::from_str("u16") {
        Type::U16
    } else if *name == String::from_str("u32") {
        Type::U32
    } else if *name == String::from_str("u64") {
        Type::U64
    } else if *name == String::from_str("u128") {
        Type::U128
    } else if *name == String::from_str("bool") {
        Type::Bool
    } else if *name == String::from_str("f32") {
        Type::F32
    } else if *name == String::from_str("f64") {
        Type::F64
    } else {
        Type::Unknown
    }
}

impl Parser {
    /// Make a new parser over `tokens`, with empty tables and counter zero.
    pub fn new(tokens: TokenCursor) -> (p: Parser)
        requires
            tokens.wf(),
            tokens.pos() == 0,
        ensures
            p.wf(),
            p.toks() == tokens.toks(),
            p.st() == (St { i: 0, sym: 0 as nat, fns: Seq::<SpecWithScope>::empty() }),
            p.ast == AstNode::Empty,
            p.struct_def@.len() == 0,
            p.enum_def@.len() == 0,
            p.trait_def@.len() == 0,
            p.var_def@.len() == 0,
    {
        let p = Parser {
            sym_id: 0,
            fn_def: Vec::new(),
            struct_def: Vec::new(),
            enum_def: Vec::new(),
            trait_def: Vec::new(),
            var_def: Vec::new(),
            tokens,
            ast: AstNode::Empty,
        };
        proof {
            assert(p.fn_def@.map_values(|w: WithScope<FnDef>| w@) =~= Seq::<SpecWithScope>::empty());
        }
        p
    }

    /// A fresh synthetic symbol: increments the counter and names it.
    /// Distinct from every name this parser returned before.
    fn sym_name(&mut self) -> (r: String)
        requires
            old(self).wf(),
            old(self).sym() < old(self).tokens.pos(),
        ensures
            final(self).wf(),
            final(self).sym() == old(self).sym() + 1,
            r@ == spec_sym_name(final(self).sym()),
            final(self).tokens == old(self).tokens,
            final(self).fn_def == old(self).fn_def,
            same_aux(old(self), final(self)),
    {
        proof {
            self.tokens.lemma_bounds();
        }
        self.sym_id = self.sym_id + 1;
        let mut s = String::from_str("$");
        proof {
            reveal_strlit("$");
        }
        push_decimal(self.sym_id as u64, &mut s);
        proof {
            assert(s@ =~= spec_sym_name(self.sym_id as nat));
        }
        s
    }

    /// Resolve the half-open token range of a block at `tier` starting at
    /// the cursor: everything up to, and excluding, the first dedenting tier
    /// marker or the end of input. The cursor does not move.
    pub fn find_scope(&self, tier: usize) -> (s: Scope)
        requires
            self.tokens.wf(),
        ensures
            ({
                let e = crate::token::spec_scope_end(self.toks(), self.tokens.pos(), tier as int);
                &&& s == Scope::Block(self.tokens.pos() as usize, e as usize)
                &&& self.tokens.pos() <= e <= self.toks().len()
            }),
    {
        proof {
            self.tokens.lemma_bounds();
        }
        let start = self.tokens.index();
        let n = self.tokens.len();
        let mut idx = start;
        while !self.tokens.scan_stops(idx, tier)
            invariant
                self.tokens.wf(),
                start as int == self.tokens.pos(),
                n as int == self.toks().len(),
                start <= idx,
                idx <= n,
                crate::token::spec_scope_end(self.toks(), idx as int, tier as int)
                    == crate::token::spec_scope_end(self.toks(), start as int, tier as int),
            decreases n - idx,
        {
            idx = idx + 1;
        }
        Scope::Block(start, idx)
    }

    /// A primary type: a primitive or unknown identifier, or a tuple.
    fn parse_type_primary(&mut self) -> (r: Result<Type, ParseError>)
        requires
            old(self).wf(),
        ensures
            final(self).wf(),
            final(self).toks() == old(self).toks(),
            same_defs(old(self), final(self)),
            final(self).tokens.pos() >= old(self).tokens.pos(),
            ({
                let o = spec_parse_type_primary(old(self).toks(), old(self).tokens.pos());
                &&& final(self).tokens.pos() == o.i
                &&& (match r {
                    Ok(t) => o.r == Ok::<_, ParseError>(type_view(t)),
                    Err(e) => o.r == Err::<crate::ast::SpecType, _>(e),
                })
            }),
        decreases self.toks().len() - self.tokens.pos(), 0int,
    {
        proof {
            self.tokens.lemma_bounds();
        }
        if self.tokens.is_eof() {
            let idx = self.tokens.index();
            return Err(err_at(&self.tokens, ErrorKind::UnterminatedConstruct, idx));
        }
        let idx = self.tokens.index();
        let t = self.tokens.peek().clone();
        match t.t_type {
            TokenType::Identifier(name) => {
                self.tokens.forward();
                Ok(prim_type_of(&name))
            },
            TokenType::OpenParen => {
                self.tokens.forward();
                proof {
                    assert(types_view(Seq::<Type>::empty()) =~= Seq::<crate::ast::SpecType>::empty());
                }
                let items = match self.parse_tuple_items(Vec::new()) {
                    Ok(v) => v,
                    Err(e) => {
                        return Err(e);
                    },
                };
                Ok(Type::Tuple(items))
            },
            _ => Err(err_at(&self.tokens, ErrorKind::SyntaxError, idx)),
        }
    }

    /// Tuple elements after the opening parenthesis, accumulated in order.
    fn parse_tuple_items(&mut self, acc: Vec<Type>) -> (r: Result<Vec<Type>, ParseError>)
        requires
            old(self).wf(),
        ensures
            final(self).wf(),
            final(self).toks() == old(self).toks(),
            same_defs(old(self), final(self)),
            final(self).tokens.pos() >= old(self).tokens.pos(),
            ({
                let o = spec_parse_tuple_items(old(self).toks(), old(self).tokens.pos(), types_view(acc@));
                &&& final(self).tokens.pos() == o.i
                &&& (match r {
                    Ok(v) => o.r == Ok::<_, ParseError>(types_view(v@)),
                    Err(e) => o.r == Err::<Seq<crate::ast::SpecType>, _>(e),
                })
            }),
        decreases self.toks().len() - self.tokens.pos(), 3int,
    {
        proof {
            self.tokens.lemma_bounds();
        }
        let start = self.tokens.index();
        if self.tokens.is_eof() {
            return Err(err_at(&self.tokens, ErrorKind::UnterminatedConstruct, start));
        }
        if self.tokens.assert_next(&TokenType::CloseParen) {
            return Ok(acc);
        }
        let ty = match self.parse_type() {
            Ok(t) => t,
            Err(e) => {
                return Err(e);
            },
        };
        let ghost acc0 = acc@;
        let mut acc2 = acc;
        acc2.push(ty);
        proof {
            assert(acc2@.drop_last() =~= acc0);
            assert(types_view(acc2@) =~= types_view(acc0).push(type_view(ty)));
        }
        let idx = self.tokens.index();
        if self.tokens.is_eof() {
            return Err(err_at(&self.tokens, ErrorKind::UnterminatedConstruct, idx));
        }
        if self.tokens.assert_next(&TokenType::CloseParen) {
            return Ok(acc2);
        }
        if self.tokens.peek_is(&TokenType::Comma) {
            if idx < start {
                return Err(err_at(&self.tokens, ErrorKind::InternalInconsistency, idx));
            }
            self.tokens.forward();
            return self.parse_tuple_items(acc2);
        }
        Err(err_at(&self.tokens, ErrorKind::SyntaxError, idx))
    }

    /// A primary type, optionally marked generic by a following `<`.
    fn parse_type_anna(&mut self) -> (r: Result<Type, ParseError>)
        requires
            old(self).wf(),
        ensures
            final(self).wf(),
            final(self).toks() == old(self).toks(),
            same_defs(old(self), final(self)),
            final(self).tokens.pos() >= old(self).tokens.pos(),
            ({
                let o = spec_parse_type_anna(old(self).toks(), old(self).tokens.pos());
                &&& final(self).tokens.pos() == o.i
                &&& (match r {
                    Ok(t) => o.r == Ok::<_, ParseError>(type_view(t)),
                    Err(e) => o.r == Err::<crate::ast::SpecType, _>(e),
                })
            }),
        decreases self.toks().len() - self.tokens.pos(), 1int,
    {
        let t = match self.parse_type_primary() {
            Ok(t) => t,
            Err(e) => {
                return Err(e);
            },
        };
        if self.tokens.assert_next(&TokenType::OperatorLes) {
            proof {
                assert(types_view(Seq::<Type>::empty()) =~= Seq::<crate::ast::SpecType>::empty());
            }
            Ok(Type::Generic(Box::new(t), Vec::new()))
        } else {
            Ok(t)
        }
    }

    /// A full type expression.
    fn parse_type(&mut self) -> (r: Result<Type, ParseError>)
        requires
            old(self).wf(),
        ensures
            final(self).wf(),
            final(self).toks() == old(self).toks(),
            same_defs(old(self), final(self)),
            final(self).tokens.pos() >= old(self).tokens.pos(),
            ({
                let o = spec_parse_type(old(self).toks(), old(self).tokens.pos());
                &&& final(self).tokens.pos() == o.i
                &&& (match r {
                    Ok(t) => o.r == Ok::<_, ParseError>(type_view(t)),
                    Err(e) => o.r == Err::<crate::ast::SpecType, _>(e),
                })
            }),
        decreases self.toks().len() - self.tokens.pos(), 2int,
    {
        self.parse_type_anna()
    }

    /// The return type: after an arrow a type, else the empty tuple.
    fn parse_fn_ret(&mut self) -> (r: Result<Type, ParseError>)
        requires
            old(self).wf(),
        ensures
            final(self).wf(),
            final(self).toks() == old(self).toks(),
            same_defs(old(self), final(self)),
            final(self).tokens.pos() >= old(self).tokens.pos(),
            ({
                let o = spec_parse_fn_ret(old(self).toks(), old(self).tokens.pos());
                &&& final(self).tokens.pos() == o.i
                &&& (match r {
                    Ok(t) => o.r == Ok::<_, ParseError>(type_view(t)),
                    Err(e) => o.r == Err::<crate::ast::SpecType, _>(e),
                })
            }),
    {
        if self.tokens.assert_next(&TokenType::OperatorArrow) {
            self.parse_type()
        } else {
            proof {
                assert(types_view(Seq::<Type>::empty()) =~= Seq::<crate::ast::SpecType>::empty());
            }
            Ok(Type::Tuple(Vec::new()))
        }
    }
}


impl Parser {
    /// A primary expression: identifier, literal, or parenthesized group.
    fn parse_expr_primary(&mut self) -> (r: Result<AstExpr, ParseError>)
        requires
            old(self).wf(),
        ensures
            final(self).wf(),
            final(self).toks() == old(self).toks(),
            same_defs(old(self), final(self)),
            final(self).tokens.pos() >= old(self).tokens.pos(),
            ({
                let o = spec_parse_expr_primary(old(self).toks(), old(self).tokens.pos());
                &&& final(self).tokens.pos() == o.i
                &&& (match r {
                    Ok(e) => o.r == Ok::<_, ParseError>(expr_view(e)),
                    Err(e) => o.r == Err::<SpecExpr, _>(e),
                })
            }),
        decreases self.toks().len() - self.tokens.pos(), 0int,
    {
        proof {
            self.tokens.lemma_bounds();
        }
        if self.tokens.is_eof() {
            let idx = self.tokens.index();
            return Err(err_at(&self.tokens, ErrorKind::UnterminatedConstruct, idx));
        }
        let idx = self.tokens.index();
        let t = self.tokens.peek().clone();
        match t.t_type {
            TokenType::Identifier(x) => {
                self.tokens.forward();
                Ok(AstExpr::Var(x))
            },
            TokenType::LiteralNum(x) => {
                self.tokens.forward();
                Ok(AstExpr::LiteralNum(x))
            },
            TokenType::LiteralStr(x) => {
                self.tokens.forward();
                Ok(AstExpr::LiteralStr(x))
            },
            TokenType::OpenParen => {
                self.tokens.forward();
                let e = match self.parse_expr() {
                    Ok(e) => e,
                    Err(er) => {
                        return Err(er);
                    },
                };
                let idx2 = self.tokens.index();
                if self.tokens.is_eof() {
                    return Err(err_at(&self.tokens, ErrorKind::UnterminatedConstruct, idx2));
                }
                if self.tokens.assert_next(&TokenType::CloseParen) {
                    Ok(e)
                } else {
                    Err(err_at(&self.tokens, ErrorKind::SyntaxError, idx2))
                }
            },
            _ => Err(err_at(&self.tokens, ErrorKind::SyntaxError, idx)),
        }
    }

    /// Call arguments after the opening parenthesis, accumulated in order;
    /// the separator must be the designated comma.
    fn parse_call_args(&mut self, acc: Vec<AstExpr>) -> (r: Result<Vec<AstExpr>, ParseError>)
        requires
            old(self).wf(),
        ensures
            final(self).wf(),
            final(self).toks() == old(self).toks(),
            same_defs(old(self), final(self)),
            final(self).tokens.pos() >= old(self).tokens.pos(),
            ({
                let o = spec_parse_call_args(old(self).toks(), old(self).tokens.pos(), exprs_view(acc@));
                &&& final(self).tokens.pos() == o.i
                &&& (match r {
                    Ok(v) => o.r == Ok::<_, ParseError>(exprs_view(v@)),
                    Err(e) => o.r == Err::<Seq<SpecExpr>, _>(e),
                })
            }),
        decreases self.toks().len() - self.tokens.pos(), 7int,
    {
        proof {
            self.tokens.lemma_bounds();
        }
        let start = self.tokens.index();
        let e = match self.parse_expr() {
            Ok(e) => e,
            Err(er) => {
                return Err(er);
            },
        };
        let ghost acc0 = acc@;
        let mut acc2 = acc;
        acc2.push(e);
        proof {
            assert(acc2@.drop_last() =~= acc0);
            assert(exprs_view(acc2@) =~= exprs_view(acc0).push(expr_view(e)));
        }
        let idx = self.tokens.index();
        if self.tokens.is_eof() {
            return Err(err_at(&self.tokens, ErrorKind::UnterminatedConstruct, idx));
        }
        if self.tokens.assert_next(&TokenType::CloseParen) {
            return Ok(acc2);
        }
        if self.tokens.peek_is(&TokenType::Comma) {
            if idx < start {
                return Err(err_at(&self.tokens, ErrorKind::InternalInconsistency, idx));
            }
            self.tokens.forward();
            return self.parse_call_args(acc2);
        }
        Err(err_at(&self.tokens, ErrorKind::SyntaxError, idx))
    }

    /// The call level: a primary immediately followed by `(` is a call.
    fn parse_expr_call(&mut self) -> (r: Result<AstExpr, ParseError>)
        requires
            old(self).wf(),
        ensures
            final(self).wf(),
            final(self).toks() == old(self).toks(),
            same_defs(old(self), final(self)),
            final(self).tokens.pos() >= old(self).tokens.pos(),
            ({
                let o = spec_parse_expr_call(old(self).toks(), old(self).tokens.pos());
                &&& final(self).tokens.pos() == o.i
                &&& (match r {
                    Ok(e) => o.r == Ok::<_, ParseError>(expr_view(e)),
                    Err(e) => o.r == Err::<SpecExpr, _>(e),
                })
            }),
        decreases self.toks().len() - self.tokens.pos(), 1int,
    {
        proof {
            self.tokens.lemma_bounds();
        }
        let start = self.tokens.index();
        let m = match self.parse_expr_primary() {
            Ok(m) => m,
            Err(e) => {
                return Err(e);
            },
        };
        if self.tokens.peek_is(&TokenType::OpenParen) {
            let idx = self.tokens.index();
            if idx < start {
                return Err(err_at(&self.tokens, ErrorKind::InternalInconsistency, idx));
            }
            self.tokens.forward();
            proof {
                assert(exprs_view(Seq::<AstExpr>::empty()) =~= Seq::<SpecExpr>::empty());
            }
            let args = match self.parse_call_args(Vec::new()) {
                Ok(a) => a,
                Err(e) => {
                    return Err(e);
                },
            };
            Ok(AstExpr::FnCall(Box::new(m), args))
        } else {
            Ok(m)
        }
    }

    /// The left-associative chain of `*` and `/` continuing `lhs`.
    fn parse_mul_tail(&mut self, lhs: AstExpr) -> (r: Result<AstExpr, ParseError>)
        requires
            old(self).wf(),
        ensures
            final(self).wf(),
            final(self).toks() == old(self).toks(),
            same_defs(old(self), final(self)),
            final(self).tokens.pos() >= old(self).tokens.pos(),
            ({
                let o = spec_parse_mul_tail(old(self).toks(), old(self).tokens.pos(), expr_view(lhs));
                &&& final(self).tokens.pos() == o.i
                &&& (match r {
                    Ok(e) => o.r == Ok::<_, ParseError>(expr_view(e)),
                    Err(e) => o.r == Err::<SpecExpr, _>(e),
                })
            }),
        decreases self.toks().len() - self.tokens.pos(), 3int,
    {
        proof {
            self.tokens.lemma_bounds();
        }
        let start = self.tokens.index();
        let is_mul = self.tokens.peek_is(&TokenType::OperatorMul);
        let is_div = self.tokens.peek_is(&TokenType::OperatorDiv);
        if is_mul || is_div {
            self.tokens.forward();
            let rhs = match self.parse_expr_call() {
                Ok(r) => r,
                Err(e) => {
                    return Err(e);
                },
            };
            let nl = if is_mul {
                AstExpr::Mul(Box::new(lhs), Box::new(rhs))
            } else {
                AstExpr::Div(Box::new(lhs), Box::new(rhs))
            };
            let idx = self.tokens.index();
            proof {
                self.tokens.lemma_bounds();
            }
            if idx <= start {
                return Err(err_at(&self.tokens, ErrorKind::InternalInconsistency, idx));
            }
            self.parse_mul_tail(nl)
        } else {
            Ok(lhs)
        }
    }

    /// The multiplicative level.
    fn parse_expr_mul(&mut self) -> (r: Result<AstExpr, ParseError>)
        requires
            old(self).wf(),
        ensures
            final(self).wf(),
            final(self).toks() == old(self).toks(),
            same_defs(old(self), final(self)),
            final(self).tokens.pos() >= old(self).tokens.pos(),
            ({
                let o = spec_parse_expr_mul(old(self).toks(), old(self).tokens.pos());
                &&& final(self).tokens.pos() == o.i
                &&& (match r {
                    Ok(e) => o.r == Ok::<_, ParseError>(expr_view(e)),
                    Err(e) => o.r == Err::<SpecExpr, _>(e),
                })
            }),
        decreases self.toks().len() - self.tokens.pos(), 2int,
    {
        proof {
            self.tokens.lemma_bounds();
        }
        let start = self.tokens.index();
        let lhs = match self.parse_expr_call() {
            Ok(l) => l,
            Err(e) => {
                return Err(e);
            },
        };
        let idx = self.tokens.index();
        proof {
            self.tokens.lemma_bounds();
        }
        if idx <= start {
            return Err(err_at(&self.tokens, ErrorKind::InternalInconsistency, idx));
        }
        self.parse_mul_tail(lhs)
    }

    /// The left-associative chain of `+` and `-` continuing `lhs`.
    fn parse_add_tail(&mut self, lhs: AstExpr) -> (r: Result<AstExpr, ParseError>)
        requires
            old(self).wf(),
        ensures
            final(self).wf(),
            final(self).toks() == old(self).toks(),
            same_defs(old(self), final(self)),
            final(self).tokens.pos() >= old(self).tokens.pos(),
            ({
                let o = spec_parse_add_tail(old(self).toks(), old(self).tokens.pos(), expr_view(lhs));
                &&& final(self).tokens.pos() == o.i
                &&& (match r {
                    Ok(e) => o.r == Ok::<_, ParseError>(expr_view(e)),
                    Err(e) => o.r == Err::<SpecExpr, _>(e),
                })
            }),
        decreases self.toks().len() - self.tokens.pos(), 5int,
    {
        proof {
            self.tokens.lemma_bounds();
        }
        let start = self.tokens.index();
        let is_add = self.tokens.peek_is(&TokenType::OperatorAdd);
        let is_sub = self.tokens.peek_is(&TokenType::OperatorSub);
        if is_add || is_sub {
            self.tokens.forward();
            let rhs = match self.parse_expr_mul() {
                Ok(r) => r,
                Err(e) => {
                    return Err(e);
                },
            };
            let nl = if is_add {
                AstExpr::Add(Box::new(lhs), Box::new(rhs))
            } else {
                AstExpr::Sub(Box::new(lhs), Box::new(rhs))
            };
            let idx = self.tokens.index();
            proof {
                self.tokens.lemma_bounds();
            }
            if idx <= start {
                return Err(err_at(&self.tokens, ErrorKind::InternalInconsistency, idx));
            }
            self.parse_add_tail(nl)
        } else {
            Ok(lhs)
        }
    }

    /// The additive level.
    fn parse_expr_add(&mut self) -> (r: Result<AstExpr, ParseError>)
        requires
            old(self).wf(),
        ensures
            final(self).wf(),
            final(self).toks() == old(self).toks(),
            same_defs(old(self), final(self)),
            final(self).tokens.pos() >= old(self).tokens.pos(),
            ({
                let o = spec_parse_expr_add(old(self).toks(), old(self).tokens.pos());
                &&& final(self).tokens.pos() == o.i
                &&& (match r {
                    Ok(e) => o.r == Ok::<_, ParseError>(expr_view(e)),
                    Err(e) => o.r == Err::<SpecExpr, _>(e),
                })
            }),
        decreases self.toks().len() - self.tokens.pos(), 4int,
    {
        proof {
            self.tokens.lemma_bounds();
        }
        let start = self.tokens.index();
        let lhs = match self.parse_expr_mul() {
            Ok(l) => l,
            Err(e) => {
                return Err(e);
            },
        };
        let idx = self.tokens.index();
        proof {
            self.tokens.lemma_bounds();
        }
        if idx <= start {
            return Err(err_at(&self.tokens, ErrorKind::InternalInconsistency, idx));
        }
        self.parse_add_tail(lhs)
    }

    /// A full expression: the additive level.
    fn parse_expr(&mut self) -> (r: Result<AstExpr, ParseError>)
        requires
            old(self).wf(),
        ensures
            final(self).wf(),
            final(self).toks() == old(self).toks(),
            same_defs(old(self), final(self)),
            final(self).tokens.pos() >= old(self).tokens.pos(),
            ({
                let o = spec_parse_expr(old(self).toks(), old(self).tokens.pos());
                &&& final(self).tokens.pos() == o.i
                &&& (match r {
                    Ok(e) => o.r == Ok::<_, ParseError>(expr_view(e)),
                    Err(e) => o.r == Err::<SpecExpr, _>(e),
                })
            }),
        decreases self.toks().len() - self.tokens.pos(), 6int,
    {
        self.parse_expr_add()
    }
}


impl Parser {
    /// Extension point: enum grammars are recognized but unimplemented.
    #[allow(unused_variables)]
    fn parse_enum_definion(&mut self, tier: usize, scope: Scope) -> (r: Result<(), ParseError>)
        requires
            old(self).wf(),
            old(self).tokens.pos() >= 1,
        ensures
            *final(self) == *old(self),
            r == Err::<(), ParseError>(crate::diag::spec_err(
                ErrorKind::UnsupportedConstruct, old(self).toks(), old(self).tokens.pos() - 1)),
    {
        let idx = self.tokens.index() - 1;
        Err(err_at(&self.tokens, ErrorKind::UnsupportedConstruct, idx))
    }

    /// Extension point: struct grammars are recognized but unimplemented.
    #[allow(unused_variables)]
    fn parse_struct_definion(&mut self, tier: usize, scope: Scope) -> (r: Result<(), ParseError>)
        requires
            old(self).wf(),
            old(self).tokens.pos() >= 1,
        ensures
            *final(self) == *old(self),
            r == Err::<(), ParseError>(crate::diag::spec_err(
                ErrorKind::UnsupportedConstruct, old(self).toks(), old(self).tokens.pos() - 1)),
    {
        let idx = self.tokens.index() - 1;
        Err(err_at(&self.tokens, ErrorKind::UnsupportedConstruct, idx))
    }

    /// Extension point: trait grammars are recognized but unimplemented.
    #[allow(unused_variables)]
    fn parse_trait_definion(&mut self, tier: usize, scope: Scope) -> (r: Result<(), ParseError>)
        requires
            old(self).wf(),
            old(self).tokens.pos() >= 1,
        ensures
            *final(self) == *old(self),
            r == Err::<(), ParseError>(crate::diag::spec_err(
                ErrorKind::UnsupportedConstruct, old(self).toks(), old(self).tokens.pos() - 1)),
    {
        let idx = self.tokens.index() - 1;
        Err(err_at(&self.tokens, ErrorKind::UnsupportedConstruct, idx))
    }

    /// Extension point: impl grammars are recognized but unimplemented.
    #[allow(unused_variables)]
    fn parse_impl_definion(&mut self, tier: usize, scope: Scope) -> (r: Result<Option<AstNode>, ParseError>)
        requires
            old(self).wf(),
            old(self).tokens.pos() >= 1,
        ensures
            *final(self) == *old(self),
            r == Err::<Option<AstNode>, ParseError>(crate::diag::spec_err(
                ErrorKind::UnsupportedConstruct, old(self).toks(), old(self).tokens.pos() - 1)),
    {
        let idx = self.tokens.index() - 1;
        Err(err_at(&self.tokens, ErrorKind::UnsupportedConstruct, idx))
    }

    /// A function's argument list after the opening parenthesis: `name :
    /// type` pairs separated by commas, each bound under a fresh symbol.
    fn parse_fn_args(&mut self, args: Vec<FnArg>, binds: Vec<TypeBinding>) -> (r: Result<
        (Vec<FnArg>, Vec<TypeBinding>),
        ParseError,
    >)
        requires
            old(self).wf(),
            old(self).sym() + 2 <= old(self).tokens.pos(),
        ensures
            final(self).wf(),
            final(self).sym() + 2 <= final(self).tokens.pos(),
            final(self).toks() == old(self).toks(),
            final(self).fn_def == old(self).fn_def,
            same_aux(old(self), final(self)),
            final(self).tokens.pos() >= old(self).tokens.pos(),
            ({
                let o = spec_parse_fn_args(
                    old(self).toks(),
                    old(self).tokens.pos(),
                    old(self).sym(),
                    args@.map_values(|a: FnArg| a@),
                    binds@.map_values(|b: TypeBinding| b@),
                );
                &&& final(self).tokens.pos() == o.i
                &&& final(self).sym() == o.sym
                &&& (match r {
                    Ok(v) => o.r == Ok::<_, ParseError>(SigParts {
                        args: v.0@.map_values(|a: FnArg| a@),
                        binds: v.1@.map_values(|b: TypeBinding| b@),
                    }),
                    Err(e) => o.r == Err::<SigParts, _>(e),
                })
            }),
        decreases self.toks().len() - self.tokens.pos(),
    {
        proof {
            self.tokens.lemma_bounds();
        }
        let start = self.tokens.index();
        if self.tokens.is_eof() {
            return Err(err_at(&self.tokens, ErrorKind::UnterminatedConstruct, start));
        }
        if self.tokens.assert_next(&TokenType::CloseParen) {
            return Ok((args, binds));
        }
        let t = self.tokens.peek().clone();
        match t.t_type {
            TokenType::Identifier(an) => {
                self.tokens.forward();
                let idx1 = self.tokens.index();
                if self.tokens.is_eof() {
                    return Err(err_at(&self.tokens, ErrorKind::UnterminatedConstruct, idx1));
                }
                if !self.tokens.assert_next(&TokenType::OperatorColon) {
                    return Err(err_at(&self.tokens, ErrorKind::SyntaxError, idx1));
                }
                let ty = match self.parse_type() {
                    Ok(t) => t,
                    Err(e) => {
                        return Err(e);
                    },
                };
                let s = self.sym_name();
                let ghost args0 = args@.map_values(|a: FnArg| a@);
                let ghost binds0 = binds@.map_values(|b: TypeBinding| b@);
                let mut args2 = args;
                let mut binds2 = binds;
                args2.push(FnArg { name: an, type_symbol: s.clone() });
                binds2.push(TypeBinding { symbol: s, ty });
                proof {
                    assert(args2@.map_values(|a: FnArg| a@) =~= args0.push(
                        SpecFnArg { name: args2@.last().name@, type_symbol: args2@.last().type_symbol@ }));
                    assert(binds2@.map_values(|b: TypeBinding| b@) =~= binds0.push(
                        SpecTypeBinding { symbol: binds2@.last().symbol@, ty: type_view(binds2@.last().ty) }));
                }
                let idx2 = self.tokens.index();
                if self.tokens.is_eof() {
                    return Err(err_at(&self.tokens, ErrorKind::UnterminatedConstruct, idx2));
                }
                if self.tokens.assert_next(&TokenType::CloseParen) {
                    return Ok((args2, binds2));
                }
                if self.tokens.peek_is(&TokenType::Comma) {
                    if idx2 < start {
                        return Err(err_at(&self.tokens, ErrorKind::InternalInconsistency, idx2));
                    }
                    self.tokens.forward();
                    return self.parse_fn_args(args2, binds2);
                }
                Err(err_at(&self.tokens, ErrorKind::SyntaxError, idx2))
            },
            _ => Err(err_at(&self.tokens, ErrorKind::SyntaxError, start)),
        }
    }

    /// The optional body after a registered signature: `=` then either a
    /// deeper-tier block or a single expression in a one-statement block;
    /// with no `=` the definition is declaration-only.
    fn parse_fn_body(&mut self, tier: usize, fname: String) -> (r: Result<Option<AstNode>, ParseError>)
        requires
            old(self).wf(),
            (tier as int) < old(self).tokens.pos(),
        ensures
            final(self).wf(),
            final(self).toks() == old(self).toks(),
            same_aux(old(self), final(self)),
            final(self).tokens.pos() >= old(self).tokens.pos(),
            ({
                let o = spec_parse_fn_body(old(self).toks(), old(self).st(), tier as int, fname@);
                &&& final(self).st() == o.st
                &&& (match r {
                    Ok(None) => o.r == Ok::<Option<SpecNode>, ParseError>(None),
                    Ok(Some(n)) => o.r == Ok::<Option<SpecNode>, ParseError>(Some(node_view(n))),
                    Err(e) => o.r == Err::<Option<SpecNode>, _>(e),
                })
            }),
        decreases self.toks().len() - self.tokens.pos(), 0int,
    {
        proof {
            self.tokens.lemma_bounds();
        }
        if self.tokens.assert_next(&TokenType::OperatorAssign) {
            if self.tokens.tier_at_least(tier + 1) {
                let body = match self.parse_block(tier + 1) {
                    Ok(b) => b,
                    Err(e) => {
                        return Err(e);
                    },
                };
                Ok(Some(AstNode::Fn(fname, body)))
            } else {
                let e = match self.parse_expr() {
                    Ok(e) => e,
                    Err(er) => {
                        return Err(er);
                    },
                };
                let mut body = AstBlock::new();
                body.add(AstNode::Expr(e));
                proof {
                    assert(body@ =~= seq![SpecNode::Expr(expr_view(e))]);
                }
                Ok(Some(AstNode::Fn(fname, body)))
            }
        } else {
            Ok(None)
        }
    }

    /// A function definition after the `fn` keyword: signature, registration
    /// under fresh symbols, optional body.
    fn parse_fn_definion(&mut self, tier: usize, scope: Scope) -> (r: Result<Option<AstNode>, ParseError>)
        requires
            old(self).wf(),
            old(self).sym() + 2 <= old(self).tokens.pos(),
            (tier as int) < old(self).tokens.pos(),
        ensures
            final(self).wf(),
            final(self).toks() == old(self).toks(),
            same_aux(old(self), final(self)),
            final(self).tokens.pos() >= old(self).tokens.pos(),
            ({
                let o = spec_parse_fn_definion(old(self).toks(), old(self).st(), tier as int, scope);
                &&& final(self).st() == o.st
                &&& (match r {
                    Ok(None) => o.r == Ok::<Option<SpecNode>, ParseError>(None),
                    Ok(Some(n)) => o.r == Ok::<Option<SpecNode>, ParseError>(Some(node_view(n))),
                    Err(e) => o.r == Err::<Option<SpecNode>, _>(e),
                })
            }),
        decreases self.toks().len() - self.tokens.pos(), 1int,
    {
        proof {
            self.tokens.lemma_bounds();
        }
        let idx = self.tokens.index();
        if self.tokens.is_eof() {
            return Err(err_at(&self.tokens, ErrorKind::UnterminatedConstruct, idx));
        }
        let t = self.tokens.peek().clone();
        match t.t_type {
            TokenType::OperatorLes => {
                self.tokens.forward();
                Err(err_at(&self.tokens, ErrorKind::UnsupportedConstruct, idx))
            },
            TokenType::Identifier(fname) => {
                self.tokens.forward();
                let idx1 = self.tokens.index();
                if self.tokens.is_eof() {
                    return Err(err_at(&self.tokens, ErrorKind::UnterminatedConstruct, idx1));
                }
                if !self.tokens.assert_next(&TokenType::OpenParen) {
                    return Err(err_at(&self.tokens, ErrorKind::SyntaxError, idx1));
                }
                let ea: Vec<FnArg> = Vec::new();
                let eb: Vec<TypeBinding> = Vec::new();
                proof {
                    assert(ea@.map_values(|a: FnArg| a@) =~= Seq::<SpecFnArg>::empty());
                    assert(eb@.map_values(|b: TypeBinding| b@) =~= Seq::<SpecTypeBinding>::empty());
                }
                let sig = match self.parse_fn_args(ea, eb) {
                    Ok(s) => s,
                    Err(e) => {
                        return Err(e);
                    },
                };
                let rt = match self.parse_fn_ret() {
                    Ok(t) => t,
                    Err(e) => {
                        return Err(e);
                    },
                };
                let rsym = self.sym_name();
                let (args, binds) = sig;
                let ghost binds0 = binds@.map_values(|b: TypeBinding| b@);
                let mut binds2 = binds;
                binds2.push(TypeBinding { symbol: rsym.clone(), ty: rt });
                proof {
                    assert(binds2@.map_values(|b: TypeBinding| b@) =~= binds0.push(
                        SpecTypeBinding { symbol: binds2@.last().symbol@, ty: type_view(binds2@.last().ty) }));
                }
                let def = FnDef {
                    name: fname.clone(),
                    types: binds2,
                    arguments: args,
                    ret_type: rsym,
                };
                let ghost fns0 = self.fn_def@.map_values(|w: WithScope<FnDef>| w@);
                self.fn_def.push(WithScope { value: def, scope: Scope::Global });
                proof {
                    assert(self.fn_def@.map_values(|w: WithScope<FnDef>| w@) =~= fns0.push(
                        self.fn_def@.last()@));
                }
                proof {
                    self.tokens.lemma_bounds();
                }
                self.parse_fn_body(tier, fname)
            },
            _ => Err(err_at(&self.tokens, ErrorKind::SyntaxError, idx)),
        }
    }

    /// The definition dispatcher: routes on the keyword under the cursor;
    /// anything else is not a definition and leaves the cursor unchanged.
    fn parse_definion(&mut self, tier: usize, scope: Scope) -> (r: Result<
        Option<Option<AstNode>>,
        ParseError,
    >)
        requires
            old(self).wf(),
            old(self).sym() < old(self).tokens.pos(),
            (tier as int) <= old(self).tokens.pos(),
        ensures
            final(self).wf(),
            final(self).toks() == old(self).toks(),
            same_aux(old(self), final(self)),
            final(self).tokens.pos() >= old(self).tokens.pos(),
            ({
                let o = spec_parse_definion(old(self).toks(), old(self).st(), tier as int, scope);
                &&& final(self).st() == o.st
                &&& (match r {
                    Ok(None) => o.r == Ok::<Option<Option<SpecNode>>, ParseError>(None),
                    Ok(Some(None)) => o.r == Ok::<Option<Option<SpecNode>>, ParseError>(Some(None)),
                    Ok(Some(Some(n))) => o.r == Ok::<Option<Option<SpecNode>>, ParseError>(
                        Some(Some(node_view(n)))),
                    Err(e) => o.r == Err::<Option<Option<SpecNode>>, _>(e),
                })
            }),
        decreases self.toks().len() - self.tokens.pos(), 0int,
    {
        proof {
            self.tokens.lemma_bounds();
        }
        if self.tokens.is_eof() {
            return Ok(None);
        }
        if self.tokens.peek_is(&TokenType::KeywordFn) {
            self.tokens.forward();
            let o = match self.parse_fn_definion(tier, scope) {
                Ok(o) => o,
                Err(e) => {
                    return Err(e);
                },
            };
            Ok(Some(o))
        } else if self.tokens.peek_is(&TokenType::KeywordEnum) {
            self.tokens.forward();
            match self.parse_enum_definion(tier, scope) {
                Ok(_) => Ok(Some(None)),
                Err(e) => Err(e),
            }
        } else if self.tokens.peek_is(&TokenType::KeywordStruct) {
            self.tokens.forward();
            match self.parse_struct_definion(tier, scope) {
                Ok(_) => Ok(Some(None)),
                Err(e) => Err(e),
            }
        } else if self.tokens.peek_is(&TokenType::KeywordTrait) {
            self.tokens.forward();
            match self.parse_trait_definion(tier, scope) {
                Ok(_) => Ok(Some(None)),
                Err(e) => Err(e),
            }
        } else if self.tokens.peek_is(&TokenType::KeywordImpl) {
            self.tokens.forward();
            match self.parse_impl_definion(tier, scope) {
                Ok(n) => Ok(Some(n)),
                Err(e) => Err(e),
            }
        } else {
            Ok(None)
        }
    }

    /// One statement at `tier`: a deep-enough line marker keeps the block
    /// alive, then a definition is tried before an expression statement;
    /// otherwise the block ends.
    fn parse_stmt(&mut self, tier: usize, scope: Scope) -> (r: Result<Option<AstNode>, ParseError>)
        requires
            old(self).wf(),
            (tier as int) <= old(self).tokens.pos(),
        ensures
            final(self).wf(),
            final(self).toks() == old(self).toks(),
            same_aux(old(self), final(self)),
            final(self).tokens.pos() >= old(self).tokens.pos(),
            ({
                let o = spec_parse_stmt(old(self).toks(), old(self).st(), tier as int, scope);
                &&& final(self).st() == o.st
                &&& (match r {
                    Ok(None) => o.r == Ok::<Option<SpecNode>, ParseError>(None),
                    Ok(Some(n)) => o.r == Ok::<Option<SpecNode>, ParseError>(Some(node_view(n))),
                    Err(e) => o.r == Err::<Option<SpecNode>, _>(e),
                })
            }),
        decreases self.toks().len() - self.tokens.pos(), 0int,
    {
        proof {
            self.tokens.lemma_bounds();
        }
        if self.tokens.assert_next_tier(tier) {
            let d = match self.parse_definion(tier, scope) {
                Ok(d) => d,
                Err(e) => {
                    return Err(e);
                },
            };
            match d {
                Some(Some(n)) => Ok(Some(n)),
                Some(None) => Ok(Some(AstNode::Empty)),
                None => {
                    let e = match self.parse_expr() {
                        Ok(e) => e,
                        Err(er) => {
                            return Err(er);
                        },
                    };
                    Ok(Some(AstNode::Expr(e)))
                },
            }
        } else {
            Ok(None)
        }
    }

    /// The statements of one block, in order, until the block ends.
    fn parse_stmts(&mut self, tier: usize, scope: Scope, acc: AstBlock) -> (r: Result<AstBlock, ParseError>)
        requires
            old(self).wf(),
            (tier as int) <= old(self).tokens.pos(),
        ensures
            final(self).wf(),
            final(self).toks() == old(self).toks(),
            same_aux(old(self), final(self)),
            final(self).tokens.pos() >= old(self).tokens.pos(),
            ({
                let o = spec_parse_stmts(old(self).toks(), old(self).st(), tier as int, scope, acc@);
                &&& final(self).st() == o.st
                &&& (match r {
                    Ok(b) => o.r == Ok::<Seq<SpecNode>, ParseError>(b@),
                    Err(e) => o.r == Err::<Seq<SpecNode>, _>(e),
                })
            }),
        decreases self.toks().len() - self.tokens.pos(), 1int,
    {
        proof {
            self.tokens.lemma_bounds();
        }
        let start = self.tokens.index();
        let so = match self.parse_stmt(tier, scope) {
            Ok(s) => s,
            Err(e) => {
                return Err(e);
            },
        };
        match so {
            None => Ok(acc),
            Some(n) => {
                let mut acc2 = acc;
                acc2.add(n);
                let idx = self.tokens.index();
                proof {
                    self.tokens.lemma_bounds();
                }
                if idx <= start {
                    return Err(err_at(&self.tokens, ErrorKind::InternalInconsistency, idx));
                }
                self.parse_stmts(tier, scope, acc2)
            },
        }
    }

    /// A tier-scoped block: resolve its token range, then parse statements
    /// until the block ends.
    fn parse_block(&mut self, tier: usize) -> (r: Result<AstBlock, ParseError>)
        requires
            old(self).wf(),
            (tier as int) <= old(self).tokens.pos(),
        ensures
            final(self).wf(),
            final(self).toks() == old(self).toks(),
            same_aux(old(self), final(self)),
            final(self).tokens.pos() >= old(self).tokens.pos(),
            ({
                let o = spec_parse_block(old(self).toks(), old(self).st(), tier as int);
                &&& final(self).st() == o.st
                &&& (match r {
                    Ok(b) => o.r == Ok::<Seq<SpecNode>, ParseError>(b@),
                    Err(e) => o.r == Err::<Seq<SpecNode>, _>(e),
                })
            }),
        decreases self.toks().len() - self.tokens.pos(), 2int,
    {
        let scope = self.find_scope(tier);
        let b = AstBlock::new();
        self.parse_stmts(tier, scope, b)
    }

    /// The top-level loop: collect definitions into the program until the
    /// input ends; every line must open with a tier marker and hold a
    /// definition.
    fn parse_program_rest(&mut self, acc: AstProgram) -> (r: Result<AstProgram, ParseError>)
        requires
            old(self).wf(),
        ensures
            final(self).wf(),
            final(self).toks() == old(self).toks(),
            same_aux(old(self), final(self)),
            final(self).tokens.pos() >= old(self).tokens.pos(),
            ({
                let o = spec_parse_program_items(old(self).toks(), old(self).st(), acc@);
                &&& final(self).st() == o.st
                &&& (match r {
                    Ok(p) => o.r == Ok::<Seq<SpecNode>, ParseError>(p@),
                    Err(e) => o.r == Err::<Seq<SpecNode>, _>(e),
                })
            }),
        decreases self.toks().len() - self.tokens.pos(),
    {
        proof {
            self.tokens.lemma_bounds();
        }
        if self.tokens.is_eof() {
            return Ok(acc);
        }
        let start = self.tokens.index();
        if self.tokens.assert_next_tier(0) {
            if self.tokens.is_eof() {
                return Ok(acc);
            }
            let d = match self.parse_definion(0, Scope::Global) {
                Ok(d) => d,
                Err(e) => {
                    return Err(e);
                },
            };
            match d {
                None => {
                    let idx = self.tokens.index();
                    Err(err_at(&self.tokens, ErrorKind::SyntaxError, idx))
                },
                Some(opt) => {
                    let mut acc2 = acc;
                    match opt {
                        Some(n) => {
                            acc2.add(n);
                        },
                        None => {},
                    }
                    let idx2 = self.tokens.index();
                    proof {
                        self.tokens.lemma_bounds();
                    }
                    if idx2 <= start {
                        return Err(err_at(&self.tokens, ErrorKind::InternalInconsistency, idx2));
                    }
                    self.parse_program_rest(acc2)
                },
            }
        } else {
            let idx = self.tokens.index();
            Err(err_at(&self.tokens, ErrorKind::SyntaxError, idx))
        }
    }

    /// Parse the whole token sequence into a `Program` AST, registering
    /// definitions on the way. Fail-fast: the first syntax problem is
    /// returned and the stored AST is left untouched; on success `self.ast`
    /// holds the program. The outcome is exactly `spec_parse_program_items`
    /// on the starting state, so reparsing the same tokens with a fresh
    /// parser yields a structurally identical result.
    pub fn parse(&mut self) -> (r: Result<(), ParseError>)
        requires
            old(self).wf(),
        ensures
            final(self).wf(),
            final(self).toks() == old(self).toks(),
            final(self).struct_def == old(self).struct_def,
            final(self).enum_def == old(self).enum_def,
            final(self).trait_def == old(self).trait_def,
            final(self).var_def == old(self).var_def,
            ({
                let o = spec_parse_program_items(old(self).toks(), old(self).st(), Seq::<SpecNode>::empty());
                &&& final(self).st() == o.st
                &&& (match r {
                    Ok(_) => o.r matches Ok(nodes) && node_view(final(self).ast)
                        == SpecNode::Program(nodes),
                    Err(e) => o.r == Err::<Seq<SpecNode>, ParseError>(e)
                        && final(self).ast == old(self).ast,
                })
            }),
    {
        let p0 = AstProgram::new();
        let prog = match self.parse_program_rest(p0) {
            Ok(p) => p,
            Err(e) => {
                return Err(e);
            },
        };
        self.ast = AstNode::Program(prog);
        Ok(())
    }
}

} // verus!
