//! The grammar, as mathematics: one specification function per production.
//!
//! Each function consumes the token sequence from an index and returns the
//! parse result together with the index it stopped at; the definition-level
//! functions also thread the symbol counter and the function table. The
//! executable parser's contracts state that it computes exactly these
//! functions. Parsing is fail-fast: the first error is the result.
//!
//! Productions that re-enter at the same index descend the precedence order,
//! so every recursion either consumes input or moves to a tighter level; a
//! sub-parse that failed to advance where it must would be reported as
//! `InternalInconsistency` (and is never reached).

use vstd::prelude::*;
use crate::ast::{Scope, SpecExpr, SpecFnArg, SpecFnDef, SpecNode, SpecType, SpecTypeBinding,
    SpecWithScope};
use crate::diag::{ErrorKind, ParseError, spec_err};
use crate::names::spec_sym_name;
use crate::token::{at_eof, SpecToken, SpecTokenType, spec_scope_end, tier_at_least_at};

verus! {

/// The kind of the token at `i`.
pub open spec fn tt(toks: Seq<SpecToken>, i: int) -> SpecTokenType {
    toks[i].t_type
}

/// Parser state threaded through definition-level productions: cursor index,
/// symbol counter, and the registered function definitions.
pub ghost struct St {
    pub i: int,
    pub sym: nat,
    pub fns: Seq<SpecWithScope>,
}

/// The state a fresh parser starts from.
pub open spec fn initial_state() -> St {
    St { i: 0, sym: 0, fns: Seq::empty() }
}

/// Outcome of an expression production.
pub ghost struct ExprOut {
    pub r: Result<SpecExpr, ParseError>,
    pub i: int,
}

/// Outcome of a call-argument-list production.
pub ghost struct ExprsOut {
    pub r: Result<Seq<SpecExpr>, ParseError>,
    pub i: int,
}

/// Outcome of a type production.
pub ghost struct TypeOut {
    pub r: Result<SpecType, ParseError>,
    pub i: int,
}

/// Outcome of a tuple-element-list production.
pub ghost struct TypesOut {
    pub r: Result<Seq<SpecType>, ParseError>,
    pub i: int,
}

/// The pieces a function signature's argument list yields: the arguments in
/// declaration order and their type bindings, one fresh symbol each.
pub ghost struct SigParts {
    pub args: Seq<SpecFnArg>,
    pub binds: Seq<SpecTypeBinding>,
}

/// Outcome of the argument-list production (also advances the symbol counter).
pub ghost struct FnArgsOut {
    pub r: Result<SigParts, ParseError>,
    pub i: int,
    pub sym: nat,
}

/// Outcome of the definition dispatcher: `Ok(None)` means "not a definition;
/// the cursor did not move", `Ok(Some(None))` a definition that yields no
/// node, `Ok(Some(Some(n)))` a definition with node `n`.
pub ghost struct DefOut {
    pub r: Result<Option<Option<SpecNode>>, ParseError>,
    pub st: St,
}

/// Outcome of the function-definition production: `Ok(None)` is a
/// declaration-only definition (registered, but no node).
pub ghost struct FnDefOut {
    pub r: Result<Option<SpecNode>, ParseError>,
    pub st: St,
}

/// Outcome of the statement production: `Ok(None)` means the block ended.
pub ghost struct StmtOut {
    pub r: Result<Option<SpecNode>, ParseError>,
    pub st: St,
}

/// Outcome of a statement-sequence or program production.
pub ghost struct NodesOut {
    pub r: Result<Seq<SpecNode>, ParseError>,
    pub st: St,
}

/// Primary expressions: identifiers, literals, and parenthesized groups.
pub open spec fn spec_parse_expr_primary(toks: Seq<SpecToken>, i: int) -> ExprOut
    decreases toks.len() - i, 0int,
{
    if at_eof(toks, i) {
        ExprOut { r: Err(spec_err(ErrorKind::UnterminatedConstruct, toks, i)), i }
    } else {
        match tt(toks, i) {
            SpecTokenType::Identifier(x) => ExprOut { r: Ok(SpecExpr::Var(x)), i: i + 1 },
            SpecTokenType::LiteralNum(x) => ExprOut { r: Ok(SpecExpr::LiteralNum(x)), i: i + 1 },
            SpecTokenType::LiteralStr(x) => ExprOut { r: Ok(SpecExpr::LiteralStr(x)), i: i + 1 },
            SpecTokenType::OpenParen => {
                let io = spec_parse_expr(toks, i + 1);
                match io.r {
                    Err(e) => ExprOut { r: Err(e), i: io.i },
                    Ok(e) => if at_eof(toks, io.i) {
                        ExprOut {
                            r: Err(spec_err(ErrorKind::UnterminatedConstruct, toks, io.i)),
                            i: io.i,
                        }
                    } else if tt(toks, io.i) is CloseParen {
                        ExprOut { r: Ok(e), i: io.i + 1 }
                    } else {
                        ExprOut { r: Err(spec_err(ErrorKind::SyntaxError, toks, io.i)), i: io.i }
                    },
                }
            },
            _ => ExprOut { r: Err(spec_err(ErrorKind::SyntaxError, toks, i)), i },
        }
    }
}

/// Call argument lists, after the opening parenthesis: expressions separated
/// by commas, closed by `)`. A separator that is not the designated comma is
/// a syntax error; end of input before `)` leaves the call unterminated.
pub open spec fn spec_parse_call_args(toks: Seq<SpecToken>, i: int, acc: Seq<SpecExpr>) -> ExprsOut
    decreases toks.len() - i, 7int,
{
    let eo = spec_parse_expr(toks, i);
    match eo.r {
        Err(e) => ExprsOut { r: Err(e), i: eo.i },
        Ok(a) => {
            let acc2 = acc.push(a);
            if at_eof(toks, eo.i) {
                ExprsOut { r: Err(spec_err(ErrorKind::UnterminatedConstruct, toks, eo.i)), i: eo.i }
            } else if tt(toks, eo.i) is CloseParen {
                ExprsOut { r: Ok(acc2), i: eo.i + 1 }
            } else if tt(toks, eo.i) is Comma {
                if eo.i < i {
                    ExprsOut {
                        r: Err(spec_err(ErrorKind::InternalInconsistency, toks, eo.i)),
                        i: eo.i,
                    }
                } else {
                    spec_parse_call_args(toks, eo.i + 1, acc2)
                }
            } else {
                ExprsOut { r: Err(spec_err(ErrorKind::SyntaxError, toks, eo.i)), i: eo.i }
            }
        },
    }
}

/// Calls bind tighter than arithmetic: a primary immediately followed by `(`
/// starts an argument list.
pub open spec fn spec_parse_expr_call(toks: Seq<SpecToken>, i: int) -> ExprOut
    decreases toks.len() - i, 1int,
{
    let po = spec_parse_expr_primary(toks, i);
    match po.r {
        Err(e) => po,
        Ok(m) => {
            if !at_eof(toks, po.i) && tt(toks, po.i) is OpenParen {
                if po.i < i {
                    ExprOut {
                        r: Err(spec_err(ErrorKind::InternalInconsistency, toks, po.i)),
                        i: po.i,
                    }
                } else {
                    let ao = spec_parse_call_args(toks, po.i + 1, Seq::empty());
                    match ao.r {
                        Ok(args) => ExprOut {
                            r: Ok(SpecExpr::FnCall(Box::new(m), args)),
                            i: ao.i,
                        },
                        Err(e) => ExprOut { r: Err(e), i: ao.i },
                    }
                }
            } else {
                po
            }
        },
    }
}

/// Left-associative chain of `*` and `/` over call-level operands.
pub open spec fn spec_parse_mul_tail(toks: Seq<SpecToken>, i: int, lhs: SpecExpr) -> ExprOut
    decreases toks.len() - i, 3int,
{
    if !at_eof(toks, i) && (tt(toks, i) is OperatorMul || tt(toks, i) is OperatorDiv) {
        let ro = spec_parse_expr_call(toks, i + 1);
        match ro.r {
            Err(e) => ExprOut { r: Err(e), i: ro.i },
            Ok(rhs) => {
                let nl = if tt(toks, i) is OperatorMul {
                    SpecExpr::Mul(Box::new(lhs), Box::new(rhs))
                } else {
                    SpecExpr::Div(Box::new(lhs), Box::new(rhs))
                };
                if ro.i <= i || ro.i > toks.len() {
                    ExprOut {
                        r: Err(spec_err(ErrorKind::InternalInconsistency, toks, ro.i)),
                        i: ro.i,
                    }
                } else {
                    spec_parse_mul_tail(toks, ro.i, nl)
                }
            },
        }
    } else {
        ExprOut { r: Ok(lhs), i }
    }
}

/// The multiplicative level.
pub open spec fn spec_parse_expr_mul(toks: Seq<SpecToken>, i: int) -> ExprOut
    decreases toks.len() - i, 2int,
{
    let co = spec_parse_expr_call(toks, i);
    match co.r {
        Err(e) => co,
        Ok(lhs) => if co.i <= i || co.i > toks.len() {
            ExprOut { r: Err(spec_err(ErrorKind::InternalInconsistency, toks, co.i)), i: co.i }
        } else {
            spec_parse_mul_tail(toks, co.i, lhs)
        },
    }
}

/// Left-associative chain of `+` and `-` over multiplicative operands.
pub open spec fn spec_parse_add_tail(toks: Seq<SpecToken>, i: int, lhs: SpecExpr) -> ExprOut
    decreases toks.len() - i, 5int,
{
    if !at_eof(toks, i) && (tt(toks, i) is OperatorAdd || tt(toks, i) is OperatorSub) {
        let ro = spec_parse_expr_mul(toks, i + 1);
        match ro.r {
            Err(e) => ExprOut { r: Err(e), i: ro.i },
            Ok(rhs) => {
                let nl = if tt(toks, i) is OperatorAdd {
                    SpecExpr::Add(Box::new(lhs), Box::new(rhs))
                } else {
                    SpecExpr::Sub(Box::new(lhs), Box::new(rhs))
                };
                if ro.i <= i || ro.i > toks.len() {
                    ExprOut {
                        r: Err(spec_err(ErrorKind::InternalInconsistency, toks, ro.i)),
                        i: ro.i,
                    }
                } else {
                    spec_parse_add_tail(toks, ro.i, nl)
                }
            },
        }
    } else {
        ExprOut { r: Ok(lhs), i }
    }
}

/// The additive level.
pub open spec fn spec_parse_expr_add(toks: Seq<SpecToken>, i: int) -> ExprOut
    decreases toks.len() - i, 4int,
{
    let mo = spec_parse_expr_mul(toks, i);
    match mo.r {
        Err(e) => mo,
        Ok(lhs) => if mo.i <= i || mo.i > toks.len() {
            ExprOut { r: Err(spec_err(ErrorKind::InternalInconsistency, toks, mo.i)), i: mo.i }
        } else {
            spec_parse_add_tail(toks, mo.i, lhs)
        },
    }
}

/// A full expression: the additive level.
pub open spec fn spec_parse_expr(toks: Seq<SpecToken>, i: int) -> ExprOut
    decreases toks.len() - i, 6int,
{
    spec_parse_expr_add(toks, i)
}

/// The primitive type named by an identifier, or `Unknown` for anything the
/// parser does not recognize (resolved by later stages).
pub open spec fn spec_prim_type_of(name: Seq<char>) -> SpecType {
    if name == "i8"@ {
        SpecType::I8
    } else if name == "i16"@ {
        SpecType::I16
    } else if name == "i32"@ {
        SpecType::I32
    } else if name == "i64"@ {
        SpecType::I64
    } else if name == "i128"@ {
        SpecType::I128
    } else if name == "u8"@ {
        SpecType::U8
    } else if name == "u16"@ {
        SpecType::U16
    } else if name == "u32"@ {
        SpecType::U32
    } else if name == "u64"@ {
        SpecType::U64
    } else if name == "u128"@ {
        SpecType::U128
    } else if name == "bool"@ {
        SpecType::Bool
    } else if name == "f32"@ {
        SpecType::F32
    } else if name == "f64"@ {
        SpecType::F64
    } else {
        SpecType::Unknown
    }
}

/// Tuple elements, after the opening parenthesis: types separated by commas,
/// closed by `)`; zero elements form the unit type.
pub open spec fn spec_parse_tuple_items(toks: Seq<SpecToken>, i: int, acc: Seq<SpecType>) -> TypesOut
    decreases toks.len() - i, 3int,
{
    if at_eof(toks, i) {
        TypesOut { r: Err(spec_err(ErrorKind::UnterminatedConstruct, toks, i)), i }
    } else if tt(toks, i) is CloseParen {
        TypesOut { r: Ok(acc), i: i + 1 }
    } else {
        let to = spec_parse_type(toks, i);
        match to.r {
            Err(e) => TypesOut { r: Err(e), i: to.i },
            Ok(t) => {
                let acc2 = acc.push(t);
                if at_eof(toks, to.i) {
                    TypesOut {
                        r: Err(spec_err(ErrorKind::UnterminatedConstruct, toks, to.i)),
                        i: to.i,
                    }
                } else if tt(toks, to.i) is CloseParen {
                    TypesOut { r: Ok(acc2), i: to.i + 1 }
                } else if tt(toks, to.i) is Comma {
                    if to.i < i {
                        TypesOut {
                            r: Err(spec_err(ErrorKind::InternalInconsistency, toks, to.i)),
                            i: to.i,
                        }
                    } else {
                        spec_parse_tuple_items(toks, to.i + 1, acc2)
                    }
                } else {
                    TypesOut { r: Err(spec_err(ErrorKind::SyntaxError, toks, to.i)), i: to.i }
                }
            },
        }
    }
}

/// A primary type: a primitive or unknown identifier, or a tuple.
pub open spec fn spec_parse_type_primary(toks: Seq<SpecToken>, i: int) -> TypeOut
    decreases toks.len() - i, 0int,
{
    if at_eof(toks, i) {
        TypeOut { r: Err(spec_err(ErrorKind::UnterminatedConstruct, toks, i)), i }
    } else {
        match tt(toks, i) {
            SpecTokenType::Identifier(t) => TypeOut { r: Ok(spec_prim_type_of(t)), i: i + 1 },
            SpecTokenType::OpenParen => {
                let ts = spec_parse_tuple_items(toks, i + 1, Seq::empty());
                match ts.r {
                    Ok(items) => TypeOut { r: Ok(SpecType::Tuple(items)), i: ts.i },
                    Err(e) => TypeOut { r: Err(e), i: ts.i },
                }
            },
            _ => TypeOut { r: Err(spec_err(ErrorKind::SyntaxError, toks, i)), i },
        }
    }
}

/// A primary type, optionally wrapped as generic by a following `<` (generic
/// argument parsing is an extension point: the argument list stays empty).
pub open spec fn spec_parse_type_anna(toks: Seq<SpecToken>, i: int) -> TypeOut
    decreases toks.len() - i, 1int,
{
    let po = spec_parse_type_primary(toks, i);
    match po.r {
        Err(e) => po,
        Ok(t) => if !at_eof(toks, po.i) && tt(toks, po.i) is OperatorLes {
            TypeOut { r: Ok(SpecType::Generic(Box::new(t), Seq::empty())), i: po.i + 1 }
        } else {
            po
        },
    }
}

/// A full type expression.
pub open spec fn spec_parse_type(toks: Seq<SpecToken>, i: int) -> TypeOut
    decreases toks.len() - i, 2int,
{
    spec_parse_type_anna(toks, i)
}

/// The return type: introduced by an arrow, or defaulting to the empty tuple.
pub open spec fn spec_parse_fn_ret(toks: Seq<SpecToken>, i: int) -> TypeOut
    decreases toks.len() - i, 4int,
{
    if !at_eof(toks, i) && tt(toks, i) is OperatorArrow {
        spec_parse_type(toks, i + 1)
    } else {
        TypeOut { r: Ok(SpecType::Tuple(Seq::empty())), i }
    }
}

/// A function's argument list, after the opening parenthesis: `name : type`
/// pairs separated by commas, closed by `)`. Each pair is bound under the
/// next fresh symbol, `sym + 1` onward.
pub open spec fn spec_parse_fn_args(
    toks: Seq<SpecToken>,
    i: int,
    sym: nat,
    args: Seq<SpecFnArg>,
    binds: Seq<SpecTypeBinding>,
) -> FnArgsOut
    decreases toks.len() - i,
{
    if at_eof(toks, i) {
        FnArgsOut { r: Err(spec_err(ErrorKind::UnterminatedConstruct, toks, i)), i, sym }
    } else if tt(toks, i) is CloseParen {
        FnArgsOut { r: Ok(SigParts { args, binds }), i: i + 1, sym }
    } else {
        match tt(toks, i) {
            SpecTokenType::Identifier(an) => {
                if at_eof(toks, i + 1) {
                    FnArgsOut {
                        r: Err(spec_err(ErrorKind::UnterminatedConstruct, toks, i + 1)),
                        i: i + 1,
                        sym,
                    }
                } else if tt(toks, i + 1) is OperatorColon {
                    let to = spec_parse_type(toks, i + 2);
                    match to.r {
                        Err(e) => FnArgsOut { r: Err(e), i: to.i, sym },
                        Ok(ty) => {
                            let s = spec_sym_name(sym + 1);
                            let args2 = args.push(SpecFnArg { name: an, type_symbol: s });
                            let binds2 = binds.push(SpecTypeBinding { symbol: s, ty });
                            if at_eof(toks, to.i) {
                                FnArgsOut {
                                    r: Err(spec_err(ErrorKind::UnterminatedConstruct, toks, to.i)),
                                    i: to.i,
                                    sym: sym + 1,
                                }
                            } else if tt(toks, to.i) is CloseParen {
                                FnArgsOut { r: Ok(SigParts { args: args2, binds: binds2 }), i: to.i + 1, sym: sym + 1 }
                            } else if tt(toks, to.i) is Comma {
                                if to.i < i {
                                    FnArgsOut {
                                        r: Err(spec_err(ErrorKind::InternalInconsistency, toks, to.i)),
                                        i: to.i,
                                        sym: sym + 1,
                                    }
                                } else {
                                    spec_parse_fn_args(toks, to.i + 1, sym + 1, args2, binds2)
                                }
                            } else {
                                FnArgsOut {
                                    r: Err(spec_err(ErrorKind::SyntaxError, toks, to.i)),
                                    i: to.i,
                                    sym: sym + 1,
                                }
                            }
                        },
                    }
                } else {
                    FnArgsOut {
                        r: Err(spec_err(ErrorKind::SyntaxError, toks, i + 1)),
                        i: i + 1,
                        sym,
                    }
                }
            },
            _ => FnArgsOut { r: Err(spec_err(ErrorKind::SyntaxError, toks, i)), i, sym },
        }
    }
}

/// The optional body after a registered signature: an assignment token
/// introduces either a tier-scoped block (next token dedents deeper) or a
/// single expression wrapped in a one-statement block; without an assignment
/// the definition is declaration-only and yields no node.
pub open spec fn spec_parse_fn_body(toks: Seq<SpecToken>, st: St, tier: int, fname: Seq<char>) -> FnDefOut
    decreases toks.len() - st.i, 0int,
{
    if !at_eof(toks, st.i) && tt(toks, st.i) is OperatorAssign {
        let st1 = St { i: st.i + 1, ..st };
        if tier_at_least_at(toks, st1.i, tier + 1) {
            let bo = spec_parse_block(toks, st1, tier + 1);
            match bo.r {
                Err(e) => FnDefOut { r: Err(e), st: bo.st },
                Ok(nodes) => FnDefOut { r: Ok(Some(SpecNode::Fn(fname, nodes))), st: bo.st },
            }
        } else {
            let eo = spec_parse_expr(toks, st1.i);
            match eo.r {
                Err(e) => FnDefOut { r: Err(e), st: St { i: eo.i, ..st1 } },
                Ok(e) => FnDefOut {
                    r: Ok(Some(SpecNode::Fn(fname, seq![SpecNode::Expr(e)]))),
                    st: St { i: eo.i, ..st1 },
                },
            }
        }
    } else {
        FnDefOut { r: Ok(None), st }
    }
}

/// A function definition, after the `fn` keyword: name, argument list,
/// optional return type. The signature is registered under `Scope::Global`
/// (nested definitions too: a known simplification) with each argument and
/// the return slot bound to a fresh symbol; then the optional body follows.
pub open spec fn spec_parse_fn_definion(toks: Seq<SpecToken>, st: St, tier: int, scope: Scope) -> FnDefOut
    decreases toks.len() - st.i, 1int,
{
    if at_eof(toks, st.i) {
        FnDefOut { r: Err(spec_err(ErrorKind::UnterminatedConstruct, toks, st.i)), st }
    } else {
        match tt(toks, st.i) {
            SpecTokenType::OperatorLes => FnDefOut {
                r: Err(spec_err(ErrorKind::UnsupportedConstruct, toks, st.i)),
                st: St { i: st.i + 1, ..st },
            },
            SpecTokenType::Identifier(fname) => {
                if at_eof(toks, st.i + 1) {
                    FnDefOut {
                        r: Err(spec_err(ErrorKind::UnterminatedConstruct, toks, st.i + 1)),
                        st: St { i: st.i + 1, ..st },
                    }
                } else if tt(toks, st.i + 1) is OpenParen {
                    let ao = spec_parse_fn_args(toks, st.i + 2, st.sym, Seq::empty(), Seq::empty());
                    match ao.r {
                        Err(e) => FnDefOut { r: Err(e), st: St { i: ao.i, sym: ao.sym, fns: st.fns } },
                        Ok(sig) => {
                            let ro = spec_parse_fn_ret(toks, ao.i);
                            match ro.r {
                                Err(e) => FnDefOut {
                                    r: Err(e),
                                    st: St { i: ro.i, sym: ao.sym, fns: st.fns },
                                },
                                Ok(rt) => {
                                    let rsym = spec_sym_name(ao.sym + 1);
                                    let def = SpecFnDef {
                                        name: fname,
                                        types: sig.binds.push(SpecTypeBinding { symbol: rsym, ty: rt }),
                                        arguments: sig.args,
                                        ret_type: rsym,
                                    };
                                    let st2 = St {
                                        i: ro.i,
                                        sym: ao.sym + 1,
                                        fns: st.fns.push(SpecWithScope { value: def, scope: Scope::Global }),
                                    };
                                    if ro.i < st.i || ro.i > toks.len() {
                                        FnDefOut {
                                            r: Err(spec_err(ErrorKind::InternalInconsistency, toks, ro.i)),
                                            st: st2,
                                        }
                                    } else {
                                        spec_parse_fn_body(toks, st2, tier, fname)
                                    }
                                },
                            }
                        },
                    }
                } else {
                    FnDefOut {
                        r: Err(spec_err(ErrorKind::SyntaxError, toks, st.i + 1)),
                        st: St { i: st.i + 1, ..st },
                    }
                }
            },
            _ => FnDefOut { r: Err(spec_err(ErrorKind::SyntaxError, toks, st.i)), st },
        }
    }
}

/// The definition dispatcher: routes on the keyword under the cursor.
/// Struct, enum, trait and impl definitions are recognized extension points
/// that currently fail as unsupported; anything that is no keyword is not a
/// definition and leaves the state untouched.
pub open spec fn spec_parse_definion(toks: Seq<SpecToken>, st: St, tier: int, scope: Scope) -> DefOut
    decreases toks.len() - st.i, 0int,
{
    if at_eof(toks, st.i) {
        DefOut { r: Ok(None), st }
    } else {
        match tt(toks, st.i) {
            SpecTokenType::KeywordFn => {
                let o = spec_parse_fn_definion(toks, St { i: st.i + 1, ..st }, tier, scope);
                DefOut {
                    r: match o.r {
                        Ok(n) => Ok(Some(n)),
                        Err(e) => Err(e),
                    },
                    st: o.st,
                }
            },
            SpecTokenType::KeywordEnum => DefOut {
                r: Err(spec_err(ErrorKind::UnsupportedConstruct, toks, st.i)),
                st: St { i: st.i + 1, ..st },
            },
            SpecTokenType::KeywordStruct => DefOut {
                r: Err(spec_err(ErrorKind::UnsupportedConstruct, toks, st.i)),
                st: St { i: st.i + 1, ..st },
            },
            SpecTokenType::KeywordTrait => DefOut {
                r: Err(spec_err(ErrorKind::UnsupportedConstruct, toks, st.i)),
                st: St { i: st.i + 1, ..st },
            },
            SpecTokenType::KeywordImpl => DefOut {
                r: Err(spec_err(ErrorKind::UnsupportedConstruct, toks, st.i)),
                st: St { i: st.i + 1, ..st },
            },
            _ => DefOut { r: Ok(None), st },
        }
    }
}

/// One statement at `tier`: a line marker at least as deep keeps the block
/// alive, then a definition is tried before an expression statement; a
/// shallower marker (or anything else) ends the block without being consumed.
pub open spec fn spec_parse_stmt(toks: Seq<SpecToken>, st: St, tier: int, scope: Scope) -> StmtOut
    decreases toks.len() - st.i, 0int,
{
    if tier_at_least_at(toks, st.i, tier) {
        let st1 = St { i: st.i + 1, ..st };
        let d = spec_parse_definion(toks, st1, tier, scope);
        match d.r {
            Err(e) => StmtOut { r: Err(e), st: d.st },
            Ok(Some(opt)) => StmtOut {
                r: Ok(Some(match opt {
                    Some(n) => n,
                    None => SpecNode::Empty,
                })),
                st: d.st,
            },
            Ok(None) => {
                let eo = spec_parse_expr(toks, d.st.i);
                match eo.r {
                    Err(e) => StmtOut { r: Err(e), st: St { i: eo.i, ..d.st } },
                    Ok(ex) => StmtOut {
                        r: Ok(Some(SpecNode::Expr(ex))),
                        st: St { i: eo.i, ..d.st },
                    },
                }
            },
        }
    } else {
        StmtOut { r: Ok(None), st }
    }
}

/// The statements of one block, in order, until the block ends.
pub open spec fn spec_parse_stmts(
    toks: Seq<SpecToken>,
    st: St,
    tier: int,
    scope: Scope,
    acc: Seq<SpecNode>,
) -> NodesOut
    decreases toks.len() - st.i, 1int,
{
    let so = spec_parse_stmt(toks, st, tier, scope);
    match so.r {
        Err(e) => NodesOut { r: Err(e), st: so.st },
        Ok(None) => NodesOut { r: Ok(acc), st: so.st },
        Ok(Some(n)) => if so.st.i <= st.i || so.st.i > toks.len() {
            NodesOut {
                r: Err(spec_err(ErrorKind::InternalInconsistency, toks, so.st.i)),
                st: so.st,
            }
        } else {
            spec_parse_stmts(toks, so.st, tier, scope, acc.push(n))
        },
    }
}

/// A tier-scoped block: its token range is resolved up front (the off-side
/// rule), then statements are parsed until the block ends.
pub open spec fn spec_parse_block(toks: Seq<SpecToken>, st: St, tier: int) -> NodesOut
    decreases toks.len() - st.i, 2int,
{
    let scope = Scope::Block(st.i as usize, spec_scope_end(toks, st.i, tier) as usize);
    spec_parse_stmts(toks, st, tier, scope, Seq::empty())
}

/// The top-level loop: each line must open with a tier marker; definitions
/// are collected into the program, declaration-only ones leaving no node; a
/// non-definition line is a syntax error.
pub open spec fn spec_parse_program_items(toks: Seq<SpecToken>, st: St, acc: Seq<SpecNode>) -> NodesOut
    decreases toks.len() - st.i,
{
    if at_eof(toks, st.i) {
        NodesOut { r: Ok(acc), st }
    } else if tier_at_least_at(toks, st.i, 0) {
        let st1 = St { i: st.i + 1, ..st };
        if at_eof(toks, st1.i) {
            NodesOut { r: Ok(acc), st: st1 }
        } else {
            let d = spec_parse_definion(toks, st1, 0, Scope::Global);
            match d.r {
                Err(e) => NodesOut { r: Err(e), st: d.st },
                Ok(None) => NodesOut {
                    r: Err(spec_err(ErrorKind::SyntaxError, toks, st1.i)),
                    st: d.st,
                },
                Ok(Some(opt)) => {
                    let acc2 = match opt {
                        Some(n) => acc.push(n),
                        None => acc,
                    };
                    if d.st.i <= st.i || d.st.i > toks.len() {
                        NodesOut {
                            r: Err(spec_err(ErrorKind::InternalInconsistency, toks, d.st.i)),
                            st: d.st,
                        }
                    } else {
                        spec_parse_program_items(toks, d.st, acc2)
                    }
                },
            }
        }
    } else {
        NodesOut { r: Err(spec_err(ErrorKind::SyntaxError, toks, st.i)), st }
    }
}

/// A whole parse from a fresh parser: cursor at the start, symbol counter at
/// zero, no registered definitions.
pub open spec fn spec_parse_program(toks: Seq<SpecToken>) -> NodesOut {
    spec_parse_program_items(toks, initial_state(), Seq::empty())
}

} // verus!
