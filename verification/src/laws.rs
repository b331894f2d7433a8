//! Laws of the parser, each proved from the grammar model: freshness and
//! distinctness of synthetic symbols, the shape of registered definitions,
//! the scope resolver's range, the append-only function table, and
//! determinism of reparsing.

use vstd::prelude::*;
use crate::ast::{Scope, SpecFnArg, SpecNode, SpecTypeBinding, SpecWithScope, env_lookup};
use crate::diag::ParseError;
use crate::grammar::{St, initial_state, spec_parse_block, spec_parse_definion, spec_parse_expr,
    spec_parse_fn_args, spec_parse_fn_body, spec_parse_fn_definion, spec_parse_program_items,
    spec_parse_stmt, spec_parse_stmts, tt};
use crate::names::{lemma_sym_name_injective, spec_sym_name};
use crate::token::{SpecToken, at_eof, dedents_at, spec_scope_end, tier_at_least_at};

verus! {

/// Two sequential calls to the symbol namer on one parser never return equal
/// names: the counter advances by one per call, and distinct counter values
/// give distinct names.
pub proof fn lemma_sequential_sym_names_distinct(n: nat)
    ensures
        spec_sym_name(n + 1) != spec_sym_name(n + 2),
{
    lemma_sym_name_injective(n + 1, n + 2);
}

/// Reparsing one token sequence with two fresh parser instances yields the
/// same outcome: the whole parse is a function of the tokens alone, and a
/// fresh parser's state is fixed.
pub proof fn lemma_reparse_deterministic(toks: Seq<SpecToken>, a: St, b: St)
    requires
        a == initial_state(),
        b == initial_state(),
    ensures
        spec_parse_program_items(toks, a, Seq::<SpecNode>::empty())
            == spec_parse_program_items(toks, b, Seq::<SpecNode>::empty()),
{
}

/// The scope resolver's answer is the half-open range promised by the
/// off-side rule: no token strictly inside it ends the input or dedents past
/// `tier`, and the range ends at the first token that does (or at the end of
/// the sequence, where the input counts as exhausted).
pub proof fn lemma_scope_end_characterization(toks: Seq<SpecToken>, i: int, tier: int)
    requires
        0 <= i <= toks.len(),
    ensures
        ({
            let e = spec_scope_end(toks, i, tier);
            &&& i <= e <= toks.len()
            &&& (forall|k: int|
                i <= k < e ==> !at_eof(toks, k) && !dedents_at(toks, k, tier))
            &&& (at_eof(toks, e) || dedents_at(toks, e, tier))
        }),
    decreases toks.len() - i,
{
    if !(at_eof(toks, i) || dedents_at(toks, i, tier)) {
        lemma_scope_end_characterization(toks, i + 1, tier);
    }
}

/// One table extends another: nothing already registered is changed or lost.
pub open spec fn fns_extends(pre: Seq<SpecWithScope>, post: Seq<SpecWithScope>) -> bool {
    &&& pre.len() <= post.len()
    &&& (forall|k: int| 0 <= k < pre.len() ==> post[k] == pre[k])
}

/// A function body only appends to the function table.
pub proof fn lemma_defs_extend_fn_body(toks: Seq<SpecToken>, st: St, tier: int, fname: Seq<char>)
    ensures
        fns_extends(st.fns, spec_parse_fn_body(toks, st, tier, fname).st.fns),
    decreases toks.len() - st.i, 0int,
{
    if !at_eof(toks, st.i) && tt(toks, st.i) is OperatorAssign {
        let st1 = St { i: st.i + 1, ..st };
        if tier_at_least_at(toks, st1.i, tier + 1) {
            lemma_defs_extend_block(toks, st1, tier + 1);
        }
    }
}

/// A function definition only appends to the function table.
pub proof fn lemma_defs_extend_fn_definion(toks: Seq<SpecToken>, st: St, tier: int, scope: Scope)
    ensures
        fns_extends(st.fns, spec_parse_fn_definion(toks, st, tier, scope).st.fns),
    decreases toks.len() - st.i, 1int,
{
    if !at_eof(toks, st.i) {
        match tt(toks, st.i) {
            crate::token::SpecTokenType::Identifier(fname) => {
                if !at_eof(toks, st.i + 1) && tt(toks, st.i + 1) is OpenParen {
                    let ao = spec_parse_fn_args(toks, st.i + 2, st.sym, Seq::empty(), Seq::empty());
                    match ao.r {
                        Ok(sig) => {
                            let ro = crate::grammar::spec_parse_fn_ret(toks, ao.i);
                            match ro.r {
                                Ok(rt) => {
                                    let rsym = spec_sym_name(ao.sym + 1);
                                    let def = crate::ast::SpecFnDef {
                                        name: fname,
                                        types: sig.binds.push(SpecTypeBinding { symbol: rsym, ty: rt }),
                                        arguments: sig.args,
                                        ret_type: rsym,
                                    };
                                    let st2 = St {
                                        i: ro.i,
                                        sym: ao.sym + 1,
                                        fns: st.fns.push(SpecWithScope { value: def, scope: Scope::Global }),
                                    };
                                    if !(ro.i < st.i || ro.i > toks.len()) {
                                        lemma_defs_extend_fn_body(toks, st2, tier, fname);
                                    }
                                },
                                Err(_) => {},
                            }
                        },
                        Err(_) => {},
                    }
                }
            },
            _ => {},
        }
    }
}

/// The definition dispatcher only appends to the function table.
pub proof fn lemma_defs_extend_definion(toks: Seq<SpecToken>, st: St, tier: int, scope: Scope)
    ensures
        fns_extends(st.fns, spec_parse_definion(toks, st, tier, scope).st.fns),
    decreases toks.len() - st.i, 0int,
{
    if !at_eof(toks, st.i) && tt(toks, st.i) is KeywordFn {
        lemma_defs_extend_fn_definion(toks, St { i: st.i + 1, ..st }, tier, scope);
    }
}

/// A statement only appends to the function table.
pub proof fn lemma_defs_extend_stmt(toks: Seq<SpecToken>, st: St, tier: int, scope: Scope)
    ensures
        fns_extends(st.fns, spec_parse_stmt(toks, st, tier, scope).st.fns),
    decreases toks.len() - st.i, 0int,
{
    if tier_at_least_at(toks, st.i, tier) {
        lemma_defs_extend_definion(toks, St { i: st.i + 1, ..st }, tier, scope);
    }
}

/// A statement sequence only appends to the function table.
pub proof fn lemma_defs_extend_stmts(
    toks: Seq<SpecToken>,
    st: St,
    tier: int,
    scope: Scope,
    acc: Seq<SpecNode>,
)
    ensures
        fns_extends(st.fns, spec_parse_stmts(toks, st, tier, scope, acc).st.fns),
    decreases toks.len() - st.i, 1int,
{
    lemma_defs_extend_stmt(toks, st, tier, scope);
    let so = spec_parse_stmt(toks, st, tier, scope);
    match so.r {
        Ok(Some(n)) => {
            if !(so.st.i <= st.i || so.st.i > toks.len()) {
                lemma_defs_extend_stmts(toks, so.st, tier, scope, acc.push(n));
            }
        },
        _ => {},
    }
}

/// A block only appends to the function table.
pub proof fn lemma_defs_extend_block(toks: Seq<SpecToken>, st: St, tier: int)
    ensures
        fns_extends(st.fns, spec_parse_block(toks, st, tier).st.fns),
    decreases toks.len() - st.i, 2int,
{
    let scope = Scope::Block(st.i as usize, spec_scope_end(toks, st.i, tier) as usize);
    lemma_defs_extend_stmts(toks, st, tier, scope, Seq::empty());
}

/// The whole parse only appends to the function table: definitions are
/// registered in order and never changed afterwards.
pub proof fn lemma_defs_extend_program(toks: Seq<SpecToken>, st: St, acc: Seq<SpecNode>)
    ensures
        fns_extends(st.fns, spec_parse_program_items(toks, st, acc).st.fns),
    decreases toks.len() - st.i,
{
    if !at_eof(toks, st.i) && tier_at_least_at(toks, st.i, 0) {
        let st1 = St { i: st.i + 1, ..st };
        if !at_eof(toks, st1.i) {
            lemma_defs_extend_definion(toks, st1, 0, Scope::Global);
            let d = spec_parse_definion(toks, st1, 0, Scope::Global);
            match d.r {
                Ok(Some(opt)) => {
                    let acc2 = match opt {
                        Some(n) => acc.push(n),
                        None => acc,
                    };
                    if !(d.st.i <= st.i || d.st.i > toks.len()) {
                        lemma_defs_extend_program(toks, d.st, acc2);
                    }
                },
                _ => {},
            }
        }
    }
}

/// In an environment with pairwise-distinct keys, looking a key up returns
/// the type bound beside it.
pub proof fn lemma_env_lookup_distinct(types: Seq<SpecTypeBinding>, k: int)
    requires
        0 <= k < types.len(),
        forall|a: int, b: int| 0 <= a < b < types.len() ==> types[a].symbol != types[b].symbol,
    ensures
        env_lookup(types, types[k].symbol) == Some(types[k].ty),
    decreases types.len(),
{
    if k < types.len() - 1 {
        assert(types.last().symbol != types[k].symbol);
        assert(types.drop_last()[k] == types[k]);
        lemma_env_lookup_distinct(types.drop_last(), k);
    }
}

/// The argument list binds each parsed argument under the next fresh symbol:
/// entering with counter `base + args.len()`, the `k`-th argument's symbol is
/// the name of counter value `base + k + 1`, argument and binding stay
/// aligned, and the counter leaves at `base` plus the number of bindings.
pub proof fn lemma_fn_args_symbols(
    toks: Seq<SpecToken>,
    i: int,
    base: nat,
    args: Seq<SpecFnArg>,
    binds: Seq<SpecTypeBinding>,
)
    requires
        args.len() == binds.len(),
        forall|k: int| 0 <= k < args.len() ==> args[k].type_symbol == binds[k].symbol,
        forall|k: int|
            0 <= k < binds.len() ==> binds[k].symbol == spec_sym_name((base + k + 1) as nat),
    ensures
        ({
            let o = spec_parse_fn_args(toks, i, (base + args.len()) as nat, args, binds);
            o.r matches Ok(sig) ==> {
                &&& sig.args.len() == sig.binds.len()
                &&& sig.args.len() >= args.len()
                &&& o.sym == base + sig.args.len()
                &&& (forall|k: int|
                    0 <= k < sig.args.len() ==> sig.args[k].type_symbol == sig.binds[k].symbol)
                &&& (forall|k: int|
                    0 <= k < sig.binds.len() ==> sig.binds[k].symbol == spec_sym_name(
                        (base + k + 1) as nat))
            }
        }),
    decreases toks.len() - i,
{
    let sym: nat = (base + args.len()) as nat;
    if !at_eof(toks, i) && !(tt(toks, i) is CloseParen) {
        match tt(toks, i) {
            crate::token::SpecTokenType::Identifier(an) => {
                if !at_eof(toks, i + 1) && tt(toks, i + 1) is OperatorColon {
                    let to = crate::grammar::spec_parse_type(toks, i + 2);
                    match to.r {
                        Ok(ty) => {
                            let s = spec_sym_name(sym + 1);
                            let args2 = args.push(SpecFnArg { name: an, type_symbol: s });
                            let binds2 = binds.push(SpecTypeBinding { symbol: s, ty });
                            if !at_eof(toks, to.i) && tt(toks, to.i) is Comma && !(to.i < i) {
                                lemma_fn_args_symbols(toks, to.i + 1, base, args2, binds2);
                            }
                        },
                        Err(_) => {},
                    }
                }
            },
            _ => {},
        }
    }
}

/// A successfully parsed function definition registers a record whose
/// synthetic symbols are exactly the names of the next counter values: one
/// per argument in declaration order and one for the return slot, all
/// pairwise distinct, and the type environment resolves each argument's
/// symbol and the return symbol to the type parsed for it.
pub proof fn lemma_fn_def_fresh_symbols(toks: Seq<SpecToken>, st: St, tier: int, scope: Scope)
    ensures
        ({
            let o = spec_parse_fn_definion(toks, st, tier, scope);
            o.r is Ok ==> {
                &&& st.fns.len() < o.st.fns.len()
                &&& ({
                    let d = o.st.fns[st.fns.len() as int].value;
                    &&& d.types.len() == d.arguments.len() + 1
                    &&& (forall|k: int|
                        0 <= k < d.arguments.len() ==> d.arguments[k].type_symbol
                            == d.types[k].symbol)
                    &&& d.ret_type == d.types[d.arguments.len() as int].symbol
                    &&& (forall|k: int|
                        0 <= k < d.types.len() ==> d.types[k].symbol == spec_sym_name(
                            (st.sym + k + 1) as nat))
                    &&& (forall|a: int, b: int|
                        0 <= a < b < d.types.len() ==> d.types[a].symbol != d.types[b].symbol)
                    &&& (forall|k: int|
                        0 <= k < d.arguments.len() ==> env_lookup(d.types, d.arguments[k].type_symbol)
                            == Some(d.types[k].ty))
                    &&& env_lookup(d.types, d.ret_type) == Some(d.types[d.arguments.len() as int].ty)
                })
            }
        }),
{
    let o = spec_parse_fn_definion(toks, st, tier, scope);
    if o.r is Ok {
        if !at_eof(toks, st.i) {
            match tt(toks, st.i) {
                crate::token::SpecTokenType::Identifier(fname) => {
                    if !at_eof(toks, st.i + 1) && tt(toks, st.i + 1) is OpenParen {
                        assert(Seq::<SpecFnArg>::empty().len() == Seq::<SpecTypeBinding>::empty().len());
                        lemma_fn_args_symbols(
                            toks,
                            st.i + 2,
                            st.sym,
                            Seq::<SpecFnArg>::empty(),
                            Seq::<SpecTypeBinding>::empty(),
                        );
                        let ao = spec_parse_fn_args(toks, st.i + 2, st.sym, Seq::empty(), Seq::empty());
                        match ao.r {
                            Ok(sig) => {
                                let ro = crate::grammar::spec_parse_fn_ret(toks, ao.i);
                                match ro.r {
                                    Ok(rt) => {
                                        let rsym = spec_sym_name(ao.sym + 1);
                                        let types = sig.binds.push(SpecTypeBinding { symbol: rsym, ty: rt });
                                        let def = crate::ast::SpecFnDef {
                                            name: fname,
                                            types,
                                            arguments: sig.args,
                                            ret_type: rsym,
                                        };
                                        let st2 = St {
                                            i: ro.i,
                                            sym: ao.sym + 1,
                                            fns: st.fns.push(SpecWithScope { value: def, scope: Scope::Global }),
                                        };
                                        assert(st2.fns[st.fns.len() as int].value == def);
                                        assert forall|k: int| 0 <= k < def.types.len() implies
                                            def.types[k].symbol == spec_sym_name((st.sym + k + 1) as nat) by {
                                            if k < sig.binds.len() {
                                                assert(def.types[k] == sig.binds[k]);
                                            } else {
                                                assert(def.types[k] == SpecTypeBinding { symbol: rsym, ty: rt });
                                            }
                                        }
                                        assert forall|a: int, b: int|
                                            0 <= a < b < def.types.len() implies
                                            def.types[a].symbol != def.types[b].symbol by {
                                            lemma_sym_name_injective(
                                                (st.sym + a + 1) as nat,
                                                (st.sym + b + 1) as nat,
                                            );
                                        }
                                        assert forall|k: int| 0 <= k < def.arguments.len() implies
                                            env_lookup(def.types, def.arguments[k].type_symbol)
                                                == Some(def.types[k].ty) by {
                                            lemma_env_lookup_distinct(def.types, k);
                                        }
                                        lemma_env_lookup_distinct(def.types, def.arguments.len() as int);
                                        if !(ro.i < st.i || ro.i > toks.len()) {
                                            lemma_defs_extend_fn_body(toks, st2, tier, fname);
                                        }
                                    },
                                    Err(_) => {},
                                }
                            },
                            Err(_) => {},
                        }
                    }
                },
                _ => {},
            }
        }
    }
}

/// A declaration-only function definition (no assignment after the
/// signature) registers exactly one record and produces no node.
pub proof fn lemma_declaration_only_registers(toks: Seq<SpecToken>, st: St, tier: int, scope: Scope)
    ensures
        ({
            let o = spec_parse_fn_definion(toks, st, tier, scope);
            o.r == Ok::<Option<SpecNode>, ParseError>(None) ==> {
                &&& o.st.fns.len() == st.fns.len() + 1
                &&& (forall|k: int| 0 <= k < st.fns.len() ==> o.st.fns[k] == st.fns[k])
            }
        }),
{
}

/// A function body given as a single trailing expression parses to a
/// one-statement block holding exactly that expression.
pub proof fn lemma_single_expression_body(toks: Seq<SpecToken>, st: St, tier: int, fname: Seq<char>)
    requires
        !at_eof(toks, st.i),
        tt(toks, st.i) is OperatorAssign,
        !tier_at_least_at(toks, st.i + 1, tier + 1),
    ensures
        ({
            let o = spec_parse_fn_body(toks, st, tier, fname);
            let eo = spec_parse_expr(toks, st.i + 1);
            match eo.r {
                Ok(e) => o.r == Ok::<Option<SpecNode>, ParseError>(Some(SpecNode::Fn(
                    fname,
                    seq![SpecNode::Expr(e)],
                ))),
                Err(er) => o.r == Err::<Option<SpecNode>, ParseError>(er),
            }
        }),
{
}

} // verus!
