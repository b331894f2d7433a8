//! The abstract syntax tree, definition records, and their mathematical views.

use vstd::prelude::*;

verus! {

/// A parsed type expression.
#[derive(Debug, PartialEq, Eq)]
pub enum Type {
    I8,
    I16,
    I32,
    I64,
    I128,
    U8,
    U16,
    U32,
    U64,
    U128,
    Bool,
    F32,
    F64,
    /// Ordered tuple of types; the empty tuple stands for "no value".
    Tuple(Vec<Type>),
    /// A base type with generic arguments (argument parsing is an extension
    /// point, so the argument list is empty for now).
    Generic(Box<Type>, Vec<Type>),
    /// An identifier not recognized as a primitive; resolved downstream.
    Unknown,
}

/// Mathematical mirror of `Type`.
pub ghost enum SpecType {
    I8,
    I16,
    I32,
    I64,
    I128,
    U8,
    U16,
    U32,
    U64,
    U128,
    Bool,
    F32,
    F64,
    Tuple(Seq<SpecType>),
    Generic(Box<SpecType>, Seq<SpecType>),
    Unknown,
}

/// The mathematical value of a `Type`.
pub open spec fn type_view(t: Type) -> SpecType
    decreases t,
    via type_view_dec
{
    match t {
        Type::I8 => SpecType::I8,
        Type::I16 => SpecType::I16,
        Type::I32 => SpecType::I32,
        Type::I64 => SpecType::I64,
        Type::I128 => SpecType::I128,
        Type::U8 => SpecType::U8,
        Type::U16 => SpecType::U16,
        Type::U32 => SpecType::U32,
        Type::U64 => SpecType::U64,
        Type::U128 => SpecType::U128,
        Type::Bool => SpecType::Bool,
        Type::F32 => SpecType::F32,
        Type::F64 => SpecType::F64,
        Type::Tuple(ts) => SpecType::Tuple(types_view(ts@)),
        Type::Generic(base, args) => SpecType::Generic(
            Box::new(type_view(*base)),
            types_view(args@),
        ),
        Type::Unknown => SpecType::Unknown,
    }
}

/// The mathematical values of a sequence of `Type`s, elementwise.
pub open spec fn types_view(ts: Seq<Type>) -> Seq<SpecType>
    decreases ts,
    via types_view_dec
{
    if ts.len() == 0 {
        Seq::empty()
    } else {
        types_view(ts.drop_last()).push(type_view(ts.last()))
    }
}

#[via_fn]
proof fn type_view_dec(t: Type) {
    match t {
        Type::Tuple(ts) => {
            assert(decreases_to!(t => ts));
            assert(decreases_to!(ts => ts@));
        },
        Type::Generic(base, args) => {
            assert(decreases_to!(t => args));
            assert(decreases_to!(args => args@));
        },
        _ => {},
    }
}

#[via_fn]
proof fn types_view_dec(ts: Seq<Type>) {
    if ts.len() > 0 {
        assert(decreases_to!(ts => ts[ts.len() - 1]));
        assert(decreases_to!(ts => ts.subrange(0, ts.len() - 1)));
        assert(ts.drop_last() == ts.subrange(0, ts.len() - 1));
        assert(ts.last() == ts[ts.len() - 1]);
    }
}

impl View for Type {
    type V = SpecType;

    open spec fn view(&self) -> SpecType {
        type_view(*self)
    }
}

/// A parsed expression.
#[derive(Debug, PartialEq, Eq)]
pub enum AstExpr {
    Var(String),
    LiteralNum(u64),
    LiteralStr(String),
    Add(Box<AstExpr>, Box<AstExpr>),
    Sub(Box<AstExpr>, Box<AstExpr>),
    Mul(Box<AstExpr>, Box<AstExpr>),
    Div(Box<AstExpr>, Box<AstExpr>),
    /// A call: callee expression and arguments in source order.
    FnCall(Box<AstExpr>, Vec<AstExpr>),
}

/// Mathematical mirror of `AstExpr`.
pub ghost enum SpecExpr {
    Var(Seq<char>),
    LiteralNum(u64),
    LiteralStr(Seq<char>),
    Add(Box<SpecExpr>, Box<SpecExpr>),
    Sub(Box<SpecExpr>, Box<SpecExpr>),
    Mul(Box<SpecExpr>, Box<SpecExpr>),
    Div(Box<SpecExpr>, Box<SpecExpr>),
    FnCall(Box<SpecExpr>, Seq<SpecExpr>),
}

/// The mathematical value of an `AstExpr`.
pub open spec fn expr_view(e: AstExpr) -> SpecExpr
    decreases e,
    via expr_view_dec
{
    match e {
        AstExpr::Var(s) => SpecExpr::Var(s@),
        AstExpr::LiteralNum(x) => SpecExpr::LiteralNum(x),
        AstExpr::LiteralStr(s) => SpecExpr::LiteralStr(s@),
        AstExpr::Add(a, b) => SpecExpr::Add(Box::new(expr_view(*a)), Box::new(expr_view(*b))),
        AstExpr::Sub(a, b) => SpecExpr::Sub(Box::new(expr_view(*a)), Box::new(expr_view(*b))),
        AstExpr::Mul(a, b) => SpecExpr::Mul(Box::new(expr_view(*a)), Box::new(expr_view(*b))),
        AstExpr::Div(a, b) => SpecExpr::Div(Box::new(expr_view(*a)), Box::new(expr_view(*b))),
        AstExpr::FnCall(f, args) => SpecExpr::FnCall(
            Box::new(expr_view(*f)),
            exprs_view(args@),
        ),
    }
}

/// The mathematical values of a sequence of `AstExpr`s, elementwise.
pub open spec fn exprs_view(es: Seq<AstExpr>) -> Seq<SpecExpr>
    decreases es,
    via exprs_view_dec
{
    if es.len() == 0 {
        Seq::empty()
    } else {
        exprs_view(es.drop_last()).push(expr_view(es.last()))
    }
}

#[via_fn]
proof fn expr_view_dec(e: AstExpr) {
    match e {
        AstExpr::FnCall(f, args) => {
            assert(decreases_to!(e => args));
            assert(decreases_to!(args => args@));
        },
        _ => {},
    }
}

#[via_fn]
proof fn exprs_view_dec(es: Seq<AstExpr>) {
    if es.len() > 0 {
        assert(decreases_to!(es => es[es.len() - 1]));
        assert(decreases_to!(es => es.subrange(0, es.len() - 1)));
        assert(es.drop_last() == es.subrange(0, es.len() - 1));
        assert(es.last() == es[es.len() - 1]);
    }
}

impl View for AstExpr {
    type V = SpecExpr;

    open spec fn view(&self) -> SpecExpr {
        expr_view(*self)
    }
}

/// A statement or top-level node.
#[derive(Debug, PartialEq, Eq)]
pub enum AstNode {
    /// Produced by declaration-only definitions inside a block.
    Empty,
    Expr(AstExpr),
    /// A function definition with a body: name and body block.
    Fn(String, AstBlock),
    Program(AstProgram),
}

/// An ordered sequence of statements; order is appearance order.
#[derive(Debug, PartialEq, Eq)]
pub struct AstBlock {
    pub nodes: Vec<AstNode>,
}

/// The ordered top-level definitions of one source unit.
#[derive(Debug, PartialEq, Eq)]
pub struct AstProgram {
    pub nodes: Vec<AstNode>,
}

/// Mathematical mirror of `AstNode`; blocks and programs become sequences.
pub ghost enum SpecNode {
    Empty,
    Expr(SpecExpr),
    Fn(Seq<char>, Seq<SpecNode>),
    Program(Seq<SpecNode>),
}

/// The mathematical value of an `AstNode`.
pub open spec fn node_view(n: AstNode) -> SpecNode
    decreases n,
    via node_view_dec
{
    match n {
        AstNode::Empty => SpecNode::Empty,
        AstNode::Expr(e) => SpecNode::Expr(expr_view(e)),
        AstNode::Fn(name, body) => SpecNode::Fn(name@, nodes_view(body.nodes@)),
        AstNode::Program(p) => SpecNode::Program(nodes_view(p.nodes@)),
    }
}

/// The mathematical values of a sequence of `AstNode`s, elementwise.
pub open spec fn nodes_view(ns: Seq<AstNode>) -> Seq<SpecNode>
    decreases ns,
    via nodes_view_dec
{
    if ns.len() == 0 {
        Seq::empty()
    } else {
        nodes_view(ns.drop_last()).push(node_view(ns.last()))
    }
}

#[via_fn]
proof fn node_view_dec(n: AstNode) {
    match n {
        AstNode::Fn(name, body) => {
            assert(decreases_to!(n => body));
            assert(decreases_to!(body => body.nodes));
            assert(decreases_to!(body.nodes => body.nodes@));
        },
        AstNode::Program(p) => {
            assert(decreases_to!(n => p));
            assert(decreases_to!(p => p.nodes));
            assert(decreases_to!(p.nodes => p.nodes@));
        },
        _ => {},
    }
}

#[via_fn]
proof fn nodes_view_dec(ns: Seq<AstNode>) {
    if ns.len() > 0 {
        assert(decreases_to!(ns => ns[ns.len() - 1]));
        assert(decreases_to!(ns => ns.subrange(0, ns.len() - 1)));
        assert(ns.drop_last() == ns.subrange(0, ns.len() - 1));
        assert(ns.last() == ns[ns.len() - 1]);
    }
}

impl View for AstNode {
    type V = SpecNode;

    open spec fn view(&self) -> SpecNode {
        node_view(*self)
    }
}

impl View for AstBlock {
    type V = Seq<SpecNode>;

    open spec fn view(&self) -> Seq<SpecNode> {
        nodes_view(self.nodes@)
    }
}

impl View for AstProgram {
    type V = Seq<SpecNode>;

    open spec fn view(&self) -> Seq<SpecNode> {
        nodes_view(self.nodes@)
    }
}

impl AstBlock {
    pub fn new() -> (b: AstBlock)
        ensures
            b@ == Seq::<SpecNode>::empty(),
    {
        AstBlock { nodes: Vec::new() }
    }

    pub fn add(&mut self, n: AstNode)
        ensures
            final(self)@ == old(self)@.push(node_view(n)),
    {
        proof {
            assert(self.nodes@.push(n).drop_last() == self.nodes@);
        }
        self.nodes.push(n);
    }
}

impl AstProgram {
    pub fn new() -> (p: AstProgram)
        ensures
            p@ == Seq::<SpecNode>::empty(),
    {
        AstProgram { nodes: Vec::new() }
    }

    pub fn add(&mut self, n: AstNode)
        ensures
            final(self)@ == old(self)@.push(node_view(n)),
    {
        proof {
            assert(self.nodes@.push(n).drop_last() == self.nodes@);
        }
        self.nodes.push(n);
    }
}

/// The lexical extent a definition was registered under: the whole unit, or a
/// half-open token-index range of a nested block.
#[derive(Debug, Clone, Copy, PartialEq, Eq)]
pub enum Scope {
    Global,
    Block(usize, usize),
}

/// A definition paired with the `Scope` it was declared in.
#[derive(Debug, PartialEq, Eq)]
pub struct WithScope<T> {
    pub value: T,
    pub scope: Scope,
}

/// One function argument; its type is not stored inline but under
/// `type_symbol` in the owning definition's type environment, so a later
/// unification pass can constrain types per symbol.
#[derive(Debug, PartialEq, Eq)]
pub struct FnArg {
    pub name: String,
    pub type_symbol: String,
}

/// One entry of a type environment: a synthetic symbol bound to a type.
#[derive(Debug, PartialEq, Eq)]
pub struct TypeBinding {
    pub symbol: String,
    pub ty: Type,
}

/// A registered function definition. `types` is a mapping with unique keys,
/// kept in insertion order; arguments and the return slot address it through
/// their symbols.
#[derive(Debug, PartialEq, Eq)]
pub struct FnDef {
    pub name: String,
    pub types: Vec<TypeBinding>,
    pub arguments: Vec<FnArg>,
    pub ret_type: String,
}

/// Extension point: struct definitions are recognized but not yet parsed.
#[derive(Debug, PartialEq, Eq)]
pub struct StructDef {
    pub name: String,
}

/// Extension point: enum definitions are recognized but not yet parsed.
#[derive(Debug, PartialEq, Eq)]
pub struct EnumDef {
    pub name: String,
}

/// Extension point: trait definitions are recognized but not yet parsed.
#[derive(Debug, PartialEq, Eq)]
pub struct TraitDef {
    pub name: String,
}

/// Extension point: variable definitions are recognized but not yet parsed.
#[derive(Debug, PartialEq, Eq)]
pub struct VarDef {
    pub name: String,
}

/// Mathematical mirror of `FnArg`.
pub ghost struct SpecFnArg {
    pub name: Seq<char>,
    pub type_symbol: Seq<char>,
}

/// Mathematical mirror of `TypeBinding`.
pub ghost struct SpecTypeBinding {
    pub symbol: Seq<char>,
    pub ty: SpecType,
}

/// Mathematical mirror of `FnDef`.
pub ghost struct SpecFnDef {
    pub name: Seq<char>,
    pub types: Seq<SpecTypeBinding>,
    pub arguments: Seq<SpecFnArg>,
    pub ret_type: Seq<char>,
}

/// Mathematical mirror of `WithScope<FnDef>`.
pub ghost struct SpecWithScope {
    pub value: SpecFnDef,
    pub scope: Scope,
}

impl View for FnArg {
    type V = SpecFnArg;

    open spec fn view(&self) -> SpecFnArg {
        SpecFnArg { name: self.name@, type_symbol: self.type_symbol@ }
    }
}

impl View for TypeBinding {
    type V = SpecTypeBinding;

    open spec fn view(&self) -> SpecTypeBinding {
        SpecTypeBinding { symbol: self.symbol@, ty: self.ty@ }
    }
}

impl View for FnDef {
    type V = SpecFnDef;

    open spec fn view(&self) -> SpecFnDef {
        SpecFnDef {
            name: self.name@,
            types: self.types@.map_values(|b: TypeBinding| b@),
            arguments: self.arguments@.map_values(|a: FnArg| a@),
            ret_type: self.ret_type@,
        }
    }
}

impl View for WithScope<FnDef> {
    type V = SpecWithScope;

    open spec fn view(&self) -> SpecWithScope {
        SpecWithScope { value: self.value@, scope: self.scope }
    }
}

/// Look a symbol up in a type environment (later bindings win; the parser
/// never binds one symbol twice).
pub open spec fn env_lookup(types: Seq<SpecTypeBinding>, key: Seq<char>) -> Option<SpecType>
    decreases types.len(),
{
    if types.len() == 0 {
        None
    } else if types.last().symbol == key {
        Some(types.last().ty)
    } else {
        env_lookup(types.drop_last(), key)
    }
}

} // verus!
