use tier_parser::ast::{AstBlock, AstExpr, AstNode, AstProgram, Scope, Type};
use tier_parser::diag::ErrorKind;
use tier_parser::parser::Parser;
use tier_parser::token::{Token, TokenCursor, TokenType};

fn tok(t: TokenType) -> Token {
    Token { t_type: t, line: 1, col_start: 0, col_end: 1 }
}

fn parser_for(kinds: Vec<TokenType>) -> Parser {
    let toks: Vec<Token> = kinds.into_iter().map(tok).collect();
    Parser::new(TokenCursor::new(toks))
}

fn ident(s: &str) -> TokenType {
    TokenType::Identifier(s.to_string())
}

fn num(x: u64) -> TokenType {
    TokenType::LiteralNum(x)
}

fn fn_header(name: &str) -> Vec<TokenType> {
    vec![
        TokenType::IdentTier(0),
        TokenType::KeywordFn,
        ident(name),
        TokenType::OpenParen,
        TokenType::CloseParen,
        TokenType::OperatorAssign,
    ]
}

fn expr_body_program(name: &str, expr: AstExpr) -> AstNode {
    AstNode::Program(AstProgram {
        nodes: vec![AstNode::Fn(
            name.to_string(),
            AstBlock { nodes: vec![AstNode::Expr(expr)] },
        )],
    })
}

#[test]
fn precedence_mul_binds_tighter() {
    // fn f() = 2 + 3 * 4
    let mut kinds = fn_header("f");
    kinds.extend(vec![num(2), TokenType::OperatorAdd, num(3), TokenType::OperatorMul, num(4)]);
    let mut p = parser_for(kinds);
    assert!(p.parse().is_ok());
    let expected = expr_body_program(
        "f",
        AstExpr::Add(
            Box::new(AstExpr::LiteralNum(2)),
            Box::new(AstExpr::Mul(
                Box::new(AstExpr::LiteralNum(3)),
                Box::new(AstExpr::LiteralNum(4)),
            )),
        ),
    );
    assert_eq!(p.ast, expected);
}

#[test]
fn parenthesized_group_is_atomic() {
    // fn f() = (2 + 3) * 4
    let mut kinds = fn_header("f");
    kinds.extend(vec![
        TokenType::OpenParen,
        num(2),
        TokenType::OperatorAdd,
        num(3),
        TokenType::CloseParen,
        TokenType::OperatorMul,
        num(4),
    ]);
    let mut p = parser_for(kinds);
    assert!(p.parse().is_ok());
    let expected = expr_body_program(
        "f",
        AstExpr::Mul(
            Box::new(AstExpr::Add(
                Box::new(AstExpr::LiteralNum(2)),
                Box::new(AstExpr::LiteralNum(3)),
            )),
            Box::new(AstExpr::LiteralNum(4)),
        ),
    );
    assert_eq!(p.ast, expected);
}

#[test]
fn subtraction_is_left_associative() {
    // fn f() = 10 - 2 - 3
    let mut kinds = fn_header("f");
    kinds.extend(vec![num(10), TokenType::OperatorSub, num(2), TokenType::OperatorSub, num(3)]);
    let mut p = parser_for(kinds);
    assert!(p.parse().is_ok());
    let expected = expr_body_program(
        "f",
        AstExpr::Sub(
            Box::new(AstExpr::Sub(
                Box::new(AstExpr::LiteralNum(10)),
                Box::new(AstExpr::LiteralNum(2)),
            )),
            Box::new(AstExpr::LiteralNum(3)),
        ),
    );
    assert_eq!(p.ast, expected);
}

#[test]
fn call_arguments_keep_source_order() {
    // fn f() = g(1, 2, 3)
    let mut kinds = fn_header("f");
    kinds.extend(vec![
        ident("g"),
        TokenType::OpenParen,
        num(1),
        TokenType::Comma,
        num(2),
        TokenType::Comma,
        num(3),
        TokenType::CloseParen,
    ]);
    let mut p = parser_for(kinds);
    assert!(p.parse().is_ok());
    let expected = expr_body_program(
        "f",
        AstExpr::FnCall(
            Box::new(AstExpr::Var("g".to_string())),
            vec![AstExpr::LiteralNum(1), AstExpr::LiteralNum(2), AstExpr::LiteralNum(3)],
        ),
    );
    assert_eq!(p.ast, expected);
}

#[test]
fn scope_resolver_stops_at_dedent() {
    // Tiers [2, 3, 3, 1] from tier 2: the range covers exactly the first
    // three tokens; the dedenting marker is excluded.
    let p = parser_for(vec![
        TokenType::IdentTier(2),
        TokenType::IdentTier(3),
        TokenType::IdentTier(3),
        TokenType::IdentTier(1),
    ]);
    assert_eq!(p.find_scope(2), Scope::Block(0, 3));
}

#[test]
fn scope_resolver_runs_to_end_of_input() {
    let p = parser_for(vec![TokenType::IdentTier(1), TokenType::IdentTier(2)]);
    assert_eq!(p.find_scope(1), Scope::Block(0, 2));
}

#[test]
fn symbol_namer_gives_distinct_fresh_names() {
    // fn f(a: i8, b: i8): two arguments of the same type still get distinct
    // symbols; a second parser instance reproduces the same sequence.
    let kinds = vec![
        TokenType::IdentTier(0),
        TokenType::KeywordFn,
        ident("f"),
        TokenType::OpenParen,
        ident("a"),
        TokenType::OperatorColon,
        ident("i8"),
        TokenType::Comma,
        ident("b"),
        TokenType::OperatorColon,
        ident("i8"),
        TokenType::CloseParen,
    ];
    let mut p = parser_for(kinds.clone());
    assert!(p.parse().is_ok());
    assert_eq!(p.fn_def.len(), 1);
    let def = &p.fn_def[0].value;
    assert_eq!(def.arguments.len(), 2);
    assert_eq!(def.arguments[0].type_symbol, "$1");
    assert_eq!(def.arguments[1].type_symbol, "$2");
    assert_ne!(def.arguments[0].type_symbol, def.arguments[1].type_symbol);
    assert_eq!(def.ret_type, "$3");
    assert_eq!(p.fn_def[0].scope, Scope::Global);

    let mut q = parser_for(kinds);
    assert!(q.parse().is_ok());
    assert_eq!(q.fn_def[0].value.arguments[0].type_symbol, "$1");
    assert_eq!(q.fn_def[0].value.ret_type, "$3");
}

#[test]
fn unterminated_call_is_reported_as_such() {
    // fn f() = g(1, 2   <end of input>
    let mut kinds = fn_header("f");
    kinds.extend(vec![ident("g"), TokenType::OpenParen, num(1), TokenType::Comma, num(2)]);
    let mut p = parser_for(kinds);
    let e = p.parse().unwrap_err();
    assert_eq!(e.kind, ErrorKind::UnterminatedConstruct);
}

#[test]
fn unterminated_group_is_reported_as_such() {
    // fn f() = ( 1   <end of input>
    let mut kinds = fn_header("f");
    kinds.extend(vec![TokenType::OpenParen, num(1)]);
    let mut p = parser_for(kinds);
    let e = p.parse().unwrap_err();
    assert_eq!(e.kind, ErrorKind::UnterminatedConstruct);
}

#[test]
fn invalid_call_separator_is_a_syntax_error() {
    // fn f() = g(1 : 2): only the comma separates call arguments.
    let mut kinds = fn_header("f");
    kinds.extend(vec![
        ident("g"),
        TokenType::OpenParen,
        num(1),
        TokenType::OperatorColon,
        num(2),
        TokenType::CloseParen,
    ]);
    let mut p = parser_for(kinds);
    let e = p.parse().unwrap_err();
    assert_eq!(e.kind, ErrorKind::SyntaxError);
}

#[test]
fn reparsing_gives_structurally_identical_programs() {
    let kinds = vec![
        TokenType::IdentTier(0),
        TokenType::KeywordFn,
        ident("f"),
        TokenType::OpenParen,
        ident("a"),
        TokenType::OperatorColon,
        ident("u32"),
        TokenType::CloseParen,
        TokenType::OperatorAssign,
        ident("a"),
        TokenType::OperatorAdd,
        num(1),
    ];
    let mut p = parser_for(kinds.clone());
    let mut q = parser_for(kinds);
    assert!(p.parse().is_ok());
    assert!(q.parse().is_ok());
    assert_eq!(p.ast, q.ast);
    assert_eq!(p.fn_def, q.fn_def);
}

#[test]
fn declaration_only_registers_but_adds_no_node() {
    // fn f(a: i32)   -- no `=`
    let kinds = vec![
        TokenType::IdentTier(0),
        TokenType::KeywordFn,
        ident("f"),
        TokenType::OpenParen,
        ident("a"),
        TokenType::OperatorColon,
        ident("i32"),
        TokenType::CloseParen,
    ];
    let mut p = parser_for(kinds);
    assert!(p.parse().is_ok());
    assert_eq!(p.ast, AstNode::Program(AstProgram { nodes: vec![] }));
    assert_eq!(p.fn_def.len(), 1);
    assert_eq!(p.fn_def[0].value.name, "f");
}

#[test]
fn argument_types_resolve_through_symbols() {
    // fn f(a: u64, b: widget) -> bool = a
    let kinds = vec![
        TokenType::IdentTier(0),
        TokenType::KeywordFn,
        ident("f"),
        TokenType::OpenParen,
        ident("a"),
        TokenType::OperatorColon,
        ident("u64"),
        TokenType::Comma,
        ident("b"),
        TokenType::OperatorColon,
        ident("widget"),
        TokenType::CloseParen,
        TokenType::OperatorArrow,
        ident("bool"),
        TokenType::OperatorAssign,
        ident("a"),
    ];
    let mut p = parser_for(kinds);
    assert!(p.parse().is_ok());
    let def = &p.fn_def[0].value;
    assert_eq!(def.types.len(), 3);
    assert_eq!(def.types[0].symbol, def.arguments[0].type_symbol);
    assert_eq!(def.types[0].ty, Type::U64);
    assert_eq!(def.types[1].symbol, def.arguments[1].type_symbol);
    assert_eq!(def.types[1].ty, Type::Unknown);
    assert_eq!(def.types[2].symbol, def.ret_type);
    assert_eq!(def.types[2].ty, Type::Bool);
}

#[test]
fn missing_return_type_defaults_to_unit() {
    // fn f() = 1
    let mut kinds = fn_header("f");
    kinds.push(num(1));
    let mut p = parser_for(kinds);
    assert!(p.parse().is_ok());
    let def = &p.fn_def[0].value;
    assert_eq!(def.types.len(), 1);
    assert_eq!(def.types[0].ty, Type::Tuple(vec![]));
}

#[test]
fn tuple_parameter_type() {
    // fn f(a: (i8, u8))
    let kinds = vec![
        TokenType::IdentTier(0),
        TokenType::KeywordFn,
        ident("f"),
        TokenType::OpenParen,
        ident("a"),
        TokenType::OperatorColon,
        TokenType::OpenParen,
        ident("i8"),
        TokenType::Comma,
        ident("u8"),
        TokenType::CloseParen,
        TokenType::CloseParen,
    ];
    let mut p = parser_for(kinds);
    assert!(p.parse().is_ok());
    let def = &p.fn_def[0].value;
    assert_eq!(def.types[0].ty, Type::Tuple(vec![Type::I8, Type::U8]));
}

#[test]
fn generic_marker_wraps_the_base_type() {
    // fn f(a: list<)   -- the `<` marks a generic; its arguments are an
    // unimplemented extension and stay empty.
    let kinds = vec![
        TokenType::IdentTier(0),
        TokenType::KeywordFn,
        ident("f"),
        TokenType::OpenParen,
        ident("a"),
        TokenType::OperatorColon,
        ident("list"),
        TokenType::OperatorLes,
        TokenType::CloseParen,
    ];
    let mut p = parser_for(kinds);
    assert!(p.parse().is_ok());
    let def = &p.fn_def[0].value;
    assert_eq!(def.types[0].ty, Type::Generic(Box::new(Type::Unknown), vec![]));
}

#[test]
fn struct_definitions_are_unsupported() {
    let kinds = vec![TokenType::IdentTier(0), TokenType::KeywordStruct, ident("s")];
    let mut p = parser_for(kinds);
    let e = p.parse().unwrap_err();
    assert_eq!(e.kind, ErrorKind::UnsupportedConstruct);
}

#[test]
fn top_level_expressions_are_rejected() {
    let kinds = vec![TokenType::IdentTier(0), num(1)];
    let mut p = parser_for(kinds);
    let e = p.parse().unwrap_err();
    assert_eq!(e.kind, ErrorKind::SyntaxError);
}

#[test]
fn empty_input_yields_an_empty_program() {
    let mut p = parser_for(vec![]);
    assert!(p.parse().is_ok());
    assert_eq!(p.ast, AstNode::Program(AstProgram { nodes: vec![] }));
}

#[test]
fn eof_sentinel_ends_the_parse() {
    let mut p = parser_for(vec![TokenType::IdentTier(0), TokenType::Eof]);
    assert!(p.parse().is_ok());
    assert_eq!(p.ast, AstNode::Program(AstProgram { nodes: vec![] }));
}

#[test]
fn dedent_closes_the_block() {
    // fn f() =        (tier 0)
    //     1           (tier 1)
    //     2           (tier 1)
    // fn g() = 3      (tier 0)
    let kinds = vec![
        TokenType::IdentTier(0),
        TokenType::KeywordFn,
        ident("f"),
        TokenType::OpenParen,
        TokenType::CloseParen,
        TokenType::OperatorAssign,
        TokenType::IdentTier(1),
        num(1),
        TokenType::IdentTier(1),
        num(2),
        TokenType::IdentTier(0),
        TokenType::KeywordFn,
        ident("g"),
        TokenType::OpenParen,
        TokenType::CloseParen,
        TokenType::OperatorAssign,
        num(3),
    ];
    let mut p = parser_for(kinds);
    assert!(p.parse().is_ok());
    let expected = AstNode::Program(AstProgram {
        nodes: vec![
            AstNode::Fn(
                "f".to_string(),
                AstBlock {
                    nodes: vec![
                        AstNode::Expr(AstExpr::LiteralNum(1)),
                        AstNode::Expr(AstExpr::LiteralNum(2)),
                    ],
                },
            ),
            AstNode::Fn(
                "g".to_string(),
                AstBlock { nodes: vec![AstNode::Expr(AstExpr::LiteralNum(3))] },
            ),
        ],
    });
    assert_eq!(p.ast, expected);
    assert_eq!(p.fn_def.len(), 2);
}

#[test]
fn error_position_comes_from_the_offending_token() {
    // fn f( 1 ... : the literal where an argument name is required.
    let toks = vec![
        Token { t_type: TokenType::IdentTier(0), line: 3, col_start: 0, col_end: 0 },
        Token { t_type: TokenType::KeywordFn, line: 3, col_start: 1, col_end: 3 },
        Token { t_type: TokenType::Identifier("f".to_string()), line: 3, col_start: 4, col_end: 5 },
        Token { t_type: TokenType::OpenParen, line: 3, col_start: 5, col_end: 6 },
        Token { t_type: TokenType::LiteralNum(1), line: 3, col_start: 6, col_end: 7 },
    ];
    let mut p = Parser::new(TokenCursor::new(toks));
    let e = p.parse().unwrap_err();
    assert_eq!(e.kind, ErrorKind::SyntaxError);
    let at = e.at.unwrap();
    assert_eq!(at.line, 3);
    assert_eq!(at.col_start, 6);
    assert_eq!(at.col_end, 7);
}
