use chi_frontend::frontend::ast::{
    AssignStmt, BExpr, Block, Bop, Declaration, Expr, Function, IfStmt, Literal, Primary,
    ProcedureCall, Program, ReturnStmt, Statement, Type, UExpr, Uop, UseStmt, WhileStmt,
};
use chi_frontend::frontend::failure::{Construct, ParseFailure};
use chi_frontend::frontend::parser::ChiParser;
use chi_frontend::frontend::tree::Rule;

fn num(value: i64) -> Expr {
    Expr::Primary(Primary::Literal(Literal::Int(value)))
}

fn name(text: &str) -> Expr {
    Expr::Primary(Primary::Identifier(text.to_string()))
}

fn binary(operator: Bop, left: Expr, right: Expr) -> Expr {
    Expr::Binary(BExpr { operator, left: Box::new(left), right: Box::new(right) })
}

fn unary(operator: Uop, operand: Expr) -> Expr {
    Expr::Unary(UExpr { operator, operand: Box::new(operand) })
}

#[test]
fn single_global_declaration_with_initializer() {
    let program = ChiParser::parse("int x = 5;").unwrap();
    assert_eq!(
        program.global_declarations,
        vec![Declaration { decl_type: Type::Int, ids: vec!["x".to_string()], exprs: vec![num(5)] }]
    );
    assert!(program.functions.is_empty());
    assert!(program.use_statements.is_empty());
}

#[test]
fn declaration_of_two_names_without_initializers() {
    let program = ChiParser::parse("int x, y;").unwrap();
    assert_eq!(
        program.global_declarations,
        vec![Declaration {
            decl_type: Type::Int,
            ids: vec!["x".to_string(), "y".to_string()],
            exprs: vec![],
        }]
    );
}

#[test]
fn declaration_with_too_few_initializers_is_an_arity_mismatch() {
    assert!(matches!(
        ChiParser::parse("int x = 1, y;"),
        Err(ParseFailure::ArityMismatch { .. })
    ));
}

#[test]
fn arity_mismatch_tells_both_counts() {
    assert_eq!(
        ChiParser::parse("int x, y = 1;"),
        Err(ParseFailure::ArityMismatch { ids: 2, exprs: 1 })
    );
    assert_eq!(
        ChiParser::parse("int x = 1, y;"),
        Err(ParseFailure::ArityMismatch { ids: 1, exprs: 2 })
    );
}

#[test]
fn declaration_with_too_many_initializers_is_an_arity_mismatch() {
    assert_eq!(
        ChiParser::parse("bool a = true, false, true;"),
        Err(ParseFailure::ArityMismatch { ids: 1, exprs: 3 })
    );
}

#[test]
fn sum_of_two_names() {
    assert_eq!(
        ChiParser::parse_expression("a + b"),
        Ok(binary(Bop::Add, name("a"), name("b")))
    );
}

#[test]
fn use_statement() {
    let program = ChiParser::parse("use foo;").unwrap();
    assert_eq!(program.use_statements, vec![UseStmt { identifier: "foo".to_string() }]);
    assert!(program.global_declarations.is_empty());
    assert!(program.functions.is_empty());
}

#[test]
fn use_statement_without_semicolon() {
    let program = ChiParser::parse("use io\nuse conv").unwrap();
    assert_eq!(
        program.use_statements,
        vec![
            UseStmt { identifier: "io".to_string() },
            UseStmt { identifier: "conv".to_string() },
        ]
    );
}

#[test]
fn literals_keep_their_value() {
    assert_eq!(ChiParser::parse_expression("42"), Ok(num(42)));
    assert_eq!(
        ChiParser::parse_expression("true"),
        Ok(Expr::Primary(Primary::Literal(Literal::Bool(true))))
    );
    assert_eq!(
        ChiParser::parse_expression("false"),
        Ok(Expr::Primary(Primary::Literal(Literal::Bool(false))))
    );
    assert_eq!(
        ChiParser::parse_expression("'a'"),
        Ok(Expr::Primary(Primary::Literal(Literal::Char('a'))))
    );
    assert_eq!(
        ChiParser::parse_expression("\"hi there\""),
        Ok(Expr::Primary(Primary::Literal(Literal::String("hi there".to_string()))))
    );
    assert_eq!(
        ChiParser::parse_expression("\"\""),
        Ok(Expr::Primary(Primary::Literal(Literal::String(String::new()))))
    );
}

#[test]
fn largest_integer_literal() {
    assert_eq!(ChiParser::parse_expression("9223372036854775807"), Ok(num(i64::MAX)));
    assert_eq!(ChiParser::parse_expression("007"), Ok(num(7)));
}

#[test]
fn integer_literal_out_of_range_is_a_conversion_error() {
    assert_eq!(
        ChiParser::parse_expression("9223372036854775808"),
        Err(ParseFailure::LiteralConversionError { rule: Rule::IntLit })
    );
    assert_eq!(
        ChiParser::parse("int x = 99999999999999999999999;"),
        Err(ParseFailure::LiteralConversionError { rule: Rule::IntLit })
    );
}

#[test]
fn negative_number_is_a_negation() {
    assert_eq!(ChiParser::parse_expression("-5"), Ok(unary(Uop::Neg, num(5))));
    assert_eq!(ChiParser::parse_expression("!done"), Ok(unary(Uop::Not, name("done"))));
}

#[test]
fn every_binary_operator_has_its_tag() {
    let table = [
        ("+", Bop::Add),
        ("-", Bop::Sub),
        ("*", Bop::Mul),
        ("/", Bop::Div),
        ("%", Bop::Mod),
        ("==", Bop::Eq),
        ("!=", Bop::Neq),
        ("<", Bop::Lt),
        ("<=", Bop::Lte),
        (">", Bop::Gt),
        (">=", Bop::Gte),
        ("&", Bop::And),
        ("|", Bop::Or),
        ("*>>", Bop::HMul),
    ];
    for (token, operator) in table {
        let spaced = format!("a {} b", token);
        assert_eq!(
            ChiParser::parse_expression(&spaced),
            Ok(binary(operator, name("a"), name("b")))
        );
        let tight = format!("a{}b", token);
        assert_eq!(ChiParser::parse_expression(&tight), Ok(binary(operator, name("a"), name("b"))));
    }
}

#[test]
fn operators_group_to_the_right() {
    assert_eq!(
        ChiParser::parse_expression("a * b + c"),
        Ok(binary(Bop::Mul, name("a"), binary(Bop::Add, name("b"), name("c"))))
    );
    assert_eq!(
        ChiParser::parse_expression("1 - -2"),
        Ok(binary(Bop::Sub, num(1), unary(Uop::Neg, num(2))))
    );
    assert_eq!(
        ChiParser::parse_expression("- a - b"),
        Ok(unary(Uop::Neg, binary(Bop::Sub, name("a"), name("b"))))
    );
}

#[test]
fn text_that_is_no_expression_is_a_syntax_error() {
    assert_eq!(ChiParser::parse_expression(""), Err(ParseFailure::Syntax { position: 0 }));
    assert_eq!(ChiParser::parse_expression("  + a"), Err(ParseFailure::Syntax { position: 2 }));
    assert_eq!(ChiParser::parse_expression("a b"), Err(ParseFailure::Syntax { position: 2 }));
    assert_eq!(ChiParser::parse_expression("a +"), Err(ParseFailure::Syntax { position: 2 }));
    assert_eq!(ChiParser::parse_expression("'ab'"), Err(ParseFailure::Syntax { position: 0 }));
    assert_eq!(ChiParser::parse_expression("\"open"), Err(ParseFailure::Syntax { position: 0 }));
    assert_eq!(ChiParser::parse_expression("while"), Err(ParseFailure::Syntax { position: 0 }));
}

#[test]
fn text_that_is_no_program_is_a_syntax_error() {
    assert_eq!(ChiParser::parse("int x = 5"), Err(ParseFailure::Syntax { position: 0 }));
    assert_eq!(ChiParser::parse("use a; ?"), Err(ParseFailure::Syntax { position: 7 }));
    assert_eq!(ChiParser::parse("int int;"), Err(ParseFailure::Syntax { position: 0 }));
    assert_eq!(ChiParser::parse("integer x;"), Err(ParseFailure::Syntax { position: 0 }));
}

#[test]
fn empty_text_is_an_empty_program() {
    let empty = Program { global_declarations: vec![], functions: vec![], use_statements: vec![] };
    assert_eq!(ChiParser::parse(""), Ok(empty));
    let blank = Program { global_declarations: vec![], functions: vec![], use_statements: vec![] };
    assert_eq!(ChiParser::parse(" \n\t\r "), Ok(blank));
}

#[test]
fn words_that_start_like_reserved_words_are_names() {
    let program = ChiParser::parse("int integer, iff, truest, use_it;").unwrap();
    assert_eq!(
        program.global_declarations[0].ids,
        vec!["integer".to_string(), "iff".to_string(), "truest".to_string(), "use_it".to_string()]
    );
}

#[test]
fn array_declaration_is_not_built() {
    assert_eq!(
        ChiParser::parse("int[] xs;"),
        Err(ParseFailure::MalformedTree {
            expected: Construct::DeclType,
            found: Some(Rule::ArrayType),
        })
    );
    assert_eq!(
        ChiParser::parse("int [ ] [ ] xs;"),
        Err(ParseFailure::MalformedTree {
            expected: Construct::DeclType,
            found: Some(Rule::ArrayType),
        })
    );
}

#[test]
fn items_keep_their_order_within_their_kind() {
    let program = ChiParser::parse(
        "use a;\nint x = 1;\nuse b;\nchar c, d = 'c', 'd';\nstring s = \"s\";\nbool t;",
    )
    .unwrap();
    assert_eq!(
        program.use_statements,
        vec![UseStmt { identifier: "a".to_string() }, UseStmt { identifier: "b".to_string() }]
    );
    assert_eq!(
        program.global_declarations,
        vec![
            Declaration { decl_type: Type::Int, ids: vec!["x".to_string()], exprs: vec![num(1)] },
            Declaration {
                decl_type: Type::Char,
                ids: vec!["c".to_string(), "d".to_string()],
                exprs: vec![
                    Expr::Primary(Primary::Literal(Literal::Char('c'))),
                    Expr::Primary(Primary::Literal(Literal::Char('d'))),
                ],
            },
            Declaration {
                decl_type: Type::String,
                ids: vec!["s".to_string()],
                exprs: vec![Expr::Primary(Primary::Literal(Literal::String("s".to_string())))],
            },
            Declaration { decl_type: Type::Bool, ids: vec!["t".to_string()], exprs: vec![] },
        ]
    );
}

#[test]
fn function_with_every_kind_of_statement() {
    let source = "
        use io;
        int limit = 10;
        int count(int from, bool loud) {
            int i = from;
            i = i + 1;
            { print(i); }
            if (i < limit) { tick(); } else { return i; }
            if (loud) { shout(i, -1); }
            while (!loud) { loud = true; }
            return;
        }
        void main() { }
    ";
    let program = ChiParser::parse(source).unwrap();
    assert_eq!(program.use_statements, vec![UseStmt { identifier: "io".to_string() }]);
    assert_eq!(program.global_declarations.len(), 1);
    let call = |identifier: &str, arguments: Vec<Expr>| {
        Statement::ProcedureCall(ProcedureCall { identifier: identifier.to_string(), arguments })
    };
    let count = Function {
        return_type: Type::Int,
        identifier: "count".to_string(),
        arguments: vec![(Type::Int, "from".to_string()), (Type::Bool, "loud".to_string())],
        block: Block {
            statements: vec![
                Statement::Declaration(Declaration {
                    decl_type: Type::Int,
                    ids: vec!["i".to_string()],
                    exprs: vec![name("from")],
                }),
                Statement::Assign(AssignStmt {
                    identifier: "i".to_string(),
                    expression: binary(Bop::Add, name("i"), num(1)),
                }),
                Statement::Block(Block { statements: vec![call("print", vec![name("i")])] }),
                Statement::If(IfStmt {
                    condition: binary(Bop::Lt, name("i"), name("limit")),
                    then_block: Block { statements: vec![call("tick", vec![])] },
                    else_block: Some(Block {
                        statements: vec![Statement::Return(ReturnStmt {
                            expression: Some(name("i")),
                        })],
                    }),
                }),
                Statement::If(IfStmt {
                    condition: name("loud"),
                    then_block: Block {
                        statements: vec![call("shout", vec![name("i"), unary(Uop::Neg, num(1))])],
                    },
                    else_block: None,
                }),
                Statement::While(WhileStmt {
                    condition: unary(Uop::Not, name("loud")),
                    block: Block {
                        statements: vec![Statement::Assign(AssignStmt {
                            identifier: "loud".to_string(),
                            expression: Expr::Primary(Primary::Literal(Literal::Bool(true))),
                        })],
                    },
                }),
                Statement::Return(ReturnStmt { expression: None }),
            ],
        },
    };
    let main = Function {
        return_type: Type::Void,
        identifier: "main".to_string(),
        arguments: vec![],
        block: Block { statements: vec![] },
    };
    assert_eq!(program.functions, vec![count, main]);
}

#[test]
fn arity_is_checked_inside_function_bodies() {
    assert_eq!(
        ChiParser::parse("void f() { int a, b, c = 1, 2; }"),
        Err(ParseFailure::ArityMismatch { ids: 3, exprs: 2 })
    );
}

#[test]
fn parsing_twice_gives_equal_programs() {
    let source = "use m; int a, b = 1, 2; void f(char c) { if (a == b) { g(c); } }";
    let first = ChiParser::parse(source);
    let second = ChiParser::parse(source);
    assert!(first.is_ok());
    assert_eq!(first, second);
    let bad = "int a = ;";
    assert_eq!(ChiParser::parse(bad), ChiParser::parse(bad));
}

#[test]
fn parse_tree_keeps_the_matched_text() {
    let root = ChiParser::parse_tree("  int x = 5 ;  ").unwrap();
    assert_eq!(root.rule, Rule::Program);
    assert_eq!(root.text, "  int x = 5 ;  ");
    assert_eq!(root.children.len(), 1);
    let global = &root.children[0];
    assert_eq!(global.rule, Rule::GlobalDecl);
    assert_eq!(global.text, "int x = 5 ;");
    let decl = &global.children[0];
    assert_eq!(decl.rule, Rule::Decl);
    let rules: Vec<Rule> = decl.children.iter().map(|child| child.rule).collect();
    assert_eq!(
        rules,
        vec![Rule::DeclType, Rule::IdentifierList, Rule::Assign, Rule::ExprList, Rule::Semi]
    );
    let texts: Vec<&str> = decl.children.iter().map(|child| child.text.as_str()).collect();
    assert_eq!(texts, vec!["int", "x", "=", "5", ";"]);
    let primitive = &decl.children[0].children[0];
    assert_eq!(primitive.rule, Rule::PrimitiveType);
    assert_eq!(primitive.children[0].rule, Rule::IntType);
}

#[test]
fn unicode_text_in_literals() {
    assert_eq!(
        ChiParser::parse_expression("'é'"),
        Ok(Expr::Primary(Primary::Literal(Literal::Char('é'))))
    );
    assert_eq!(
        ChiParser::parse_expression("\"naïve ☃\""),
        Ok(Expr::Primary(Primary::Literal(Literal::String("naïve ☃".to_string()))))
    );
    assert_eq!(ChiParser::parse("int é;"), Err(ParseFailure::Syntax { position: 0 }));
}
