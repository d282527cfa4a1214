use chi_frontend::frontend::ast::{
    AssignStmt, BExpr, Block, Bop, Declaration, Expr, Function, IfStmt, Literal, Primary,
    ProcedureCall, ReturnStmt, Statement, Type, UExpr, Uop, UseStmt, WhileStmt,
};
use chi_frontend::frontend::failure::{Construct, ParseFailure};
use chi_frontend::frontend::parser::ChiParser;
use chi_frontend::frontend::tree::{Node, Rule};

fn malformed(expected: Construct, found: Option<Rule>) -> ParseFailure {
    ParseFailure::MalformedTree { expected, found }
}

fn literal_node(rule: Rule, text: &str) -> Node {
    Node::new(Rule::Literal, text, vec![Node::leaf(rule, text)])
}

fn literal_expr(rule: Rule, text: &str) -> Node {
    Node::new(
        Rule::Expr,
        text,
        vec![Node::new(Rule::Primary, text, vec![literal_node(rule, text)])],
    )
}

fn name_expr(text: &str) -> Node {
    Node::new(
        Rule::Expr,
        text,
        vec![Node::new(Rule::Primary, text, vec![Node::leaf(Rule::Identifier, text)])],
    )
}

fn type_node(rule: Rule, text: &str) -> Node {
    Node::new(
        Rule::DeclType,
        text,
        vec![Node::new(Rule::PrimitiveType, text, vec![Node::leaf(rule, text)])],
    )
}

fn names(texts: &[&str]) -> Node {
    let children = texts.iter().map(|text| Node::leaf(Rule::Identifier, text)).collect();
    Node::new(Rule::IdentifierList, "", children)
}

fn block_node(statements: Vec<Node>) -> Node {
    Node::new(Rule::Block, "", statements)
}

fn statement_node(inner: Node) -> Node {
    Node::new(Rule::Statement, "", vec![inner])
}

fn num(value: i64) -> Expr {
    Expr::Primary(Primary::Literal(Literal::Int(value)))
}

fn name(text: &str) -> Expr {
    Expr::Primary(Primary::Identifier(text.to_string()))
}

#[test]
fn node_constructors_and_accessors() {
    let leaf = Node::leaf(Rule::Identifier, "x");
    assert_eq!(leaf, Node { rule: Rule::Identifier, text: "x".to_string(), children: vec![] });
    let node = Node::new(Rule::Primary, "x", vec![leaf]);
    assert_eq!(node.rule(), Rule::Primary);
    assert_eq!(node.text(), "x");
    assert_eq!(node.child_count(), 1);
    assert_eq!(node.child(0).rule(), Rule::Identifier);
    assert_eq!(node.child(0).child_count(), 0);
    let owned = Node::with_text(Rule::Semi, ";".to_string(), vec![]);
    assert_eq!(owned, Node::leaf(Rule::Semi, ";"));
}

#[test]
fn literal_of_each_kind() {
    assert_eq!(ChiParser::parse_literal(&literal_node(Rule::IntLit, "42")), Ok(Literal::Int(42)));
    assert_eq!(
        ChiParser::parse_literal(&literal_node(Rule::BoolLit, "true")),
        Ok(Literal::Bool(true))
    );
    assert_eq!(
        ChiParser::parse_literal(&literal_node(Rule::BoolLit, "false")),
        Ok(Literal::Bool(false))
    );
    assert_eq!(ChiParser::parse_literal(&literal_node(Rule::CharLit, "a")), Ok(Literal::Char('a')));
    assert_eq!(
        ChiParser::parse_literal(&literal_node(Rule::StringLit, "a b")),
        Ok(Literal::String("a b".to_string()))
    );
}

#[test]
fn literal_value_comes_from_the_token() {
    let quoted = Node::new(Rule::Literal, "'a'", vec![Node::leaf(Rule::CharLit, "a")]);
    assert_eq!(ChiParser::parse_literal(&quoted), Ok(Literal::Char('a')));
    let longer = Node::new(Rule::Literal, "", vec![Node::leaf(Rule::CharLit, "xyz")]);
    assert_eq!(ChiParser::parse_literal(&longer), Ok(Literal::Char('x')));
    let string = Node::new(Rule::Literal, "\"s\"", vec![Node::leaf(Rule::StringLit, "s")]);
    assert_eq!(ChiParser::parse_literal(&string), Ok(Literal::String("s".to_string())));
}

#[test]
fn signed_integer_literals() {
    assert_eq!(ChiParser::parse_literal(&literal_node(Rule::IntLit, "-5")), Ok(Literal::Int(-5)));
    assert_eq!(ChiParser::parse_literal(&literal_node(Rule::IntLit, "+5")), Ok(Literal::Int(5)));
    assert_eq!(
        ChiParser::parse_literal(&literal_node(Rule::IntLit, "-9223372036854775808")),
        Ok(Literal::Int(i64::MIN))
    );
    assert_eq!(
        ChiParser::parse_literal(&literal_node(Rule::IntLit, "9223372036854775807")),
        Ok(Literal::Int(i64::MAX))
    );
    assert_eq!(ChiParser::parse_literal(&literal_node(Rule::IntLit, "-0")), Ok(Literal::Int(0)));
}

#[test]
fn literal_that_is_no_value_of_its_kind() {
    for text in ["", "+", "-", "12a", "1 2", "--1", "9223372036854775808", "-9223372036854775809"] {
        assert_eq!(
            ChiParser::parse_literal(&literal_node(Rule::IntLit, text)),
            Err(ParseFailure::LiteralConversionError { rule: Rule::IntLit }),
            "{:?}",
            text
        );
    }
    for text in ["", "True", "truee", "0", "fals"] {
        assert_eq!(
            ChiParser::parse_literal(&literal_node(Rule::BoolLit, text)),
            Err(ParseFailure::LiteralConversionError { rule: Rule::BoolLit })
        );
    }
    assert_eq!(
        ChiParser::parse_literal(&literal_node(Rule::CharLit, "")),
        Err(ParseFailure::LiteralConversionError { rule: Rule::CharLit })
    );
}

#[test]
fn literal_of_another_shape_is_malformed() {
    assert_eq!(
        ChiParser::parse_literal(&Node::leaf(Rule::Literal, "1")),
        Err(malformed(Construct::Literal, None))
    );
    assert_eq!(
        ChiParser::parse_literal(&literal_node(Rule::Identifier, "x")),
        Err(malformed(Construct::Literal, Some(Rule::Identifier)))
    );
}

#[test]
fn primary_is_a_name_or_a_literal() {
    let id = Node::new(Rule::Primary, "x", vec![Node::leaf(Rule::Identifier, "x")]);
    assert_eq!(ChiParser::parse_primary(&id), Ok(name("x")));
    let lit = Node::new(Rule::Primary, "7", vec![literal_node(Rule::IntLit, "7")]);
    assert_eq!(ChiParser::parse_primary(&lit), Ok(num(7)));
    assert_eq!(
        ChiParser::parse_primary(&Node::leaf(Rule::Primary, "x")),
        Err(malformed(Construct::Primary, None))
    );
    let other = Node::new(Rule::Primary, "x", vec![Node::leaf(Rule::Expr, "x")]);
    assert_eq!(ChiParser::parse_primary(&other), Err(malformed(Construct::Primary, Some(Rule::Expr))));
    let bad = Node::new(Rule::Primary, "x", vec![literal_node(Rule::IntLit, "x")]);
    assert_eq!(
        ChiParser::parse_primary(&bad),
        Err(ParseFailure::LiteralConversionError { rule: Rule::IntLit })
    );
}

fn binary_node(left: &str, operator: &str, right: Node) -> Node {
    Node::new(
        Rule::BinaryExpr,
        "",
        vec![
            Node::new(Rule::Primary, left, vec![Node::leaf(Rule::Identifier, left)]),
            Node::leaf(Rule::BinaryOp, operator),
            right,
        ],
    )
}

#[test]
fn binary_expression_from_its_three_parts() {
    let node = binary_node("a", "+", name_expr("b"));
    let expected = Expr::Binary(BExpr {
        operator: Bop::Add,
        left: Box::new(name("a")),
        right: Box::new(name("b")),
    });
    assert_eq!(ChiParser::parse_binary_expr(&node), Ok(expected));
    let wrapped = Node::new(Rule::Expr, "", vec![binary_node("a", "*>>", literal_expr(Rule::IntLit, "2"))]);
    let expected = Expr::Binary(BExpr {
        operator: Bop::HMul,
        left: Box::new(name("a")),
        right: Box::new(num(2)),
    });
    assert_eq!(ChiParser::parse_expr(&wrapped), Ok(expected));
}

#[test]
fn operator_outside_the_table_is_unknown() {
    for token in ["**", "", "=", "&&", "||", "<<", "*>", "*>>>", "+ "] {
        assert_eq!(
            ChiParser::parse_binary_expr(&binary_node("a", token, name_expr("b"))),
            Err(ParseFailure::UnknownOperator { construct: Construct::BinaryExpr }),
            "{:?}",
            token
        );
    }
    for token in ["~", "", "+", "--", "not"] {
        let node = Node::new(
            Rule::UnaryExpr,
            "",
            vec![Node::leaf(Rule::UnaryOp, token), name_expr("b")],
        );
        assert_eq!(
            ChiParser::parse_unary_expr(&node),
            Err(ParseFailure::UnknownOperator { construct: Construct::UnaryExpr })
        );
    }
}

#[test]
fn expression_with_missing_parts_is_malformed() {
    let short = Node::new(
        Rule::BinaryExpr,
        "",
        vec![
            Node::new(Rule::Primary, "a", vec![Node::leaf(Rule::Identifier, "a")]),
            Node::leaf(Rule::BinaryOp, "+"),
        ],
    );
    assert_eq!(ChiParser::parse_binary_expr(&short), Err(malformed(Construct::BinaryExpr, None)));
    let short = Node::new(Rule::UnaryExpr, "", vec![Node::leaf(Rule::UnaryOp, "-")]);
    assert_eq!(ChiParser::parse_unary_expr(&short), Err(malformed(Construct::UnaryExpr, None)));
    assert_eq!(
        ChiParser::parse_expr(&Node::leaf(Rule::Expr, "")),
        Err(malformed(Construct::Expr, None))
    );
    let other = Node::new(Rule::Expr, "", vec![Node::leaf(Rule::Identifier, "a")]);
    assert_eq!(ChiParser::parse_expr(&other), Err(malformed(Construct::Expr, Some(Rule::Identifier))));
}

#[test]
fn first_failure_of_a_binary_expression_wins() {
    let left_bad = Node::new(
        Rule::BinaryExpr,
        "",
        vec![Node::leaf(Rule::Primary, "a"), Node::leaf(Rule::BinaryOp, "??"), Node::leaf(Rule::Expr, "")],
    );
    assert_eq!(ChiParser::parse_binary_expr(&left_bad), Err(malformed(Construct::Primary, None)));
    let op_bad = binary_node("a", "??", Node::leaf(Rule::Expr, ""));
    assert_eq!(
        ChiParser::parse_binary_expr(&op_bad),
        Err(ParseFailure::UnknownOperator { construct: Construct::BinaryExpr })
    );
    let right_bad = binary_node("a", "+", Node::leaf(Rule::Expr, ""));
    assert_eq!(ChiParser::parse_binary_expr(&right_bad), Err(malformed(Construct::Expr, None)));
}

#[test]
fn unary_expression_from_its_two_parts() {
    let node = Node::new(Rule::UnaryExpr, "", vec![Node::leaf(Rule::UnaryOp, "!"), name_expr("b")]);
    let expected = Expr::Unary(UExpr { operator: Uop::Not, operand: Box::new(name("b")) });
    assert_eq!(ChiParser::parse_unary_expr(&node), Ok(expected));
    let node = Node::new(
        Rule::Expr,
        "",
        vec![Node::new(
            Rule::UnaryExpr,
            "",
            vec![Node::leaf(Rule::UnaryOp, "-"), literal_expr(Rule::IntLit, "3")],
        )],
    );
    let expected = Expr::Unary(UExpr { operator: Uop::Neg, operand: Box::new(num(3)) });
    assert_eq!(ChiParser::parse_expr(&node), Ok(expected));
}

#[test]
fn lists_keep_order_and_stop_at_the_first_failure() {
    let list = Node::new(
        Rule::ExprList,
        "",
        vec![literal_expr(Rule::IntLit, "1"), name_expr("b"), literal_expr(Rule::IntLit, "3")],
    );
    assert_eq!(ChiParser::parse_expr_list(&list), Ok(vec![num(1), name("b"), num(3)]));
    assert_eq!(ChiParser::parse_expr_list(&Node::leaf(Rule::ExprList, "")), Ok(vec![]));
    let list = Node::new(
        Rule::ExprList,
        "",
        vec![
            literal_expr(Rule::IntLit, "1"),
            literal_expr(Rule::BoolLit, "maybe"),
            literal_expr(Rule::IntLit, "x"),
        ],
    );
    assert_eq!(
        ChiParser::parse_expr_list(&list),
        Err(ParseFailure::LiteralConversionError { rule: Rule::BoolLit })
    );
    assert_eq!(
        ChiParser::parse_identifier_list(&names(&["x", "y", "x"])),
        vec!["x".to_string(), "y".to_string(), "x".to_string()]
    );
    assert_eq!(ChiParser::parse_identifier_list(&names(&[])), Vec::<String>::new());
}

#[test]
fn primitive_types() {
    assert_eq!(ChiParser::parse_primitive_type(&type_node(Rule::IntType, "int")), Ok(Type::Int));
    assert_eq!(ChiParser::parse_primitive_type(&type_node(Rule::BoolType, "bool")), Ok(Type::Bool));
    assert_eq!(ChiParser::parse_primitive_type(&type_node(Rule::CharType, "char")), Ok(Type::Char));
    assert_eq!(
        ChiParser::parse_primitive_type(&type_node(Rule::StringType, "string")),
        Ok(Type::String)
    );
    assert_eq!(ChiParser::parse_decl_type(&type_node(Rule::CharType, "char")), Ok(Type::Char));
    assert_eq!(
        ChiParser::parse_primitive_type(&type_node(Rule::VoidType, "void")),
        Err(malformed(Construct::PrimitiveType, Some(Rule::VoidType)))
    );
    assert_eq!(
        ChiParser::parse_primitive_type(&Node::leaf(Rule::DeclType, "")),
        Err(malformed(Construct::PrimitiveType, None))
    );
    let hollow = Node::new(Rule::DeclType, "", vec![Node::leaf(Rule::PrimitiveType, "")]);
    assert_eq!(
        ChiParser::parse_primitive_type(&hollow),
        Err(malformed(Construct::PrimitiveType, None))
    );
}

#[test]
fn array_type_is_not_built() {
    let array = Node::new(
        Rule::DeclType,
        "int[]",
        vec![Node::new(
            Rule::ArrayType,
            "int[]",
            vec![Node::new(Rule::PrimitiveType, "int", vec![Node::leaf(Rule::IntType, "int")])],
        )],
    );
    assert_eq!(
        ChiParser::parse_decl_type(&array),
        Err(malformed(Construct::DeclType, Some(Rule::ArrayType)))
    );
    assert_eq!(
        ChiParser::parse_decl_type(&Node::leaf(Rule::DeclType, "")),
        Err(malformed(Construct::DeclType, None))
    );
    let decl = Node::new(Rule::Decl, "", vec![array, names(&["xs"]), Node::leaf(Rule::Semi, ";")]);
    assert_eq!(
        ChiParser::parse_declaration(&decl),
        Err(malformed(Construct::DeclType, Some(Rule::ArrayType)))
    );
}

fn decl_node(ids: &[&str], values: Option<Vec<Node>>) -> Node {
    let mut children = vec![type_node(Rule::IntType, "int"), names(ids)];
    if let Some(values) = values {
        children.push(Node::leaf(Rule::Assign, "="));
        children.push(Node::new(Rule::ExprList, "", values));
    }
    children.push(Node::leaf(Rule::Semi, ";"));
    Node::new(Rule::Decl, "", children)
}

#[test]
fn declaration_from_its_parts() {
    let decl = decl_node(&["x"], Some(vec![literal_expr(Rule::IntLit, "5")]));
    let expected =
        Declaration { decl_type: Type::Int, ids: vec!["x".to_string()], exprs: vec![num(5)] };
    assert_eq!(ChiParser::parse_declaration(&decl), Ok(expected));
    let global = Node::new(Rule::GlobalDecl, "", vec![decl_node(&["x", "y"], None)]);
    let expected = Declaration {
        decl_type: Type::Int,
        ids: vec!["x".to_string(), "y".to_string()],
        exprs: vec![],
    };
    assert_eq!(ChiParser::parse_decl(&global), Ok(expected));
    let bare = Node::new(Rule::Decl, "", vec![type_node(Rule::BoolType, "bool")]);
    let expected = Declaration { decl_type: Type::Bool, ids: vec![], exprs: vec![] };
    assert_eq!(ChiParser::parse_declaration(&bare), Ok(expected));
}

#[test]
fn declaration_with_unequal_counts_is_an_arity_mismatch() {
    let decl = decl_node(&["x", "y"], Some(vec![literal_expr(Rule::IntLit, "1")]));
    assert_eq!(
        ChiParser::parse_declaration(&decl),
        Err(ParseFailure::ArityMismatch { ids: 2, exprs: 1 })
    );
    let decl = decl_node(&[], Some(vec![literal_expr(Rule::IntLit, "1")]));
    assert_eq!(
        ChiParser::parse_declaration(&decl),
        Err(ParseFailure::ArityMismatch { ids: 0, exprs: 1 })
    );
    let global = Node::new(
        Rule::GlobalDecl,
        "",
        vec![decl_node(
            &["x"],
            Some(vec![literal_expr(Rule::IntLit, "1"), literal_expr(Rule::IntLit, "2")]),
        )],
    );
    assert_eq!(ChiParser::parse_decl(&global), Err(ParseFailure::ArityMismatch { ids: 1, exprs: 2 }));
    let empty_list = decl_node(&["x", "y"], Some(vec![]));
    assert!(ChiParser::parse_declaration(&empty_list).is_ok());
}

#[test]
fn declaration_takes_the_last_list_of_each_kind() {
    let decl = Node::new(
        Rule::Decl,
        "",
        vec![
            type_node(Rule::IntType, "int"),
            Node::new(Rule::ExprList, "", vec![literal_expr(Rule::IntLit, "1")]),
            names(&["a", "b", "c"]),
            Node::leaf(Rule::Semi, ";"),
            names(&["z"]),
            type_node(Rule::BoolType, "bool"),
            Node::new(Rule::ExprList, "", vec![literal_expr(Rule::IntLit, "9")]),
        ],
    );
    let expected =
        Declaration { decl_type: Type::Int, ids: vec!["z".to_string()], exprs: vec![num(9)] };
    assert_eq!(ChiParser::parse_declaration(&decl), Ok(expected));
}

#[test]
fn declaration_of_another_shape_is_malformed() {
    assert_eq!(
        ChiParser::parse_declaration(&Node::leaf(Rule::Decl, "")),
        Err(malformed(Construct::Declaration, None))
    );
    assert_eq!(
        ChiParser::parse_decl(&Node::leaf(Rule::GlobalDecl, "")),
        Err(malformed(Construct::GlobalDecl, None))
    );
    let stray = Node::new(
        Rule::Decl,
        "",
        vec![type_node(Rule::IntType, "int"), names(&["x"]), Node::leaf(Rule::Block, "{}")],
    );
    assert_eq!(
        ChiParser::parse_declaration(&stray),
        Err(malformed(Construct::Declaration, Some(Rule::Block)))
    );
    let stray_before_bad_list = Node::new(
        Rule::Decl,
        "",
        vec![
            type_node(Rule::IntType, "int"),
            Node::leaf(Rule::Identifier, "x"),
            Node::new(Rule::ExprList, "", vec![Node::leaf(Rule::Expr, "")]),
        ],
    );
    assert_eq!(
        ChiParser::parse_declaration(&stray_before_bad_list),
        Err(malformed(Construct::Declaration, Some(Rule::Identifier)))
    );
    let type_first = Node::new(
        Rule::Decl,
        "",
        vec![Node::leaf(Rule::DeclType, ""), Node::leaf(Rule::Block, "{}")],
    );
    assert_eq!(ChiParser::parse_declaration(&type_first), Err(malformed(Construct::DeclType, None)));
}

#[test]
fn use_statement_from_its_name() {
    let node = Node::new(Rule::UseStmt, "use foo;", vec![Node::leaf(Rule::Identifier, "foo")]);
    assert_eq!(ChiParser::parse_use_stmt(&node), Ok(UseStmt { identifier: "foo".to_string() }));
    assert_eq!(
        ChiParser::parse_use_stmt(&Node::leaf(Rule::UseStmt, "use")),
        Err(malformed(Construct::UseStmt, None))
    );
    let other = Node::new(Rule::UseStmt, "", vec![Node::leaf(Rule::Semi, ";")]);
    assert_eq!(ChiParser::parse_use_stmt(&other), Err(malformed(Construct::UseStmt, Some(Rule::Semi))));
    assert_eq!(
        ChiParser::parse_name(&Node::leaf(Rule::Identifier, "n"), Construct::Assign),
        Ok("n".to_string())
    );
    assert_eq!(
        ChiParser::parse_name(&Node::leaf(Rule::IntLit, "1"), Construct::Assign),
        Err(malformed(Construct::Assign, Some(Rule::IntLit)))
    );
}

#[test]
fn statement_of_each_kind() {
    let declaration = statement_node(decl_node(&["x"], None));
    assert_eq!(
        ChiParser::parse_statement(&declaration),
        Ok(Statement::Declaration(Declaration {
            decl_type: Type::Int,
            ids: vec!["x".to_string()],
            exprs: vec![],
        }))
    );
    let assign = Node::new(
        Rule::AssignStmt,
        "",
        vec![Node::leaf(Rule::Identifier, "x"), literal_expr(Rule::IntLit, "1")],
    );
    let assigned =
        Statement::Assign(AssignStmt { identifier: "x".to_string(), expression: num(1) });
    assert_eq!(ChiParser::parse_assign_stmt(&assign), Ok(Statement::Assign(AssignStmt {
        identifier: "x".to_string(),
        expression: num(1),
    })));
    assert_eq!(ChiParser::parse_statement(&statement_node(assign)), Ok(assigned));
    let empty_block = statement_node(block_node(vec![]));
    assert_eq!(
        ChiParser::parse_statement(&empty_block),
        Ok(Statement::Block(Block { statements: vec![] }))
    );
    let bare_return = Node::leaf(Rule::ReturnStmt, "return;");
    assert_eq!(
        ChiParser::parse_return_stmt(&bare_return),
        Ok(Statement::Return(ReturnStmt { expression: None }))
    );
    let full_return = statement_node(Node::new(Rule::ReturnStmt, "", vec![name_expr("x")]));
    assert_eq!(
        ChiParser::parse_statement(&full_return),
        Ok(Statement::Return(ReturnStmt { expression: Some(name("x")) }))
    );
    let call = Node::new(Rule::ProcedureCall, "", vec![Node::leaf(Rule::Identifier, "f")]);
    assert_eq!(
        ChiParser::parse_procedure_call(&call),
        Ok(Statement::ProcedureCall(ProcedureCall { identifier: "f".to_string(), arguments: vec![] }))
    );
    let call = statement_node(Node::new(
        Rule::ProcedureCall,
        "",
        vec![
            Node::leaf(Rule::Identifier, "f"),
            Node::new(Rule::ExprList, "", vec![name_expr("a"), literal_expr(Rule::IntLit, "2")]),
        ],
    ));
    assert_eq!(
        ChiParser::parse_statement(&call),
        Ok(Statement::ProcedureCall(ProcedureCall {
            identifier: "f".to_string(),
            arguments: vec![name("a"), num(2)],
        }))
    );
}

#[test]
fn conditional_with_and_without_alternative() {
    let inner_return = statement_node(Node::leaf(Rule::ReturnStmt, "return;"));
    let without = Node::new(Rule::IfStmt, "", vec![name_expr("c"), block_node(vec![inner_return])]);
    let returns = || vec![Statement::Return(ReturnStmt { expression: None })];
    assert_eq!(
        ChiParser::parse_if_stmt(&without),
        Ok(Statement::If(IfStmt {
            condition: name("c"),
            then_block: Block { statements: returns() },
            else_block: None,
        }))
    );
    let inner_return = statement_node(Node::leaf(Rule::ReturnStmt, "return;"));
    let with = statement_node(Node::new(
        Rule::IfStmt,
        "",
        vec![name_expr("c"), block_node(vec![]), block_node(vec![inner_return])],
    ));
    assert_eq!(
        ChiParser::parse_statement(&with),
        Ok(Statement::If(IfStmt {
            condition: name("c"),
            then_block: Block { statements: vec![] },
            else_block: Some(Block { statements: returns() }),
        }))
    );
    let looped = Node::new(Rule::WhileStmt, "", vec![name_expr("c"), block_node(vec![])]);
    assert_eq!(
        ChiParser::parse_while_stmt(&looped),
        Ok(Statement::While(WhileStmt { condition: name("c"), block: Block { statements: vec![] } }))
    );
    let looped = statement_node(Node::new(
        Rule::WhileStmt,
        "",
        vec![name_expr("c"), block_node(vec![])],
    ));
    assert!(matches!(ChiParser::parse_statement(&looped), Ok(Statement::While(_))));
}

#[test]
fn statement_of_another_shape_is_malformed() {
    assert_eq!(
        ChiParser::parse_statement(&Node::leaf(Rule::Statement, "")),
        Err(malformed(Construct::Statement, None))
    );
    assert_eq!(
        ChiParser::parse_statement(&statement_node(name_expr("x"))),
        Err(malformed(Construct::Statement, Some(Rule::Expr)))
    );
    assert_eq!(
        ChiParser::parse_block(&Node::leaf(Rule::Statement, "")),
        Err(malformed(Construct::Block, Some(Rule::Statement)))
    );
    assert_eq!(
        ChiParser::parse_assign_stmt(&Node::new(
            Rule::AssignStmt,
            "",
            vec![Node::leaf(Rule::Identifier, "x")]
        )),
        Err(malformed(Construct::Assign, None))
    );
    assert_eq!(
        ChiParser::parse_assign_stmt(&Node::new(
            Rule::AssignStmt,
            "",
            vec![name_expr("x"), name_expr("y")]
        )),
        Err(malformed(Construct::Assign, Some(Rule::Expr)))
    );
    assert_eq!(
        ChiParser::parse_if_stmt(&Node::new(Rule::IfStmt, "", vec![name_expr("c")])),
        Err(malformed(Construct::If, None))
    );
    assert_eq!(
        ChiParser::parse_if_stmt(&Node::new(Rule::IfStmt, "", vec![name_expr("c"), name_expr("d")])),
        Err(malformed(Construct::Block, Some(Rule::Expr)))
    );
    assert_eq!(
        ChiParser::parse_while_stmt(&Node::leaf(Rule::WhileStmt, "")),
        Err(malformed(Construct::While, None))
    );
    assert_eq!(
        ChiParser::parse_procedure_call(&Node::leaf(Rule::ProcedureCall, "")),
        Err(malformed(Construct::ProcedureCall, None))
    );
    assert_eq!(
        ChiParser::parse_return_stmt(&Node::new(
            Rule::ReturnStmt,
            "",
            vec![Node::leaf(Rule::Expr, "")]
        )),
        Err(malformed(Construct::Expr, None))
    );
    let second_bad = block_node(vec![
        statement_node(Node::leaf(Rule::ReturnStmt, "")),
        statement_node(Node::leaf(Rule::Semi, ";")),
        Node::leaf(Rule::Statement, ""),
    ]);
    assert_eq!(
        ChiParser::parse_block(&second_bad),
        Err(malformed(Construct::Statement, Some(Rule::Semi)))
    );
}

fn function_node(returned: Node, params: Vec<Node>, body: Vec<Node>) -> Node {
    Node::new(
        Rule::FunctionDecl,
        "",
        vec![
            Node::new(Rule::ReturnType, "", vec![returned]),
            Node::leaf(Rule::Identifier, "f"),
            Node::new(Rule::ParamList, "", params),
            block_node(body),
        ],
    )
}

fn param_node(rule: Rule, name: &str) -> Node {
    Node::new(Rule::Param, "", vec![type_node(rule, ""), Node::leaf(Rule::Identifier, name)])
}

#[test]
fn function_from_its_four_parts() {
    let node = function_node(
        Node::leaf(Rule::VoidType, "void"),
        vec![param_node(Rule::IntType, "a"), param_node(Rule::StringType, "b")],
        vec![statement_node(Node::leaf(Rule::ReturnStmt, "return;"))],
    );
    let expected = Function {
        return_type: Type::Void,
        identifier: "f".to_string(),
        arguments: vec![(Type::Int, "a".to_string()), (Type::String, "b".to_string())],
        block: Block { statements: vec![Statement::Return(ReturnStmt { expression: None })] },
    };
    assert_eq!(ChiParser::parse_function(&node), Ok(expected));
    let node = function_node(type_node(Rule::BoolType, "bool"), vec![], vec![]);
    let expected = Function {
        return_type: Type::Bool,
        identifier: "f".to_string(),
        arguments: vec![],
        block: Block { statements: vec![] },
    };
    assert_eq!(ChiParser::parse_function(&node), Ok(expected));
}

#[test]
fn function_of_another_shape_is_malformed() {
    assert_eq!(
        ChiParser::parse_function(&Node::leaf(Rule::FunctionDecl, "")),
        Err(malformed(Construct::Function, None))
    );
    assert_eq!(
        ChiParser::parse_function(&function_node(Node::leaf(Rule::Semi, ";"), vec![], vec![])),
        Err(malformed(Construct::ReturnType, Some(Rule::Semi)))
    );
    assert_eq!(
        ChiParser::parse_return_type(&Node::leaf(Rule::ReturnType, "")),
        Err(malformed(Construct::ReturnType, None))
    );
    assert_eq!(
        ChiParser::parse_return_type(&Node::new(
            Rule::ReturnType,
            "",
            vec![Node::leaf(Rule::VoidType, "void")]
        )),
        Ok(Type::Void)
    );
    let short_param = Node::new(Rule::Param, "", vec![type_node(Rule::IntType, "int")]);
    assert_eq!(
        ChiParser::parse_function(&function_node(
            Node::leaf(Rule::VoidType, "void"),
            vec![param_node(Rule::IntType, "a"), short_param],
            vec![]
        )),
        Err(malformed(Construct::Parameter, None))
    );
    let nameless = Node::new(
        Rule::Param,
        "",
        vec![type_node(Rule::IntType, "int"), Node::leaf(Rule::Semi, ";")],
    );
    assert_eq!(
        ChiParser::parse_param_list(&Node::new(Rule::ParamList, "", vec![nameless])),
        Err(malformed(Construct::Parameter, Some(Rule::Semi)))
    );
    let mut wrong_name = function_node(Node::leaf(Rule::VoidType, "void"), vec![], vec![]);
    wrong_name.children[1] = Node::leaf(Rule::Block, "");
    assert_eq!(
        ChiParser::parse_function(&wrong_name),
        Err(malformed(Construct::Function, Some(Rule::Block)))
    );
    let mut wrong_body = function_node(Node::leaf(Rule::VoidType, "void"), vec![], vec![]);
    wrong_body.children[3] = Node::leaf(Rule::Semi, ";");
    assert_eq!(
        ChiParser::parse_function(&wrong_body),
        Err(malformed(Construct::Block, Some(Rule::Semi)))
    );
}

#[test]
fn program_from_its_items() {
    let root = Node::new(
        Rule::Program,
        "",
        vec![
            Node::new(Rule::UseStmt, "", vec![Node::leaf(Rule::Identifier, "a")]),
            Node::new(Rule::GlobalDecl, "", vec![decl_node(&["x"], None)]),
            function_node(Node::leaf(Rule::VoidType, "void"), vec![], vec![]),
            Node::new(Rule::UseStmt, "", vec![Node::leaf(Rule::Identifier, "b")]),
            Node::new(Rule::GlobalDecl, "", vec![decl_node(&["y"], None)]),
        ],
    );
    let program = ChiParser::parse_program(&root).unwrap();
    assert_eq!(
        program.use_statements,
        vec![UseStmt { identifier: "a".to_string() }, UseStmt { identifier: "b".to_string() }]
    );
    assert_eq!(program.global_declarations.len(), 2);
    assert_eq!(program.global_declarations[0].ids, vec!["x".to_string()]);
    assert_eq!(program.global_declarations[1].ids, vec!["y".to_string()]);
    assert_eq!(program.functions.len(), 1);
    assert_eq!(program.functions[0].identifier, "f");
}

#[test]
fn program_stops_at_its_first_bad_item() {
    let root = Node::new(
        Rule::Program,
        "",
        vec![
            Node::new(Rule::UseStmt, "", vec![Node::leaf(Rule::Identifier, "a")]),
            Node::leaf(Rule::Semi, ";"),
            Node::leaf(Rule::UseStmt, ""),
        ],
    );
    assert_eq!(ChiParser::parse_program(&root), Err(malformed(Construct::Program, Some(Rule::Semi))));
    let root = Node::new(
        Rule::Program,
        "",
        vec![
            Node::leaf(Rule::UseStmt, ""),
            Node::leaf(Rule::Semi, ";"),
        ],
    );
    assert_eq!(ChiParser::parse_program(&root), Err(malformed(Construct::UseStmt, None)));
    let root = Node::new(
        Rule::Program,
        "",
        vec![Node::new(
            Rule::GlobalDecl,
            "",
            vec![decl_node(&["x", "y"], Some(vec![literal_expr(Rule::IntLit, "1")]))],
        )],
    );
    assert_eq!(
        ChiParser::parse_program(&root),
        Err(ParseFailure::ArityMismatch { ids: 2, exprs: 1 })
    );
}
