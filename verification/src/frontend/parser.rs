//! The tree builder: from a concrete parse tree to the syntax tree that it
//! denotes.
use crate::frontend::ast::{
    declaration_views, expr_views, expr_views_index, function_views, name_views, param_views,
    statement_views, use_views, AssignStmt, BExpr, Block, Declaration, Expr, ExprView, Function,
    IfStmt, Literal, Primary, ProcedureCall, Program, ProgramView, ReturnStmt, Statement,
    StatementView, Type, UExpr, UseStmt, WhileStmt,
};
use crate::frontend::failure::{caused_by_text, Construct, ParseFailure};
use crate::frontend::laws::{
    built_program_has_matching_arity, text_gives_well_shaped_expr,
    text_gives_well_shaped_program,
};
use crate::frontend::lexical::{
    binary_operator, chars_of, parse_bool, parse_char, parse_int, unary_operator,
};
use crate::frontend::matcher;
use crate::frontend::meaning::{
    assign_of, binary_of, block_of, call_of, decl_parts, decl_type_of, declaration_of, denotes,
    denotes_exprs, expr_of, expr_of_text, exprs_of, function_of, global_decl_of, if_of, items_of,
    literal_of, name_of, params_of, primary_of, primitive_type_of, program_of, program_of_text,
    return_of, return_type_of, statement_of, statements_of, texts_of, tree_of_text, unary_of,
    use_of, while_of,
};
use crate::frontend::tree::{Node, NodeView, Rule};
use vstd::prelude::*;

verus! {

/// The first `len + 1` elements of a sequence are its first `len` elements
/// and then the element at `len`.
pub proof fn take_next<T>(s: Seq<T>, len: int)
    requires
        0 <= len < s.len(),
    ensures
        s.take(len + 1).drop_last() == s.take(len),
        s.take(len + 1).last() == s[len],
        s.take(len + 1).len() == len + 1,
{
    assert(s.take(len + 1).drop_last() =~= s.take(len));
}

/// The parser: from a text, or from its parse tree, to the syntax tree.
pub struct ChiParser;

impl ChiParser {
    /// Builds the literal that a `Literal` node denotes.
    pub fn parse_literal(pair: &Node) -> (result: Result<Literal, ParseFailure>)
        ensures
            denotes(result, literal_of(pair@)),
    {
        if pair.child_count() == 0 {
            return Err(ParseFailure::MalformedTree { expected: Construct::Literal, found: None });
        }
        let token = pair.child(0);
        match token.rule() {
            Rule::IntLit => match parse_int(token.text()) {
                Some(value) => Ok(Literal::Int(value)),
                None => Err(ParseFailure::LiteralConversionError { rule: Rule::IntLit }),
            },
            Rule::CharLit => match parse_char(token.text()) {
                Some(value) => Ok(Literal::Char(value)),
                None => Err(ParseFailure::LiteralConversionError { rule: Rule::CharLit }),
            },
            Rule::BoolLit => match parse_bool(token.text()) {
                Some(value) => Ok(Literal::Bool(value)),
                None => Err(ParseFailure::LiteralConversionError { rule: Rule::BoolLit }),
            },
            Rule::StringLit => Ok(Literal::String(token.text().to_owned())),
            rule => Err(
                ParseFailure::MalformedTree { expected: Construct::Literal, found: Some(rule) },
            ),
        }
    }

    /// Builds the expression that a `Primary` node denotes.
    pub fn parse_primary(pair: &Node) -> (result: Result<Expr, ParseFailure>)
        ensures
            denotes(result, primary_of(pair@)),
    {
        if pair.child_count() == 0 {
            return Err(ParseFailure::MalformedTree { expected: Construct::Primary, found: None });
        }
        let inner = pair.child(0);
        match inner.rule() {
            Rule::Identifier => Ok(
                Expr::Primary(Primary::Identifier(inner.text().to_owned())),
            ),
            Rule::Literal => match Self::parse_literal(inner) {
                Ok(literal) => Ok(Expr::Primary(Primary::Literal(literal))),
                Err(failure) => Err(failure),
            },
            rule => Err(
                ParseFailure::MalformedTree { expected: Construct::Primary, found: Some(rule) },
            ),
        }
    }

    /// Builds the expression that an `Expr` node denotes.
    pub fn parse_expr(pair: &Node) -> (result: Result<Expr, ParseFailure>)
        ensures
            denotes(result, expr_of(pair@)),
        decreases pair@,
    {
        if pair.child_count() == 0 {
            return Err(ParseFailure::MalformedTree { expected: Construct::Expr, found: None });
        }
        let inner = pair.child(0);
        match inner.rule() {
            Rule::Primary => Self::parse_primary(inner),
            Rule::BinaryExpr => Self::parse_binary_expr(inner),
            Rule::UnaryExpr => Self::parse_unary_expr(inner),
            rule => Err(
                ParseFailure::MalformedTree { expected: Construct::Expr, found: Some(rule) },
            ),
        }
    }

    /// Builds the expression that a `BinaryExpr` node denotes.
    pub fn parse_binary_expr(pair: &Node) -> (result: Result<Expr, ParseFailure>)
        ensures
            denotes(result, binary_of(pair@)),
        decreases pair@,
    {
        if pair.child_count() < 3 {
            return Err(
                ParseFailure::MalformedTree { expected: Construct::BinaryExpr, found: None },
            );
        }
        let left = match Self::parse_primary(pair.child(0)) {
            Ok(left) => left,
            Err(failure) => {
                return Err(failure);
            },
        };
        let operator = match binary_operator(pair.child(1).text()) {
            Some(operator) => operator,
            None => {
                return Err(ParseFailure::UnknownOperator { construct: Construct::BinaryExpr });
            },
        };
        let right = match Self::parse_expr(pair.child(2)) {
            Ok(right) => right,
            Err(failure) => {
                return Err(failure);
            },
        };
        Ok(Expr::Binary(BExpr { operator, left: Box::new(left), right: Box::new(right) }))
    }

    /// Builds the expression that a `UnaryExpr` node denotes.
    pub fn parse_unary_expr(pair: &Node) -> (result: Result<Expr, ParseFailure>)
        ensures
            denotes(result, unary_of(pair@)),
        decreases pair@,
    {
        if pair.child_count() < 2 {
            return Err(
                ParseFailure::MalformedTree { expected: Construct::UnaryExpr, found: None },
            );
        }
        let operator = match unary_operator(pair.child(0).text()) {
            Some(operator) => operator,
            None => {
                return Err(ParseFailure::UnknownOperator { construct: Construct::UnaryExpr });
            },
        };
        let operand = match Self::parse_expr(pair.child(1)) {
            Ok(operand) => operand,
            Err(failure) => {
                return Err(failure);
            },
        };
        Ok(Expr::Unary(UExpr { operator, operand: Box::new(operand) }))
    }

    /// Builds the expressions that the children of a node denote, in order.
    pub fn parse_expr_list(pair: &Node) -> (result: Result<Vec<Expr>, ParseFailure>)
        ensures
            denotes_exprs(result, exprs_of(pair@.children)),
    {
        let count = pair.child_count();
        let mut exprs: Vec<Expr> = Vec::new();
        let mut i: usize = 0;
        while i < count
            invariant
                i <= count,
                count == pair@.children.len(),
                exprs_of(pair@.children.take(i as int)) == Ok::<
                    Seq<ExprView>,
                    ParseFailure,
                >(expr_views(exprs@)),
            decreases count - i,
        {
            proof {
                take_next(pair@.children, i as int);
            }
            match Self::parse_expr(pair.child(i)) {
                Ok(expr) => {
                    proof {
                        assert(exprs@.push(expr).drop_last() =~= exprs@);
                    }
                    exprs.push(expr);
                },
                Err(failure) => {
                    proof {
                        exprs_of_failure_kept(pair@.children, i as int + 1);
                    }
                    return Err(failure);
                },
            }
            i = i + 1;
        }
        proof {
            assert(pair@.children.take(count as int) =~= pair@.children);
        }
        Ok(exprs)
    }

    /// Collects the texts of the children of a node, in order.
    pub fn parse_identifier_list(pair: &Node) -> (ids: Vec<String>)
        ensures
            name_views(ids@) == texts_of(pair@.children),
    {
        let count = pair.child_count();
        let mut ids: Vec<String> = Vec::new();
        let mut i: usize = 0;
        while i < count
            invariant
                i <= count,
                count == pair@.children.len(),
                ids@.len() == i,
                forall|j: int| 0 <= j < i ==> (#[trigger] ids@[j])@ == pair@.children[j].text,
            decreases count - i,
        {
            ids.push(pair.child(i).text().to_owned());
            i = i + 1;
        }
        proof {
            assert(name_views(ids@) =~= texts_of(pair@.children));
        }
        ids
    }

    /// Builds the primitive type that a `DeclType` node names.
    pub fn parse_primitive_type(pair: &Node) -> (result: Result<Type, ParseFailure>)
        ensures
            result == primitive_type_of(pair@),
    {
        if pair.child_count() == 0 || pair.child(0).child_count() == 0 {
            return Err(
                ParseFailure::MalformedTree { expected: Construct::PrimitiveType, found: None },
            );
        }
        match pair.child(0).child(0).rule() {
            Rule::IntType => Ok(Type::Int),
            Rule::CharType => Ok(Type::Char),
            Rule::BoolType => Ok(Type::Bool),
            Rule::StringType => Ok(Type::String),
            rule => Err(
                ParseFailure::MalformedTree {
                    expected: Construct::PrimitiveType,
                    found: Some(rule),
                },
            ),
        }
    }

    /// Builds the type that a `DeclType` node denotes.
    pub fn parse_decl_type(pair: &Node) -> (result: Result<Type, ParseFailure>)
        ensures
            result == decl_type_of(pair@),
    {
        if pair.child_count() == 0 {
            return Err(ParseFailure::MalformedTree { expected: Construct::DeclType, found: None });
        }
        match pair.child(0).rule() {
            Rule::PrimitiveType => Self::parse_primitive_type(pair),
            rule => Err(
                ParseFailure::MalformedTree { expected: Construct::DeclType, found: Some(rule) },
            ),
        }
    }

    /// Builds the declaration that a `Decl` node denotes.
    pub fn parse_declaration(pair: &Node) -> (result: Result<Declaration, ParseFailure>)
        ensures
            denotes(result, declaration_of(pair@)),
            result matches Ok(declaration) ==> declaration@.arity_ok(),
    {
        let count = pair.child_count();
        if count == 0 {
            return Err(
                ParseFailure::MalformedTree { expected: Construct::Declaration, found: None },
            );
        }
        let decl_type = match Self::parse_decl_type(pair.child(0)) {
            Ok(decl_type) => decl_type,
            Err(failure) => {
                return Err(failure);
            },
        };
        let mut ids: Vec<String> = Vec::new();
        let mut exprs: Vec<Expr> = Vec::new();
        let mut i: usize = 0;
        proof {
            assert(name_views(ids@) =~= Seq::empty());
        }
        while i < count
            invariant
                i <= count,
                count == pair@.children.len(),
                count > 0,
                decl_type_of(pair@.children[0]) == Ok::<Type, ParseFailure>(decl_type),
                decl_parts(pair@.children.take(i as int)) == Ok::<
                    (Seq<Seq<char>>, Seq<ExprView>),
                    ParseFailure,
                >((name_views(ids@), expr_views(exprs@))),
            decreases count - i,
        {
            proof {
                take_next(pair@.children, i as int);
            }
            let part = pair.child(i);
            match part.rule() {
                Rule::DeclType | Rule::Semi | Rule::Assign => {},
                Rule::IdentifierList => {
                    ids = Self::parse_identifier_list(part);
                },
                Rule::ExprList => match Self::parse_expr_list(part) {
                    Ok(list) => {
                        exprs = list;
                    },
                    Err(failure) => {
                        proof {
                            decl_parts_failure_kept(pair@.children, i as int + 1);
                        }
                        return Err(failure);
                    },
                },
                rule => {
                    proof {
                        decl_parts_failure_kept(pair@.children, i as int + 1);
                    }
                    return Err(
                        ParseFailure::MalformedTree {
                            expected: Construct::Declaration,
                            found: Some(rule),
                        },
                    );
                },
            }
            i = i + 1;
        }
        proof {
            assert(pair@.children.take(count as int) =~= pair@.children);
            expr_views_index(exprs@);
        }
        if exprs.len() > 0 && ids.len() != exprs.len() {
            return Err(ParseFailure::ArityMismatch { ids: ids.len(), exprs: exprs.len() });
        }
        Ok(Declaration { decl_type, ids, exprs })
    }

    /// Builds the declaration that a `GlobalDecl` node denotes.
    pub fn parse_decl(pair: &Node) -> (result: Result<Declaration, ParseFailure>)
        ensures
            denotes(result, global_decl_of(pair@)),
            result matches Ok(declaration) ==> declaration@.arity_ok(),
    {
        if pair.child_count() == 0 {
            return Err(
                ParseFailure::MalformedTree { expected: Construct::GlobalDecl, found: None },
            );
        }
        Self::parse_declaration(pair.child(0))
    }

    /// The name that an `Identifier` node holds, as a part of `construct`.
    pub fn parse_name(pair: &Node, construct: Construct) -> (result: Result<String, ParseFailure>)
        ensures
            denotes(result, name_of(pair@, construct)),
    {
        match pair.rule() {
            Rule::Identifier => Ok(pair.text().to_owned()),
            rule => Err(ParseFailure::MalformedTree { expected: construct, found: Some(rule) }),
        }
    }

    /// Builds the use statement that a `UseStmt` node denotes.
    pub fn parse_use_stmt(pair: &Node) -> (result: Result<UseStmt, ParseFailure>)
        ensures
            denotes(result, use_of(pair@)),
    {
        if pair.child_count() == 0 {
            return Err(ParseFailure::MalformedTree { expected: Construct::UseStmt, found: None });
        }
        match Self::parse_name(pair.child(0), Construct::UseStmt) {
            Ok(identifier) => Ok(UseStmt { identifier }),
            Err(failure) => Err(failure),
        }
    }

    /// Builds the statement that a `Statement` node denotes.
    pub fn parse_statement(pair: &Node) -> (result: Result<Statement, ParseFailure>)
        ensures
            denotes(result, statement_of(pair@)),
        decreases pair@,
    {
        if pair.child_count() == 0 {
            return Err(
                ParseFailure::MalformedTree { expected: Construct::Statement, found: None },
            );
        }
        let inner = pair.child(0);
        match inner.rule() {
            Rule::Decl => match Self::parse_declaration(inner) {
                Ok(declaration) => Ok(Statement::Declaration(declaration)),
                Err(failure) => Err(failure),
            },
            Rule::AssignStmt => Self::parse_assign_stmt(inner),
            Rule::Block => match Self::parse_block(inner) {
                Ok(block) => Ok(Statement::Block(block)),
                Err(failure) => Err(failure),
            },
            Rule::IfStmt => Self::parse_if_stmt(inner),
            Rule::WhileStmt => Self::parse_while_stmt(inner),
            Rule::ReturnStmt => Self::parse_return_stmt(inner),
            Rule::ProcedureCall => Self::parse_procedure_call(inner),
            rule => Err(
                ParseFailure::MalformedTree { expected: Construct::Statement, found: Some(rule) },
            ),
        }
    }

    /// Builds the block that a `Block` node denotes.
    pub fn parse_block(pair: &Node) -> (result: Result<Block, ParseFailure>)
        ensures
            denotes(result, block_of(pair@)),
        decreases pair@,
    {
        match pair.rule() {
            Rule::Block => {},
            rule => {
                return Err(
                    ParseFailure::MalformedTree { expected: Construct::Block, found: Some(rule) },
                );
            },
        }
        let count = pair.child_count();
        let mut statements: Vec<Statement> = Vec::new();
        let mut i: usize = 0;
        while i < count
            invariant
                i <= count,
                count == pair@.children.len(),
                pair@.rule == Rule::Block,
                statements_of(pair@.children.take(i as int)) == Ok::<
                    Seq<StatementView>,
                    ParseFailure,
                >(statement_views(statements@)),
            decreases count - i,
        {
            proof {
                take_next(pair@.children, i as int);
            }
            match Self::parse_statement(pair.child(i)) {
                Ok(statement) => {
                    proof {
                        assert(statements@.push(statement).drop_last() =~= statements@);
                    }
                    statements.push(statement);
                },
                Err(failure) => {
                    proof {
                        statements_of_failure_kept(pair@.children, i as int + 1);
                    }
                    return Err(failure);
                },
            }
            i = i + 1;
        }
        proof {
            assert(pair@.children.take(count as int) =~= pair@.children);
        }
        Ok(Block { statements })
    }

    /// Builds the assignment that an `AssignStmt` node denotes.
    pub fn parse_assign_stmt(pair: &Node) -> (result: Result<Statement, ParseFailure>)
        ensures
            denotes(result, assign_of(pair@)),
    {
        if pair.child_count() < 2 {
            return Err(ParseFailure::MalformedTree { expected: Construct::Assign, found: None });
        }
        let identifier = match Self::parse_name(pair.child(0), Construct::Assign) {
            Ok(identifier) => identifier,
            Err(failure) => {
                return Err(failure);
            },
        };
        match Self::parse_expr(pair.child(1)) {
            Ok(expression) => Ok(Statement::Assign(AssignStmt { identifier, expression })),
            Err(failure) => Err(failure),
        }
    }

    /// Builds the conditional that an `IfStmt` node denotes.
    pub fn parse_if_stmt(pair: &Node) -> (result: Result<Statement, ParseFailure>)
        ensures
            denotes(result, if_of(pair@)),
        decreases pair@,
    {
        let count = pair.child_count();
        if count < 2 {
            return Err(ParseFailure::MalformedTree { expected: Construct::If, found: None });
        }
        let condition = match Self::parse_expr(pair.child(0)) {
            Ok(condition) => condition,
            Err(failure) => {
                return Err(failure);
            },
        };
        let then_block = match Self::parse_block(pair.child(1)) {
            Ok(block) => block,
            Err(failure) => {
                return Err(failure);
            },
        };
        if count == 2 {
            return Ok(Statement::If(IfStmt { condition, then_block, else_block: None }));
        }
        match Self::parse_block(pair.child(2)) {
            Ok(block) => Ok(
                Statement::If(IfStmt { condition, then_block, else_block: Some(block) }),
            ),
            Err(failure) => Err(failure),
        }
    }

    /// Builds the loop that a `WhileStmt` node denotes.
    pub fn parse_while_stmt(pair: &Node) -> (result: Result<Statement, ParseFailure>)
        ensures
            denotes(result, while_of(pair@)),
        decreases pair@,
    {
        if pair.child_count() < 2 {
            return Err(ParseFailure::MalformedTree { expected: Construct::While, found: None });
        }
        let condition = match Self::parse_expr(pair.child(0)) {
            Ok(condition) => condition,
            Err(failure) => {
                return Err(failure);
            },
        };
        match Self::parse_block(pair.child(1)) {
            Ok(block) => Ok(Statement::While(WhileStmt { condition, block })),
            Err(failure) => Err(failure),
        }
    }

    /// Builds the return that a `ReturnStmt` node denotes.
    pub fn parse_return_stmt(pair: &Node) -> (result: Result<Statement, ParseFailure>)
        ensures
            denotes(result, return_of(pair@)),
    {
        if pair.child_count() == 0 {
            return Ok(Statement::Return(ReturnStmt { expression: None }));
        }
        match Self::parse_expr(pair.child(0)) {
            Ok(expression) => Ok(Statement::Return(ReturnStmt { expression: Some(expression) })),
            Err(failure) => Err(failure),
        }
    }

    /// Builds the call that a `ProcedureCall` node denotes.
    pub fn parse_procedure_call(pair: &Node) -> (result: Result<Statement, ParseFailure>)
        ensures
            denotes(result, call_of(pair@)),
    {
        let count = pair.child_count();
        if count == 0 {
            return Err(
                ParseFailure::MalformedTree { expected: Construct::ProcedureCall, found: None },
            );
        }
        let identifier = match Self::parse_name(pair.child(0), Construct::ProcedureCall) {
            Ok(identifier) => identifier,
            Err(failure) => {
                return Err(failure);
            },
        };
        if count == 1 {
            return Ok(
                Statement::ProcedureCall(ProcedureCall { identifier, arguments: Vec::new() }),
            );
        }
        match Self::parse_expr_list(pair.child(1)) {
            Ok(arguments) => Ok(Statement::ProcedureCall(ProcedureCall { identifier, arguments })),
            Err(failure) => Err(failure),
        }
    }

    /// Builds the return type that a `ReturnType` node denotes.
    pub fn parse_return_type(pair: &Node) -> (result: Result<Type, ParseFailure>)
        ensures
            result == return_type_of(pair@),
    {
        if pair.child_count() == 0 {
            return Err(
                ParseFailure::MalformedTree { expected: Construct::ReturnType, found: None },
            );
        }
        let inner = pair.child(0);
        match inner.rule() {
            Rule::VoidType => Ok(Type::Void),
            Rule::DeclType => Self::parse_decl_type(inner),
            rule => Err(
                ParseFailure::MalformedTree { expected: Construct::ReturnType, found: Some(rule) },
            ),
        }
    }

    /// Builds the parameters that the children of a node denote, in order.
    pub fn parse_param_list(pair: &Node) -> (result: Result<Vec<(Type, String)>, ParseFailure>)
        ensures
            match result {
                Ok(params) => params_of(pair@.children) == Ok::<
                    Seq<(Type, Seq<char>)>,
                    ParseFailure,
                >(param_views(params@)),
                Err(failure) => params_of(pair@.children) == Err::<
                    Seq<(Type, Seq<char>)>,
                    ParseFailure,
                >(failure),
            },
    {
        let count = pair.child_count();
        let mut params: Vec<(Type, String)> = Vec::new();
        let mut i: usize = 0;
        proof {
            assert(param_views(params@) =~= Seq::empty());
        }
        while i < count
            invariant
                i <= count,
                count == pair@.children.len(),
                params_of(pair@.children.take(i as int)) == Ok::<
                    Seq<(Type, Seq<char>)>,
                    ParseFailure,
                >(param_views(params@)),
            decreases count - i,
        {
            proof {
                take_next(pair@.children, i as int);
            }
            let param = pair.child(i);
            if param.child_count() < 2 {
                proof {
                    params_of_failure_kept(pair@.children, i as int + 1);
                }
                return Err(
                    ParseFailure::MalformedTree { expected: Construct::Parameter, found: None },
                );
            }
            let param_type = match Self::parse_decl_type(param.child(0)) {
                Ok(param_type) => param_type,
                Err(failure) => {
                    proof {
                        params_of_failure_kept(pair@.children, i as int + 1);
                    }
                    return Err(failure);
                },
            };
            let name = match Self::parse_name(param.child(1), Construct::Parameter) {
                Ok(name) => name,
                Err(failure) => {
                    proof {
                        params_of_failure_kept(pair@.children, i as int + 1);
                    }
                    return Err(failure);
                },
            };
            proof {
                assert(param_views(params@.push((param_type, name))) =~= param_views(params@).push(
                    (param_type, name@),
                ));
            }
            params.push((param_type, name));
            i = i + 1;
        }
        proof {
            assert(pair@.children.take(count as int) =~= pair@.children);
        }
        Ok(params)
    }

    /// Builds the function that a `FunctionDecl` node denotes.
    pub fn parse_function(pair: &Node) -> (result: Result<Function, ParseFailure>)
        ensures
            denotes(result, function_of(pair@)),
    {
        if pair.child_count() < 4 {
            return Err(ParseFailure::MalformedTree { expected: Construct::Function, found: None });
        }
        let return_type = match Self::parse_return_type(pair.child(0)) {
            Ok(return_type) => return_type,
            Err(failure) => {
                return Err(failure);
            },
        };
        let identifier = match Self::parse_name(pair.child(1), Construct::Function) {
            Ok(identifier) => identifier,
            Err(failure) => {
                return Err(failure);
            },
        };
        let arguments = match Self::parse_param_list(pair.child(2)) {
            Ok(arguments) => arguments,
            Err(failure) => {
                return Err(failure);
            },
        };
        match Self::parse_block(pair.child(3)) {
            Ok(block) => Ok(Function { return_type, identifier, arguments, block }),
            Err(failure) => Err(failure),
        }
    }

    /// Builds the program that the root of a parse tree denotes.
    pub fn parse_program(root: &Node) -> (result: Result<Program, ParseFailure>)
        ensures
            denotes(result, program_of(root@)),
            result matches Ok(program) ==> program@.arity_ok(),
    {
        proof {
            built_program_has_matching_arity(root@);
        }
        let count = root.child_count();
        let mut global_declarations: Vec<Declaration> = Vec::new();
        let mut functions: Vec<Function> = Vec::new();
        let mut use_statements: Vec<UseStmt> = Vec::new();
        let mut i: usize = 0;
        proof {
            assert(declaration_views(global_declarations@) =~= Seq::empty());
            assert(function_views(functions@) =~= Seq::empty());
            assert(use_views(use_statements@) =~= Seq::empty());
        }
        while i < count
            invariant
                i <= count,
                count == root@.children.len(),
                items_of(root@.children.take(i as int)) == Ok::<ProgramView, ParseFailure>(
                    ProgramView {
                        global_declarations: declaration_views(global_declarations@),
                        functions: function_views(functions@),
                        use_statements: use_views(use_statements@),
                    },
                ),
            decreases count - i,
        {
            proof {
                take_next(root@.children, i as int);
            }
            let item = root.child(i);
            match item.rule() {
                Rule::GlobalDecl => match Self::parse_decl(item) {
                    Ok(declaration) => {
                        proof {
                            assert(declaration_views(global_declarations@.push(declaration))
                                =~= declaration_views(global_declarations@).push(declaration@));
                        }
                        global_declarations.push(declaration);
                    },
                    Err(failure) => {
                        proof {
                            items_of_failure_kept(root@.children, i as int + 1);
                        }
                        return Err(failure);
                    },
                },
                Rule::UseStmt => match Self::parse_use_stmt(item) {
                    Ok(use_statement) => {
                        proof {
                            assert(use_views(use_statements@.push(use_statement)) =~= use_views(
                                use_statements@,
                            ).push(use_statement@));
                        }
                        use_statements.push(use_statement);
                    },
                    Err(failure) => {
                        proof {
                            items_of_failure_kept(root@.children, i as int + 1);
                        }
                        return Err(failure);
                    },
                },
                Rule::FunctionDecl => match Self::parse_function(item) {
                    Ok(function) => {
                        proof {
                            assert(function_views(functions@.push(function)) =~= function_views(
                                functions@,
                            ).push(function@));
                        }
                        functions.push(function);
                    },
                    Err(failure) => {
                        proof {
                            items_of_failure_kept(root@.children, i as int + 1);
                        }
                        return Err(failure);
                    },
                },
                rule => {
                    proof {
                        items_of_failure_kept(root@.children, i as int + 1);
                    }
                    return Err(
                        ParseFailure::MalformedTree {
                            expected: Construct::Program,
                            found: Some(rule),
                        },
                    );
                },
            }
            i = i + 1;
        }
        proof {
            assert(root@.children.take(count as int) =~= root@.children);
        }
        Ok(Program { global_declarations, functions, use_statements })
    }

    /// Matches a text against the grammar, as a whole program.
    pub fn parse_tree(source: &str) -> (result: Result<Node, ParseFailure>)
        ensures
            denotes(result, tree_of_text(source@)),
    {
        let chars = chars_of(source);
        match matcher::program(&chars) {
            Ok(root) => Ok(root),
            Err(position) => Err(ParseFailure::Syntax { position }),
        }
    }

    /// Turns the text of a source file into its program.
    ///
    /// Matching and building recurse once for each level of nesting in the
    /// text, so the call stack grows with the depth of nesting.
    pub fn parse(source: &str) -> (result: Result<Program, ParseFailure>)
        ensures
            denotes(result, program_of_text(source@)),
            result matches Ok(program) ==> program@.arity_ok(),
            result matches Err(failure) ==> caused_by_text(failure),
    {
        proof {
            text_gives_well_shaped_program(source@);
        }
        match Self::parse_tree(source) {
            Ok(root) => Self::parse_program(&root),
            Err(failure) => Err(failure),
        }
    }

    /// Turns a text that is one expression into that expression.
    pub fn parse_expression(source: &str) -> (result: Result<Expr, ParseFailure>)
        ensures
            denotes(result, expr_of_text(source@)),
            result matches Err(failure) ==> caused_by_text(failure),
    {
        proof {
            text_gives_well_shaped_expr(source@);
        }
        let chars = chars_of(source);
        match matcher::whole_expr(&chars) {
            Ok(root) => Self::parse_expr(&root),
            Err(position) => Err(ParseFailure::Syntax { position }),
        }
    }
}

/// A failure among the first expressions of a sequence is the failure of
/// the whole.
pub proof fn exprs_of_failure_kept(nodes: Seq<NodeView>, len: int)
    requires
        0 <= len <= nodes.len(),
        exprs_of(nodes.take(len)) is Err,
    ensures
        exprs_of(nodes) == exprs_of(nodes.take(len)),
    decreases nodes.len() - len,
{
    if len < nodes.len() {
        take_next(nodes, len);
        exprs_of_failure_kept(nodes, len + 1);
    } else {
        assert(nodes.take(len) =~= nodes);
    }
}


/// A failure among the first children of a declaration is the failure of
/// the whole.
pub proof fn decl_parts_failure_kept(nodes: Seq<NodeView>, len: int)
    requires
        0 <= len <= nodes.len(),
        decl_parts(nodes.take(len)) is Err,
    ensures
        decl_parts(nodes) == decl_parts(nodes.take(len)),
    decreases nodes.len() - len,
{
    if len < nodes.len() {
        take_next(nodes, len);
        decl_parts_failure_kept(nodes, len + 1);
    } else {
        assert(nodes.take(len) =~= nodes);
    }
}


/// A failure among the first statements of a sequence is the failure of
/// the whole.
pub proof fn statements_of_failure_kept(nodes: Seq<NodeView>, len: int)
    requires
        0 <= len <= nodes.len(),
        statements_of(nodes.take(len)) is Err,
    ensures
        statements_of(nodes) == statements_of(nodes.take(len)),
    decreases nodes.len() - len,
{
    if len < nodes.len() {
        take_next(nodes, len);
        statements_of_failure_kept(nodes, len + 1);
    } else {
        assert(nodes.take(len) =~= nodes);
    }
}

/// A failure among the first parameters of a sequence is the failure of
/// the whole.
pub proof fn params_of_failure_kept(nodes: Seq<NodeView>, len: int)
    requires
        0 <= len <= nodes.len(),
        params_of(nodes.take(len)) is Err,
    ensures
        params_of(nodes) == params_of(nodes.take(len)),
    decreases nodes.len() - len,
{
    if len < nodes.len() {
        take_next(nodes, len);
        params_of_failure_kept(nodes, len + 1);
    } else {
        assert(nodes.take(len) =~= nodes);
    }
}

/// A failure among the first items of a program is the failure of the
/// whole.
pub proof fn items_of_failure_kept(nodes: Seq<NodeView>, len: int)
    requires
        0 <= len <= nodes.len(),
        items_of(nodes.take(len)) is Err,
    ensures
        items_of(nodes) == items_of(nodes.take(len)),
    decreases nodes.len() - len,
{
    if len < nodes.len() {
        take_next(nodes, len);
        items_of_failure_kept(nodes, len + 1);
    } else {
        assert(nodes.take(len) =~= nodes);
    }
}

} // verus!
