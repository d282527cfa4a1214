//! What a concrete parse tree stands for: for each construct, the model of
//! the syntax tree that it denotes, or the first failure met on the way.
use crate::frontend::ast::{
    DeclarationView, ExprView, FunctionView, LiteralView, PrimaryView, ProgramView, StatementView,
    Type,
};
use crate::frontend::ast::{expr_views, Expr};
use crate::frontend::failure::{malformed, Construct, ParseFailure};
use crate::frontend::grammar;
use crate::frontend::lexical::{bool_of_text, bop_of_text, char_of_text, int_of_text, uop_of_text};
use crate::frontend::tree::{NodeView, Rule};
use vstd::prelude::*;

verus! {

/// The literal that a `Literal` node denotes: the kind is the production of
/// its first child, the value is converted from that child's text.
pub open spec fn literal_of(node: NodeView) -> Result<LiteralView, ParseFailure> {
    if node.children.len() == 0 {
        Err(malformed(Construct::Literal, None))
    } else {
        let token = node.children[0];
        match token.rule {
            Rule::IntLit => match int_of_text(token.text) {
                Some(value) => Ok(LiteralView::Int(value)),
                None => Err(ParseFailure::LiteralConversionError { rule: Rule::IntLit }),
            },
            Rule::CharLit => match char_of_text(token.text) {
                Some(value) => Ok(LiteralView::Char(value)),
                None => Err(ParseFailure::LiteralConversionError { rule: Rule::CharLit }),
            },
            Rule::BoolLit => match bool_of_text(token.text) {
                Some(value) => Ok(LiteralView::Bool(value)),
                None => Err(ParseFailure::LiteralConversionError { rule: Rule::BoolLit }),
            },
            Rule::StringLit => Ok(LiteralView::String(token.text)),
            rule => Err(malformed(Construct::Literal, Some(rule))),
        }
    }
}

/// The expression that a `Primary` node denotes: a name, taken as it stands,
/// or a literal.
pub open spec fn primary_of(node: NodeView) -> Result<ExprView, ParseFailure> {
    if node.children.len() == 0 {
        Err(malformed(Construct::Primary, None))
    } else {
        let inner = node.children[0];
        match inner.rule {
            Rule::Identifier => Ok(ExprView::Primary(PrimaryView::Identifier(inner.text))),
            Rule::Literal => match literal_of(inner) {
                Ok(literal) => Ok(ExprView::Primary(PrimaryView::Literal(literal))),
                Err(failure) => Err(failure),
            },
            rule => Err(malformed(Construct::Primary, Some(rule))),
        }
    }
}

/// The expression that an `Expr` node denotes, by the production of its
/// first child.
pub open spec fn expr_of(node: NodeView) -> Result<ExprView, ParseFailure>
    decreases node,
{
    if node.children.len() == 0 {
        Err(malformed(Construct::Expr, None))
    } else {
        let inner = node.children[0];
        match inner.rule {
            Rule::Primary => primary_of(inner),
            Rule::BinaryExpr => binary_of(inner),
            Rule::UnaryExpr => unary_of(inner),
            rule => Err(malformed(Construct::Expr, Some(rule))),
        }
    }
}

/// The expression that a `BinaryExpr` node denotes: a primary on the left,
/// an operator of the binary table, and any expression on the right.
pub open spec fn binary_of(node: NodeView) -> Result<ExprView, ParseFailure>
    decreases node,
{
    if node.children.len() < 3 {
        Err(malformed(Construct::BinaryExpr, None))
    } else {
        match primary_of(node.children[0]) {
            Err(failure) => Err(failure),
            Ok(left) => match bop_of_text(node.children[1].text) {
                None => Err(ParseFailure::UnknownOperator { construct: Construct::BinaryExpr }),
                Some(operator) => match expr_of(node.children[2]) {
                    Err(failure) => Err(failure),
                    Ok(right) => Ok(
                        ExprView::Binary {
                            operator,
                            left: Box::new(left),
                            right: Box::new(right),
                        },
                    ),
                },
            },
        }
    }
}

/// The expression that a `UnaryExpr` node denotes: an operator of the unary
/// table and its operand.
pub open spec fn unary_of(node: NodeView) -> Result<ExprView, ParseFailure>
    decreases node,
{
    if node.children.len() < 2 {
        Err(malformed(Construct::UnaryExpr, None))
    } else {
        match uop_of_text(node.children[0].text) {
            None => Err(ParseFailure::UnknownOperator { construct: Construct::UnaryExpr }),
            Some(operator) => match expr_of(node.children[1]) {
                Err(failure) => Err(failure),
                Ok(operand) => Ok(ExprView::Unary { operator, operand: Box::new(operand) }),
            },
        }
    }
}

/// The expressions that a sequence of `Expr` nodes denotes, in order, or the
/// failure of the first node that denotes none.
pub open spec fn exprs_of(nodes: Seq<NodeView>) -> Result<Seq<ExprView>, ParseFailure>
    decreases nodes.len(),
{
    if nodes.len() == 0 {
        Ok(Seq::empty())
    } else {
        match exprs_of(nodes.drop_last()) {
            Err(failure) => Err(failure),
            Ok(exprs) => match expr_of(nodes.last()) {
                Err(failure) => Err(failure),
                Ok(expr) => Ok(exprs.push(expr)),
            },
        }
    }
}

/// The texts of a sequence of nodes, in order.
pub open spec fn texts_of(nodes: Seq<NodeView>) -> Seq<Seq<char>> {
    Seq::new(nodes.len(), |i: int| nodes[i].text)
}

/// The name that an `Identifier` node holds; any other node is not a part
/// of `construct`.
pub open spec fn name_of(node: NodeView, construct: Construct) -> Result<Seq<char>, ParseFailure> {
    if node.rule == Rule::Identifier {
        Ok(node.text)
    } else {
        Err(malformed(construct, Some(node.rule)))
    }
}

/// The primitive type that a `DeclType` node names, two levels down.
pub open spec fn primitive_type_of(node: NodeView) -> Result<Type, ParseFailure> {
    if node.children.len() == 0 || node.children[0].children.len() == 0 {
        Err(malformed(Construct::PrimitiveType, None))
    } else {
        match node.children[0].children[0].rule {
            Rule::IntType => Ok(Type::Int),
            Rule::CharType => Ok(Type::Char),
            Rule::BoolType => Ok(Type::Bool),
            Rule::StringType => Ok(Type::String),
            rule => Err(malformed(Construct::PrimitiveType, Some(rule))),
        }
    }
}

/// The type that a `DeclType` node denotes. Only primitive types are
/// built: an array type is a failure, like any other production.
pub open spec fn decl_type_of(node: NodeView) -> Result<Type, ParseFailure> {
    if node.children.len() == 0 {
        Err(malformed(Construct::DeclType, None))
    } else {
        match node.children[0].rule {
            Rule::PrimitiveType => primitive_type_of(node),
            rule => Err(malformed(Construct::DeclType, Some(rule))),
        }
    }
}

/// The names and the initializers found among the children of a `Decl`
/// node: those of the last `IdentifierList` and of the last `ExprList`.
/// Types and punctuation are passed over; any other production is a failure.
pub open spec fn decl_parts(nodes: Seq<NodeView>) -> Result<
    (Seq<Seq<char>>, Seq<ExprView>),
    ParseFailure,
>
    decreases nodes.len(),
{
    if nodes.len() == 0 {
        Ok((Seq::empty(), Seq::empty()))
    } else {
        match decl_parts(nodes.drop_last()) {
            Err(failure) => Err(failure),
            Ok(parts) => {
                let part = nodes.last();
                match part.rule {
                    Rule::DeclType | Rule::Semi | Rule::Assign => Ok(parts),
                    Rule::IdentifierList => Ok((texts_of(part.children), parts.1)),
                    Rule::ExprList => match exprs_of(part.children) {
                        Err(failure) => Err(failure),
                        Ok(exprs) => Ok((parts.0, exprs)),
                    },
                    rule => Err(malformed(Construct::Declaration, Some(rule))),
                }
            },
        }
    }
}

/// The declaration that a `Decl` node denotes. Its type comes first, then
/// its names and initializers; initializers that are not one for each name
/// are a failure.
pub open spec fn declaration_of(node: NodeView) -> Result<DeclarationView, ParseFailure> {
    if node.children.len() == 0 {
        Err(malformed(Construct::Declaration, None))
    } else {
        match decl_type_of(node.children[0]) {
            Err(failure) => Err(failure),
            Ok(decl_type) => match decl_parts(node.children) {
                Err(failure) => Err(failure),
                Ok(parts) => if parts.1.len() > 0 && parts.0.len() != parts.1.len() {
                    Err(
                        ParseFailure::ArityMismatch {
                            ids: parts.0.len() as usize,
                            exprs: parts.1.len() as usize,
                        },
                    )
                } else {
                    Ok(DeclarationView { decl_type, ids: parts.0, exprs: parts.1 })
                },
            },
        }
    }
}

/// The declaration that a `GlobalDecl` node denotes: that of its first
/// child.
pub open spec fn global_decl_of(node: NodeView) -> Result<DeclarationView, ParseFailure> {
    if node.children.len() == 0 {
        Err(malformed(Construct::GlobalDecl, None))
    } else {
        declaration_of(node.children[0])
    }
}

/// The module name that a `UseStmt` node holds.
pub open spec fn use_of(node: NodeView) -> Result<Seq<char>, ParseFailure> {
    if node.children.len() == 0 {
        Err(malformed(Construct::UseStmt, None))
    } else {
        name_of(node.children[0], Construct::UseStmt)
    }
}

/// The statement that a `Statement` node denotes, by the production of its
/// first child. The parts of each form stand at fixed positions; an
/// alternative, a returned value and arguments are there if their position
/// is.
pub open spec fn statement_of(node: NodeView) -> Result<StatementView, ParseFailure>
    decreases node,
{
    if node.children.len() == 0 {
        Err(malformed(Construct::Statement, None))
    } else {
        let inner = node.children[0];
        match inner.rule {
            Rule::Decl => match declaration_of(inner) {
                Err(failure) => Err(failure),
                Ok(declaration) => Ok(StatementView::Declaration(declaration)),
            },
            Rule::AssignStmt => assign_of(inner),
            Rule::Block => match block_of(inner) {
                Err(failure) => Err(failure),
                Ok(block) => Ok(StatementView::Block(block)),
            },
            Rule::IfStmt => if_of(inner),
            Rule::WhileStmt => while_of(inner),
            Rule::ReturnStmt => return_of(inner),
            Rule::ProcedureCall => call_of(inner),
            rule => Err(malformed(Construct::Statement, Some(rule))),
        }
    }
}

/// The statements that a sequence of `Statement` nodes denotes, in order,
/// or the failure of the first node that denotes none.
pub open spec fn statements_of(nodes: Seq<NodeView>) -> Result<Seq<StatementView>, ParseFailure>
    decreases nodes,
{
    if nodes.len() == 0 {
        Ok(Seq::empty())
    } else {
        match statements_of(nodes.drop_last()) {
            Err(failure) => Err(failure),
            Ok(statements) => match statement_of(nodes.last()) {
                Err(failure) => Err(failure),
                Ok(statement) => Ok(statements.push(statement)),
            },
        }
    }
}

/// The statements of a `Block` node.
pub open spec fn block_of(node: NodeView) -> Result<Seq<StatementView>, ParseFailure>
    decreases node,
{
    if node.rule != Rule::Block {
        Err(malformed(Construct::Block, Some(node.rule)))
    } else {
        statements_of(node.children)
    }
}

/// The assignment that an `AssignStmt` node denotes: a name, then an
/// expression.
pub open spec fn assign_of(node: NodeView) -> Result<StatementView, ParseFailure> {
    if node.children.len() < 2 {
        Err(malformed(Construct::Assign, None))
    } else {
        match name_of(node.children[0], Construct::Assign) {
            Err(failure) => Err(failure),
            Ok(identifier) => match expr_of(node.children[1]) {
                Err(failure) => Err(failure),
                Ok(expression) => Ok(StatementView::Assign { identifier, expression }),
            },
        }
    }
}

/// The conditional that an `IfStmt` node denotes: a condition, a block,
/// and the alternative if there is a third child.
pub open spec fn if_of(node: NodeView) -> Result<StatementView, ParseFailure>
    decreases node,
{
    if node.children.len() < 2 {
        Err(malformed(Construct::If, None))
    } else {
        match expr_of(node.children[0]) {
            Err(failure) => Err(failure),
            Ok(condition) => match block_of(node.children[1]) {
                Err(failure) => Err(failure),
                Ok(then_block) => if node.children.len() == 2 {
                    Ok(StatementView::If { condition, then_block, else_block: None })
                } else {
                    match block_of(node.children[2]) {
                        Err(failure) => Err(failure),
                        Ok(else_block) => Ok(
                            StatementView::If {
                                condition,
                                then_block,
                                else_block: Some(else_block),
                            },
                        ),
                    }
                },
            },
        }
    }
}

/// The loop that a `WhileStmt` node denotes: a condition, then a block.
pub open spec fn while_of(node: NodeView) -> Result<StatementView, ParseFailure>
    decreases node,
{
    if node.children.len() < 2 {
        Err(malformed(Construct::While, None))
    } else {
        match expr_of(node.children[0]) {
            Err(failure) => Err(failure),
            Ok(condition) => match block_of(node.children[1]) {
                Err(failure) => Err(failure),
                Ok(block) => Ok(StatementView::While { condition, block }),
            },
        }
    }
}

/// The return that a `ReturnStmt` node denotes: with the value of its
/// first child, if it has one.
pub open spec fn return_of(node: NodeView) -> Result<StatementView, ParseFailure> {
    if node.children.len() == 0 {
        Ok(StatementView::Return(None))
    } else {
        match expr_of(node.children[0]) {
            Err(failure) => Err(failure),
            Ok(expression) => Ok(StatementView::Return(Some(expression))),
        }
    }
}

/// The call that a `ProcedureCall` node denotes: a name, and the arguments
/// listed in its second child, if it has one.
pub open spec fn call_of(node: NodeView) -> Result<StatementView, ParseFailure> {
    if node.children.len() == 0 {
        Err(malformed(Construct::ProcedureCall, None))
    } else {
        match name_of(node.children[0], Construct::ProcedureCall) {
            Err(failure) => Err(failure),
            Ok(identifier) => if node.children.len() == 1 {
                Ok(StatementView::ProcedureCall { identifier, arguments: Seq::empty() })
            } else {
                match exprs_of(node.children[1].children) {
                    Err(failure) => Err(failure),
                    Ok(arguments) => Ok(StatementView::ProcedureCall { identifier, arguments }),
                }
            },
        }
    }
}

/// The return type that a `ReturnType` node denotes: `Void`, or the type
/// of a `DeclType` node.
pub open spec fn return_type_of(node: NodeView) -> Result<Type, ParseFailure> {
    if node.children.len() == 0 {
        Err(malformed(Construct::ReturnType, None))
    } else {
        match node.children[0].rule {
            Rule::VoidType => Ok(Type::Void),
            Rule::DeclType => decl_type_of(node.children[0]),
            rule => Err(malformed(Construct::ReturnType, Some(rule))),
        }
    }
}

/// The parameter that a `Param` node denotes: a type, then a name.
pub open spec fn param_of(node: NodeView) -> Result<(Type, Seq<char>), ParseFailure> {
    if node.children.len() < 2 {
        Err(malformed(Construct::Parameter, None))
    } else {
        match decl_type_of(node.children[0]) {
            Err(failure) => Err(failure),
            Ok(param_type) => match name_of(node.children[1], Construct::Parameter) {
                Err(failure) => Err(failure),
                Ok(name) => Ok((param_type, name)),
            },
        }
    }
}

/// The parameters that a sequence of `Param` nodes denotes, in order, or
/// the failure of the first node that denotes none.
pub open spec fn params_of(nodes: Seq<NodeView>) -> Result<Seq<(Type, Seq<char>)>, ParseFailure>
    decreases nodes.len(),
{
    if nodes.len() == 0 {
        Ok(Seq::empty())
    } else {
        match params_of(nodes.drop_last()) {
            Err(failure) => Err(failure),
            Ok(params) => match param_of(nodes.last()) {
                Err(failure) => Err(failure),
                Ok(param) => Ok(params.push(param)),
            },
        }
    }
}

/// The function that a `FunctionDecl` node denotes: a return type, a
/// name, a list of parameters and a body, in this order.
pub open spec fn function_of(node: NodeView) -> Result<FunctionView, ParseFailure> {
    if node.children.len() < 4 {
        Err(malformed(Construct::Function, None))
    } else {
        match return_type_of(node.children[0]) {
            Err(failure) => Err(failure),
            Ok(return_type) => match name_of(node.children[1], Construct::Function) {
                Err(failure) => Err(failure),
                Ok(identifier) => match params_of(node.children[2].children) {
                    Err(failure) => Err(failure),
                    Ok(arguments) => match block_of(node.children[3]) {
                        Err(failure) => Err(failure),
                        Ok(block) => Ok(
                            FunctionView { return_type, identifier, arguments, block },
                        ),
                    },
                },
            },
        }
    }
}

/// The program without any item.
pub open spec fn empty_program() -> ProgramView {
    ProgramView {
        global_declarations: Seq::empty(),
        functions: Seq::empty(),
        use_statements: Seq::empty(),
    }
}

/// The program that a sequence of top-level items denotes: each global
/// declaration, function and use statement, in order, in the list of its
/// kind. Any other production is a failure.
pub open spec fn items_of(nodes: Seq<NodeView>) -> Result<ProgramView, ParseFailure>
    decreases nodes.len(),
{
    if nodes.len() == 0 {
        Ok(empty_program())
    } else {
        match items_of(nodes.drop_last()) {
            Err(failure) => Err(failure),
            Ok(program) => {
                let item = nodes.last();
                match item.rule {
                    Rule::GlobalDecl => match global_decl_of(item) {
                        Err(failure) => Err(failure),
                        Ok(declaration) => Ok(
                            ProgramView {
                                global_declarations: program.global_declarations.push(declaration),
                                ..program
                            },
                        ),
                    },
                    Rule::UseStmt => match use_of(item) {
                        Err(failure) => Err(failure),
                        Ok(name) => Ok(
                            ProgramView {
                                use_statements: program.use_statements.push(name),
                                ..program
                            },
                        ),
                    },
                    Rule::FunctionDecl => match function_of(item) {
                        Err(failure) => Err(failure),
                        Ok(function) => Ok(
                            ProgramView { functions: program.functions.push(function), ..program },
                        ),
                    },
                    rule => Err(malformed(Construct::Program, Some(rule))),
                }
            },
        }
    }
}

/// The program that the root of a parse tree denotes: that of its children.
pub open spec fn program_of(root: NodeView) -> Result<ProgramView, ParseFailure> {
    items_of(root.children)
}

/// The parse tree of a text that is a program, or the place where the
/// text stops being one.
pub open spec fn tree_of_text(source: Seq<char>) -> Result<NodeView, ParseFailure> {
    match grammar::program(source) {
        Ok(root) => Ok(root),
        Err(position) => Err(ParseFailure::Syntax { position: position as usize }),
    }
}

/// The program that a text denotes: that of its parse tree.
pub open spec fn program_of_text(source: Seq<char>) -> Result<ProgramView, ParseFailure> {
    match tree_of_text(source) {
        Ok(root) => program_of(root),
        Err(failure) => Err(failure),
    }
}

/// The expression that a text denotes, if it is one expression and
/// nothing else.
pub open spec fn expr_of_text(source: Seq<char>) -> Result<
    ExprView,
    ParseFailure,
> {
    match grammar::whole_expr(source) {
        Ok(root) => expr_of(root),
        Err(position) => Err(ParseFailure::Syntax { position: position as usize }),
    }
}

/// Whether a result is what a model of it says: the same failure, or a
/// value with the model's value as its view.
pub open spec fn denotes<T: View>(
    result: Result<T, ParseFailure>,
    model: Result<T::V, ParseFailure>,
) -> bool {
    match result {
        Ok(value) => model == Ok::<T::V, ParseFailure>(value@),
        Err(failure) => model == Err::<T::V, ParseFailure>(failure),
    }
}

/// Whether a list of expressions, or a failure, is what a model says.
pub open spec fn denotes_exprs(
    result: Result<Vec<Expr>, ParseFailure>,
    model: Result<Seq<ExprView>, ParseFailure>,
) -> bool {
    match result {
        Ok(exprs) => model == Ok::<Seq<ExprView>, ParseFailure>(
            expr_views(exprs@),
        ),
        Err(failure) => model == Err::<Seq<ExprView>, ParseFailure>(failure),
    }
}

} // verus!
