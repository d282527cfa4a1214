//! The abstract syntax tree: a closed set of node types, each with a
//! mathematical model (its view) over `Seq` in which contracts are stated.
use vstd::prelude::*;

verus! {

/// A literal value.
#[derive(Debug, PartialEq, Eq)]
pub enum Literal {
    Int(i64),
    Bool(bool),
    Char(char),
    String(String),
}

/// Model of a [`Literal`].
pub ghost enum LiteralView {
    Int(i64),
    Bool(bool),
    Char(char),
    String(Seq<char>),
}

impl View for Literal {
    type V = LiteralView;

    open spec fn view(&self) -> LiteralView {
        match self {
            Literal::Int(v) => LiteralView::Int(*v),
            Literal::Bool(b) => LiteralView::Bool(*b),
            Literal::Char(c) => LiteralView::Char(*c),
            Literal::String(s) => LiteralView::String(s@),
        }
    }
}

/// An element of an array, selected by an index expression.
#[derive(Debug, PartialEq, Eq)]
pub struct ArrayIndex {
    pub identifier: String,
    pub index: Box<Expr>,
}

/// A call of a function inside an expression.
#[derive(Debug, PartialEq, Eq)]
pub struct FunctionCall {
    pub identifier: String,
    pub arguments: Vec<Expr>,
}

/// The argument of a length-of expression.
#[derive(Debug, PartialEq, Eq)]
pub struct LengthExpression {
    pub argument: Expr,
}

/// An array written out element by element.
#[derive(Debug, PartialEq, Eq)]
pub struct ArrayLiteral {
    pub elements: Vec<Expr>,
}

/// An expression that is not built from an operator.
#[derive(Debug, PartialEq, Eq)]
pub enum Primary {
    Literal(Literal),
    Identifier(String),
    ArrayIndex(ArrayIndex),
    FunctionCall(FunctionCall),
    ArrayLiteral(ArrayLiteral),
    LenExpression,
}

/// A unary operator.
#[derive(Clone, Copy, Debug, PartialEq, Eq, Structural)]
pub enum Uop {
    Neg,
    Not,
}

/// A unary operator applied to an operand.
#[derive(Debug, PartialEq, Eq)]
pub struct UExpr {
    pub operator: Uop,
    pub operand: Box<Expr>,
}

/// A binary operator.
#[derive(Clone, Copy, Debug, PartialEq, Eq, Structural)]
pub enum Bop {
    Add,
    Sub,
    Mul,
    Div,
    Mod,
    HMul,
    And,
    Or,
    Eq,
    Neq,
    Lt,
    Gt,
    Lte,
    Gte,
}

/// A binary operator applied to two operands.
#[derive(Debug, PartialEq, Eq)]
pub struct BExpr {
    pub operator: Bop,
    pub left: Box<Expr>,
    pub right: Box<Expr>,
}

/// An expression.
#[derive(Debug, PartialEq, Eq)]
pub enum Expr {
    Primary(Primary),
    Unary(UExpr),
    Binary(BExpr),
}

/// Model of a [`Primary`].
pub ghost enum PrimaryView {
    Literal(LiteralView),
    Identifier(Seq<char>),
    ArrayIndex { identifier: Seq<char>, index: Box<ExprView> },
    FunctionCall { identifier: Seq<char>, arguments: Seq<ExprView> },
    ArrayLiteral { elements: Seq<ExprView> },
    LenExpression,
}

/// Model of an [`Expr`].
#[allow(inconsistent_fields)]
pub ghost enum ExprView {
    Primary(PrimaryView),
    Unary { operator: Uop, operand: Box<ExprView> },
    Binary { operator: Bop, left: Box<ExprView>, right: Box<ExprView> },
}

/// The model of an expression.
pub open spec fn expr_view(expr: Expr) -> ExprView
    decreases expr,
{
    match expr {
        Expr::Primary(Primary::Literal(l)) => ExprView::Primary(PrimaryView::Literal(l@)),
        Expr::Primary(Primary::Identifier(name)) => ExprView::Primary(
            PrimaryView::Identifier(name@),
        ),
        Expr::Primary(Primary::ArrayIndex(a)) => ExprView::Primary(
            PrimaryView::ArrayIndex {
                identifier: a.identifier@,
                index: Box::new(expr_view(*a.index)),
            },
        ),
        Expr::Primary(Primary::FunctionCall(c)) => ExprView::Primary(
            PrimaryView::FunctionCall {
                identifier: c.identifier@,
                arguments: expr_views(c.arguments@),
            },
        ),
        Expr::Primary(Primary::ArrayLiteral(a)) => ExprView::Primary(
            PrimaryView::ArrayLiteral { elements: expr_views(a.elements@) },
        ),
        Expr::Primary(Primary::LenExpression) => ExprView::Primary(PrimaryView::LenExpression),
        Expr::Unary(u) => ExprView::Unary {
            operator: u.operator,
            operand: Box::new(expr_view(*u.operand)),
        },
        Expr::Binary(b) => ExprView::Binary {
            operator: b.operator,
            left: Box::new(expr_view(*b.left)),
            right: Box::new(expr_view(*b.right)),
        },
    }
}

/// The models of a sequence of expressions, in order.
pub open spec fn expr_views(exprs: Seq<Expr>) -> Seq<ExprView>
    decreases exprs,
{
    if exprs.len() == 0 {
        Seq::empty()
    } else {
        expr_views(exprs.drop_last()).push(expr_view(exprs.last()))
    }
}

impl View for Expr {
    type V = ExprView;

    open spec fn view(&self) -> ExprView {
        expr_view(*self)
    }
}

/// The models of a sequence of expressions are the models of its elements.
pub proof fn expr_views_index(exprs: Seq<Expr>)
    ensures
        expr_views(exprs).len() == exprs.len(),
        forall|i: int| 0 <= i < exprs.len() ==> (#[trigger] expr_views(exprs)[i]) == exprs[i]@,
    decreases exprs.len(),
{
    if exprs.len() > 0 {
        expr_views_index(exprs.drop_last());
    }
}

impl View for Primary {
    type V = PrimaryView;

    open spec fn view(&self) -> PrimaryView {
        match self {
            Primary::Literal(l) => PrimaryView::Literal(l@),
            Primary::Identifier(name) => PrimaryView::Identifier(name@),
            Primary::ArrayIndex(a) => PrimaryView::ArrayIndex {
                identifier: a.identifier@,
                index: Box::new(a.index@),
            },
            Primary::FunctionCall(c) => PrimaryView::FunctionCall {
                identifier: c.identifier@,
                arguments: expr_views(c.arguments@),
            },
            Primary::ArrayLiteral(a) => PrimaryView::ArrayLiteral { elements: expr_views(a.elements@) },
            Primary::LenExpression => PrimaryView::LenExpression,
        }
    }
}

impl View for LengthExpression {
    type V = ExprView;

    open spec fn view(&self) -> ExprView {
        self.argument@
    }
}

/// A type of the language.
#[derive(Debug, PartialEq, Eq)]
pub enum Type {
    Int,
    Bool,
    Char,
    String,
    Array(Box<Type>),
    Void,
}

/// An assignment to a variable.
#[derive(Debug, PartialEq, Eq)]
pub struct AssignStmt {
    pub identifier: String,
    pub expression: Expr,
}

/// A declaration of one or more variables of one type, with no initializers
/// or with one for each variable.
#[derive(Debug, PartialEq, Eq)]
pub struct Declaration {
    pub decl_type: Type,
    pub ids: Vec<String>,
    pub exprs: Vec<Expr>,
}

/// Model of a [`Declaration`].
pub ghost struct DeclarationView {
    pub decl_type: Type,
    pub ids: Seq<Seq<char>>,
    pub exprs: Seq<ExprView>,
}

impl DeclarationView {
    /// There are no initializers, or as many as there are names.
    pub open spec fn arity_ok(self) -> bool {
        self.exprs.len() == 0 || self.exprs.len() == self.ids.len()
    }
}

/// The models of a sequence of names, in order.
pub open spec fn name_views(names: Seq<String>) -> Seq<Seq<char>> {
    Seq::new(names.len(), |i: int| names[i]@)
}

impl View for Declaration {
    type V = DeclarationView;

    open spec fn view(&self) -> DeclarationView {
        DeclarationView {
            decl_type: self.decl_type,
            ids: name_views(self.ids@),
            exprs: expr_views(self.exprs@),
        }
    }
}

/// A sequence of statements in braces.
#[derive(Debug, PartialEq, Eq)]
pub struct Block {
    pub statements: Vec<Statement>,
}

/// A conditional, with or without an alternative.
#[derive(Debug, PartialEq, Eq)]
pub struct IfStmt {
    pub condition: Expr,
    pub then_block: Block,
    pub else_block: Option<Block>,
}

/// A loop that runs while its condition holds.
#[derive(Debug, PartialEq, Eq)]
pub struct WhileStmt {
    pub condition: Expr,
    pub block: Block,
}

/// A return from a function, with or without a value.
#[derive(Debug, PartialEq, Eq)]
pub struct ReturnStmt {
    pub expression: Option<Expr>,
}

/// A call whose result is not used.
#[derive(Debug, PartialEq, Eq)]
pub struct ProcedureCall {
    pub identifier: String,
    pub arguments: Vec<Expr>,
}

/// A statement.
#[derive(Debug, PartialEq, Eq)]
pub enum Statement {
    Declaration(Declaration),
    Assign(AssignStmt),
    Block(Block),
    If(IfStmt),
    While(WhileStmt),
    Return(ReturnStmt),
    ProcedureCall(ProcedureCall),
}

/// Model of a [`Statement`]; a block is the sequence of its statements.
pub ghost enum StatementView {
    Declaration(DeclarationView),
    Assign { identifier: Seq<char>, expression: ExprView },
    Block(Seq<StatementView>),
    If { condition: ExprView, then_block: Seq<StatementView>, else_block: Option<Seq<StatementView>> },
    While { condition: ExprView, block: Seq<StatementView> },
    Return(Option<ExprView>),
    ProcedureCall { identifier: Seq<char>, arguments: Seq<ExprView> },
}

/// The model of a statement.
pub open spec fn statement_view(statement: Statement) -> StatementView
    decreases statement,
{
    match statement {
        Statement::Declaration(d) => StatementView::Declaration(d@),
        Statement::Assign(a) => StatementView::Assign {
            identifier: a.identifier@,
            expression: a.expression@,
        },
        Statement::Block(b) => StatementView::Block(statement_views(b.statements@)),
        Statement::If(s) => StatementView::If {
            condition: s.condition@,
            then_block: statement_views(s.then_block.statements@),
            else_block: match s.else_block {
                Some(b) => Some(statement_views(b.statements@)),
                None => None,
            },
        },
        Statement::While(w) => StatementView::While {
            condition: w.condition@,
            block: statement_views(w.block.statements@),
        },
        Statement::Return(r) => StatementView::Return(
            match r.expression {
                Some(e) => Some(e@),
                None => None,
            },
        ),
        Statement::ProcedureCall(c) => StatementView::ProcedureCall {
            identifier: c.identifier@,
            arguments: expr_views(c.arguments@),
        },
    }
}

/// The models of a sequence of statements, in order.
pub open spec fn statement_views(statements: Seq<Statement>) -> Seq<StatementView>
    decreases statements,
{
    if statements.len() == 0 {
        Seq::empty()
    } else {
        statement_views(statements.drop_last()).push(statement_view(statements.last()))
    }
}

impl View for Statement {
    type V = StatementView;

    open spec fn view(&self) -> StatementView {
        statement_view(*self)
    }
}

impl View for Block {
    type V = Seq<StatementView>;

    open spec fn view(&self) -> Seq<StatementView> {
        statement_views(self.statements@)
    }
}

/// A function: its return type, name, parameters and body.
#[derive(Debug, PartialEq, Eq)]
pub struct Function {
    pub return_type: Type,
    pub identifier: String,
    pub arguments: Vec<(Type, String)>,
    pub block: Block,
}

/// Model of a [`Function`].
pub ghost struct FunctionView {
    pub return_type: Type,
    pub identifier: Seq<char>,
    pub arguments: Seq<(Type, Seq<char>)>,
    pub block: Seq<StatementView>,
}

/// The models of a sequence of parameters, in order.
pub open spec fn param_views(params: Seq<(Type, String)>) -> Seq<(Type, Seq<char>)> {
    Seq::new(params.len(), |i: int| (params[i].0, params[i].1@))
}

impl View for Function {
    type V = FunctionView;

    open spec fn view(&self) -> FunctionView {
        FunctionView {
            return_type: self.return_type,
            identifier: self.identifier@,
            arguments: param_views(self.arguments@),
            block: self.block@,
        }
    }
}

/// The name of a module that the program depends on.
#[derive(Debug, PartialEq, Eq)]
pub struct UseStmt {
    pub identifier: String,
}

impl View for UseStmt {
    type V = Seq<char>;

    open spec fn view(&self) -> Seq<char> {
        self.identifier@
    }
}

/// A whole source file.
#[derive(Debug, PartialEq, Eq)]
pub struct Program {
    pub global_declarations: Vec<Declaration>,
    pub functions: Vec<Function>,
    pub use_statements: Vec<UseStmt>,
}

/// Model of a [`Program`]; a use statement is the name it holds.
pub ghost struct ProgramView {
    pub global_declarations: Seq<DeclarationView>,
    pub functions: Seq<FunctionView>,
    pub use_statements: Seq<Seq<char>>,
}

/// Whether every declaration in a statement, at any depth, has no
/// initializers or as many as it has names.
pub open spec fn statement_arity_ok(statement: StatementView) -> bool
    decreases statement,
{
    match statement {
        StatementView::Declaration(declaration) => declaration.arity_ok(),
        StatementView::Block(block) => statements_arity_ok(block),
        StatementView::If { condition, then_block, else_block } => statements_arity_ok(then_block)
            && match else_block {
            Some(block) => statements_arity_ok(block),
            None => true,
        },
        StatementView::While { condition, block } => statements_arity_ok(block),
        _ => true,
    }
}

/// Whether every declaration in a sequence of statements, at any depth,
/// has no initializers or as many as it has names.
pub open spec fn statements_arity_ok(statements: Seq<StatementView>) -> bool
    decreases statements,
{
    forall|i: int| 0 <= i < statements.len() ==> statement_arity_ok(#[trigger] statements[i])
}

impl ProgramView {
    /// Whether every declaration of the program, global or inside a
    /// function, has no initializers or as many as it has names.
    pub open spec fn arity_ok(self) -> bool {
        &&& forall|i: int|
            0 <= i < self.global_declarations.len() ==> (
            #[trigger] self.global_declarations[i]).arity_ok()
        &&& forall|i: int|
            0 <= i < self.functions.len() ==> statements_arity_ok(
                (#[trigger] self.functions[i]).block,
            )
    }
}

/// The models of a sequence of declarations, in order.
pub open spec fn declaration_views(declarations: Seq<Declaration>) -> Seq<DeclarationView> {
    Seq::new(declarations.len(), |i: int| declarations[i]@)
}

/// The models of a sequence of functions, in order.
pub open spec fn function_views(functions: Seq<Function>) -> Seq<FunctionView> {
    Seq::new(functions.len(), |i: int| functions[i]@)
}

/// The models of a sequence of use statements, in order.
pub open spec fn use_views(uses: Seq<UseStmt>) -> Seq<Seq<char>> {
    Seq::new(uses.len(), |i: int| uses[i]@)
}

impl View for Program {
    type V = ProgramView;

    open spec fn view(&self) -> ProgramView {
        ProgramView {
            global_declarations: declaration_views(self.global_declarations@),
            functions: function_views(self.functions@),
            use_statements: use_views(self.use_statements@),
        }
    }
}

} // verus!
