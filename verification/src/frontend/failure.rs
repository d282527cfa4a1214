//! The ways in which turning a source text into a program can fail.
use crate::frontend::tree::Rule;
use vstd::prelude::*;

verus! {

/// The parts of a program that the builder puts together.
#[derive(Clone, Copy, Debug, PartialEq, Eq)]
pub enum Construct {
    Program,
    UseStmt,
    GlobalDecl,
    Function,
    ReturnType,
    Parameter,
    Declaration,
    DeclType,
    PrimitiveType,
    Block,
    Statement,
    Assign,
    If,
    While,
    Return,
    ProcedureCall,
    Expr,
    Primary,
    BinaryExpr,
    UnaryExpr,
    Literal,
}

/// Why no program was built. Building stops at the first failure.
#[derive(Clone, Copy, Debug, PartialEq, Eq)]
pub enum ParseFailure {
    /// The text does not match the grammar: after the longest run of
    /// top-level items, the character at `position` is not the end of the
    /// text.
    Syntax { position: usize },
    /// A tree does not have the shape of the construct being built. `found`
    /// is the production met in place of an expected one, or `None` where a
    /// part is missing.
    MalformedTree { expected: Construct, found: Option<Rule> },
    /// A declaration has initializers, but not one for each name.
    ArityMismatch { ids: usize, exprs: usize },
    /// The text of a literal is not a value of its kind; `rule` is the
    /// production of the literal.
    LiteralConversionError { rule: Rule },
    /// An operator's text is not in the table of the construct being built.
    UnknownOperator { construct: Construct },
}

/// The failure for a tree that does not have the shape of `expected`.
pub open spec fn malformed(expected: Construct, found: Option<Rule>) -> ParseFailure {
    ParseFailure::MalformedTree { expected, found }
}

/// The failures that a text can bring about: it does not match the
/// grammar, a declaration has initializers but not one for each name, an
/// integer literal is out of range, or a type is an array type. Every other
/// failure tells of a tree that the grammar does not give.
pub open spec fn caused_by_text(failure: ParseFailure) -> bool {
    ||| failure is Syntax
    ||| failure is ArityMismatch
    ||| failure == (ParseFailure::LiteralConversionError { rule: Rule::IntLit })
    ||| failure == malformed(Construct::DeclType, Some(Rule::ArrayType))
}

/// Whether a result is a value or a failure that a text can bring about.
pub open spec fn well_shaped<T>(result: Result<T, ParseFailure>) -> bool {
    result matches Err(failure) ==> caused_by_text(failure)
}

} // verus!
