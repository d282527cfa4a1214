//! What holds of every text and of every parse tree.
use crate::frontend::ast::{statement_arity_ok, statements_arity_ok, Program, Type};
use crate::frontend::failure::{well_shaped, ParseFailure};
use crate::frontend::grammar;
use crate::frontend::lexical::{bop_of_text, uop_of_text};
use crate::frontend::meaning::{
    assign_of, binary_of, block_of, call_of, decl_parts, decl_type_of, declaration_of, denotes,
    expr_of, expr_of_text, exprs_of, function_of, global_decl_of, if_of, items_of, literal_of,
    param_of, params_of, primary_of, program_of, program_of_text, return_of, return_type_of,
    statement_of, statements_of, unary_of, use_of, while_of,
};
use crate::frontend::tree::{NodeView, Rule};
use vstd::prelude::*;

verus! {

/// A declaration that is built has no initializers or as many as it has
/// names.
pub proof fn built_declaration_has_matching_arity(node: NodeView)
    ensures
        declaration_of(node) matches Ok(declaration) ==> declaration.arity_ok(),
        global_decl_of(node) matches Ok(declaration) ==> declaration.arity_ok(),
{
}

/// A declaration whose type is built, and whose initializers are there but
/// are not one for each name, fails with an arity mismatch that tells both
/// counts.
pub proof fn mismatched_arity_fails(node: NodeView)
    requires
        node.children.len() > 0,
        decl_type_of(node.children[0]) is Ok,
        decl_parts(node.children) matches Ok(parts) && parts.1.len() > 0 && parts.0.len()
            != parts.1.len(),
    ensures
        declaration_of(node) == Err::<crate::frontend::ast::DeclarationView, ParseFailure>(
            ParseFailure::ArityMismatch {
                ids: decl_parts(node.children)->Ok_0.0.len() as usize,
                exprs: decl_parts(node.children)->Ok_0.1.len() as usize,
            },
        ),
{
}

/// In a statement that is built, every declaration has no initializers or
/// as many as it has names.
pub proof fn built_statement_has_matching_arity(node: NodeView)
    ensures
        statement_of(node) matches Ok(statement) ==> statement_arity_ok(statement),
    decreases node, 1int,
{
    if node.children.len() > 0 {
        let inner = node.children[0];
        built_block_has_matching_arity(inner);
        if inner.children.len() >= 2 {
            built_block_has_matching_arity(inner.children[1]);
        }
        if inner.children.len() >= 3 {
            built_block_has_matching_arity(inner.children[2]);
        }
    }
}

/// In statements that are built, every declaration has no initializers or
/// as many as it has names.
pub proof fn built_statements_have_matching_arity(nodes: Seq<NodeView>)
    ensures
        statements_of(nodes) matches Ok(statements) ==> statements_arity_ok(statements),
    decreases nodes, 0int,
{
    if nodes.len() > 0 {
        built_statements_have_matching_arity(nodes.drop_last());
        built_statement_has_matching_arity(nodes.last());
    }
}

/// In a block that is built, every declaration has no initializers or as
/// many as it has names.
pub proof fn built_block_has_matching_arity(node: NodeView)
    ensures
        block_of(node) matches Ok(statements) ==> statements_arity_ok(statements),
    decreases node, 0int,
{
    built_statements_have_matching_arity(node.children);
}

/// In the program of a sequence of items, every declaration has no
/// initializers or as many as it has names.
pub proof fn built_items_have_matching_arity(nodes: Seq<NodeView>)
    ensures
        items_of(nodes) matches Ok(program) ==> program.arity_ok(),
    decreases nodes.len(),
{
    if nodes.len() > 0 {
        built_items_have_matching_arity(nodes.drop_last());
        let item = nodes.last();
        if item.children.len() >= 4 {
            built_block_has_matching_arity(item.children[3]);
        }
    }
}

/// In a program that is built, every declaration, global or inside a
/// function, has no initializers or as many as it has names.
pub proof fn built_program_has_matching_arity(root: NodeView)
    ensures
        program_of(root) matches Ok(program) ==> program.arity_ok(),
{
    built_items_have_matching_arity(root.children);
}

/// Every binary operator that the grammar accepts is in the table of
/// binary operators.
pub proof fn binary_operators_are_known(s: Seq<char>, pos: int)
    requires
        grammar::binary_op(s, pos) is Some,
    ensures
        bop_of_text(grammar::binary_op(s, pos)->0.node.text) is Some,
{
    let end = grammar::binary_op_end(s, pos)->0;
    let text = s.subrange(pos, end);
    if end == pos + 3 {
        assert(text =~= seq!['*', '>', '>']);
    } else if end == pos + 2 {
        assert(text =~= seq![s[pos], '=']);
    } else {
        assert(text =~= seq![s[pos]]);
    }
}

/// Every unary operator that the grammar accepts is in the table of unary
/// operators.
pub proof fn unary_operators_are_known(s: Seq<char>, pos: int)
    requires
        grammar::unary_op(s, pos) is Some,
    ensures
        uop_of_text(grammar::unary_op(s, pos)->0.node.text) is Some,
{
    assert(s.subrange(pos, pos + 1) =~= seq![s[pos]]);
}

/// Parsing one text twice gives the same failure, or two programs with the
/// same model.
pub proof fn parsing_again_agrees(
    source: Seq<char>,
    first: Result<Program, ParseFailure>,
    second: Result<Program, ParseFailure>,
)
    requires
        denotes(first, program_of_text(source)),
        denotes(second, program_of_text(source)),
    ensures
        match (first, second) {
            (Ok(a), Ok(b)) => a@ == b@,
            (Err(a), Err(b)) => a == b,
            _ => false,
        },
{
}

/// A literal that the grammar accepts is built, unless it is an integer
/// out of range.
pub proof fn literal_is_well_shaped(s: Seq<char>, pos: int)
    ensures
        grammar::literal(s, pos) matches Some(found) ==> well_shaped(literal_of(found.node)),
{
    reveal_strlit("true");
    reveal_strlit("false");
    assert("true"@ =~= seq!['t', 'r', 'u', 'e']);
    assert("false"@ =~= seq!['f', 'a', 'l', 's', 'e']);
}

/// A primary that the grammar accepts is built, unless it is an integer
/// out of range.
pub proof fn primary_is_well_shaped(s: Seq<char>, pos: int)
    ensures
        grammar::primary(s, pos) matches Some(found) ==> well_shaped(primary_of(found.node)),
{
    literal_is_well_shaped(s, pos);
}

/// An expression that the grammar accepts is built, unless an integer in
/// it is out of range: its operators are in the tables and its parts have
/// the shapes that the builder expects.
pub proof fn expr_is_well_shaped(s: Seq<char>, pos: int)
    ensures
        grammar::expr(s, pos) matches Some(found) ==> well_shaped(expr_of(found.node)),
    decreases s.len() - pos, 1int,
{
    binary_expr_is_well_shaped(s, pos);
    unary_expr_is_well_shaped(s, pos);
    primary_is_well_shaped(s, pos);
}

/// A binary expression that the grammar accepts is built, unless an
/// integer in it is out of range.
pub proof fn binary_expr_is_well_shaped(s: Seq<char>, pos: int)
    ensures
        grammar::binary_expr(s, pos) matches Some(found) ==> well_shaped(binary_of(found.node)),
    decreases s.len() - pos, 0int,
{
    primary_is_well_shaped(s, pos);
    if let Some(left) = grammar::primary(s, pos) {
        let at = grammar::skip(s, left.end);
        if let Some(operator) = grammar::binary_op(s, at) {
            binary_operators_are_known(s, at);
            let start = grammar::skip(s, operator.end);
            if grammar::ahead(s, pos, start) {
                expr_is_well_shaped(s, start);
            }
        }
    }
}

/// A unary expression that the grammar accepts is built, unless an integer
/// in it is out of range.
pub proof fn unary_expr_is_well_shaped(s: Seq<char>, pos: int)
    ensures
        grammar::unary_expr(s, pos) matches Some(found) ==> well_shaped(unary_of(found.node)),
    decreases s.len() - pos, 0int,
{
    if let Some(operator) = grammar::unary_op(s, pos) {
        unary_operators_are_known(s, pos);
        let start = grammar::skip(s, operator.end);
        if grammar::ahead(s, pos, start) {
            expr_is_well_shaped(s, start);
        }
    }
}

/// Expressions of which each is built, or fails as a text can make it
/// fail, are built together or fail in such a way.
pub proof fn exprs_are_well_shaped(nodes: Seq<NodeView>)
    requires
        forall|i: int| 0 <= i < nodes.len() ==> well_shaped(expr_of(#[trigger] nodes[i])),
    ensures
        well_shaped(exprs_of(nodes)),
    decreases nodes.len(),
{
    if nodes.len() > 0 {
        assert(forall|i: int|
            0 <= i < nodes.drop_last().len() ==> (#[trigger] nodes.drop_last()[i]) == nodes[i]);
        exprs_are_well_shaped(nodes.drop_last());
    }
}

/// Each expression after the first of a list that the grammar accepts is
/// built, unless an integer in it is out of range.
pub proof fn more_exprs_are_well_shaped(s: Seq<char>, pos: int)
    ensures
        forall|i: int|
            0 <= i < grammar::more_exprs(s, pos).0.len() ==> well_shaped(
                expr_of(#[trigger] grammar::more_exprs(s, pos).0[i]),
            ),
    decreases s.len() - pos,
{
    let comma = grammar::skip(s, pos);
    if grammar::symbol_at(s, comma, ',') {
        let start = grammar::skip(s, comma + 1);
        if let Some(next) = grammar::expr(s, start) {
            if grammar::ahead(s, pos, next.end) {
                expr_is_well_shaped(s, start);
                more_exprs_are_well_shaped(s, next.end);
            }
        }
    }
}

/// A list of expressions that the grammar accepts is built, unless an
/// integer in it is out of range.
pub proof fn expr_list_is_well_shaped(s: Seq<char>, pos: int)
    ensures
        grammar::expr_list(s, pos) matches Some(found) ==> found.node.rule == Rule::ExprList
            && well_shaped(exprs_of(found.node.children)),
{
    if let Some(first) = grammar::expr(s, pos) {
        expr_is_well_shaped(s, pos);
        more_exprs_are_well_shaped(s, first.end);
        exprs_are_well_shaped(grammar::expr_list(s, pos)->0.node.children);
    }
}

/// A type that is built for a declaration or a parameter is one of the
/// four primitive types: never `Void`, which only a return type can be, and
/// never an array.
pub proof fn built_type_is_primitive(node: NodeView)
    ensures
        decl_type_of(node) matches Ok(built) ==> built == Type::Int || built == Type::Bool
            || built == Type::Char || built == Type::String,
        declaration_of(node) matches Ok(declaration) ==> declaration.decl_type != Type::Void,
        param_of(node) matches Ok(param) ==> param.0 != Type::Void,
{
}

/// A type that the grammar accepts is built, unless it is an array type.
pub proof fn decl_type_is_well_shaped(s: Seq<char>, pos: int)
    ensures
        grammar::decl_type(s, pos) matches Some(found) ==> found.node.rule == Rule::DeclType
            && well_shaped(decl_type_of(found.node)),
{
}

/// Whether a node may stand in a declaration: a type, a list of names, an
/// equals sign, a semicolon, or a list of expressions that are built or
/// fail as a text can make them fail.
pub open spec fn part_of_declaration(node: NodeView) -> bool {
    match node.rule {
        Rule::DeclType | Rule::Semi | Rule::Assign | Rule::IdentifierList => true,
        Rule::ExprList => well_shaped(exprs_of(node.children)),
        _ => false,
    }
}

/// The names and initializers of a declaration made of such parts are
/// found, unless a text makes an initializer fail.
pub proof fn decl_parts_are_well_shaped(nodes: Seq<NodeView>)
    requires
        forall|i: int| 0 <= i < nodes.len() ==> part_of_declaration(#[trigger] nodes[i]),
    ensures
        well_shaped(decl_parts(nodes)),
    decreases nodes.len(),
{
    if nodes.len() > 0 {
        assert(forall|i: int|
            0 <= i < nodes.drop_last().len() ==> (#[trigger] nodes.drop_last()[i]) == nodes[i]);
        decl_parts_are_well_shaped(nodes.drop_last());
        assert(part_of_declaration(nodes.last()));
    }
}

/// A declaration that the grammar accepts is built, unless its type is an
/// array type, an integer in it is out of range or its initializers are
/// not one for each name.
pub proof fn decl_is_well_shaped(s: Seq<char>, pos: int)
    ensures
        grammar::decl(s, pos) matches Some(found) ==> found.node.rule == Rule::Decl && well_shaped(
            declaration_of(found.node),
        ),
{
    if let Some(found) = grammar::decl(s, pos) {
        decl_type_is_well_shaped(s, pos);
        let declared = grammar::decl_type(s, pos)->0;
        let names = grammar::identifier_list(s, grammar::skip(s, declared.end))->0;
        let mark = grammar::skip(s, names.end);
        if grammar::symbol_at(s, mark, '=') {
            expr_list_is_well_shaped(s, grammar::skip(s, mark + 1));
        }
        assert forall|i: int| 0 <= i < found.node.children.len() implies part_of_declaration(
            #[trigger] found.node.children[i],
        ) by {}
        decl_parts_are_well_shaped(found.node.children);
    }
}

/// An assignment that the grammar accepts is built, unless an integer in
/// it is out of range.
pub proof fn assign_stmt_is_well_shaped(s: Seq<char>, pos: int)
    ensures
        grammar::assign_stmt(s, pos) matches Some(found) ==> well_shaped(assign_of(found.node)),
{
    if let Some(name) = grammar::identifier(s, pos) {
        let mark = grammar::skip(s, name.end);
        expr_is_well_shaped(s, grammar::skip(s, mark + 1));
    }
}

/// A call that the grammar accepts is built, unless an integer in it is
/// out of range.
pub proof fn procedure_call_is_well_shaped(s: Seq<char>, pos: int)
    ensures
        grammar::procedure_call(s, pos) matches Some(found) ==> well_shaped(call_of(found.node)),
{
    if let Some(name) = grammar::identifier(s, pos) {
        let open = grammar::skip(s, name.end);
        expr_list_is_well_shaped(s, grammar::skip(s, open + 1));
    }
}

/// A return that the grammar accepts is built, unless an integer in it is
/// out of range.
pub proof fn return_stmt_is_well_shaped(s: Seq<char>, pos: int)
    ensures
        grammar::return_stmt(s, pos) matches Some(found) ==> well_shaped(return_of(found.node)),
{
    if let Some(word_end) = grammar::keyword_at(s, pos, grammar::Keyword::Return) {
        expr_is_well_shaped(s, grammar::skip(s, word_end));
    }
}

/// A condition that the grammar accepts is built, unless an integer in it
/// is out of range.
pub proof fn condition_is_well_shaped(s: Seq<char>, pos: int)
    ensures
        grammar::condition(s, pos) matches Some(found) ==> well_shaped(expr_of(found.node)),
{
    let open = grammar::skip(s, pos);
    expr_is_well_shaped(s, grammar::skip(s, open + 1));
}

/// Statements of which each is built, or fails as a text can make it fail,
/// are built together or fail in such a way.
pub proof fn statements_of_are_well_shaped(nodes: Seq<NodeView>)
    requires
        forall|i: int| 0 <= i < nodes.len() ==> well_shaped(statement_of(#[trigger] nodes[i])),
    ensures
        well_shaped(statements_of(nodes)),
    decreases nodes.len(),
{
    if nodes.len() > 0 {
        assert(forall|i: int|
            0 <= i < nodes.drop_last().len() ==> (#[trigger] nodes.drop_last()[i]) == nodes[i]);
        statements_of_are_well_shaped(nodes.drop_last());
    }
}

/// A statement that the grammar accepts is built, unless a declaration or
/// an integer in it fails as a text can make it fail.
pub proof fn statement_is_well_shaped(s: Seq<char>, pos: int)
    ensures
        grammar::statement(s, pos) matches Some(found) ==> well_shaped(statement_of(found.node)),
    decreases s.len() - pos, 2int,
{
    if_stmt_is_well_shaped(s, pos);
    while_stmt_is_well_shaped(s, pos);
    return_stmt_is_well_shaped(s, pos);
    block_is_well_shaped(s, pos);
    decl_is_well_shaped(s, pos);
    procedure_call_is_well_shaped(s, pos);
    assign_stmt_is_well_shaped(s, pos);
}

/// Each of the statements that the grammar accepts one after another is
/// built, unless a text makes it fail.
pub proof fn statements_are_well_shaped(s: Seq<char>, pos: int)
    ensures
        forall|i: int|
            0 <= i < grammar::statements(s, pos).0.len() ==> well_shaped(
                statement_of(#[trigger] grammar::statements(s, pos).0[i]),
            ),
    decreases s.len() - pos, 3int,
{
    let start = grammar::skip(s, pos);
    if pos <= start <= s.len() {
        if let Some(first) = grammar::statement(s, start) {
            if grammar::ahead(s, pos, first.end) {
                statement_is_well_shaped(s, start);
                statements_are_well_shaped(s, first.end);
            }
        }
    }
}

/// A block that the grammar accepts is built, unless a text makes a
/// statement in it fail.
pub proof fn block_is_well_shaped(s: Seq<char>, pos: int)
    ensures
        grammar::block(s, pos) matches Some(found) ==> well_shaped(block_of(found.node)),
    decreases s.len() - pos, 0int,
{
    if grammar::symbol_at(s, pos, '{') {
        statements_are_well_shaped(s, pos + 1);
        statements_of_are_well_shaped(grammar::statements(s, pos + 1).0);
    }
}

/// A conditional that the grammar accepts is built, unless a text makes a
/// part of it fail.
pub proof fn if_stmt_is_well_shaped(s: Seq<char>, pos: int)
    ensures
        grammar::if_stmt(s, pos) matches Some(found) ==> well_shaped(if_of(found.node)),
    decreases s.len() - pos, 1int,
{
    if let Some(word_end) = grammar::keyword_at(s, pos, grammar::Keyword::If) {
        condition_is_well_shaped(s, word_end);
        if let Some(test) = grammar::condition(s, word_end) {
            let start = grammar::skip(s, test.end);
            if grammar::ahead(s, pos, start) {
                block_is_well_shaped(s, start);
                if let Some(then_block) = grammar::block(s, start) {
                    let word = grammar::skip(s, then_block.end);
                    if let Some(else_end) = grammar::keyword_at(s, word, grammar::Keyword::Else) {
                        let second = grammar::skip(s, else_end);
                        if grammar::ahead(s, pos, second) {
                            block_is_well_shaped(s, second);
                        }
                    }
                }
            }
        }
    }
}

/// A loop that the grammar accepts is built, unless a text makes a part
/// of it fail.
pub proof fn while_stmt_is_well_shaped(s: Seq<char>, pos: int)
    ensures
        grammar::while_stmt(s, pos) matches Some(found) ==> well_shaped(while_of(found.node)),
    decreases s.len() - pos, 1int,
{
    if let Some(word_end) = grammar::keyword_at(s, pos, grammar::Keyword::While) {
        condition_is_well_shaped(s, word_end);
        if let Some(test) = grammar::condition(s, word_end) {
            let start = grammar::skip(s, test.end);
            if grammar::ahead(s, pos, start) {
                block_is_well_shaped(s, start);
            }
        }
    }
}

/// Parameters of which each is built, or fails as a text can make it fail,
/// are built together or fail in such a way.
pub proof fn params_of_are_well_shaped(nodes: Seq<NodeView>)
    requires
        forall|i: int| 0 <= i < nodes.len() ==> well_shaped(param_of(#[trigger] nodes[i])),
    ensures
        well_shaped(params_of(nodes)),
    decreases nodes.len(),
{
    if nodes.len() > 0 {
        assert(forall|i: int|
            0 <= i < nodes.drop_last().len() ==> (#[trigger] nodes.drop_last()[i]) == nodes[i]);
        params_of_are_well_shaped(nodes.drop_last());
    }
}

/// A parameter that the grammar accepts is built, unless its type is an
/// array type.
pub proof fn param_is_well_shaped(s: Seq<char>, pos: int)
    ensures
        grammar::param(s, pos) matches Some(found) ==> well_shaped(param_of(found.node)),
{
    decl_type_is_well_shaped(s, pos);
}

/// Each parameter after the first of a list that the grammar accepts is
/// built, unless its type is an array type.
pub proof fn more_params_are_well_shaped(s: Seq<char>, pos: int)
    ensures
        forall|i: int|
            0 <= i < grammar::more_params(s, pos).0.len() ==> well_shaped(
                param_of(#[trigger] grammar::more_params(s, pos).0[i]),
            ),
    decreases s.len() - pos,
{
    let comma = grammar::skip(s, pos);
    if grammar::symbol_at(s, comma, ',') {
        let start = grammar::skip(s, comma + 1);
        if let Some(next) = grammar::param(s, start) {
            if grammar::ahead(s, pos, next.end) {
                param_is_well_shaped(s, start);
                more_params_are_well_shaped(s, next.end);
            }
        }
    }
}

/// A function that the grammar accepts is built, unless a text makes a
/// part of it fail.
pub proof fn function_decl_is_well_shaped(s: Seq<char>, pos: int)
    ensures
        grammar::function_decl(s, pos) matches Some(found) ==> found.node.rule
            == Rule::FunctionDecl && well_shaped(function_of(found.node)),
{
    if let Some(found) = grammar::function_decl(s, pos) {
        let returned = grammar::return_type(s, pos)->0;
        decl_type_is_well_shaped(s, pos);
        assert(well_shaped(return_type_of(returned.node)));
        let name = grammar::identifier(s, grammar::skip(s, returned.end))->0;
        let open = grammar::skip(s, name.end);
        let first = grammar::skip(s, open + 1);
        let params = grammar::param_list(s, first);
        if let Some(first_param) = grammar::param(s, first) {
            param_is_well_shaped(s, first);
            more_params_are_well_shaped(s, first_param.end);
        }
        params_of_are_well_shaped(params.node.children);
        let close = grammar::skip(s, params.end);
        block_is_well_shaped(s, grammar::skip(s, close + 1));
    }
}

/// Whether a node may stand at the top level: a use statement, a global
/// declaration or a function, each built or failing as a text can make it
/// fail.
pub open spec fn top_level_item(node: NodeView) -> bool {
    match node.rule {
        Rule::UseStmt => well_shaped(use_of(node)),
        Rule::GlobalDecl => well_shaped(global_decl_of(node)),
        Rule::FunctionDecl => well_shaped(function_of(node)),
        _ => false,
    }
}

/// A program of such items is built, unless a text makes one of them fail.
pub proof fn items_of_are_well_shaped(nodes: Seq<NodeView>)
    requires
        forall|i: int| 0 <= i < nodes.len() ==> top_level_item(#[trigger] nodes[i]),
    ensures
        well_shaped(items_of(nodes)),
    decreases nodes.len(),
{
    if nodes.len() > 0 {
        assert(forall|i: int|
            0 <= i < nodes.drop_last().len() ==> (#[trigger] nodes.drop_last()[i]) == nodes[i]);
        items_of_are_well_shaped(nodes.drop_last());
        assert(top_level_item(nodes.last()));
    }
}

/// Each of the items that the grammar accepts one after another may stand
/// at the top level.
pub proof fn items_are_well_shaped(s: Seq<char>, pos: int)
    ensures
        forall|i: int|
            0 <= i < grammar::items(s, pos).0.len() ==> top_level_item(
                #[trigger] grammar::items(s, pos).0[i],
            ),
    decreases s.len() - pos,
{
    let start = grammar::skip(s, pos);
    if let Some(first) = grammar::item(s, start) {
        if grammar::ahead(s, pos, first.end) {
            decl_is_well_shaped(s, start);
            function_decl_is_well_shaped(s, start);
            assert(top_level_item(first.node));
            items_are_well_shaped(s, first.end);
            let rest = grammar::items(s, first.end).0;
            let all = grammar::items(s, pos).0;
            assert(all == seq![first.node] + rest);
            assert forall|i: int| 0 <= i < all.len() implies top_level_item(#[trigger] all[i]) by {
                if i > 0 {
                    assert(all[i] == rest[i - 1]);
                }
            }
        }
    }
}

/// Whatever the text, parsing it as a program gives a program or a failure
/// that the text brings about: no operator is unknown to the tables, and
/// no tree has a shape that the builder does not expect, but for array
/// types.
pub proof fn text_gives_well_shaped_program(source: Seq<char>)
    ensures
        well_shaped(program_of_text(source)),
{
    items_are_well_shaped(source, 0);
    items_of_are_well_shaped(grammar::items(source, 0).0);
}

/// Whatever the text, parsing it as an expression gives an expression or
/// a failure that the text brings about.
pub proof fn text_gives_well_shaped_expr(source: Seq<char>)
    ensures
        well_shaped(expr_of_text(source)),
{
    expr_is_well_shaped(source, grammar::skip(source, 0));
}

} // verus!
