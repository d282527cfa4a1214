//! The grammar of the language, as functions from a text and a position to
//! the parse tree of the construct that starts there and the position where
//! it ends. Choices are ordered, repetitions are greedy, and nothing is
//! tried again once a construct has matched.
use crate::frontend::lexical::is_digit;
use crate::frontend::tree::{NodeView, Rule};
use vstd::prelude::*;

verus! {

/// The reserved words.
#[derive(Clone, Copy, Debug, PartialEq, Eq, Structural)]
pub enum Keyword {
    Use,
    Int,
    Bool,
    Char,
    String,
    Void,
    If,
    Else,
    While,
    Return,
    True,
    False,
}

/// The reserved word that a text is, if it is one.
pub open spec fn keyword_of_text(text: Seq<char>) -> Option<Keyword> {
    if text == "use"@ {
        Some(Keyword::Use)
    } else if text == "int"@ {
        Some(Keyword::Int)
    } else if text == "bool"@ {
        Some(Keyword::Bool)
    } else if text == "char"@ {
        Some(Keyword::Char)
    } else if text == "string"@ {
        Some(Keyword::String)
    } else if text == "void"@ {
        Some(Keyword::Void)
    } else if text == "if"@ {
        Some(Keyword::If)
    } else if text == "else"@ {
        Some(Keyword::Else)
    } else if text == "while"@ {
        Some(Keyword::While)
    } else if text == "return"@ {
        Some(Keyword::Return)
    } else if text == "true"@ {
        Some(Keyword::True)
    } else if text == "false"@ {
        Some(Keyword::False)
    } else {
        None
    }
}

/// The classes of characters of which a run is taken as a whole.
#[derive(Clone, Copy, Debug, PartialEq, Eq)]
pub enum CharClass {
    /// Blanks, tabs and line ends.
    Space,
    /// Letters, digits and the underscore.
    Word,
    /// Decimal digits.
    Digit,
    /// Anything but a double quote.
    Quoted,
}

/// Whether a character may start a word.
pub open spec fn is_word_start(c: char) -> bool {
    'a' <= c <= 'z' || 'A' <= c <= 'Z' || c == '_'
}

/// Whether a character belongs to a class.
pub open spec fn in_class(class: CharClass, c: char) -> bool {
    match class {
        CharClass::Space => c == ' ' || c == '\t' || c == '\n' || c == '\r',
        CharClass::Word => is_word_start(c) || is_digit(c),
        CharClass::Digit => is_digit(c),
        CharClass::Quoted => c != '"',
    }
}

/// The end of the longest run of characters of a class that starts at `pos`.
pub open spec fn run_end(s: Seq<char>, pos: int, class: CharClass) -> int
    decreases s.len() - pos,
{
    if 0 <= pos < s.len() && in_class(class, s[pos]) {
        run_end(s, pos + 1, class)
    } else {
        pos
    }
}

/// The first position at or after `pos` that holds no space.
pub open spec fn skip(s: Seq<char>, pos: int) -> int {
    run_end(s, pos, CharClass::Space)
}

/// Whether `next` lies after `pos` and within the text.
pub open spec fn ahead(s: Seq<char>, pos: int, next: int) -> bool {
    pos < next <= s.len()
}

/// Whether the character at `pos` is `c`.
pub open spec fn symbol_at(s: Seq<char>, pos: int, c: char) -> bool {
    0 <= pos < s.len() && s[pos] == c
}

/// A construct that matched: its parse tree and the position after it.
pub ghost struct Match {
    pub node: NodeView,
    pub end: int,
}

/// The match of a production without parts between `start` and `end`.
pub open spec fn leaf(rule: Rule, s: Seq<char>, start: int, end: int) -> Match {
    Match { node: NodeView { rule, text: s.subrange(start, end), children: Seq::empty() }, end }
}

/// The match of a production with the given parts between `start` and `end`.
pub open spec fn branch(
    rule: Rule,
    s: Seq<char>,
    start: int,
    end: int,
    children: Seq<NodeView>,
) -> Match {
    Match { node: NodeView { rule, text: s.subrange(start, end), children }, end }
}

/// The end of the word that starts at `pos`: a letter or an underscore,
/// then letters, digits and underscores.
pub open spec fn word_at(s: Seq<char>, pos: int) -> Option<int> {
    if 0 <= pos < s.len() && is_word_start(s[pos]) {
        Some(run_end(s, pos + 1, CharClass::Word))
    } else {
        None
    }
}

/// The end of the reserved word `keyword`, if the word at `pos` is it.
pub open spec fn keyword_at(s: Seq<char>, pos: int, keyword: Keyword) -> Option<int> {
    match word_at(s, pos) {
        Some(end) => if keyword_of_text(s.subrange(pos, end)) == Some(keyword) {
            Some(end)
        } else {
            None
        },
        None => None,
    }
}

/// identifier: a word that is not reserved.
pub open spec fn identifier(s: Seq<char>, pos: int) -> Option<Match> {
    match word_at(s, pos) {
        Some(end) => if keyword_of_text(s.subrange(pos, end)) is None {
            Some(leaf(Rule::Identifier, s, pos, end))
        } else {
            None
        },
        None => None,
    }
}

/// The production of the primitive type that a reserved word names.
pub open spec fn type_rule(keyword: Keyword) -> Option<Rule> {
    match keyword {
        Keyword::Int => Some(Rule::IntType),
        Keyword::Bool => Some(Rule::BoolType),
        Keyword::Char => Some(Rule::CharType),
        Keyword::String => Some(Rule::StringType),
        _ => None,
    }
}

/// primitive_type: `int`, `bool`, `char` or `string`.
pub open spec fn primitive_type(s: Seq<char>, pos: int) -> Option<Match> {
    match word_at(s, pos) {
        Some(end) => match keyword_of_text(s.subrange(pos, end)) {
            Some(keyword) => match type_rule(keyword) {
                Some(rule) => Some(
                    branch(Rule::PrimitiveType, s, pos, end, seq![leaf(rule, s, pos, end).node]),
                ),
                None => None,
            },
            None => None,
        },
        None => None,
    }
}

/// The end of the longest run of bracket pairs `[` `]` after `pos`, or
/// `pos` if there is none.
pub open spec fn brackets_end(s: Seq<char>, pos: int) -> int
    decreases s.len() - pos,
{
    let open = skip(s, pos);
    let close = skip(s, open + 1);
    if symbol_at(s, open, '[') && symbol_at(s, close, ']') && ahead(s, pos, close + 1) {
        brackets_end(s, close + 1)
    } else {
        pos
    }
}

/// decl_type: a primitive type, or an array type, which is a primitive
/// type and one or more bracket pairs.
pub open spec fn decl_type(s: Seq<char>, pos: int) -> Option<Match> {
    match primitive_type(s, pos) {
        Some(element) => {
            let end = brackets_end(s, element.end);
            if end == element.end {
                Some(branch(Rule::DeclType, s, pos, end, seq![element.node]))
            } else {
                Some(
                    branch(
                        Rule::DeclType,
                        s,
                        pos,
                        end,
                        seq![branch(Rule::ArrayType, s, pos, end, seq![element.node]).node],
                    ),
                )
            }
        },
        None => None,
    }
}

/// The identifiers that follow the first of a list, each after a comma.
pub open spec fn more_identifiers(s: Seq<char>, pos: int) -> (Seq<NodeView>, int)
    decreases s.len() - pos,
{
    let comma = skip(s, pos);
    if symbol_at(s, comma, ',') {
        match identifier(s, skip(s, comma + 1)) {
            Some(next) => if ahead(s, pos, next.end) {
                let rest = more_identifiers(s, next.end);
                (seq![next.node] + rest.0, rest.1)
            } else {
                (Seq::empty(), pos)
            },
            None => (Seq::empty(), pos),
        }
    } else {
        (Seq::empty(), pos)
    }
}

/// identifier_list: one or more identifiers, with commas between them.
pub open spec fn identifier_list(s: Seq<char>, pos: int) -> Option<Match> {
    match identifier(s, pos) {
        Some(first) => {
            let rest = more_identifiers(s, first.end);
            Some(branch(Rule::IdentifierList, s, pos, rest.1, seq![first.node] + rest.0))
        },
        None => None,
    }
}

/// The end of the binary operator at `pos`; of two that start alike, the
/// longer.
pub open spec fn binary_op_end(s: Seq<char>, pos: int) -> Option<int> {
    if symbol_at(s, pos, '*') && symbol_at(s, pos + 1, '>') && symbol_at(s, pos + 2, '>') {
        Some(pos + 3)
    } else if (symbol_at(s, pos, '=') || symbol_at(s, pos, '!') || symbol_at(s, pos, '<')
        || symbol_at(s, pos, '>')) && symbol_at(s, pos + 1, '=') {
        Some(pos + 2)
    } else if symbol_at(s, pos, '+') || symbol_at(s, pos, '-') || symbol_at(s, pos, '*')
        || symbol_at(s, pos, '/') || symbol_at(s, pos, '%') || symbol_at(s, pos, '<') || symbol_at(
        s,
        pos,
        '>',
    ) || symbol_at(s, pos, '&') || symbol_at(s, pos, '|') {
        Some(pos + 1)
    } else {
        None
    }
}

/// binary_op: one of the fourteen binary operators.
pub open spec fn binary_op(s: Seq<char>, pos: int) -> Option<Match> {
    match binary_op_end(s, pos) {
        Some(end) => Some(leaf(Rule::BinaryOp, s, pos, end)),
        None => None,
    }
}

/// unary_op: `-` or `!`.
pub open spec fn unary_op(s: Seq<char>, pos: int) -> Option<Match> {
    if symbol_at(s, pos, '-') || symbol_at(s, pos, '!') {
        Some(leaf(Rule::UnaryOp, s, pos, pos + 1))
    } else {
        None
    }
}

/// literal: digits; `true` or `false`; one character other than a single
/// quote between single quotes; or any characters other than a double quote
/// between double quotes. The quotes belong to the literal, not to the
/// token inside it.
pub open spec fn literal(s: Seq<char>, pos: int) -> Option<Match> {
    if 0 <= pos < s.len() && is_digit(s[pos]) {
        let end = run_end(s, pos + 1, CharClass::Digit);
        Some(branch(Rule::Literal, s, pos, end, seq![leaf(Rule::IntLit, s, pos, end).node]))
    } else if keyword_at(s, pos, Keyword::True) is Some {
        let end = keyword_at(s, pos, Keyword::True)->0;
        Some(branch(Rule::Literal, s, pos, end, seq![leaf(Rule::BoolLit, s, pos, end).node]))
    } else if keyword_at(s, pos, Keyword::False) is Some {
        let end = keyword_at(s, pos, Keyword::False)->0;
        Some(branch(Rule::Literal, s, pos, end, seq![leaf(Rule::BoolLit, s, pos, end).node]))
    } else if symbol_at(s, pos, '\'') {
        if pos + 2 < s.len() && s[pos + 1] != '\'' && s[pos + 2] == '\'' {
            Some(
                branch(
                    Rule::Literal,
                    s,
                    pos,
                    pos + 3,
                    seq![leaf(Rule::CharLit, s, pos + 1, pos + 2).node],
                ),
            )
        } else {
            None
        }
    } else if symbol_at(s, pos, '"') {
        let close = run_end(s, pos + 1, CharClass::Quoted);
        if symbol_at(s, close, '"') {
            Some(
                branch(
                    Rule::Literal,
                    s,
                    pos,
                    close + 1,
                    seq![leaf(Rule::StringLit, s, pos + 1, close).node],
                ),
            )
        } else {
            None
        }
    } else {
        None
    }
}

/// primary: a literal or an identifier.
pub open spec fn primary(s: Seq<char>, pos: int) -> Option<Match> {
    match literal(s, pos) {
        Some(inner) => Some(branch(Rule::Primary, s, pos, inner.end, seq![inner.node])),
        None => match identifier(s, pos) {
            Some(inner) => Some(branch(Rule::Primary, s, pos, inner.end, seq![inner.node])),
            None => None,
        },
    }
}

/// expr: a binary expression, a unary expression or a primary, whichever
/// matches first.
pub open spec fn expr(s: Seq<char>, pos: int) -> Option<Match>
    decreases s.len() - pos, 1int,
{
    match binary_expr(s, pos) {
        Some(inner) => Some(branch(Rule::Expr, s, pos, inner.end, seq![inner.node])),
        None => match unary_expr(s, pos) {
            Some(inner) => Some(branch(Rule::Expr, s, pos, inner.end, seq![inner.node])),
            None => match primary(s, pos) {
                Some(inner) => Some(branch(Rule::Expr, s, pos, inner.end, seq![inner.node])),
                None => None,
            },
        },
    }
}

/// binary_expr: a primary, a binary operator and an expression; so a chain
/// of operators groups to the right.
pub open spec fn binary_expr(s: Seq<char>, pos: int) -> Option<Match>
    decreases s.len() - pos, 0int,
{
    match primary(s, pos) {
        Some(left) => match binary_op(s, skip(s, left.end)) {
            Some(operator) => {
                let start = skip(s, operator.end);
                if ahead(s, pos, start) {
                    match expr(s, start) {
                        Some(right) => Some(
                            branch(
                                Rule::BinaryExpr,
                                s,
                                pos,
                                right.end,
                                seq![left.node, operator.node, right.node],
                            ),
                        ),
                        None => None,
                    }
                } else {
                    None
                }
            },
            None => None,
        },
        None => None,
    }
}

/// unary_expr: a unary operator and an expression.
pub open spec fn unary_expr(s: Seq<char>, pos: int) -> Option<Match>
    decreases s.len() - pos, 0int,
{
    match unary_op(s, pos) {
        Some(operator) => {
            let start = skip(s, operator.end);
            if ahead(s, pos, start) {
                match expr(s, start) {
                    Some(operand) => Some(
                        branch(
                            Rule::UnaryExpr,
                            s,
                            pos,
                            operand.end,
                            seq![operator.node, operand.node],
                        ),
                    ),
                    None => None,
                }
            } else {
                None
            }
        },
        None => None,
    }
}

/// The expressions that follow the first of a list, each after a comma.
pub open spec fn more_exprs(s: Seq<char>, pos: int) -> (Seq<NodeView>, int)
    decreases s.len() - pos,
{
    let comma = skip(s, pos);
    if symbol_at(s, comma, ',') {
        match expr(s, skip(s, comma + 1)) {
            Some(next) => if ahead(s, pos, next.end) {
                let rest = more_exprs(s, next.end);
                (seq![next.node] + rest.0, rest.1)
            } else {
                (Seq::empty(), pos)
            },
            None => (Seq::empty(), pos),
        }
    } else {
        (Seq::empty(), pos)
    }
}

/// expr_list: one or more expressions, with commas between them.
pub open spec fn expr_list(s: Seq<char>, pos: int) -> Option<Match> {
    match expr(s, pos) {
        Some(first) => {
            let rest = more_exprs(s, first.end);
            Some(branch(Rule::ExprList, s, pos, rest.1, seq![first.node] + rest.0))
        },
        None => None,
    }
}

/// decl: a type and a list of identifiers; then, if an equals sign
/// follows, a list of expressions; then a semicolon.
pub open spec fn decl(s: Seq<char>, pos: int) -> Option<Match> {
    match decl_type(s, pos) {
        Some(declared) => match identifier_list(s, skip(s, declared.end)) {
            Some(names) => {
                let mark = skip(s, names.end);
                if symbol_at(s, mark, '=') {
                    match expr_list(s, skip(s, mark + 1)) {
                        Some(values) => {
                            let semi = skip(s, values.end);
                            if symbol_at(s, semi, ';') {
                                Some(
                                    branch(
                                        Rule::Decl,
                                        s,
                                        pos,
                                        semi + 1,
                                        seq![
                                            declared.node,
                                            names.node,
                                            leaf(Rule::Assign, s, mark, mark + 1).node,
                                            values.node,
                                            leaf(Rule::Semi, s, semi, semi + 1).node,
                                        ],
                                    ),
                                )
                            } else {
                                None
                            }
                        },
                        None => None,
                    }
                } else if symbol_at(s, mark, ';') {
                    Some(
                        branch(
                            Rule::Decl,
                            s,
                            pos,
                            mark + 1,
                            seq![
                                declared.node,
                                names.node,
                                leaf(Rule::Semi, s, mark, mark + 1).node,
                            ],
                        ),
                    )
                } else {
                    None
                }
            },
            None => None,
        },
        None => None,
    }
}

/// global_decl: a declaration at the top level.
pub open spec fn global_decl(s: Seq<char>, pos: int) -> Option<Match> {
    match decl(s, pos) {
        Some(inner) => Some(branch(Rule::GlobalDecl, s, pos, inner.end, seq![inner.node])),
        None => None,
    }
}

/// use_stmt: `use`, an identifier and, if one follows, a semicolon.
pub open spec fn use_stmt(s: Seq<char>, pos: int) -> Option<Match> {
    match keyword_at(s, pos, Keyword::Use) {
        Some(word_end) => match identifier(s, skip(s, word_end)) {
            Some(name) => {
                let semi = skip(s, name.end);
                let end = if symbol_at(s, semi, ';') {
                    semi + 1
                } else {
                    name.end
                };
                Some(branch(Rule::UseStmt, s, pos, end, seq![name.node]))
            },
            None => None,
        },
        None => None,
    }
}

/// assign_stmt: an identifier, an equals sign, an expression and a
/// semicolon.
pub open spec fn assign_stmt(s: Seq<char>, pos: int) -> Option<Match> {
    match identifier(s, pos) {
        Some(name) => {
            let mark = skip(s, name.end);
            if symbol_at(s, mark, '=') {
                match expr(s, skip(s, mark + 1)) {
                    Some(value) => {
                        let semi = skip(s, value.end);
                        if symbol_at(s, semi, ';') {
                            Some(
                                branch(
                                    Rule::AssignStmt,
                                    s,
                                    pos,
                                    semi + 1,
                                    seq![name.node, value.node],
                                ),
                            )
                        } else {
                            None
                        }
                    },
                    None => None,
                }
            } else {
                None
            }
        },
        None => None,
    }
}

/// procedure_call: an identifier, then in parentheses a list of
/// expressions or nothing, and a semicolon.
pub open spec fn procedure_call(s: Seq<char>, pos: int) -> Option<Match> {
    match identifier(s, pos) {
        Some(name) => {
            let open = skip(s, name.end);
            if symbol_at(s, open, '(') {
                let first = skip(s, open + 1);
                let arguments = expr_list(s, first);
                let close = skip(
                    s,
                    match arguments {
                        Some(list) => list.end,
                        None => first,
                    },
                );
                let semi = skip(s, close + 1);
                if symbol_at(s, close, ')') && symbol_at(s, semi, ';') {
                    Some(
                        branch(
                            Rule::ProcedureCall,
                            s,
                            pos,
                            semi + 1,
                            match arguments {
                                Some(list) => seq![name.node, list.node],
                                None => seq![name.node],
                            },
                        ),
                    )
                } else {
                    None
                }
            } else {
                None
            }
        },
        None => None,
    }
}

/// return_stmt: `return`, an expression or nothing, and a semicolon.
pub open spec fn return_stmt(s: Seq<char>, pos: int) -> Option<Match> {
    match keyword_at(s, pos, Keyword::Return) {
        Some(word_end) => {
            let first = skip(s, word_end);
            let value = expr(s, first);
            let semi = skip(
                s,
                match value {
                    Some(inner) => inner.end,
                    None => first,
                },
            );
            if symbol_at(s, semi, ';') {
                Some(
                    branch(
                        Rule::ReturnStmt,
                        s,
                        pos,
                        semi + 1,
                        match value {
                            Some(inner) => seq![inner.node],
                            None => Seq::empty(),
                        },
                    ),
                )
            } else {
                None
            }
        },
        None => None,
    }
}

/// The expression in parentheses that follows a reserved word: the
/// condition of a conditional or of a loop, and the position after the
/// closing parenthesis.
pub open spec fn condition(s: Seq<char>, pos: int) -> Option<Match> {
    let open = skip(s, pos);
    if symbol_at(s, open, '(') {
        match expr(s, skip(s, open + 1)) {
            Some(inner) => {
                let close = skip(s, inner.end);
                if symbol_at(s, close, ')') {
                    Some(Match { node: inner.node, end: close + 1 })
                } else {
                    None
                }
            },
            None => None,
        }
    } else {
        None
    }
}

/// statement: a conditional, a loop, a return, a block, a declaration, a
/// call or an assignment, whichever matches first.
pub open spec fn statement(s: Seq<char>, pos: int) -> Option<Match>
    decreases s.len() - pos, 2int,
{
    let inner = match if_stmt(s, pos) {
        Some(inner) => Some(inner),
        None => match while_stmt(s, pos) {
            Some(inner) => Some(inner),
            None => match return_stmt(s, pos) {
                Some(inner) => Some(inner),
                None => match block(s, pos) {
                    Some(inner) => Some(inner),
                    None => match decl(s, pos) {
                        Some(inner) => Some(inner),
                        None => match procedure_call(s, pos) {
                            Some(inner) => Some(inner),
                            None => assign_stmt(s, pos),
                        },
                    },
                },
            },
        },
    };
    match inner {
        Some(inner) => Some(branch(Rule::Statement, s, pos, inner.end, seq![inner.node])),
        None => None,
    }
}

/// The statements that follow one another from `pos`, and the position
/// after the last.
pub open spec fn statements(s: Seq<char>, pos: int) -> (Seq<NodeView>, int)
    decreases s.len() - pos, 3int,
{
    let start = skip(s, pos);
    if pos <= start <= s.len() {
        match statement(s, start) {
            Some(first) => if ahead(s, pos, first.end) {
                let rest = statements(s, first.end);
                (seq![first.node] + rest.0, rest.1)
            } else {
                (Seq::empty(), pos)
            },
            None => (Seq::empty(), pos),
        }
    } else {
        (Seq::empty(), pos)
    }
}

/// block: statements between braces.
pub open spec fn block(s: Seq<char>, pos: int) -> Option<Match>
    decreases s.len() - pos, 0int,
{
    if symbol_at(s, pos, '{') {
        let body = statements(s, pos + 1);
        let close = skip(s, body.1);
        if symbol_at(s, close, '}') {
            Some(branch(Rule::Block, s, pos, close + 1, body.0))
        } else {
            None
        }
    } else {
        None
    }
}

/// if_stmt: `if`, a condition in parentheses and a block; then, if `else`
/// follows, a second block.
pub open spec fn if_stmt(s: Seq<char>, pos: int) -> Option<Match>
    decreases s.len() - pos, 1int,
{
    match keyword_at(s, pos, Keyword::If) {
        Some(word_end) => match condition(s, word_end) {
            Some(test) => {
                let start = skip(s, test.end);
                if ahead(s, pos, start) {
                    match block(s, start) {
                        Some(then_block) => {
                            let word = skip(s, then_block.end);
                            match keyword_at(s, word, Keyword::Else) {
                                Some(else_end) => {
                                    let second = skip(s, else_end);
                                    if ahead(s, pos, second) {
                                        match block(s, second) {
                                            Some(else_block) => Some(
                                                branch(
                                                    Rule::IfStmt,
                                                    s,
                                                    pos,
                                                    else_block.end,
                                                    seq![
                                                        test.node,
                                                        then_block.node,
                                                        else_block.node,
                                                    ],
                                                ),
                                            ),
                                            None => None,
                                        }
                                    } else {
                                        None
                                    }
                                },
                                None => Some(
                                    branch(
                                        Rule::IfStmt,
                                        s,
                                        pos,
                                        then_block.end,
                                        seq![test.node, then_block.node],
                                    ),
                                ),
                            }
                        },
                        None => None,
                    }
                } else {
                    None
                }
            },
            None => None,
        },
        None => None,
    }
}

/// while_stmt: `while`, a condition in parentheses and a block.
pub open spec fn while_stmt(s: Seq<char>, pos: int) -> Option<Match>
    decreases s.len() - pos, 1int,
{
    match keyword_at(s, pos, Keyword::While) {
        Some(word_end) => match condition(s, word_end) {
            Some(test) => {
                let start = skip(s, test.end);
                if ahead(s, pos, start) {
                    match block(s, start) {
                        Some(body) => Some(
                            branch(Rule::WhileStmt, s, pos, body.end, seq![test.node, body.node]),
                        ),
                        None => None,
                    }
                } else {
                    None
                }
            },
            None => None,
        },
        None => None,
    }
}

/// return_type: `void` or a type.
pub open spec fn return_type(s: Seq<char>, pos: int) -> Option<Match> {
    match keyword_at(s, pos, Keyword::Void) {
        Some(end) => Some(
            branch(Rule::ReturnType, s, pos, end, seq![leaf(Rule::VoidType, s, pos, end).node]),
        ),
        None => match decl_type(s, pos) {
            Some(inner) => Some(branch(Rule::ReturnType, s, pos, inner.end, seq![inner.node])),
            None => None,
        },
    }
}

/// param: a type and an identifier.
pub open spec fn param(s: Seq<char>, pos: int) -> Option<Match> {
    match decl_type(s, pos) {
        Some(declared) => match identifier(s, skip(s, declared.end)) {
            Some(name) => Some(
                branch(Rule::Param, s, pos, name.end, seq![declared.node, name.node]),
            ),
            None => None,
        },
        None => None,
    }
}

/// The parameters that follow the first of a list, each after a comma.
pub open spec fn more_params(s: Seq<char>, pos: int) -> (Seq<NodeView>, int)
    decreases s.len() - pos,
{
    let comma = skip(s, pos);
    if symbol_at(s, comma, ',') {
        match param(s, skip(s, comma + 1)) {
            Some(next) => if ahead(s, pos, next.end) {
                let rest = more_params(s, next.end);
                (seq![next.node] + rest.0, rest.1)
            } else {
                (Seq::empty(), pos)
            },
            None => (Seq::empty(), pos),
        }
    } else {
        (Seq::empty(), pos)
    }
}

/// param_list: parameters with commas between them, or nothing.
pub open spec fn param_list(s: Seq<char>, pos: int) -> Match {
    match param(s, pos) {
        Some(first) => {
            let rest = more_params(s, first.end);
            branch(Rule::ParamList, s, pos, rest.1, seq![first.node] + rest.0)
        },
        None => branch(Rule::ParamList, s, pos, pos, Seq::empty()),
    }
}

/// function_decl: a return type, an identifier, a list of parameters in
/// parentheses and a block.
pub open spec fn function_decl(s: Seq<char>, pos: int) -> Option<Match> {
    match return_type(s, pos) {
        Some(returned) => match identifier(s, skip(s, returned.end)) {
            Some(name) => {
                let open = skip(s, name.end);
                if symbol_at(s, open, '(') {
                    let params = param_list(s, skip(s, open + 1));
                    let close = skip(s, params.end);
                    if symbol_at(s, close, ')') {
                        match block(s, skip(s, close + 1)) {
                            Some(body) => Some(
                                branch(
                                    Rule::FunctionDecl,
                                    s,
                                    pos,
                                    body.end,
                                    seq![returned.node, name.node, params.node, body.node],
                                ),
                            ),
                            None => None,
                        }
                    } else {
                        None
                    }
                } else {
                    None
                }
            },
            None => None,
        },
        None => None,
    }
}

/// A top-level item: a use statement, a global declaration or a function,
/// whichever matches first.
pub open spec fn item(s: Seq<char>, pos: int) -> Option<Match> {
    match use_stmt(s, pos) {
        Some(found) => Some(found),
        None => match global_decl(s, pos) {
            Some(found) => Some(found),
            None => function_decl(s, pos),
        },
    }
}

/// The top-level items that follow one another from `pos`, and the
/// position after the last.
pub open spec fn items(s: Seq<char>, pos: int) -> (Seq<NodeView>, int)
    decreases s.len() - pos,
{
    match item(s, skip(s, pos)) {
        Some(first) => if ahead(s, pos, first.end) {
            let rest = items(s, first.end);
            (seq![first.node] + rest.0, rest.1)
        } else {
            (Seq::empty(), pos)
        },
        None => (Seq::empty(), pos),
    }
}

/// program: top-level items up to the end of the text. Where something
/// else is left, the result is the position at which it starts.
pub open spec fn program(s: Seq<char>) -> Result<NodeView, int> {
    let body = items(s, 0);
    let end = skip(s, body.1);
    if end == s.len() {
        Ok(NodeView { rule: Rule::Program, text: s, children: body.0 })
    } else {
        Err(end)
    }
}

/// A text that is one expression and nothing else. Where the text does
/// not start with an expression, or something is left after it, the result
/// is the position at which that starts.
pub open spec fn whole_expr(s: Seq<char>) -> Result<NodeView, int> {
    let start = skip(s, 0);
    match expr(s, start) {
        Some(found) => {
            let end = skip(s, found.end);
            if end == s.len() {
                Ok(found.node)
            } else {
                Err(end)
            }
        },
        None => Err(start),
    }
}

} // verus!
