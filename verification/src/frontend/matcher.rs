//! The matcher: finds in a text the parse tree that the grammar gives it.
use crate::frontend::grammar;
use crate::frontend::grammar::{CharClass, Keyword, Match};
use crate::frontend::tree::{node_views, node_views_push, Node, NodeView, Rule};
use vstd::prelude::*;

verus! {

/// `String::push`, which is trusted to append the character: afterwards the
/// string holds the characters it held before, in their order, and then
/// `c`.
#[verifier::external_body]
fn push_char(text: &mut String, c: char)
    ensures
        final(text)@ == old(text)@.push(c),
{
    text.push(c);
}

/// The characters of `src` from `start` up to `end`, as a string.
pub fn text_of(src: &Vec<char>, start: usize, end: usize) -> (text: String)
    requires
        start <= end <= src.len(),
    ensures
        text@ == src@.subrange(start as int, end as int),
{
    let mut text = String::new();
    let mut i: usize = start;
    while i < end
        invariant
            start <= i <= end <= src.len(),
            text@ == src@.subrange(start as int, i as int),
        decreases end - i,
    {
        push_char(&mut text, src[i]);
        proof {
            assert(src@.subrange(start as int, i as int).push(src@[i as int]) =~= src@.subrange(
                start as int,
                i + 1,
            ));
        }
        i = i + 1;
    }
    text
}

/// Whether what a matcher returned is what the grammar says of the text
/// from `pos`: the same tree and the same end, or no match; a match ends
/// after `pos` and within the text.
pub open spec fn matched(
    src: Seq<char>,
    pos: usize,
    result: Option<(Node, usize)>,
    model: Option<Match>,
) -> bool {
    match result {
        Some((node, end)) => model == Some(Match { node: node@, end: end as int }) && pos < end
            <= src.len(),
        None => model is None,
    }
}

/// Whether the nodes and the end that a matcher of a repetition returned
/// are what the grammar says of the text from `pos`; a repetition ends at
/// or after `pos` and within the text.
pub open spec fn repeated(
    src: Seq<char>,
    pos: usize,
    result: (Vec<Node>, usize),
    model: (Seq<NodeView>, int),
) -> bool {
    &&& model.0 == node_views(result.0@)
    &&& model.1 == result.1
    &&& pos <= result.1 <= src.len()
}

/// The node of a production that matched `src` from `start` up to `end`,
/// with the given parts.
pub fn make(rule: Rule, src: &Vec<char>, start: usize, end: usize, children: Vec<Node>) -> (node:
    Node)
    requires
        start <= end <= src.len(),
    ensures
        node@ == grammar::branch(
            rule,
            src@,
            start as int,
            end as int,
            node_views(children@),
        ).node,
{
    Node::with_text(rule, text_of(src, start, end), children)
}

/// The node of a production without parts that matched `src` from `start`
/// up to `end`.
pub fn make_leaf(rule: Rule, src: &Vec<char>, start: usize, end: usize) -> (node: Node)
    requires
        start <= end <= src.len(),
    ensures
        node@ == grammar::leaf(rule, src@, start as int, end as int).node,
{
    let children: Vec<Node> = Vec::new();
    proof {
        assert(node_views(children@) =~= Seq::empty());
    }
    Node::with_text(rule, text_of(src, start, end), children)
}

/// A list of one node.
pub fn one(first: Node) -> (nodes: Vec<Node>)
    ensures
        node_views(nodes@) == seq![first@],
{
    let mut nodes: Vec<Node> = Vec::new();
    proof {
        node_views_push(nodes@, first);
        assert(node_views(nodes@).push(first@) =~= seq![first@]);
    }
    nodes.push(first);
    nodes
}

/// A list with one more node at its end.
pub fn and(nodes: Vec<Node>, next: Node) -> (longer: Vec<Node>)
    ensures
        node_views(longer@) == node_views(nodes@).push(next@),
{
    let mut longer = nodes;
    proof {
        node_views_push(longer@, next);
    }
    longer.push(next);
    longer
}

/// Whether a character may start a word.
pub fn is_word_start(c: char) -> (yes: bool)
    ensures
        yes == grammar::is_word_start(c),
{
    (c >= 'a' && c <= 'z') || (c >= 'A' && c <= 'Z') || c == '_'
}

/// Whether a character belongs to a class.
pub fn in_class(class: CharClass, c: char) -> (yes: bool)
    ensures
        yes == grammar::in_class(class, c),
{
    match class {
        CharClass::Space => c == ' ' || c == '\t' || c == '\n' || c == '\r',
        CharClass::Word => is_word_start(c) || (c >= '0' && c <= '9'),
        CharClass::Digit => c >= '0' && c <= '9',
        CharClass::Quoted => c != '"',
    }
}

/// The end of the longest run of characters of a class that starts at
/// `pos`.
pub fn run_end(src: &Vec<char>, pos: usize, class: CharClass) -> (end: usize)
    requires
        pos <= src.len(),
    ensures
        end == grammar::run_end(src@, pos as int, class),
        pos <= end <= src.len(),
{
    let mut end: usize = pos;
    while end < src.len() && in_class(class, src[end])
        invariant
            pos <= end <= src.len(),
            grammar::run_end(src@, pos as int, class) == grammar::run_end(src@, end as int, class),
        decreases src.len() - end,
    {
        end = end + 1;
    }
    end
}

/// The first position at or after `pos` that holds no space.
pub fn skip(src: &Vec<char>, pos: usize) -> (end: usize)
    requires
        pos <= src.len(),
    ensures
        end == grammar::skip(src@, pos as int),
        pos <= end <= src.len(),
{
    run_end(src, pos, CharClass::Space)
}

/// Whether the character at `pos` is `c`.
pub fn symbol_at(src: &Vec<char>, pos: usize, c: char) -> (yes: bool)
    ensures
        yes == grammar::symbol_at(src@, pos as int, c),
{
    pos < src.len() && src[pos] == c
}

/// The end of the word that starts at `pos`.
pub fn word_at(src: &Vec<char>, pos: usize) -> (end: Option<usize>)
    ensures
        match end {
            Some(end) => grammar::word_at(src@, pos as int) == Some(end as int) && pos < end
                <= src.len(),
            None => grammar::word_at(src@, pos as int) is None,
        },
{
    if pos < src.len() && is_word_start(src[pos]) {
        Some(run_end(src, pos + 1, CharClass::Word))
    } else {
        None
    }
}

/// The reserved word that `src` holds from `start` up to `end`, if any.
pub fn keyword_of(src: &Vec<char>, start: usize, end: usize) -> (keyword: Option<Keyword>)
    requires
        start <= end <= src.len(),
    ensures
        keyword == grammar::keyword_of_text(src@.subrange(start as int, end as int)),
{
    proof {
        reveal_strlit("use");
        reveal_strlit("int");
        reveal_strlit("bool");
        reveal_strlit("char");
        reveal_strlit("string");
        reveal_strlit("void");
        reveal_strlit("if");
        reveal_strlit("else");
        reveal_strlit("while");
        reveal_strlit("return");
        reveal_strlit("true");
        reveal_strlit("false");
    }
    let ghost text = src@.subrange(start as int, end as int);
    let len = end - start;
    assert(text.len() == len);
    if len == 2 {
        let a = src[start];
        let b = src[start + 1];
        assert(text[0] == a && text[1] == b);
        if a == 'i' && b == 'f' {
            assert(text =~= "if"@);
            Some(Keyword::If)
        } else {
            None
        }
    } else if len == 3 {
        let a = src[start];
        let b = src[start + 1];
        let c = src[start + 2];
        assert(text[0] == a && text[1] == b && text[2] == c);
        if a == 'u' && b == 's' && c == 'e' {
            assert(text =~= "use"@);
            Some(Keyword::Use)
        } else if a == 'i' && b == 'n' && c == 't' {
            assert(text =~= "int"@);
            Some(Keyword::Int)
        } else {
            None
        }
    } else if len == 4 {
        let a = src[start];
        let b = src[start + 1];
        let c = src[start + 2];
        let d = src[start + 3];
        assert(text[0] == a && text[1] == b && text[2] == c && text[3] == d);
        if a == 'b' && b == 'o' && c == 'o' && d == 'l' {
            assert(text =~= "bool"@);
            Some(Keyword::Bool)
        } else if a == 'c' && b == 'h' && c == 'a' && d == 'r' {
            assert(text =~= "char"@);
            Some(Keyword::Char)
        } else if a == 'v' && b == 'o' && c == 'i' && d == 'd' {
            assert(text =~= "void"@);
            Some(Keyword::Void)
        } else if a == 'e' && b == 'l' && c == 's' && d == 'e' {
            assert(text =~= "else"@);
            Some(Keyword::Else)
        } else if a == 't' && b == 'r' && c == 'u' && d == 'e' {
            assert(text =~= "true"@);
            Some(Keyword::True)
        } else {
            None
        }
    } else if len == 5 {
        let a = src[start];
        let b = src[start + 1];
        let c = src[start + 2];
        let d = src[start + 3];
        let e = src[start + 4];
        assert(text[0] == a && text[1] == b && text[2] == c && text[3] == d && text[4] == e);
        if a == 'w' && b == 'h' && c == 'i' && d == 'l' && e == 'e' {
            assert(text =~= "while"@);
            Some(Keyword::While)
        } else if a == 'f' && b == 'a' && c == 'l' && d == 's' && e == 'e' {
            assert(text =~= "false"@);
            Some(Keyword::False)
        } else {
            None
        }
    } else if len == 6 {
        let a = src[start];
        let b = src[start + 1];
        let c = src[start + 2];
        let d = src[start + 3];
        let e = src[start + 4];
        let f = src[start + 5];
        assert(text[0] == a && text[1] == b && text[2] == c && text[3] == d && text[4] == e
            && text[5] == f);
        if a == 's' && b == 't' && c == 'r' && d == 'i' && e == 'n' && f == 'g' {
            assert(text =~= "string"@);
            Some(Keyword::String)
        } else if a == 'r' && b == 'e' && c == 't' && d == 'u' && e == 'r' && f == 'n' {
            assert(text =~= "return"@);
            Some(Keyword::Return)
        } else {
            None
        }
    } else {
        None
    }
}

/// The end of the reserved word `keyword`, if the word at `pos` is it.
pub fn keyword_at(src: &Vec<char>, pos: usize, keyword: Keyword) -> (end: Option<usize>)
    ensures
        match end {
            Some(end) => grammar::keyword_at(src@, pos as int, keyword) == Some(end as int) && pos
                < end <= src.len(),
            None => grammar::keyword_at(src@, pos as int, keyword) is None,
        },
{
    match word_at(src, pos) {
        Some(end) => match keyword_of(src, pos, end) {
            Some(found) => if found == keyword {
                Some(end)
            } else {
                None
            },
            None => None,
        },
        None => None,
    }
}

/// Matches an identifier at `pos`.
pub fn identifier(src: &Vec<char>, pos: usize) -> (result: Option<(Node, usize)>)
    ensures
        matched(src@, pos, result, grammar::identifier(src@, pos as int)),
{
    match word_at(src, pos) {
        Some(end) => match keyword_of(src, pos, end) {
            Some(_) => None,
            None => Some((make_leaf(Rule::Identifier, src, pos, end), end)),
        },
        None => None,
    }
}

/// Matches a primitive type at `pos`.
pub fn primitive_type(src: &Vec<char>, pos: usize) -> (result: Option<(Node, usize)>)
    ensures
        matched(src@, pos, result, grammar::primitive_type(src@, pos as int)),
{
    let end = match word_at(src, pos) {
        Some(end) => end,
        None => {
            return None;
        },
    };
    let rule = match keyword_of(src, pos, end) {
        Some(Keyword::Int) => Rule::IntType,
        Some(Keyword::Bool) => Rule::BoolType,
        Some(Keyword::Char) => Rule::CharType,
        Some(Keyword::String) => Rule::StringType,
        _ => {
            return None;
        },
    };
    let name = make_leaf(rule, src, pos, end);
    Some((make(Rule::PrimitiveType, src, pos, end, one(name)), end))
}

/// The end of the longest run of bracket pairs after `pos`.
pub fn brackets_end(src: &Vec<char>, pos: usize) -> (end: usize)
    requires
        pos <= src.len(),
    ensures
        end == grammar::brackets_end(src@, pos as int),
        pos <= end <= src.len(),
{
    let mut end: usize = pos;
    loop
        invariant
            pos <= end <= src.len(),
            grammar::brackets_end(src@, pos as int) == grammar::brackets_end(src@, end as int),
        decreases src.len() - end,
    {
        let open = skip(src, end);
        if !symbol_at(src, open, '[') {
            return end;
        }
        let close = skip(src, open + 1);
        if !symbol_at(src, close, ']') {
            return end;
        }
        end = close + 1;
    }
}

/// Matches a type at `pos`.
pub fn decl_type(src: &Vec<char>, pos: usize) -> (result: Option<(Node, usize)>)
    ensures
        matched(src@, pos, result, grammar::decl_type(src@, pos as int)),
{
    let (element, element_end) = match primitive_type(src, pos) {
        Some(found) => found,
        None => {
            return None;
        },
    };
    let end = brackets_end(src, element_end);
    if end == element_end {
        Some((make(Rule::DeclType, src, pos, end, one(element)), end))
    } else {
        let array = make(Rule::ArrayType, src, pos, end, one(element));
        Some((make(Rule::DeclType, src, pos, end, one(array)), end))
    }
}

/// Matches a list of identifiers at `pos`.
pub fn identifier_list(src: &Vec<char>, pos: usize) -> (result: Option<(Node, usize)>)
    ensures
        matched(src@, pos, result, grammar::identifier_list(src@, pos as int)),
{
    let (first, first_end) = match identifier(src, pos) {
        Some(found) => found,
        None => {
            return None;
        },
    };
    let ghost whole = grammar::more_identifiers(src@, first_end as int);
    let ghost first_view = first@;
    let mut nodes = one(first);
    let mut end: usize = first_end;
    proof {
        assert(seq![first_view] + whole.0 =~= node_views(nodes@) + whole.0);
    }
    loop
        invariant
            pos < end <= src.len(),
            seq![first_view] + whole.0 == node_views(nodes@) + grammar::more_identifiers(
                src@,
                end as int,
            ).0,
            whole.1 == grammar::more_identifiers(src@, end as int).1,
        ensures
            grammar::more_identifiers(src@, end as int) == (
                Seq::<NodeView>::empty(),
                end as int,
            ),
        decreases src.len() - end,
    {
        let comma = skip(src, end);
        if !symbol_at(src, comma, ',') {
            break;
        }
        match identifier(src, skip(src, comma + 1)) {
            Some((next, next_end)) => {
                proof {
                    let rest = grammar::more_identifiers(src@, next_end as int);
                    assert(node_views(nodes@) + (seq![next@] + rest.0) =~= node_views(nodes@).push(
                        next@,
                    ) + rest.0);
                }
                nodes = and(nodes, next);
                end = next_end;
            },
            None => {
                break;
            },
        }
    }
    proof {
        assert(node_views(nodes@) + Seq::<NodeView>::empty() =~= node_views(
            nodes@,
        ));
    }
    Some((make(Rule::IdentifierList, src, pos, end, nodes), end))
}

/// Matches a binary operator at `pos`.
pub fn binary_op(src: &Vec<char>, pos: usize) -> (result: Option<(Node, usize)>)
    ensures
        matched(src@, pos, result, grammar::binary_op(src@, pos as int)),
{
    if pos >= src.len() {
        return None;
    }
    let c = src[pos];
    let followed_by_equals = src.len() - pos > 1 && src[pos + 1] == '=';
    let end = if c == '*' && src.len() - pos > 2 && src[pos + 1] == '>' && src[pos + 2] == '>' {
        pos + 3
    } else if (c == '=' || c == '!' || c == '<' || c == '>') && followed_by_equals {
        pos + 2
    } else if c == '+' || c == '-' || c == '*' || c == '/' || c == '%' || c == '<' || c == '>'
        || c == '&' || c == '|' {
        pos + 1
    } else {
        return None;
    };
    Some((make_leaf(Rule::BinaryOp, src, pos, end), end))
}

/// Matches a unary operator at `pos`.
pub fn unary_op(src: &Vec<char>, pos: usize) -> (result: Option<(Node, usize)>)
    ensures
        matched(src@, pos, result, grammar::unary_op(src@, pos as int)),
{
    if pos < src.len() && (src[pos] == '-' || src[pos] == '!') {
        Some((make_leaf(Rule::UnaryOp, src, pos, pos + 1), pos + 1))
    } else {
        None
    }
}

/// Matches a literal at `pos`.
pub fn literal(src: &Vec<char>, pos: usize) -> (result: Option<(Node, usize)>)
    ensures
        matched(src@, pos, result, grammar::literal(src@, pos as int)),
{
    if pos >= src.len() {
        return None;
    }
    let c = src[pos];
    if c >= '0' && c <= '9' {
        let end = run_end(src, pos + 1, CharClass::Digit);
        let token = make_leaf(Rule::IntLit, src, pos, end);
        return Some((make(Rule::Literal, src, pos, end, one(token)), end));
    }
    match keyword_at(src, pos, Keyword::True) {
        Some(end) => {
            let token = make_leaf(Rule::BoolLit, src, pos, end);
            return Some((make(Rule::Literal, src, pos, end, one(token)), end));
        },
        None => {},
    }
    match keyword_at(src, pos, Keyword::False) {
        Some(end) => {
            let token = make_leaf(Rule::BoolLit, src, pos, end);
            return Some((make(Rule::Literal, src, pos, end, one(token)), end));
        },
        None => {},
    }
    if c == '\'' {
        if src.len() - pos > 2 && src[pos + 1] != '\'' && src[pos + 2] == '\'' {
            let token = make_leaf(Rule::CharLit, src, pos + 1, pos + 2);
            Some((make(Rule::Literal, src, pos, pos + 3, one(token)), pos + 3))
        } else {
            None
        }
    } else if c == '"' {
        let close = run_end(src, pos + 1, CharClass::Quoted);
        if symbol_at(src, close, '"') {
            let token = make_leaf(Rule::StringLit, src, pos + 1, close);
            Some((make(Rule::Literal, src, pos, close + 1, one(token)), close + 1))
        } else {
            None
        }
    } else {
        None
    }
}

/// Matches a primary at `pos`.
pub fn primary(src: &Vec<char>, pos: usize) -> (result: Option<(Node, usize)>)
    ensures
        matched(src@, pos, result, grammar::primary(src@, pos as int)),
{
    let found = match literal(src, pos) {
        Some(found) => Some(found),
        None => identifier(src, pos),
    };
    match found {
        Some((inner, end)) => Some((make(Rule::Primary, src, pos, end, one(inner)), end)),
        None => None,
    }
}

/// Matches an expression at `pos`.
pub fn expr(src: &Vec<char>, pos: usize) -> (result: Option<(Node, usize)>)
    ensures
        matched(src@, pos, result, grammar::expr(src@, pos as int)),
    decreases src.len() - pos, 1int,
{
    let found = match binary_expr(src, pos) {
        Some(found) => Some(found),
        None => match unary_expr(src, pos) {
            Some(found) => Some(found),
            None => primary(src, pos),
        },
    };
    match found {
        Some((inner, end)) => Some((make(Rule::Expr, src, pos, end, one(inner)), end)),
        None => None,
    }
}

/// Matches a binary expression at `pos`.
pub fn binary_expr(src: &Vec<char>, pos: usize) -> (result: Option<(Node, usize)>)
    ensures
        matched(src@, pos, result, grammar::binary_expr(src@, pos as int)),
    decreases src.len() - pos, 0int,
{
    let (left, left_end) = match primary(src, pos) {
        Some(found) => found,
        None => {
            return None;
        },
    };
    let (operator, operator_end) = match binary_op(src, skip(src, left_end)) {
        Some(found) => found,
        None => {
            return None;
        },
    };
    let (right, end) = match expr(src, skip(src, operator_end)) {
        Some(found) => found,
        None => {
            return None;
        },
    };
    let ghost parts = seq![left@, operator@, right@];
    let nodes = and(and(one(left), operator), right);
    proof {
        assert(node_views(nodes@) =~= parts);
    }
    Some((make(Rule::BinaryExpr, src, pos, end, nodes), end))
}

/// Matches a unary expression at `pos`.
pub fn unary_expr(src: &Vec<char>, pos: usize) -> (result: Option<(Node, usize)>)
    ensures
        matched(src@, pos, result, grammar::unary_expr(src@, pos as int)),
    decreases src.len() - pos, 0int,
{
    let (operator, operator_end) = match unary_op(src, pos) {
        Some(found) => found,
        None => {
            return None;
        },
    };
    let (operand, end) = match expr(src, skip(src, operator_end)) {
        Some(found) => found,
        None => {
            return None;
        },
    };
    let ghost parts = seq![operator@, operand@];
    let nodes = and(one(operator), operand);
    proof {
        assert(node_views(nodes@) =~= parts);
    }
    Some((make(Rule::UnaryExpr, src, pos, end, nodes), end))
}

/// Matches a list of expressions at `pos`.
pub fn expr_list(src: &Vec<char>, pos: usize) -> (result: Option<(Node, usize)>)
    ensures
        matched(src@, pos, result, grammar::expr_list(src@, pos as int)),
{
    let (first, first_end) = match expr(src, pos) {
        Some(found) => found,
        None => {
            return None;
        },
    };
    let ghost whole = grammar::more_exprs(src@, first_end as int);
    let ghost first_view = first@;
    let mut nodes = one(first);
    let mut end: usize = first_end;
    proof {
        assert(seq![first_view] + whole.0 =~= node_views(nodes@) + whole.0);
    }
    loop
        invariant
            pos < end <= src.len(),
            seq![first_view] + whole.0 == node_views(nodes@) + grammar::more_exprs(
                src@,
                end as int,
            ).0,
            whole.1 == grammar::more_exprs(src@, end as int).1,
        ensures
            grammar::more_exprs(src@, end as int) == (
                Seq::<NodeView>::empty(),
                end as int,
            ),
        decreases src.len() - end,
    {
        let comma = skip(src, end);
        if !symbol_at(src, comma, ',') {
            break;
        }
        match expr(src, skip(src, comma + 1)) {
            Some((next, next_end)) => {
                proof {
                    let rest = grammar::more_exprs(src@, next_end as int);
                    assert(node_views(nodes@) + (seq![next@] + rest.0) =~= node_views(nodes@).push(
                        next@,
                    ) + rest.0);
                }
                nodes = and(nodes, next);
                end = next_end;
            },
            None => {
                break;
            },
        }
    }
    proof {
        assert(node_views(nodes@) + Seq::<NodeView>::empty() =~= node_views(
            nodes@,
        ));
    }
    Some((make(Rule::ExprList, src, pos, end, nodes), end))
}

/// Matches a declaration at `pos`.
pub fn decl(src: &Vec<char>, pos: usize) -> (result: Option<(Node, usize)>)
    ensures
        matched(src@, pos, result, grammar::decl(src@, pos as int)),
{
    let (declared, declared_end) = match decl_type(src, pos) {
        Some(found) => found,
        None => {
            return None;
        },
    };
    let (names, names_end) = match identifier_list(src, skip(src, declared_end)) {
        Some(found) => found,
        None => {
            return None;
        },
    };
    let mark = skip(src, names_end);
    if symbol_at(src, mark, '=') {
        let (values, values_end) = match expr_list(src, skip(src, mark + 1)) {
            Some(found) => found,
            None => {
                return None;
            },
        };
        let semi = skip(src, values_end);
        if !symbol_at(src, semi, ';') {
            return None;
        }
        let assign_node = make_leaf(Rule::Assign, src, mark, mark + 1);
        let semi_node = make_leaf(Rule::Semi, src, semi, semi + 1);
        let ghost parts = seq![declared@, names@, assign_node@, values@, semi_node@];
        let nodes = and(and(and(and(one(declared), names), assign_node), values), semi_node);
        proof {
            assert(node_views(nodes@) =~= parts);
        }
        Some((make(Rule::Decl, src, pos, semi + 1, nodes), semi + 1))
    } else if symbol_at(src, mark, ';') {
        let semi_node = make_leaf(Rule::Semi, src, mark, mark + 1);
        let ghost parts = seq![declared@, names@, semi_node@];
        let nodes = and(and(one(declared), names), semi_node);
        proof {
            assert(node_views(nodes@) =~= parts);
        }
        Some((make(Rule::Decl, src, pos, mark + 1, nodes), mark + 1))
    } else {
        None
    }
}

/// Matches a global declaration at `pos`.
pub fn global_decl(src: &Vec<char>, pos: usize) -> (result: Option<(Node, usize)>)
    ensures
        matched(src@, pos, result, grammar::global_decl(src@, pos as int)),
{
    match decl(src, pos) {
        Some((inner, end)) => Some((make(Rule::GlobalDecl, src, pos, end, one(inner)), end)),
        None => None,
    }
}

/// Matches a use statement at `pos`.
pub fn use_stmt(src: &Vec<char>, pos: usize) -> (result: Option<(Node, usize)>)
    ensures
        matched(src@, pos, result, grammar::use_stmt(src@, pos as int)),
{
    let word_end = match keyword_at(src, pos, Keyword::Use) {
        Some(end) => end,
        None => {
            return None;
        },
    };
    let (name, name_end) = match identifier(src, skip(src, word_end)) {
        Some(found) => found,
        None => {
            return None;
        },
    };
    let semi = skip(src, name_end);
    let end = if symbol_at(src, semi, ';') {
        semi + 1
    } else {
        name_end
    };
    Some((make(Rule::UseStmt, src, pos, end, one(name)), end))
}

/// Matches an assignment at `pos`.
pub fn assign_stmt(src: &Vec<char>, pos: usize) -> (result: Option<(Node, usize)>)
    ensures
        matched(src@, pos, result, grammar::assign_stmt(src@, pos as int)),
{
    let (name, name_end) = match identifier(src, pos) {
        Some(found) => found,
        None => {
            return None;
        },
    };
    let mark = skip(src, name_end);
    if !symbol_at(src, mark, '=') {
        return None;
    }
    let (value, value_end) = match expr(src, skip(src, mark + 1)) {
        Some(found) => found,
        None => {
            return None;
        },
    };
    let semi = skip(src, value_end);
    if !symbol_at(src, semi, ';') {
        return None;
    }
    let ghost parts = seq![name@, value@];
    let nodes = and(one(name), value);
    proof {
        assert(node_views(nodes@) =~= parts);
    }
    Some((make(Rule::AssignStmt, src, pos, semi + 1, nodes), semi + 1))
}

/// Matches a procedure call at `pos`.
pub fn procedure_call(src: &Vec<char>, pos: usize) -> (result: Option<(Node, usize)>)
    ensures
        matched(src@, pos, result, grammar::procedure_call(src@, pos as int)),
{
    let (name, name_end) = match identifier(src, pos) {
        Some(found) => found,
        None => {
            return None;
        },
    };
    let open = skip(src, name_end);
    if !symbol_at(src, open, '(') {
        return None;
    }
    let first = skip(src, open + 1);
    let ghost name_view = name@;
    let mut nodes = one(name);
    let mut after: usize = first;
    match expr_list(src, first) {
        Some((list, list_end)) => {
            proof {
                assert(node_views(nodes@).push(list@) =~= seq![name_view, list@]);
            }
            nodes = and(nodes, list);
            after = list_end;
        },
        None => {},
    }
    let close = skip(src, after);
    if !symbol_at(src, close, ')') {
        return None;
    }
    let semi = skip(src, close + 1);
    if !symbol_at(src, semi, ';') {
        return None;
    }
    Some((make(Rule::ProcedureCall, src, pos, semi + 1, nodes), semi + 1))
}

/// Matches a return statement at `pos`.
pub fn return_stmt(src: &Vec<char>, pos: usize) -> (result: Option<(Node, usize)>)
    ensures
        matched(src@, pos, result, grammar::return_stmt(src@, pos as int)),
{
    let word_end = match keyword_at(src, pos, Keyword::Return) {
        Some(end) => end,
        None => {
            return None;
        },
    };
    let first = skip(src, word_end);
    let mut nodes: Vec<Node> = Vec::new();
    let mut after: usize = first;
    proof {
        assert(node_views(nodes@) =~= Seq::empty());
    }
    match expr(src, first) {
        Some((value, value_end)) => {
            nodes = one(value);
            after = value_end;
        },
        None => {},
    }
    let semi = skip(src, after);
    if !symbol_at(src, semi, ';') {
        return None;
    }
    Some((make(Rule::ReturnStmt, src, pos, semi + 1, nodes), semi + 1))
}

/// Matches, after `pos`, an expression in parentheses.
pub fn condition(src: &Vec<char>, pos: usize) -> (result: Option<(Node, usize)>)
    requires
        pos <= src.len(),
    ensures
        matched(src@, pos, result, grammar::condition(src@, pos as int)),
{
    let open = skip(src, pos);
    if !symbol_at(src, open, '(') {
        return None;
    }
    let (inner, inner_end) = match expr(src, skip(src, open + 1)) {
        Some(found) => found,
        None => {
            return None;
        },
    };
    let close = skip(src, inner_end);
    if !symbol_at(src, close, ')') {
        return None;
    }
    Some((inner, close + 1))
}

/// Matches a statement at `pos`.
pub fn statement(src: &Vec<char>, pos: usize) -> (result: Option<(Node, usize)>)
    ensures
        matched(src@, pos, result, grammar::statement(src@, pos as int)),
    decreases src.len() - pos, 2int,
{
    let found = match if_stmt(src, pos) {
        Some(found) => Some(found),
        None => match while_stmt(src, pos) {
            Some(found) => Some(found),
            None => match return_stmt(src, pos) {
                Some(found) => Some(found),
                None => match block(src, pos) {
                    Some(found) => Some(found),
                    None => match decl(src, pos) {
                        Some(found) => Some(found),
                        None => match procedure_call(src, pos) {
                            Some(found) => Some(found),
                            None => assign_stmt(src, pos),
                        },
                    },
                },
            },
        },
    };
    match found {
        Some((inner, end)) => Some((make(Rule::Statement, src, pos, end, one(inner)), end)),
        None => None,
    }
}

/// Matches the statements that follow one another from `pos`.
pub fn statements(src: &Vec<char>, pos: usize) -> (result: (Vec<Node>, usize))
    requires
        pos <= src.len(),
    ensures
        repeated(src@, pos, result, grammar::statements(src@, pos as int)),
    decreases src.len() - pos, 3int,
{
    let ghost whole = grammar::statements(src@, pos as int);
    let mut nodes: Vec<Node> = Vec::new();
    let mut end: usize = pos;
    proof {
        assert(node_views(nodes@) =~= Seq::empty());
        assert(node_views(nodes@) + whole.0 =~= whole.0);
    }
    loop
        invariant
            pos <= end <= src.len(),
            whole.0 == node_views(nodes@) + grammar::statements(src@, end as int).0,
            whole.1 == grammar::statements(src@, end as int).1,
        ensures
            grammar::statements(src@, end as int) == (
                Seq::<NodeView>::empty(),
                end as int,
            ),
        decreases src.len() - end,
    {
        match statement(src, skip(src, end)) {
            Some((next, next_end)) => {
                proof {
                    let rest = grammar::statements(src@, next_end as int);
                    assert(node_views(nodes@) + (seq![next@] + rest.0) =~= node_views(nodes@).push(
                        next@,
                    ) + rest.0);
                }
                nodes = and(nodes, next);
                end = next_end;
            },
            None => {
                break;
            },
        }
    }
    proof {
        assert(node_views(nodes@) + Seq::<NodeView>::empty() =~= node_views(
            nodes@,
        ));
    }
    (nodes, end)
}

/// Matches a block at `pos`.
pub fn block(src: &Vec<char>, pos: usize) -> (result: Option<(Node, usize)>)
    ensures
        matched(src@, pos, result, grammar::block(src@, pos as int)),
    decreases src.len() - pos, 0int,
{
    if !symbol_at(src, pos, '{') {
        return None;
    }
    let (body, body_end) = statements(src, pos + 1);
    let close = skip(src, body_end);
    if !symbol_at(src, close, '}') {
        return None;
    }
    Some((make(Rule::Block, src, pos, close + 1, body), close + 1))
}

/// Matches a conditional at `pos`.
pub fn if_stmt(src: &Vec<char>, pos: usize) -> (result: Option<(Node, usize)>)
    ensures
        matched(src@, pos, result, grammar::if_stmt(src@, pos as int)),
    decreases src.len() - pos, 1int,
{
    let word_end = match keyword_at(src, pos, Keyword::If) {
        Some(end) => end,
        None => {
            return None;
        },
    };
    let (test, test_end) = match condition(src, word_end) {
        Some(found) => found,
        None => {
            return None;
        },
    };
    let (then_block, then_end) = match block(src, skip(src, test_end)) {
        Some(found) => found,
        None => {
            return None;
        },
    };
    let ghost first_parts = seq![test@, then_block@];
    let nodes = and(one(test), then_block);
    proof {
        assert(node_views(nodes@) =~= first_parts);
    }
    let else_end = match keyword_at(src, skip(src, then_end), Keyword::Else) {
        Some(end) => end,
        None => {
            return Some((make(Rule::IfStmt, src, pos, then_end, nodes), then_end));
        },
    };
    let (else_block, end) = match block(src, skip(src, else_end)) {
        Some(found) => found,
        None => {
            return None;
        },
    };
    proof {
        assert(first_parts.push(else_block@) =~= seq![first_parts[0], first_parts[1], else_block@]);
    }
    let nodes = and(nodes, else_block);
    Some((make(Rule::IfStmt, src, pos, end, nodes), end))
}

/// Matches a loop at `pos`.
pub fn while_stmt(src: &Vec<char>, pos: usize) -> (result: Option<(Node, usize)>)
    ensures
        matched(src@, pos, result, grammar::while_stmt(src@, pos as int)),
    decreases src.len() - pos, 1int,
{
    let word_end = match keyword_at(src, pos, Keyword::While) {
        Some(end) => end,
        None => {
            return None;
        },
    };
    let (test, test_end) = match condition(src, word_end) {
        Some(found) => found,
        None => {
            return None;
        },
    };
    let (body, end) = match block(src, skip(src, test_end)) {
        Some(found) => found,
        None => {
            return None;
        },
    };
    let ghost parts = seq![test@, body@];
    let nodes = and(one(test), body);
    proof {
        assert(node_views(nodes@) =~= parts);
    }
    Some((make(Rule::WhileStmt, src, pos, end, nodes), end))
}

/// Matches a return type at `pos`.
pub fn return_type(src: &Vec<char>, pos: usize) -> (result: Option<(Node, usize)>)
    ensures
        matched(src@, pos, result, grammar::return_type(src@, pos as int)),
{
    match keyword_at(src, pos, Keyword::Void) {
        Some(end) => {
            let name = make_leaf(Rule::VoidType, src, pos, end);
            Some((make(Rule::ReturnType, src, pos, end, one(name)), end))
        },
        None => match decl_type(src, pos) {
            Some((inner, end)) => Some((make(Rule::ReturnType, src, pos, end, one(inner)), end)),
            None => None,
        },
    }
}

/// Matches a parameter at `pos`.
pub fn param(src: &Vec<char>, pos: usize) -> (result: Option<(Node, usize)>)
    ensures
        matched(src@, pos, result, grammar::param(src@, pos as int)),
{
    let (declared, declared_end) = match decl_type(src, pos) {
        Some(found) => found,
        None => {
            return None;
        },
    };
    let (name, end) = match identifier(src, skip(src, declared_end)) {
        Some(found) => found,
        None => {
            return None;
        },
    };
    let ghost parts = seq![declared@, name@];
    let nodes = and(one(declared), name);
    proof {
        assert(node_views(nodes@) =~= parts);
    }
    Some((make(Rule::Param, src, pos, end, nodes), end))
}

/// Matches a list of parameters, which may be empty, at `pos`.
pub fn param_list(src: &Vec<char>, pos: usize) -> (result: (Node, usize))
    requires
        pos <= src.len(),
    ensures
        grammar::param_list(src@, pos as int) == (Match { node: result.0@, end: result.1 as int }),
        pos <= result.1 <= src.len(),
{
    let (first, first_end) = match param(src, pos) {
        Some(found) => found,
        None => {
            let nodes: Vec<Node> = Vec::new();
            proof {
                assert(node_views(nodes@) =~= Seq::empty());
            }
            return (make(Rule::ParamList, src, pos, pos, nodes), pos);
        },
    };
    let ghost whole = grammar::more_params(src@, first_end as int);
    let ghost first_view = first@;
    let mut nodes = one(first);
    let mut end: usize = first_end;
    proof {
        assert(seq![first_view] + whole.0 =~= node_views(nodes@) + whole.0);
    }
    loop
        invariant
            pos < end <= src.len(),
            seq![first_view] + whole.0 == node_views(nodes@) + grammar::more_params(
                src@,
                end as int,
            ).0,
            whole.1 == grammar::more_params(src@, end as int).1,
        ensures
            grammar::more_params(src@, end as int) == (
                Seq::<NodeView>::empty(),
                end as int,
            ),
        decreases src.len() - end,
    {
        let comma = skip(src, end);
        if !symbol_at(src, comma, ',') {
            break;
        }
        match param(src, skip(src, comma + 1)) {
            Some((next, next_end)) => {
                proof {
                    let rest = grammar::more_params(src@, next_end as int);
                    assert(node_views(nodes@) + (seq![next@] + rest.0) =~= node_views(nodes@).push(
                        next@,
                    ) + rest.0);
                }
                nodes = and(nodes, next);
                end = next_end;
            },
            None => {
                break;
            },
        }
    }
    proof {
        assert(node_views(nodes@) + Seq::<NodeView>::empty() =~= node_views(
            nodes@,
        ));
    }
    (make(Rule::ParamList, src, pos, end, nodes), end)
}

/// Matches a function at `pos`.
pub fn function_decl(src: &Vec<char>, pos: usize) -> (result: Option<(Node, usize)>)
    ensures
        matched(src@, pos, result, grammar::function_decl(src@, pos as int)),
{
    let (returned, returned_end) = match return_type(src, pos) {
        Some(found) => found,
        None => {
            return None;
        },
    };
    let (name, name_end) = match identifier(src, skip(src, returned_end)) {
        Some(found) => found,
        None => {
            return None;
        },
    };
    let open = skip(src, name_end);
    if !symbol_at(src, open, '(') {
        return None;
    }
    let (params, params_end) = param_list(src, skip(src, open + 1));
    let close = skip(src, params_end);
    if !symbol_at(src, close, ')') {
        return None;
    }
    let (body, end) = match block(src, skip(src, close + 1)) {
        Some(found) => found,
        None => {
            return None;
        },
    };
    let ghost parts = seq![returned@, name@, params@, body@];
    let nodes = and(and(and(one(returned), name), params), body);
    proof {
        assert(node_views(nodes@) =~= parts);
    }
    Some((make(Rule::FunctionDecl, src, pos, end, nodes), end))
}

/// Matches a top-level item at `pos`.
pub fn item(src: &Vec<char>, pos: usize) -> (result: Option<(Node, usize)>)
    ensures
        matched(src@, pos, result, grammar::item(src@, pos as int)),
{
    match use_stmt(src, pos) {
        Some(found) => Some(found),
        None => match global_decl(src, pos) {
            Some(found) => Some(found),
            None => function_decl(src, pos),
        },
    }
}

/// Matches the top-level items that follow one another from `pos`.
pub fn items(src: &Vec<char>, pos: usize) -> (result: (Vec<Node>, usize))
    requires
        pos <= src.len(),
    ensures
        repeated(src@, pos, result, grammar::items(src@, pos as int)),
{
    let ghost whole = grammar::items(src@, pos as int);
    let mut nodes: Vec<Node> = Vec::new();
    let mut end: usize = pos;
    proof {
        assert(node_views(nodes@) =~= Seq::empty());
        assert(node_views(nodes@) + whole.0 =~= whole.0);
    }
    loop
        invariant
            pos <= end <= src.len(),
            whole.0 == node_views(nodes@) + grammar::items(src@, end as int).0,
            whole.1 == grammar::items(src@, end as int).1,
        ensures
            grammar::items(src@, end as int) == (
                Seq::<NodeView>::empty(),
                end as int,
            ),
        decreases src.len() - end,
    {
        match item(src, skip(src, end)) {
            Some((next, next_end)) => {
                proof {
                    let rest = grammar::items(src@, next_end as int);
                    assert(node_views(nodes@) + (seq![next@] + rest.0) =~= node_views(nodes@).push(
                        next@,
                    ) + rest.0);
                }
                nodes = and(nodes, next);
                end = next_end;
            },
            None => {
                break;
            },
        }
    }
    proof {
        assert(node_views(nodes@) + Seq::<NodeView>::empty() =~= node_views(
            nodes@,
        ));
    }
    (nodes, end)
}

/// Matches a whole text as a program.
pub fn program(src: &Vec<char>) -> (result: Result<Node, usize>)
    ensures
        match result {
            Ok(root) => grammar::program(src@) == Ok::<NodeView, int>(root@),
            Err(position) => grammar::program(src@) == Err::<NodeView, int>(
                position as int,
            ),
        },
{
    let (nodes, body_end) = items(src, 0);
    let end = skip(src, body_end);
    if end == src.len() {
        proof {
            assert(src@.subrange(0, end as int) =~= src@);
        }
        Ok(make(Rule::Program, src, 0, end, nodes))
    } else {
        Err(end)
    }
}

/// Matches a whole text as one expression.
pub fn whole_expr(src: &Vec<char>) -> (result: Result<Node, usize>)
    ensures
        match result {
            Ok(root) => grammar::whole_expr(src@) == Ok::<NodeView, int>(
                root@,
            ),
            Err(position) => grammar::whole_expr(src@) == Err::<
                NodeView,
                int,
            >(position as int),
        },
{
    let start = skip(src, 0);
    match expr(src, start) {
        Some((root, root_end)) => {
            let end = skip(src, root_end);
            if end == src.len() {
                Ok(root)
            } else {
                Err(end)
            }
        },
        None => Err(start),
    }
}

} // verus!
