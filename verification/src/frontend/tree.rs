//! The concrete parse tree: what matching a source text against the grammar
//! leaves behind, before it is turned into the abstract syntax tree.
use vstd::prelude::*;

verus! {

/// The productions of the grammar.
#[derive(Clone, Copy, Debug, PartialEq, Eq, Hash, Structural)]
pub enum Rule {
    Program,
    UseStmt,
    GlobalDecl,
    FunctionDecl,
    Decl,
    DeclType,
    PrimitiveType,
    ArrayType,
    IntType,
    BoolType,
    CharType,
    StringType,
    VoidType,
    ReturnType,
    IdentifierList,
    ExprList,
    Identifier,
    Assign,
    Semi,
    Expr,
    Primary,
    BinaryExpr,
    UnaryExpr,
    BinaryOp,
    UnaryOp,
    Literal,
    IntLit,
    CharLit,
    BoolLit,
    StringLit,
    ParamList,
    Param,
    Block,
    Statement,
    AssignStmt,
    IfStmt,
    WhileStmt,
    ReturnStmt,
    ProcedureCall,
}

/// One match of a production: the production, the text it matched and the
/// matches of the productions inside it, in source order.
#[derive(Debug, PartialEq, Eq)]
pub struct Node {
    pub rule: Rule,
    pub text: String,
    pub children: Vec<Node>,
}

/// Model of a [`Node`].
pub ghost struct NodeView {
    pub rule: Rule,
    pub text: Seq<char>,
    pub children: Seq<NodeView>,
}

/// The model of a node.
pub open spec fn node_view(node: Node) -> NodeView
    decreases node,
{
    NodeView { rule: node.rule, text: node.text@, children: node_views(node.children@) }
}

/// The models of a sequence of nodes, in order.
pub open spec fn node_views(nodes: Seq<Node>) -> Seq<NodeView>
    decreases nodes,
{
    if nodes.len() == 0 {
        Seq::empty()
    } else {
        node_views(nodes.drop_last()).push(node_view(nodes.last()))
    }
}

impl View for Node {
    type V = NodeView;

    open spec fn view(&self) -> NodeView {
        node_view(*self)
    }
}

/// The models of a sequence of nodes are the models of its elements.
pub proof fn node_views_index(nodes: Seq<Node>)
    ensures
        node_views(nodes).len() == nodes.len(),
        forall|i: int| 0 <= i < nodes.len() ==> (#[trigger] node_views(nodes)[i]) == nodes[i]@,
    decreases nodes.len(),
{
    if nodes.len() > 0 {
        node_views_index(nodes.drop_last());
    }
}

/// The models of a sequence with one more node at its end.
pub proof fn node_views_push(nodes: Seq<Node>, node: Node)
    ensures
        node_views(nodes.push(node)) == node_views(nodes).push(node@),
{
    assert(nodes.push(node).drop_last() =~= nodes);
}

impl Node {
    /// The model of a node is made of its production, the model of its text
    /// and the models of its children.
    pub proof fn view_parts(&self)
        ensures
            self@.rule == self.rule,
            self@.text == self.text@,
            self@.children.len() == self.children@.len(),
            forall|i: int| 0 <= i < self.children@.len() ==> (#[trigger] self@.children[i]) == self.children@[i]@,
    {
        node_views_index(self.children@);
    }

    /// A node with the given production, text and children.
    pub fn new(rule: Rule, text: &str, children: Vec<Node>) -> (node: Node)
        ensures
            node@ == (NodeView { rule, text: text@, children: node_views(children@) }),
    {
        let node = Node { rule, text: text.to_owned(), children };
        proof {
            node.view_parts();
        }
        node
    }

    /// A node with the given production, text and children, the text being
    /// owned already.
    pub fn with_text(rule: Rule, text: String, children: Vec<Node>) -> (node: Node)
        ensures
            node@ == (NodeView { rule, text: text@, children: node_views(children@) }),
    {
        Node { rule, text, children }
    }

    /// A node without children.
    pub fn leaf(rule: Rule, text: &str) -> (node: Node)
        ensures
            node@ == (NodeView { rule, text: text@, children: Seq::empty() }),
    {
        let node = Node { rule, text: text.to_owned(), children: Vec::new() };
        proof {
            node.view_parts();
            assert(node@.children =~= Seq::empty());
        }
        node
    }

    /// The production that this node is a match of.
    pub fn rule(&self) -> (rule: Rule)
        ensures
            rule == self@.rule,
    {
        proof {
            self.view_parts();
        }
        self.rule
    }

    /// The text that this node matched.
    pub fn text(&self) -> (text: &str)
        ensures
            text@ == self@.text,
    {
        proof {
            self.view_parts();
        }
        self.text.as_str()
    }

    /// The number of children.
    pub fn child_count(&self) -> (count: usize)
        ensures
            count == self@.children.len(),
    {
        proof {
            self.view_parts();
        }
        self.children.len()
    }

    /// The child at position `index`.
    pub fn child(&self, index: usize) -> (child: &Node)
        requires
            index < self@.children.len(),
        ensures
            child@ == self@.children[index as int],
    {
        proof {
            self.view_parts();
        }
        &self.children[index]
    }
}

} // verus!
