//! A model of the Cairo syntax tree: the parts of each node that the lints and
//! the fixes read, held as plain values.
use vstd::prelude::*;

use crate::text::str_eq;

verus! {

/// The location of a syntax node: a number that identifies it and its span in
/// the file, in bytes.
#[derive(Clone, Copy, Debug, PartialEq, Eq, Structural)]
pub struct NodeRef {
    pub id: u64,
    pub start: usize,
    pub end: usize,
}

/// What a lint reads of a syntax node.
#[derive(Debug)]
pub struct SyntaxNode {
    pub ptr: NodeRef,
    /// The node's text, trivia (whitespace and comments) included.
    pub text: String,
    /// The trivia that comes before the node's first token.
    pub leading_trivia: String,
    /// The node's text without the leading trivia of its first token and the
    /// trailing trivia of its last one.
    pub text_without_trivia: String,
    /// The lint names that an `#[allow(..)]` attribute on one of the node's
    /// ancestors names.
    pub allowed: Vec<String>,
}

/// `#[allow(name)]` stands on one of the node's ancestors.
pub open spec fn allows(node: SyntaxNode, name: Seq<char>) -> bool {
    exists|i: int| 0 <= i < node.allowed@.len() && node.allowed@[i]@ == name
}

/// Whether `#[allow(name)]` stands on one of the node's ancestors.
pub fn is_allowed(node: &SyntaxNode, name: &str) -> (r: bool)
    ensures
        r == allows(*node, name@),
{
    let mut i: usize = 0;
    while i < node.allowed.len()
        invariant
            i <= node.allowed@.len(),
            forall|k: int| 0 <= k < i ==> node.allowed@[k]@ != name@,
        decreases node.allowed@.len() - i,
    {
        if str_eq(node.allowed[i].as_str(), name) {
            return true;
        }
        i = i + 1;
    }
    false
}

/// The binary operators of Cairo.
#[derive(Clone, Copy, Debug, PartialEq, Eq, Structural)]
pub enum BinaryOperator {
    Dot,
    Not,
    Mul,
    MulEq,
    Div,
    DivEq,
    Mod,
    ModEq,
    Plus,
    PlusEq,
    Minus,
    MinusEq,
    EqEq,
    Neq,
    Eq,
    And,
    AndAnd,
    Or,
    OrOr,
    Xor,
    LE,
    GE,
    LT,
    GT,
}

/// A call argument: the whole argument and its value clause.
#[derive(Debug)]
pub struct Arg {
    pub node: SyntaxNode,
    pub arg_clause: SyntaxNode,
}

/// A path such as `core::option::Option::Some`: its node and the identifier of
/// each segment.
#[derive(Debug)]
pub struct ExprPath {
    pub node: SyntaxNode,
    pub segments: Vec<String>,
}

#[derive(Debug)]
pub struct ExprBinary {
    pub node: SyntaxNode,
    pub lhs: Box<Expr>,
    pub op: BinaryOperator,
    pub rhs: Box<Expr>,
}

#[derive(Debug)]
pub struct ExprFunctionCall {
    pub node: SyntaxNode,
    pub path: ExprPath,
    pub arguments: Vec<Arg>,
}

/// An inline macro call such as `assert!(x)`; `arguments` is `None` where the
/// argument list is missing.
#[derive(Debug)]
pub struct ExprInlineMacro {
    pub node: SyntaxNode,
    pub path: SyntaxNode,
    pub arguments: Option<Vec<Arg>>,
}

#[derive(Debug)]
pub struct ExprParenthesized {
    pub node: SyntaxNode,
    pub expr: Box<Expr>,
}

/// A parenthesized list of expressions: a tuple, `()` when it is empty.
#[derive(Debug)]
pub struct ExprListParenthesized {
    pub node: SyntaxNode,
    pub expressions: Vec<Expr>,
}

#[derive(Debug)]
pub enum StatementKind {
    Expr(Expr),
    Break,
    Let,
    Other,
}

#[derive(Debug)]
pub struct Statement {
    pub node: SyntaxNode,
    pub kind: StatementKind,
}

/// A block `{ ... }`: its statements and the trivia before its closing brace.
#[derive(Debug)]
pub struct ExprBlock {
    pub node: SyntaxNode,
    pub statements: Vec<Statement>,
    pub rbrace_leading_trivia: String,
}

#[derive(Debug)]
pub enum ConditionKind {
    Expr(Expr),
    /// `let <patterns> = <expr>`
    Let(Expr, SyntaxNode),
}

#[derive(Debug)]
pub struct Condition {
    pub node: SyntaxNode,
    pub kind: ConditionKind,
}

#[derive(Debug)]
pub enum BlockOrIf {
    Block(ExprBlock),
    If(Box<ExprIf>),
}

#[derive(Debug)]
pub struct ElseClause {
    pub node: SyntaxNode,
    pub else_block_or_if: BlockOrIf,
}

#[derive(Debug)]
pub enum OptionElseClause {
    Empty,
    ElseClause(ElseClause),
}

#[derive(Debug)]
pub struct ExprIf {
    pub node: SyntaxNode,
    pub if_kw: SyntaxNode,
    pub condition: Condition,
    pub if_block: ExprBlock,
    pub else_clause: OptionElseClause,
}

/// An enum pattern such as `Option::Some(x)`: its path and its inner pattern.
#[derive(Debug)]
pub struct PatternEnum {
    pub node: SyntaxNode,
    pub path: SyntaxNode,
    pub inner: Option<SyntaxNode>,
}

#[derive(Debug)]
pub enum Pattern {
    Underscore(SyntaxNode),
    Enum(PatternEnum),
    Struct(SyntaxNode),
    Other(SyntaxNode),
}

#[derive(Debug)]
pub struct MatchArm {
    pub node: SyntaxNode,
    pub patterns: Vec<Pattern>,
    pub expression: Expr,
}

#[derive(Debug)]
pub struct ExprMatch {
    pub node: SyntaxNode,
    pub expr: Box<Expr>,
    pub arms: Vec<MatchArm>,
}

#[derive(Debug)]
pub struct ExprLoop {
    pub node: SyntaxNode,
    pub body: ExprBlock,
}

/// A Cairo expression.
#[derive(Debug)]
pub enum Expr {
    Literal(SyntaxNode),
    True(SyntaxNode),
    False(SyntaxNode),
    ShortString(SyntaxNode),
    String(SyntaxNode),
    Path(ExprPath),
    Parenthesized(ExprParenthesized),
    Tuple(ExprListParenthesized),
    Binary(ExprBinary),
    FunctionCall(ExprFunctionCall),
    StructCtorCall(SyntaxNode),
    InlineMacro(ExprInlineMacro),
    Block(ExprBlock),
    If(Box<ExprIf>),
    Match(Box<ExprMatch>),
    Loop(ExprLoop),
    Other(SyntaxNode),
}

impl Expr {
    /// The syntax node of the expression.
    pub open spec fn spec_node(&self) -> SyntaxNode {
        match self {
            Expr::Literal(n) => *n,
            Expr::True(n) => *n,
            Expr::False(n) => *n,
            Expr::ShortString(n) => *n,
            Expr::String(n) => *n,
            Expr::Path(p) => p.node,
            Expr::Parenthesized(p) => p.node,
            Expr::Tuple(t) => t.node,
            Expr::Binary(b) => b.node,
            Expr::FunctionCall(f) => f.node,
            Expr::StructCtorCall(n) => *n,
            Expr::InlineMacro(m) => m.node,
            Expr::Block(b) => b.node,
            Expr::If(i) => i.node,
            Expr::Match(m) => m.node,
            Expr::Loop(l) => l.node,
            Expr::Other(n) => *n,
        }
    }

    /// The syntax node of the expression.
    pub fn node(&self) -> (r: &SyntaxNode)
        ensures
            *r == self.spec_node(),
    {
        match self {
            Expr::Literal(n) => n,
            Expr::True(n) => n,
            Expr::False(n) => n,
            Expr::ShortString(n) => n,
            Expr::String(n) => n,
            Expr::Path(p) => &p.node,
            Expr::Parenthesized(p) => &p.node,
            Expr::Tuple(t) => &t.node,
            Expr::Binary(b) => &b.node,
            Expr::FunctionCall(f) => &f.node,
            Expr::StructCtorCall(n) => n,
            Expr::InlineMacro(m) => &m.node,
            Expr::Block(b) => &b.node,
            Expr::If(i) => &i.node,
            Expr::Match(m) => &m.node,
            Expr::Loop(l) => &l.node,
            Expr::Other(n) => n,
        }
    }
}

impl Pattern {
    /// The syntax node of the pattern.
    pub open spec fn spec_node(&self) -> SyntaxNode {
        match self {
            Pattern::Underscore(n) => *n,
            Pattern::Enum(p) => p.node,
            Pattern::Struct(n) => *n,
            Pattern::Other(n) => *n,
        }
    }
}

} // verus!
