//! A model of the Cairo semantic model: expressions, patterns and statements
//! held in arenas and referred to by index, with what the lints read of each.
use vstd::prelude::*;

use crate::int_value::IntValue;
use crate::syntax::{Expr as AstExpr, SyntaxNode};

verus! {

pub type ExprId = usize;

pub type PatternId = usize;

pub type StatementId = usize;

/// How a called function relates to a trait: the full path of the trait
/// function that it implements or is, where there is one.
#[derive(Debug)]
pub enum FunctionBody {
    /// The function has no concrete body.
    NoBody,
    /// The body of an impl function of the trait function with this path.
    Impl(String),
    /// The body of the trait function with this path.
    Trait(String),
    /// A body that belongs to no trait function.
    Free,
}

/// A called function: its full name (with generic arguments), its name as the
/// compiler prints it (quoted), and its relation to a trait.
#[derive(Debug)]
pub struct FunctionId {
    pub full_name: String,
    pub name: String,
    pub body: FunctionBody,
}

/// Where a call comes from: whether a macro generated it, and the node of the
/// original file at the position that the call stands for, where it was found.
#[derive(Debug)]
pub struct CallOrigin {
    pub from_macro: bool,
    pub origin_node: Option<SyntaxNode>,
}

#[derive(Debug)]
pub enum ExprFunctionCallArg {
    /// A `ref` argument, by its syntax node.
    Reference(SyntaxNode),
    Value(ExprId),
}

#[derive(Debug)]
pub struct ExprFunctionCall {
    pub node: SyntaxNode,
    pub function: FunctionId,
    pub args: Vec<ExprFunctionCallArg>,
    pub origin: CallOrigin,
}

/// A variable: a local one, by its identity, or another kind.
#[derive(Clone, Copy, Debug, PartialEq, Eq, Structural)]
pub enum VarId {
    Local(u64),
    Param(u64),
    Item(u64),
}

#[derive(Debug)]
pub struct ExprBlock {
    pub node: SyntaxNode,
    pub statements: Vec<StatementId>,
    pub tail: Option<ExprId>,
}

#[derive(Debug)]
pub enum Condition {
    BoolExpr(ExprId),
    Let(ExprId, Vec<PatternId>),
}

#[derive(Debug)]
pub struct ExprIf {
    pub node: SyntaxNode,
    pub condition: Condition,
    pub if_block: ExprId,
    pub else_block: Option<ExprId>,
}

/// A match arm: its patterns, its expression, and the syntax that the
/// expression was read from.
#[derive(Debug)]
pub struct MatchArm {
    pub patterns: Vec<PatternId>,
    pub expression: ExprId,
    pub expression_syntax: AstExpr,
}

#[derive(Debug)]
pub struct ExprMatch {
    pub node: SyntaxNode,
    pub matched_expr: ExprId,
    pub arms: Vec<MatchArm>,
    /// The match is of the unit type.
    pub ty_is_unit: bool,
}

#[derive(Debug)]
pub struct ExprLoop {
    pub node: SyntaxNode,
    pub body: ExprId,
    /// The loop is of the unit type.
    pub ty_is_unit: bool,
}

#[derive(Debug)]
pub struct ExprWhile {
    pub node: SyntaxNode,
    pub condition: Condition,
    pub body: ExprId,
}

#[derive(Clone, Copy, Debug, PartialEq, Eq, Structural)]
pub enum LogicalOperator {
    AndAnd,
    OrOr,
}

#[derive(Debug)]
pub struct ExprLogicalOperator {
    pub node: SyntaxNode,
    pub lhs: ExprId,
    pub op: LogicalOperator,
    pub rhs: ExprId,
}

#[derive(Debug)]
pub struct ExprEnumVariantCtor {
    pub node: SyntaxNode,
    /// The full path of the variant, such as `core::option::Option::Some`.
    pub variant_path: String,
    pub value_expr: ExprId,
}

#[derive(Debug)]
pub enum FixedSizeArrayItems {
    Items(Vec<ExprId>),
    ValueAndSize(ExprId),
}

/// A semantic expression.
#[derive(Debug)]
pub enum Expr {
    FunctionCall(ExprFunctionCall),
    Var(SyntaxNode, VarId),
    Literal(SyntaxNode, IntValue),
    StringLiteral(SyntaxNode, String),
    Snapshot(SyntaxNode, ExprId),
    Block(ExprBlock),
    If(ExprIf),
    Match(ExprMatch),
    Loop(ExprLoop),
    While(ExprWhile),
    LogicalOperator(ExprLogicalOperator),
    EnumVariantCtor(ExprEnumVariantCtor),
    FixedSizeArray(SyntaxNode, FixedSizeArrayItems),
    Tuple(SyntaxNode, Vec<ExprId>),
    Other(SyntaxNode),
}

/// An enum variant pattern: the variant's full path and name, the enum type as
/// the compiler prints it, how many variants the enum has, and the inner pattern.
#[derive(Debug)]
pub struct PatternEnumVariant {
    pub node: SyntaxNode,
    pub variant_path: String,
    pub variant_name: String,
    pub ty: String,
    pub enum_variants: usize,
    pub inner_pattern: Option<PatternId>,
}

#[derive(Debug)]
pub enum Pattern {
    Otherwise(SyntaxNode),
    EnumVariant(PatternEnumVariant),
    Struct(SyntaxNode),
    /// A variable pattern that binds the local variable with this identity.
    Variable(SyntaxNode, u64),
    Literal(SyntaxNode),
    StringLiteral(SyntaxNode),
    Other(SyntaxNode),
}

#[derive(Debug)]
pub enum Statement {
    Expr(ExprId),
    Let(PatternId, ExprId),
    /// A `break` statement, by its syntax node.
    Break(SyntaxNode),
    Other(SyntaxNode),
}

/// A function parameter: its name and the node it stands at.
#[derive(Debug)]
pub struct Parameter {
    pub name: String,
    pub stable_ptr: u64,
}

/// The arenas of a function body.
#[derive(Debug)]
pub struct Arenas {
    pub exprs: Vec<Expr>,
    pub patterns: Vec<Pattern>,
    pub statements: Vec<Statement>,
}

impl Expr {
    /// The syntax node of the expression.
    pub open spec fn spec_node(&self) -> SyntaxNode {
        match self {
            Expr::FunctionCall(f) => f.node,
            Expr::Var(n, _) => *n,
            Expr::Literal(n, _) => *n,
            Expr::StringLiteral(n, _) => *n,
            Expr::Snapshot(n, _) => *n,
            Expr::Block(b) => b.node,
            Expr::If(i) => i.node,
            Expr::Match(m) => m.node,
            Expr::Loop(l) => l.node,
            Expr::While(w) => w.node,
            Expr::LogicalOperator(l) => l.node,
            Expr::EnumVariantCtor(e) => e.node,
            Expr::FixedSizeArray(n, _) => *n,
            Expr::Tuple(n, _) => *n,
            Expr::Other(n) => *n,
        }
    }

    /// The syntax node of the expression.
    pub fn node(&self) -> (r: &SyntaxNode)
        ensures
            *r == self.spec_node(),
    {
        match self {
            Expr::FunctionCall(f) => &f.node,
            Expr::Var(n, _) => n,
            Expr::Literal(n, _) => n,
            Expr::StringLiteral(n, _) => n,
            Expr::Snapshot(n, _) => n,
            Expr::Block(b) => &b.node,
            Expr::If(i) => &i.node,
            Expr::Match(m) => &m.node,
            Expr::Loop(l) => &l.node,
            Expr::While(w) => &w.node,
            Expr::LogicalOperator(l) => &l.node,
            Expr::EnumVariantCtor(e) => &e.node,
            Expr::FixedSizeArray(n, _) => n,
            Expr::Tuple(n, _) => n,
            Expr::Other(n) => n,
        }
    }
}

/// The expression ids of a condition.
pub open spec fn condition_expr(c: Condition) -> ExprId {
    match c {
        Condition::BoolExpr(e) => e,
        Condition::Let(e, _) => e,
    }
}

impl Arenas {
    /// Every statement refers to expressions and patterns that exist.
    pub open spec fn statement_wf(&self, s: Statement, bound: int) -> bool {
        match s {
            Statement::Expr(e) => 0 <= e < bound,
            Statement::Let(p, e) => 0 <= p < self.patterns@.len() && 0 <= e < bound,
            _ => true,
        }
    }

    /// The pattern ids of a condition exist; a `let` condition has a pattern.
    pub open spec fn condition_wf(&self, c: Condition, bound: int) -> bool {
        match c {
            Condition::BoolExpr(e) => 0 <= e < bound,
            Condition::Let(e, ps) => 0 <= e < bound && ps@.len() > 0 && forall|k: int|
                0 <= k < ps@.len() ==> 0 <= #[trigger] ps@[k] < self.patterns@.len(),
        }
    }

    /// The expression refers only to expressions of index below `bound` (directly
    /// or through its statements) and to patterns and statements that exist; each
    /// of its match arms has a pattern.
    pub open spec fn refs_below(&self, e: Expr, bound: int) -> bool {
        match e {
            Expr::FunctionCall(f) => forall|k: int|
                0 <= k < f.args@.len() ==> (#[trigger] f.args@[k] matches ExprFunctionCallArg::Value(
                    e,
                ) ==> 0 <= e < bound),
            Expr::Snapshot(_, e) => 0 <= e < bound,
            Expr::Block(b) => (forall|k: int|
                0 <= k < b.statements@.len() ==> 0 <= #[trigger] b.statements@[k]
                    < self.statements@.len() && self.statement_wf(
                    self.statements@[b.statements@[k] as int],
                    bound,
                )) && (b.tail matches Some(t) ==> 0 <= t < bound),
            Expr::If(e) => self.condition_wf(e.condition, bound) && 0 <= e.if_block < bound && (
            e.else_block matches Some(b) ==> 0 <= b < bound),
            Expr::Match(m) => 0 <= m.matched_expr < bound && forall|k: int|
                0 <= k < m.arms@.len() ==> 0 <= #[trigger] m.arms@[k].expression < bound
                    && m.arms@[k].patterns@.len() > 0 && (forall|
                    j: int,
                |
                    0 <= j < m.arms@[k].patterns@.len() ==> 0 <= #[trigger] m.arms@[k].patterns@[j]
                        < self.patterns@.len()),
            Expr::Loop(l) => 0 <= l.body < bound,
            Expr::While(w) => self.condition_wf(w.condition, bound) && 0 <= w.body < bound,
            Expr::LogicalOperator(l) => 0 <= l.lhs < bound && 0 <= l.rhs < bound,
            Expr::EnumVariantCtor(e) => 0 <= e.value_expr < bound,
            Expr::FixedSizeArray(_, items) => match items {
                FixedSizeArrayItems::Items(v) => forall|k: int|
                    0 <= k < v@.len() ==> 0 <= #[trigger] v@[k] < bound,
                FixedSizeArrayItems::ValueAndSize(e) => 0 <= e < bound,
            },
            Expr::Tuple(_, v) => forall|k: int| 0 <= k < v@.len() ==> 0 <= #[trigger] v@[k] < bound,
            _ => true,
        }
    }


    /// The expression refers only to items that exist.
    pub open spec fn fits(&self, e: Expr) -> bool {
        self.refs_below(e, self.exprs@.len() as int)
    }

    /// The expression at index `i` refers only to expressions of smaller index.
    pub open spec fn expr_wf(&self, i: int) -> bool {
        self.refs_below(self.exprs@[i], i)
    }

    /// The pattern at index `i` has an inner pattern of smaller index, if any.
    pub open spec fn pattern_wf(&self, i: int) -> bool {
        match self.patterns@[i] {
            Pattern::EnumVariant(p) => p.inner_pattern matches Some(q) ==> 0 <= q < i,
            _ => true,
        }
    }

    /// The arenas are well formed: every id refers to an existing item, and an
    /// expression or pattern refers only to items created before it.
    pub open spec fn wf(&self) -> bool {
        &&& forall|i: int| 0 <= i < self.exprs@.len() ==> #[trigger] self.expr_wf(i)
        &&& forall|i: int| 0 <= i < self.patterns@.len() ==> #[trigger] self.pattern_wf(i)
    }
}

} // verus!
