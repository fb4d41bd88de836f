//! The read-only view of the parsed tree that the checks inspect.
use vstd::prelude::*;
use crate::span::Span;

verus! {

/// A prefix operator.
#[derive(Clone, Copy, Debug, PartialEq, Eq)]
pub enum UnOp {
    /// `*`
    Deref,
    /// `!`
    Not,
    /// `-`
    Neg,
}

/// An expression with the span of its source text.
#[derive(Debug, PartialEq, Eq)]
pub struct Expr {
    pub node: ExprKind,
    pub span: Span,
}

/// The kinds of expression the checks tell apart; everything else is `Other`.
#[derive(Debug, PartialEq, Eq)]
pub enum ExprKind {
    /// `lhs = rhs`
    Assign(Box<Expr>, Box<Expr>),
    /// `op operand`
    Unary(UnOp, Box<Expr>),
    /// `if cond then else`
    If(Box<Expr>, Box<Block>, Option<Box<Expr>>),
    /// `if let pat = scrutinee then else`; the pattern is known by its span only.
    IfLet(Span, Box<Expr>, Box<Block>, Option<Box<Expr>>),
    Other,
}

/// A braced sequence of statements.
#[derive(Debug, PartialEq, Eq)]
pub struct Block {
    pub stmts: Vec<Stmt>,
    pub span: Span,
}

#[derive(Debug, PartialEq, Eq)]
pub struct Stmt {
    pub node: StmtKind,
    pub span: Span,
}

#[derive(Debug, PartialEq, Eq)]
pub enum StmtKind {
    /// An expression without a trailing `;`.
    Expr(Expr),
    /// An expression followed by `;`.
    Semi(Expr),
    Other,
}

/// The `then` block and the optional `else` of an `if` or `if let`.
pub open spec fn spec_unsugar_if(e: Expr) -> Option<(Block, Option<Box<Expr>>)> {
    match e.node {
        ExprKind::If(_, then, els) => Some((*then, els)),
        ExprKind::IfLet(_, _, then, els) => Some((*then, els)),
        _ => None,
    }
}

/// The `then` block and the optional `else` of an `if` or `if let`.
pub fn unsugar_if(expr: &Expr) -> (r: Option<(&Block, &Option<Box<Expr>>)>)
    ensures
        match r {
            Some((then, els)) => spec_unsugar_if(*expr) == Some((*then, *els)),
            None => spec_unsugar_if(*expr) is None,
        },
{
    match &expr.node {
        ExprKind::If(_, then, els) => Some((then, els)),
        ExprKind::IfLet(_, _, then, els) => Some((then, els)),
        _ => None,
    }
}

} // verus!
