//! Facts about the checks, proved from their definitions.
use vstd::prelude::*;
use crate::ast::{spec_unsugar_if, Block, Expr, ExprKind, Stmt, UnOp};
use crate::lints::{
    findings_view, missing_else_finding, spec_check_assign, spec_check_block,
    spec_check_consecutive_ifs, spec_check_else_if, spec_check_expr, spec_check_stmt_pair,
    spec_stmt_expr, window_findings, Finding,
};
use crate::span::{spec_differing_macro_contexts, spec_in_macro, spec_mk_sp, spec_snippet, Span};
use crate::text::{spec_has_newline, spec_newline_after_else, EQUALS};

verus! {

/// The byte that spells a prefix operator.
pub open spec fn op_byte(op: UnOp) -> u8 {
    match op {
        UnOp::Deref => 42u8,
        UnOp::Not => 33u8,
        UnOp::Neg => 45u8,
    }
}

/// An assignment `lhs = op x` written in the file itself, whose operator is
/// the single byte right before `x`.
pub open spec fn plain_unary_assign(src: Seq<u8>, e: Expr) -> bool {
    match e.node {
        ExprKind::Assign(lhs, rhs) => match rhs.node {
            ExprKind::Unary(op, x) => {
                !spec_in_macro(lhs.span) && !spec_in_macro(rhs.span) && lhs.span.hi <= rhs.span.lo
                    && rhs.span.lo + 1 == x.span.lo && x.span.lo <= src.len()
                    && src[rhs.span.lo as int] == op_byte(op)
            },
            _ => false,
        },
        _ => false,
    }
}

/// The text from the end of `lhs` to the start of `x` in `lhs = op x`.
pub open spec fn assign_operator_text(src: Seq<u8>, e: Expr) -> Seq<u8> {
    match e.node {
        ExprKind::Assign(lhs, rhs) => match rhs.node {
            ExprKind::Unary(_, x) => src.subrange(lhs.span.hi as int, x.span.lo as int),
            _ => seq![],
        },
        _ => seq![],
    }
}

/// The operator of `lhs = op x`.
pub open spec fn assign_operator(e: Expr) -> UnOp {
    match e.node {
        ExprKind::Assign(_, rhs) => match rhs.node {
            ExprKind::Unary(op, _) => op,
            _ => UnOp::Neg,
        },
        _ => UnOp::Neg,
    }
}

/// An assignment `lhs = op x` is reported exactly when the text between `lhs`
/// and `x` ends in `=` immediately followed by the operator: `a =- 42` is
/// reported, `a = -42` is not.
pub proof fn lemma_assign_reported_iff_glued(src: Seq<u8>, e: Expr)
    requires
        plain_unary_assign(src, e),
    ensures
        spec_check_assign(src, e) is Some <==> ({
            let t = assign_operator_text(src, e);
            t.len() >= 2 && t[t.len() - 2] == EQUALS && t[t.len() - 1] == op_byte(
                assign_operator(e),
            )
        }),
{
    if let ExprKind::Assign(lhs, rhs) = e.node {
        if let ExprKind::Unary(op, x) = rhs.node {
            let t = assign_operator_text(src, e);
            let g = src.subrange(lhs.span.hi as int, rhs.span.lo as int);
            assert(spec_snippet(src, spec_mk_sp(lhs.span.hi, rhs.span.lo)) == Some(g));
            assert(t =~= g.push(op_byte(op)));
        }
    }
}

/// An assignment whose right-hand side is not a prefix operation is never reported.
pub proof fn lemma_assign_needs_unary(src: Seq<u8>, e: Expr)
    requires
        e.node is Assign,
        !(e.node->Assign_1.node is Unary),
    ensures
        spec_check_assign(src, e) is None,
{
}

/// The text region from the end of an `if`'s `then` block to its `else`'s `if`.
pub open spec fn else_gap_span(e: Expr) -> Span {
    match spec_unsugar_if(e) {
        Some((then, Some(els))) => spec_mk_sp(then.span.hi, els.span.lo),
        _ => spec_mk_sp(0, 0),
    }
}

/// An `if .. {} else if .. {}` written in the file itself is reported exactly
/// when a line break follows the `else`.
pub proof fn lemma_else_if_reported_iff_broken(src: Seq<u8>, e: Expr)
    requires
        spec_unsugar_if(e) matches Some((then, Some(els))) && spec_unsugar_if(*els) is Some
            && !spec_in_macro(then.span) && !spec_in_macro(els.span) && spec_snippet(
            src,
            spec_mk_sp(then.span.hi, els.span.lo),
        ) is Some,
    ensures
        spec_check_else_if(src, e) is Some <==> spec_newline_after_else(
            spec_snippet(src, else_gap_span(e))->0,
        ),
{
}

/// Two adjacent `if` statements written in the file itself are reported
/// exactly when no line break stands between them.
pub proof fn lemma_adjacent_ifs_reported_iff_touching(src: Seq<u8>, a: Stmt, b: Stmt)
    requires
        spec_stmt_expr(a) matches Some(x) && spec_unsugar_if(x) is Some,
        spec_stmt_expr(b) matches Some(y) && spec_unsugar_if(y) is Some,
        !spec_in_macro(spec_stmt_expr(a)->0.span),
        !spec_in_macro(spec_stmt_expr(b)->0.span),
        spec_snippet(
            src,
            spec_mk_sp(spec_stmt_expr(a)->0.span.hi, spec_stmt_expr(b)->0.span.lo),
        ) is Some,
    ensures
        spec_check_stmt_pair(src, a, b) is Some <==> !spec_has_newline(
            spec_snippet(
                src,
                spec_mk_sp(spec_stmt_expr(a)->0.span.hi, spec_stmt_expr(b)->0.span.lo),
            )->0,
        ),
{
}

/// Nothing is reported for a pair of spans when either comes from a macro
/// expansion, whatever the text between them.
pub proof fn lemma_macro_spans_never_reported(src: Seq<u8>, e: Expr, first: Expr, second: Expr)
    ensures
        (e.node matches ExprKind::Assign(lhs, rhs) && (spec_in_macro(lhs.span) || spec_in_macro(
            rhs.span,
        ))) ==> spec_check_assign(src, e) is None,
        (spec_unsugar_if(e) matches Some((then, Some(els))) && (spec_in_macro(then.span)
            || spec_in_macro(els.span))) ==> spec_check_else_if(src, e) is None,
        (spec_in_macro(first.span) || spec_in_macro(second.span)) ==> spec_check_consecutive_ifs(
            src,
            first,
            second,
        ) is None,
{
}

/// Repeated runs over the same tree and text give the same findings: each
/// check's result is determined by its arguments.
pub proof fn lemma_checks_repeatable(
    src: Seq<u8>,
    b: Block,
    e: Expr,
    r1: Seq<Finding>,
    r2: Seq<Finding>,
    s1: Seq<Finding>,
    s2: Seq<Finding>,
)
    requires
        findings_view(r1) == spec_check_block(src, b),
        findings_view(r2) == spec_check_block(src, b),
        findings_view(s1) == spec_check_expr(src, e),
        findings_view(s2) == spec_check_expr(src, e),
    ensures
        findings_view(r1).to_multiset() == findings_view(r2).to_multiset(),
        findings_view(s1).to_multiset() == findings_view(s2).to_multiset(),
{
}

/// Two adjacent statements are `if`s of the file itself with no line break between them.
pub open spec fn touching_ifs(src: Seq<u8>, a: Stmt, b: Stmt) -> bool {
    &&& spec_stmt_expr(a) matches Some(x) && spec_unsugar_if(x) is Some
    &&& spec_stmt_expr(b) matches Some(y) && spec_unsugar_if(y) is Some
    &&& !spec_in_macro(spec_stmt_expr(a)->0.span)
    &&& !spec_in_macro(spec_stmt_expr(b)->0.span)
    &&& gap_of(src, a, b) matches Some(t) && !spec_has_newline(t)
}

/// The text between two adjacent statements' expressions.
pub open spec fn gap_of(src: Seq<u8>, a: Stmt, b: Stmt) -> Option<Seq<u8>> {
    spec_snippet(src, gap_span(a, b))
}

pub open spec fn gap_span(a: Stmt, b: Stmt) -> Span {
    spec_mk_sp(spec_stmt_expr(a)->0.span.hi, spec_stmt_expr(b)->0.span.lo)
}

proof fn lemma_window_chain(src: Seq<u8>, stmts: Seq<Stmt>, n: nat)
    requires
        n < stmts.len(),
        forall|i: int| 0 <= i < n ==> touching_ifs(src, #[trigger] stmts[i], stmts[i + 1]),
    ensures
        window_findings(src, stmts, n).len() == n,
        forall|i: int|
            0 <= i < n ==> #[trigger] window_findings(src, stmts, n)[i] == missing_else_finding(
                gap_span(stmts[i], stmts[i + 1]),
            ),
    decreases n,
{
    if n > 0 {
        lemma_window_chain(src, stmts, (n - 1) as nat);
        assert(touching_ifs(src, stmts[n - 1], stmts[n - 1 + 1]));
    }
}

/// A block of `k` adjacent `if` statements with no line break between any two
/// yields exactly `k - 1` findings, one for each boundary, in order.
pub proof fn lemma_if_chain_findings(src: Seq<u8>, b: Block)
    requires
        b.stmts@.len() >= 1,
        forall|i: int|
            0 <= i < b.stmts@.len() - 1 ==> touching_ifs(src, #[trigger] b.stmts@[i], b.stmts@[i + 1]),
    ensures
        spec_check_block(src, b).len() == b.stmts@.len() - 1,
        forall|i: int|
            0 <= i < b.stmts@.len() - 1 ==> #[trigger] spec_check_block(src, b)[i]
                == missing_else_finding(gap_span(b.stmts@[i], b.stmts@[i + 1])),
{
    if b.stmts@.len() >= 2 {
        lemma_window_chain(src, b.stmts@, (b.stmts@.len() - 1) as nat);
    }
}

} // verus!
