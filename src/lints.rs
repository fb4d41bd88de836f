//! The two formatting rules and the three checks that produce their findings.
use vstd::prelude::*;
use vstd::string::StringExecFns;
use crate::ast::{spec_unsugar_if, unsugar_if, Block, Expr, ExprKind, Stmt, StmtKind, UnOp};
use crate::span::{
    differing_macro_contexts, in_macro, mk_sp, spec_differing_macro_contexts, spec_in_macro,
    spec_mk_sp, spec_snippet, Context, Span,
};
use crate::text::{
    ends_with_equals, has_newline_from, newline_after_else, spec_ends_with_equals,
    spec_has_newline, spec_newline_after_else,
};

verus! {

/// The rule a finding belongs to; each can be switched on or off on its own.
#[derive(Clone, Copy, Debug, PartialEq, Eq, Structural)]
pub enum Rule {
    /// `a =- b`, `a =! b`, `a =* b`: reads like a compound assignment.
    SuspiciousAssignmentFormatting,
    /// An `else if` split over lines, or two adjacent `if`s missing an `else`.
    SuspiciousElseFormatting,
}

/// How a rule's findings are reported unless configured otherwise.
#[derive(Clone, Copy, Debug, PartialEq, Eq, Structural)]
pub enum Level {
    Allow,
    Warn,
    Deny,
}

impl Rule {
    /// Both rules warn by default.
    pub fn default_level(&self) -> (r: Level)
        ensures
            r == Level::Warn,
    {
        Level::Warn
    }

    /// A one-line description of what the rule looks for.
    pub fn description(&self) -> (r: &'static str)
        ensures
            r@ == match *self {
                Rule::SuspiciousAssignmentFormatting => "suspicious formatting of `*=`, `-=` or `!=`"@,
                Rule::SuspiciousElseFormatting => "suspicious formatting of `else if`"@,
            },
    {
        match self {
            Rule::SuspiciousAssignmentFormatting => "suspicious formatting of `*=`, `-=` or `!=`",
            Rule::SuspiciousElseFormatting => "suspicious formatting of `else if`",
        }
    }
}

/// One detected ambiguity: where it is, what it is, and how to resolve it.
#[derive(Debug, PartialEq, Eq)]
pub struct Finding {
    pub rule: Rule,
    pub primary_span: Span,
    pub primary_message: String,
    pub secondary_span: Span,
    pub secondary_message: String,
}

/// A finding with its messages as character sequences.
pub struct FindingView {
    pub rule: Rule,
    pub primary_span: Span,
    pub primary_message: Seq<char>,
    pub secondary_span: Span,
    pub secondary_message: Seq<char>,
}

impl View for Finding {
    type V = FindingView;

    open spec fn view(&self) -> FindingView {
        FindingView {
            rule: self.rule,
            primary_span: self.primary_span,
            primary_message: self.primary_message@,
            secondary_span: self.secondary_span,
            secondary_message: self.secondary_message@,
        }
    }
}

pub open spec fn op_symbol(op: UnOp) -> Seq<char> {
    match op {
        UnOp::Deref => "*"@,
        UnOp::Not => "!"@,
        UnOp::Neg => "-"@,
    }
}

pub open spec fn assign_finding(sp: Span, op: UnOp) -> FindingView {
    FindingView {
        rule: Rule::SuspiciousAssignmentFormatting,
        primary_span: sp,
        primary_message: "this looks like you are trying to use `.. "@ + op_symbol(op)
            + "= ..`, but you really are doing `.. = ("@ + op_symbol(op) + " ..)`"@,
        secondary_span: sp,
        secondary_message: "to remove this lint, use either `"@ + op_symbol(op) + "=` or `= "@
            + op_symbol(op) + "`"@,
    }
}

pub open spec fn else_if_finding(sp: Span) -> FindingView {
    FindingView {
        rule: Rule::SuspiciousElseFormatting,
        primary_span: sp,
        primary_message: "this is an `else if` but the formatting might hide it"@,
        secondary_span: sp,
        secondary_message:
            "to remove this lint, remove the `else` or remove the new line between `else` and `if`"@,
    }
}

pub open spec fn missing_else_finding(sp: Span) -> FindingView {
    FindingView {
        rule: Rule::SuspiciousElseFormatting,
        primary_span: sp,
        primary_message: "this looks like an `else if` but the `else` is missing"@,
        secondary_span: sp,
        secondary_message:
            "to remove this lint, add the missing `else` or add a new line before the second `if`"@,
    }
}

pub open spec fn finding_opt_view(r: Option<Finding>) -> Option<FindingView> {
    match r {
        Some(f) => Some(f@),
        None => None,
    }
}

pub open spec fn findings_view(r: Seq<Finding>) -> Seq<FindingView> {
    r.map_values(|f: Finding| f@)
}

pub open spec fn opt_seq(o: Option<FindingView>) -> Seq<FindingView> {
    match o {
        Some(f) => seq![f],
        None => seq![],
    }
}

/// What the assignment check reports for `e`: an `lhs = op x` whose text
/// between `lhs` and `op x` ends in `=`, outside macro expansions.
pub open spec fn spec_check_assign(src: Seq<u8>, e: Expr) -> Option<FindingView> {
    match e.node {
        ExprKind::Assign(lhs, rhs) => {
            if spec_differing_macro_contexts(lhs.span, rhs.span) || spec_in_macro(lhs.span) {
                None
            } else {
                match rhs.node {
                    ExprKind::Unary(op, sub) => match spec_snippet(
                        src,
                        spec_mk_sp(lhs.span.hi, rhs.span.lo),
                    ) {
                        Some(t) => if spec_ends_with_equals(t) {
                            Some(assign_finding(spec_mk_sp(lhs.span.hi, sub.span.lo), op))
                        } else {
                            None
                        },
                        None => None,
                    },
                    _ => None,
                }
            }
        },
        _ => None,
    }
}

/// What the `else if` check reports for `e`: an `if` whose `else` is an `if`
/// and whose text between `then` and that `if` breaks the line after `else`.
pub open spec fn spec_check_else_if(src: Seq<u8>, e: Expr) -> Option<FindingView> {
    match spec_unsugar_if(e) {
        Some((then, Some(els))) => {
            if spec_unsugar_if(*els) is None || spec_differing_macro_contexts(then.span, els.span)
                || spec_in_macro(then.span) {
                None
            } else {
                let sp = spec_mk_sp(then.span.hi, els.span.lo);
                match spec_snippet(src, sp) {
                    Some(t) => if spec_newline_after_else(t) {
                        Some(else_if_finding(sp))
                    } else {
                        None
                    },
                    None => None,
                }
            }
        },
        _ => None,
    }
}

/// What the consecutive-`if` check reports for two adjacent expressions: both
/// are `if`s and no line break stands between them.
pub open spec fn spec_check_consecutive_ifs(
    src: Seq<u8>,
    first: Expr,
    second: Expr,
) -> Option<FindingView> {
    if spec_differing_macro_contexts(first.span, second.span) || spec_in_macro(first.span)
        || spec_unsugar_if(first) is None || spec_unsugar_if(second) is None {
        None
    } else {
        let sp = spec_mk_sp(first.span.hi, second.span.lo);
        match spec_snippet(src, sp) {
            Some(t) => if !spec_has_newline(t) {
                Some(missing_else_finding(sp))
            } else {
                None
            },
            None => None,
        }
    }
}

fn op_to_string(op: UnOp) -> (r: &'static str)
    ensures
        r@ == op_symbol(op),
{
    match op {
        UnOp::Deref => "*",
        UnOp::Not => "!",
        UnOp::Neg => "-",
    }
}

/// The check for assignments that read like a compound operator.
pub fn check_assign(cx: &Context, expr: &Expr) -> (r: Option<Finding>)
    ensures
        finding_opt_view(r) == spec_check_assign(cx.src@, *expr),
{
    if let ExprKind::Assign(lhs, rhs) = &expr.node {
        if !differing_macro_contexts(lhs.span, rhs.span) && !in_macro(lhs.span) {
            let eq_span = mk_sp(lhs.span.hi, rhs.span.lo);
            if let ExprKind::Unary(op, sub_rhs) = &rhs.node {
                if let Some(eq_snippet) = cx.snippet_opt(eq_span) {
                    let op_str = op_to_string(*op);
                    let eqop_span = mk_sp(lhs.span.hi, sub_rhs.span.lo);
                    if ends_with_equals(&eq_snippet) {
                        let mut msg = String::from_str("this looks like you are trying to use `.. ");
                        msg.append(op_str);
                        msg.append("= ..`, but you really are doing `.. = (");
                        msg.append(op_str);
                        msg.append(" ..)`");
                        let mut help = String::from_str("to remove this lint, use either `");
                        help.append(op_str);
                        help.append("=` or `= ");
                        help.append(op_str);
                        help.append("`");
                        return Some(
                            Finding {
                                rule: Rule::SuspiciousAssignmentFormatting,
                                primary_span: eqop_span,
                                primary_message: msg,
                                secondary_span: eqop_span,
                                secondary_message: help,
                            },
                        );
                    }
                }
            }
        }
    }
    None
}

/// The check for an `else if` whose `if` starts on a later line than its `else`.
pub fn check_else_if(cx: &Context, expr: &Expr) -> (r: Option<Finding>)
    ensures
        finding_opt_view(r) == spec_check_else_if(cx.src@, *expr),
{
    if let Some((then, Some(els))) = unsugar_if(expr) {
        if unsugar_if(els).is_some() && !differing_macro_contexts(then.span, els.span) && !in_macro(
            then.span,
        ) {
            // from just after the `then` block's closing brace to the `if` of the `else if`
            let else_span = mk_sp(then.span.hi, els.span.lo);
            if let Some(else_snippet) = cx.snippet_opt(else_span) {
                if newline_after_else(&else_snippet) {
                    return Some(
                        Finding {
                            rule: Rule::SuspiciousElseFormatting,
                            primary_span: else_span,
                            primary_message: String::from_str(
                                "this is an `else if` but the formatting might hide it",
                            ),
                            secondary_span: else_span,
                            secondary_message: String::from_str(
                                "to remove this lint, remove the `else` or remove the new line between `else` and `if`",
                            ),
                        },
                    );
                }
            }
        }
    }
    None
}

/// The check for two adjacent `if`s with no line break between them.
pub fn check_consecutive_ifs(cx: &Context, first: &Expr, second: &Expr) -> (r: Option<Finding>)
    ensures
        finding_opt_view(r) == spec_check_consecutive_ifs(cx.src@, *first, *second),
{
    if !differing_macro_contexts(first.span, second.span) && !in_macro(first.span)
        && unsugar_if(first).is_some() && unsugar_if(second).is_some() {
        // where the `else` would be
        let else_span = mk_sp(first.span.hi, second.span.lo);
        if let Some(else_snippet) = cx.snippet_opt(else_span) {
            if !has_newline_from(&else_snippet, 0) {
                proof {
                    assert(else_snippet@.subrange(0, else_snippet@.len() as int) =~= else_snippet@);
                }
                return Some(
                    Finding {
                        rule: Rule::SuspiciousElseFormatting,
                        primary_span: else_span,
                        primary_message: String::from_str(
                            "this looks like an `else if` but the `else` is missing",
                        ),
                        secondary_span: else_span,
                        secondary_message: String::from_str(
                            "to remove this lint, add the missing `else` or add a new line before the second `if`",
                        ),
                    },
                );
            }
            proof {
                assert(else_snippet@.subrange(0, else_snippet@.len() as int) =~= else_snippet@);
            }
        }
    }
    None
}

/// The expression of an expression statement, with or without its `;`.
pub open spec fn spec_stmt_expr(s: Stmt) -> Option<Expr> {
    match s.node {
        StmtKind::Expr(e) => Some(e),
        StmtKind::Semi(e) => Some(e),
        StmtKind::Other => None,
    }
}

/// What the consecutive-`if` check reports for two adjacent statements.
pub open spec fn spec_check_stmt_pair(src: Seq<u8>, a: Stmt, b: Stmt) -> Option<FindingView> {
    match (spec_stmt_expr(a), spec_stmt_expr(b)) {
        (Some(x), Some(y)) => spec_check_consecutive_ifs(src, x, y),
        _ => None,
    }
}

/// The findings for the first `n` adjacent pairs of `stmts`, in order.
pub open spec fn window_findings(src: Seq<u8>, stmts: Seq<Stmt>, n: nat) -> Seq<FindingView>
    decreases n,
{
    if n == 0 {
        seq![]
    } else {
        window_findings(src, stmts, (n - 1) as nat) + opt_seq(
            spec_check_stmt_pair(src, stmts[n - 1], stmts[n as int]),
        )
    }
}

/// The findings for every adjacent pair of statements of a block, in order.
pub open spec fn spec_check_block(src: Seq<u8>, b: Block) -> Seq<FindingView> {
    if b.stmts@.len() < 2 {
        seq![]
    } else {
        window_findings(src, b.stmts@, (b.stmts@.len() - 1) as nat)
    }
}

/// The findings for one expression: the assignment check's, then the `else if` check's.
pub open spec fn spec_check_expr(src: Seq<u8>, e: Expr) -> Seq<FindingView> {
    opt_seq(spec_check_assign(src, e)) + opt_seq(spec_check_else_if(src, e))
}

fn stmt_expr(s: &Stmt) -> (r: Option<&Expr>)
    ensures
        match r {
            Some(e) => spec_stmt_expr(*s) == Some(*e),
            None => spec_stmt_expr(*s) is None,
        },
{
    match &s.node {
        StmtKind::Expr(e) => Some(e),
        StmtKind::Semi(e) => Some(e),
        StmtKind::Other => None,
    }
}

fn push_opt(out: &mut Vec<Finding>, f: Option<Finding>)
    ensures
        findings_view(final(out)@) == findings_view(old(out)@) + opt_seq(finding_opt_view(f)),
{
    match f {
        Some(f) => {
            out.push(f);
            assert(findings_view(final(out)@) =~= findings_view(old(out)@) + seq![f@]);
        },
        None => {
            assert(findings_view(final(out)@) =~= findings_view(old(out)@) + seq![]);
        },
    }
}

/// The formatting pass: run by its host on each block and on each expression.
#[derive(Clone, Copy, Debug)]
pub struct Formatting;

impl Formatting {
    /// The rules this pass reports under.
    pub fn get_lints(&self) -> (r: Vec<Rule>)
        ensures
            r@ == seq![Rule::SuspiciousAssignmentFormatting, Rule::SuspiciousElseFormatting],
    {
        let r = vec![Rule::SuspiciousAssignmentFormatting, Rule::SuspiciousElseFormatting];
        assert(r@ =~= seq![Rule::SuspiciousAssignmentFormatting, Rule::SuspiciousElseFormatting]);
        r
    }

    /// Checks each adjacent pair of the block's statements for two `if`s
    /// that look like an `else if` missing its `else`.
    pub fn check_block(&self, cx: &Context, block: &Block) -> (r: Vec<Finding>)
        ensures
            findings_view(r@) == spec_check_block(cx.src@, *block),
    {
        let mut out: Vec<Finding> = Vec::new();
        let n = block.stmts.len();
        if n < 2 {
            assert(findings_view(out@) =~= seq![]);
            return out;
        }
        let mut i: usize = 1;
        assert(findings_view(out@) =~= window_findings(cx.src@, block.stmts@, 0));
        while i < n
            invariant
                1 <= i <= n,
                n == block.stmts@.len(),
                findings_view(out@) == window_findings(cx.src@, block.stmts@, (i - 1) as nat),
            decreases n - i,
        {
            let a = stmt_expr(&block.stmts[i - 1]);
            let b = stmt_expr(&block.stmts[i]);
            let f = match (a, b) {
                (Some(first), Some(second)) => check_consecutive_ifs(cx, first, second),
                _ => None,
            };
            push_opt(&mut out, f);
            i = i + 1;
        }
        out
    }

    /// Checks one expression for a suspicious assignment and for a split `else if`.
    pub fn check_expr(&self, cx: &Context, expr: &Expr) -> (r: Vec<Finding>)
        ensures
            findings_view(r@) == spec_check_expr(cx.src@, *expr),
    {
        let mut out: Vec<Finding> = Vec::new();
        assert(findings_view(out@) =~= seq![]);
        push_opt(&mut out, check_assign(cx, expr));
        push_opt(&mut out, check_else_if(cx, expr));
        out
    }
}

} // verus!
