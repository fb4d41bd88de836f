use formatting_lints::ast::{unsugar_if, Block, Expr, ExprKind, Stmt, StmtKind, UnOp};
use formatting_lints::lints::{
    check_assign, check_consecutive_ifs, check_else_if, Formatting, Level, Rule,
};
use formatting_lints::span::{Context, Span};
use formatting_lints::text::{ends_with_equals, find_else, has_newline_from, newline_after_else};

fn sp(lo: usize, hi: usize) -> Span {
    Span { lo, hi, ctxt: 0 }
}

fn sp_in(lo: usize, hi: usize, ctxt: u32) -> Span {
    Span { lo, hi, ctxt }
}

fn cx(s: &str) -> Context {
    Context::new(s.as_bytes().to_vec())
}

fn other(span: Span) -> Expr {
    Expr { node: ExprKind::Other, span }
}

fn assign(lhs: Expr, rhs: Expr, span: Span) -> Expr {
    Expr { node: ExprKind::Assign(Box::new(lhs), Box::new(rhs)), span }
}

fn unary(op: UnOp, x: Expr, span: Span) -> Expr {
    Expr { node: ExprKind::Unary(op, Box::new(x)), span }
}

fn empty_block(span: Span) -> Block {
    Block { stmts: Vec::new(), span }
}

/// `if <cond> <then> [else <els>]`, the condition a placeholder.
fn if_expr(span: Span, then: Span, els: Option<Expr>) -> Expr {
    let cond = other(sp(span.lo + 3, span.lo + 4));
    Expr {
        node: ExprKind::If(Box::new(cond), Box::new(empty_block(then)), els.map(Box::new)),
        span,
    }
}

fn stmt(e: Expr) -> Stmt {
    let span = e.span;
    Stmt { node: StmtKind::Expr(e), span }
}

fn semi(e: Expr) -> Stmt {
    let span = Span { lo: e.span.lo, hi: e.span.hi + 1, ctxt: e.span.ctxt };
    Stmt { node: StmtKind::Semi(e), span }
}

// `a =- 42;`
fn glued_neg() -> (Context, Expr) {
    let e = assign(other(sp(0, 1)), unary(UnOp::Neg, other(sp(4, 6)), sp(3, 6)), sp(0, 6));
    (cx("a =- 42;"), e)
}

#[test]
fn assign_glued_minus_is_reported() {
    let (c, e) = glued_neg();
    let f = check_assign(&c, &e).expect("finding");
    assert_eq!(f.rule, Rule::SuspiciousAssignmentFormatting);
    assert_eq!(f.primary_span, sp(1, 4));
    assert_eq!(f.secondary_span, sp(1, 4));
    assert_eq!(
        f.primary_message,
        "this looks like you are trying to use `.. -= ..`, but you really are doing `.. = (- ..)`"
    );
    assert_eq!(f.secondary_message, "to remove this lint, use either `-=` or `= -`");
}

#[test]
fn assign_spaced_minus_is_not_reported() {
    // `a = -42;`
    let c = cx("a = -42;");
    let e = assign(other(sp(0, 1)), unary(UnOp::Neg, other(sp(5, 7)), sp(4, 7)), sp(0, 7));
    assert!(check_assign(&c, &e).is_none());
}

#[test]
fn compound_assign_is_not_reported() {
    // `a -= 42;` is not a plain assignment
    let c = cx("a -= 42;");
    let e = other(sp(0, 7));
    assert!(check_assign(&c, &e).is_none());
    assert!(Formatting.check_expr(&c, &e).is_empty());
}

#[test]
fn assign_non_unary_rhs_is_not_reported() {
    // `a =42;` ends the gap with `=` but the right side is no prefix operation
    let c = cx("a =42;");
    let e = assign(other(sp(0, 1)), other(sp(3, 5)), sp(0, 5));
    assert!(check_assign(&c, &e).is_none());
}

#[test]
fn assign_glued_not_and_deref_name_their_operator() {
    let c = cx("a =! b; c =* d;");
    let e = assign(other(sp(0, 1)), unary(UnOp::Not, other(sp(5, 6)), sp(3, 6)), sp(0, 6));
    let f = check_assign(&c, &e).expect("finding");
    assert_eq!(f.secondary_message, "to remove this lint, use either `!=` or `= !`");
    let e = assign(other(sp(8, 9)), unary(UnOp::Deref, other(sp(13, 14)), sp(11, 14)), sp(8, 14));
    let f = check_assign(&c, &e).expect("finding");
    assert_eq!(f.primary_span, sp(9, 13));
    assert_eq!(
        f.primary_message,
        "this looks like you are trying to use `.. *= ..`, but you really are doing `.. = (* ..)`"
    );
}

#[test]
fn assign_in_macro_is_not_reported() {
    let c = cx("a =- 42;");
    let lhs = Expr { node: ExprKind::Other, span: sp_in(0, 1, 3) };
    let rhs = unary(UnOp::Neg, other(sp_in(4, 6, 3)), sp_in(3, 6, 3));
    assert!(check_assign(&c, &assign(lhs, rhs, sp_in(0, 6, 3))).is_none());
    // only the right side comes from an expansion
    let rhs = unary(UnOp::Neg, other(sp_in(4, 6, 3)), sp_in(3, 6, 3));
    assert!(check_assign(&c, &assign(other(sp(0, 1)), rhs, sp(0, 6))).is_none());
}

#[test]
fn assign_gap_outside_text_is_not_reported() {
    let c = cx("a ");
    let e = assign(other(sp(0, 1)), unary(UnOp::Neg, other(sp(4, 6)), sp(3, 6)), sp(0, 6));
    assert!(check_assign(&c, &e).is_none());
}

// `if a {} else\nif b {}` and its one-line form
fn else_if(src: &str, inner_lo: usize) -> (Context, Expr) {
    let n = src.len();
    let inner = if_expr(sp(inner_lo, n), sp(n - 2, n), None);
    (cx(src), if_expr(sp(0, n), sp(5, 7), Some(inner)))
}

#[test]
fn else_if_across_lines_is_reported() {
    let (c, e) = else_if("if a {} else\nif b {}", 13);
    let f = check_else_if(&c, &e).expect("finding");
    assert_eq!(f.rule, Rule::SuspiciousElseFormatting);
    assert_eq!(f.primary_span, sp(7, 13));
    assert_eq!(f.secondary_span, sp(7, 13));
    assert_eq!(f.primary_message, "this is an `else if` but the formatting might hide it");
    assert_eq!(
        f.secondary_message,
        "to remove this lint, remove the `else` or remove the new line between `else` and `if`"
    );
}

#[test]
fn else_if_on_one_line_is_not_reported() {
    let (c, e) = else_if("if a {} else if b {}", 13);
    assert!(check_else_if(&c, &e).is_none());
}

#[test]
fn else_if_break_before_else_is_not_reported() {
    let (c, e) = else_if("if a {}\nelse if b {}", 13);
    assert!(check_else_if(&c, &e).is_none());
}

#[test]
fn plain_else_block_is_not_reported() {
    let src = "if a {} else\n{}";
    let els = other(sp(13, 15));
    let e = if_expr(sp(0, 15), sp(5, 7), Some(els));
    assert!(check_else_if(&cx(src), &e).is_none());
}

#[test]
fn else_if_let_across_lines_is_reported() {
    let src = "if let x = a {} else\nif b {}";
    let inner = if_expr(sp(21, 28), sp(26, 28), None);
    let e = Expr {
        node: ExprKind::IfLet(
            sp(7, 8),
            Box::new(other(sp(11, 12))),
            Box::new(empty_block(sp(13, 15))),
            Some(Box::new(inner)),
        ),
        span: sp(0, 28),
    };
    assert!(unsugar_if(&e).is_some());
    assert_eq!(Formatting.check_expr(&cx(src), &e).len(), 1);
}

#[test]
fn else_if_comment_with_else_before_keyword_follows_first_occurrence() {
    // the comment holds `else` and a line break; the real `else` is on the `if`'s line
    let src = "if a {} /* else */\nelse if b {}";
    let (c, e) = else_if(src, 24);
    assert!(check_else_if(&c, &e).is_some());
}

#[test]
fn else_if_in_macro_is_not_reported() {
    let src = "if a {} else\nif b {}";
    let inner = if_expr(sp_in(13, 20, 2), sp_in(18, 20, 2), None);
    let e = if_expr(sp(0, 20), sp(5, 7), Some(inner));
    assert!(check_else_if(&cx(src), &e).is_none());
}

fn ifs_block(src: &str, starts: &[usize], len: usize) -> Block {
    let stmts = starts.iter().map(|&lo| stmt(if_expr(sp(lo, lo + len), sp(lo + len - 2, lo + len), None))).collect();
    Block { stmts, span: sp(0, src.len()) }
}

#[test]
fn adjacent_ifs_on_one_line_are_reported() {
    let src = "if a {} if b {}";
    let b = ifs_block(src, &[0, 8], 7);
    let r = Formatting.check_block(&cx(src), &b);
    assert_eq!(r.len(), 1);
    assert_eq!(r[0].rule, Rule::SuspiciousElseFormatting);
    assert_eq!(r[0].primary_span, sp(7, 8));
    assert_eq!(r[0].primary_message, "this looks like an `else if` but the `else` is missing");
    assert_eq!(
        r[0].secondary_message,
        "to remove this lint, add the missing `else` or add a new line before the second `if`"
    );
}

#[test]
fn ifs_separated_by_blank_line_are_not_reported() {
    let src = "if a {}\n\nif b {}";
    let b = ifs_block(src, &[0, 9], 7);
    assert!(Formatting.check_block(&cx(src), &b).is_empty());
}

#[test]
fn if_chain_gives_one_finding_per_boundary() {
    let src = "if a {} if b {} if c {} if d {}";
    let b = ifs_block(src, &[0, 8, 16, 24], 7);
    let r = Formatting.check_block(&cx(src), &b);
    assert_eq!(r.len(), 3);
    assert_eq!(r[0].primary_span, sp(7, 8));
    assert_eq!(r[1].primary_span, sp(15, 16));
    assert_eq!(r[2].primary_span, sp(23, 24));
    let one = ifs_block(src, &[0], 7);
    assert!(Formatting.check_block(&cx(src), &one).is_empty());
}

#[test]
fn adjacent_ifs_with_semicolons_are_reported() {
    let src = "if a {}; if b {};";
    let first = semi(if_expr(sp(0, 7), sp(5, 7), None));
    let second = semi(if_expr(sp(9, 16), sp(14, 16), None));
    let b = Block { stmts: vec![first, second], span: sp(0, 17) };
    let r = Formatting.check_block(&cx(src), &b);
    assert_eq!(r.len(), 1);
    assert_eq!(r[0].primary_span, sp(7, 9));
}

#[test]
fn if_next_to_other_statement_is_not_reported() {
    let src = "if a {} b;";
    let first = stmt(if_expr(sp(0, 7), sp(5, 7), None));
    let second = semi(other(sp(8, 9)));
    let c = cx(src);
    assert!(check_consecutive_ifs(&c, &if_expr(sp(0, 7), sp(5, 7), None), &other(sp(8, 9))).is_none());
    let b = Block { stmts: vec![first, second, Stmt { node: StmtKind::Other, span: sp(9, 10) }], span: sp(0, 10) };
    assert!(Formatting.check_block(&c, &b).is_empty());
}

#[test]
fn adjacent_ifs_from_macro_are_not_reported() {
    let src = "if a {} if b {}";
    let first = if_expr(sp_in(0, 7, 1), sp_in(5, 7, 1), None);
    let second = if_expr(sp_in(8, 15, 1), sp_in(13, 15, 1), None);
    assert!(check_consecutive_ifs(&cx(src), &first, &second).is_none());
    let first = if_expr(sp(0, 7), sp(5, 7), None);
    let second = if_expr(sp_in(8, 15, 1), sp_in(13, 15, 1), None);
    assert!(check_consecutive_ifs(&cx(src), &first, &second).is_none());
}

#[test]
fn repeated_runs_give_the_same_findings() {
    let src = "if a {} if b {} if c {}";
    let b = ifs_block(src, &[0, 8, 16], 7);
    let c = cx(src);
    assert_eq!(Formatting.check_block(&c, &b), Formatting.check_block(&c, &b));
    let (c, e) = glued_neg();
    let once = Formatting.check_expr(&c, &e);
    assert_eq!(once.len(), 1);
    assert_eq!(once, Formatting.check_expr(&c, &e));
}

#[test]
fn pass_reports_under_both_rules() {
    assert_eq!(
        Formatting.get_lints(),
        vec![Rule::SuspiciousAssignmentFormatting, Rule::SuspiciousElseFormatting]
    );
}

#[test]
fn text_helpers() {
    assert!(ends_with_equals(&b" =".to_vec()));
    assert!(!ends_with_equals(&b" = ".to_vec()));
    assert!(!ends_with_equals(&Vec::new()));
    assert_eq!(find_else(&b" x else else".to_vec()), Some(3));
    assert_eq!(find_else(&b" els".to_vec()), None);
    assert!(has_newline_from(&b"a\nb".to_vec(), 1));
    assert!(!has_newline_from(&b"a\nb".to_vec(), 2));
    assert!(newline_after_else(&b" else \n".to_vec()));
    assert!(!newline_after_else(&b"\n else ".to_vec()));
    assert!(!newline_after_else(&b"\n\n".to_vec()));
}

#[test]
fn snippet_copies_the_range() {
    let c = cx("hello world");
    assert_eq!(c.snippet_opt(sp(6, 11)), Some(b"world".to_vec()));
    assert_eq!(c.snippet_opt(sp(6, 12)), None);
    assert_eq!(c.snippet_opt(sp(7, 6)), None);
}

#[test]
fn rules_warn_by_default_and_describe_themselves() {
    assert_eq!(Rule::SuspiciousAssignmentFormatting.default_level(), Level::Warn);
    assert_eq!(Rule::SuspiciousElseFormatting.default_level(), Level::Warn);
    assert_eq!(
        Rule::SuspiciousAssignmentFormatting.description(),
        "suspicious formatting of `*=`, `-=` or `!=`"
    );
    assert_eq!(Rule::SuspiciousElseFormatting.description(), "suspicious formatting of `else if`");
}
