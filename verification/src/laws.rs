//! The laws of the rule table, each stated over the spec functions that
//! [`crate::rewrite`]'s contract speaks of and proved from their
//! definitions.

use vstd::prelude::*;

use crate::ast::BinOp;
use crate::ast::ErrorKind;
use crate::ast::Expr;
use crate::ast::ExprList;
use crate::ast::RewriteError;
use crate::rewrite::comparator_of;
use crate::rewrite::error_report;
use crate::rewrite::error_report_list;
use crate::rewrite::is_comparison;
use crate::rewrite::rewritten;

verus! {

/// Law: a comparison rewrites to its comparator applied to the rewritten
/// operands, and collects exactly the operands' errors.
pub proof fn lemma_comparison_rule(w: Expr, op: BinOp, a: Expr, b: Expr)
    requires
        is_comparison(op),
    ensures
        rewritten(w, Expr::Binary(op, Box::new(a), Box::new(b))) == Expr::Compare(
            comparator_of(op),
            Box::new(rewritten(w, a)),
            Box::new(rewritten(w, b)),
        ),
        error_report(Expr::Binary(op, Box::new(a), Box::new(b))) == error_report(a)
            + error_report(b),
{
}

/// Law: the operator-to-comparator table is a bijection — two comparison
/// operators share a comparator only if they are the same operator.
pub proof fn lemma_comparator_injective(op1: BinOp, op2: BinOp)
    requires
        is_comparison(op1),
        is_comparison(op2),
    ensures
        (comparator_of(op1) == comparator_of(op2)) == (op1 == op2),
{
}

/// Law: a literal rewrites to a broadcast of the literal itself, a leaf: no
/// further rewriting is applied to the literal inside.
pub proof fn lemma_literal_rule(w: Expr, l: String)
    ensures
        rewritten(w, Expr::Literal(l)) == Expr::Broadcast(
            Box::new(w),
            Box::new(Expr::Literal(l)),
        ),
        error_report(Expr::Literal(l)) == Seq::<RewriteError>::empty(),
{
}

/// Law: a conditional with an else branch rewrites to the lane-wise select
/// over its three rewritten parts.
pub proof fn lemma_conditional_rule(w: Expr, loc: u64, c: Expr, t: Expr, eb: Expr)
    ensures
        rewritten(
            w,
            Expr::Conditional(loc, Box::new(c), Box::new(t), Option::Some(Box::new(eb))),
        ) == Expr::Select(
            Box::new(rewritten(w, c)),
            Box::new(rewritten(w, t)),
            Box::new(rewritten(w, eb)),
        ),
{
}

/// Law: a conditional without an else branch contributes one missing-else
/// error located at the conditional itself, ahead of whatever its children
/// contribute; when the children are clean, the report holds exactly that
/// one error, and by [`crate::rewrite`]'s contract the call then yields the
/// report and no tree.
pub proof fn lemma_missing_else_rule(loc: u64, c: Expr, t: Expr)
    ensures
        error_report(Expr::Conditional(loc, Box::new(c), Box::new(t), Option::None)) == seq![
            RewriteError { loc, kind: ErrorKind::MissingElseBranch },
        ] + error_report(c) + error_report(t),
        error_report(c).len() == 0 && error_report(t).len() == 0 ==> error_report(
            Expr::Conditional(loc, Box::new(c), Box::new(t), Option::None),
        ) == seq![RewriteError { loc, kind: ErrorKind::MissingElseBranch }],
{
    let whole = error_report(Expr::Conditional(loc, Box::new(c), Box::new(t), Option::None));
    let one = seq![RewriteError { loc, kind: ErrorKind::MissingElseBranch }];
    if error_report(c).len() == 0 && error_report(t).len() == 0 {
        assert(whole =~= one);
    }
}

/// Law: the `verbatim` escape splices its contents in completely unchanged,
/// whatever vectorizable shapes they hold, and nothing inside it is entered
/// or reported.
pub proof fn lemma_verbatim_rule(w: Expr, name: String, e: Expr)
    requires
        name@ == "verbatim"@,
    ensures
        rewritten(w, Expr::EscapeCall(name, Box::new(e))) == e,
        error_report(Expr::EscapeCall(name, Box::new(e))) == Seq::<RewriteError>::empty(),
{
}

/// Law: the `scalar` escape broadcasts its contents unchanged, for any
/// contents that are not themselves a `verbatim` wrapper (one directly
/// nested `verbatim` wrapper is peeled first; see
/// [`lemma_escape_nesting_rule`]), and nothing inside it is entered or
/// reported.
pub proof fn lemma_scalar_rule(w: Expr, name: String, e: Expr)
    requires
        name@ == "scalar"@,
        !(e matches Expr::EscapeCall(n, _) && n@ == "verbatim"@),
    ensures
        rewritten(w, Expr::EscapeCall(name, Box::new(e))) == Expr::Broadcast(
            Box::new(w),
            Box::new(e),
        ),
        error_report(Expr::EscapeCall(name, Box::new(e))) == Seq::<RewriteError>::empty(),
{
    reveal_strlit("scalar");
    reveal_strlit("verbatim");
    assert("scalar"@.len() == 6);
    assert("verbatim"@.len() == 8);
    assert("scalar"@ != "verbatim"@);
}

/// Law: nesting the two escapes is well defined in either order and never
/// recurses into the payload.  `scalar(verbatim(e))` broadcasts `e` itself,
/// untouched; `verbatim(scalar(e))` splices the inner escape call through
/// unchanged.
pub proof fn lemma_escape_nesting_rule(w: Expr, sname: String, vname: String, e: Expr)
    requires
        sname@ == "scalar"@,
        vname@ == "verbatim"@,
    ensures
        rewritten(
            w,
            Expr::EscapeCall(sname, Box::new(Expr::EscapeCall(vname, Box::new(e)))),
        ) == Expr::Broadcast(Box::new(w), Box::new(e)),
        rewritten(
            w,
            Expr::EscapeCall(vname, Box::new(Expr::EscapeCall(sname, Box::new(e)))),
        ) == Expr::EscapeCall(sname, Box::new(e)),
{
    reveal_strlit("scalar");
    reveal_strlit("verbatim");
    assert("scalar"@.len() == 6);
    assert("verbatim"@.len() == 8);
    assert("scalar"@ != "verbatim"@);
}

/// Law: no error is ever dropped — every node kind that the traversal
/// recurses into passes its children's reports on whole and in order, so
/// two independent missing-else branches both stand in the one report.
pub proof fn lemma_errors_accumulate(op: BinOp, tag: String, a: Expr, b: Expr, t: ExprList)
    ensures
        error_report(Expr::Binary(op, Box::new(a), Box::new(b))) == error_report(a)
            + error_report(b),
        error_report_list(ExprList::Cons(Box::new(a), Box::new(t))) == error_report(a)
            + error_report_list(t),
        error_report(Expr::Opaque(tag, Box::new(t))) == error_report_list(t),
{
}

} // verus!
