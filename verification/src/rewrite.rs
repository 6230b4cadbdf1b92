//! The rewriting engine: the per-node-kind rule table as spec functions, and
//! the verified executable traversal that implements it.
//!
//! [`rewritten`] says what tree one rewrite call produces and
//! [`error_report`] says which structural errors it collects, both by
//! recursion over the input tree in the traversal's own pre-order.  The
//! executable entry point [`rewrite`] returns the rewritten tree exactly
//! when the report is empty, and the full report otherwise.

use vstd::prelude::*;

use crate::ast::BinOp;
use crate::ast::CmpOp;
use crate::ast::ErrorKind;
use crate::ast::Expr;
use crate::ast::ExprList;
use crate::ast::RewriteError;
use crate::ast::Ty;

verus! {

/// Whether `op` is one of the six comparison operators, the ones whose
/// rewrite is a lane-wise comparator call.
pub open spec fn is_comparison(op: BinOp) -> bool {
    match op {
        BinOp::Eq | BinOp::Ne | BinOp::Gt | BinOp::Ge | BinOp::Lt | BinOp::Le => true,
        _ => false,
    }
}

/// The fixed bijection from a comparison operator to the lane-wise
/// comparator that replaces it.
pub open spec fn comparator_of(op: BinOp) -> CmpOp
    recommends
        is_comparison(op),
{
    match op {
        BinOp::Eq => CmpOp::Eq,
        BinOp::Ne => CmpOp::Ne,
        BinOp::Gt => CmpOp::Gt,
        BinOp::Ge => CmpOp::Ge,
        BinOp::Lt => CmpOp::Lt,
        BinOp::Le => CmpOp::Le,
        _ => arbitrary(),
    }
}

/// One verbatim wrapper peeled off, if `e` is one.
///
/// The `scalar` escape broadcasts its argument as it stands, except that a
/// `verbatim` wrapper directly under it is dropped first: `verbatim` marks
/// its payload as already fully formed, so the payload itself is what the
/// broadcast receives, untouched.
pub open spec fn peel_verbatim(e: Expr) -> Expr {
    match e {
        Expr::EscapeCall(name, inner) => if name@ == "verbatim"@ {
            *inner
        } else {
            e
        },
        _ => e,
    }
}

/// The tree that rewriting `e` under the lane count `w` produces, rule by
/// rule:
///
/// - a literal becomes a broadcast of itself, and is not recursed into;
/// - a comparison becomes its comparator over the rewritten operands, any
///   other binary operator keeps its shape over the rewritten operands;
/// - a conditional with an else becomes a lane-wise select over its three
///   rewritten parts; one without an else is a structural error (see
///   [`error_report`]) and keeps its shape, children rewritten;
/// - a cast becomes a lane-wise cast of the rewritten operand, its target
///   type untouched;
/// - `verbatim(inner)` is `inner`, untouched; `scalar(inner)` is a broadcast
///   of `inner` untouched but for one peeled verbatim wrapper; an escape
///   with any other name passes through whole, its contents untouched;
/// - a type mention becomes the vector type of that many lanes of it;
/// - every other shape keeps its shape with every child rewritten.
///
/// The same `w` is copied into every generated site.
pub open spec fn rewritten(w: Expr, e: Expr) -> Expr
    decreases e,
{
    match e {
        Expr::Var(x) => Expr::Var(x),
        Expr::Literal(l) => Expr::Broadcast(Box::new(w), Box::new(Expr::Literal(l))),
        Expr::Binary(op, l, r) => if is_comparison(op) {
            Expr::Compare(
                comparator_of(op),
                Box::new(rewritten(w, *l)),
                Box::new(rewritten(w, *r)),
            )
        } else {
            Expr::Binary(op, Box::new(rewritten(w, *l)), Box::new(rewritten(w, *r)))
        },
        Expr::Conditional(loc, c, t, els) => match els {
            Option::Some(eb) => Expr::Select(
                Box::new(rewritten(w, *c)),
                Box::new(rewritten(w, *t)),
                Box::new(rewritten(w, *eb)),
            ),
            Option::None => Expr::Conditional(
                loc,
                Box::new(rewritten(w, *c)),
                Box::new(rewritten(w, *t)),
                Option::None,
            ),
        },
        Expr::Cast(operand, target) => Expr::VectorCast(
            Box::new(w),
            Box::new(rewritten(w, *operand)),
            target,
        ),
        Expr::EscapeCall(name, inner) => if name@ == "verbatim"@ {
            *inner
        } else if name@ == "scalar"@ {
            Expr::Broadcast(Box::new(w), Box::new(peel_verbatim(*inner)))
        } else {
            Expr::EscapeCall(name, inner)
        },
        Expr::TypeReference(t) => Expr::TypeReference(Box::new(Ty::Vector(Box::new(w), t))),
        Expr::Opaque(tag, children) => Expr::Opaque(
            tag,
            Box::new(rewritten_list(w, *children)),
        ),
        Expr::Select(c, t, eb) => Expr::Select(
            Box::new(rewritten(w, *c)),
            Box::new(rewritten(w, *t)),
            Box::new(rewritten(w, *eb)),
        ),
        Expr::Compare(cmp, l, r) => Expr::Compare(
            cmp,
            Box::new(rewritten(w, *l)),
            Box::new(rewritten(w, *r)),
        ),
        Expr::Broadcast(wd, x) => Expr::Broadcast(
            Box::new(rewritten(w, *wd)),
            Box::new(rewritten(w, *x)),
        ),
        Expr::VectorCast(wd, x, t) => Expr::VectorCast(
            Box::new(rewritten(w, *wd)),
            Box::new(rewritten(w, *x)),
            t,
        ),
    }
}

/// The rewritten children of an opaque node, in order.
pub open spec fn rewritten_list(w: Expr, l: ExprList) -> ExprList
    decreases l,
{
    match l {
        ExprList::Nil => ExprList::Nil,
        ExprList::Cons(h, t) => ExprList::Cons(
            Box::new(rewritten(w, *h)),
            Box::new(rewritten_list(w, *t)),
        ),
    }
}

/// The structural errors one traversal of `e` collects, in the order it
/// meets them: a missing-else error for every conditional without an else
/// branch, the conditional itself before its children, and nothing from
/// inside an escape call or a cast's target type, which the traversal never
/// enters.
pub open spec fn error_report(e: Expr) -> Seq<RewriteError>
    decreases e,
{
    match e {
        Expr::Var(_) => Seq::empty(),
        Expr::Literal(_) => Seq::empty(),
        Expr::Binary(_, l, r) => error_report(*l) + error_report(*r),
        Expr::Conditional(loc, c, t, els) => match els {
            Option::Some(eb) => error_report(*c) + error_report(*t) + error_report(*eb),
            Option::None => seq![
                RewriteError { loc, kind: ErrorKind::MissingElseBranch },
            ] + error_report(*c) + error_report(*t),
        },
        Expr::Cast(operand, _) => error_report(*operand),
        Expr::EscapeCall(_, _) => Seq::empty(),
        Expr::TypeReference(_) => Seq::empty(),
        Expr::Opaque(_, children) => error_report_list(*children),
        Expr::Select(c, t, eb) => error_report(*c) + error_report(*t) + error_report(*eb),
        Expr::Compare(_, l, r) => error_report(*l) + error_report(*r),
        Expr::Broadcast(wd, x) => error_report(*wd) + error_report(*x),
        Expr::VectorCast(wd, x, _) => error_report(*wd) + error_report(*x),
    }
}

/// The structural errors of an opaque node's children, in order.
pub open spec fn error_report_list(l: ExprList) -> Seq<RewriteError>
    decreases l,
{
    match l {
        ExprList::Nil => Seq::empty(),
        ExprList::Cons(h, t) => error_report(*h) + error_report_list(*t),
    }
}

/// Whether `name` spells `expected`.
fn name_is(name: &String, expected: &str) -> (r: bool)
    ensures
        r == (name@ == expected@),
{
    let owned: String = expected.to_owned();
    name.eq(&owned)
}

/// The comparator for a comparison operator, and nothing for any other
/// binary operator.
pub fn comparator(op: BinOp) -> (r: Option<CmpOp>)
    ensures
        is_comparison(op) ==> r == Option::Some(comparator_of(op)),
        !is_comparison(op) ==> r is None,
{
    match op {
        BinOp::Eq => Option::Some(CmpOp::Eq),
        BinOp::Ne => Option::Some(CmpOp::Ne),
        BinOp::Gt => Option::Some(CmpOp::Gt),
        BinOp::Ge => Option::Some(CmpOp::Ge),
        BinOp::Lt => Option::Some(CmpOp::Lt),
        BinOp::Le => Option::Some(CmpOp::Le),
        _ => Option::None,
    }
}

/// The argument the `scalar` escape broadcasts: `e` with one directly
/// nested `verbatim` wrapper peeled off.
fn peeled_verbatim<'a>(e: &'a Expr) -> (r: &'a Expr)
    ensures
        *r == peel_verbatim(*e),
{
    match e {
        Expr::EscapeCall(name, inner) => if name_is(name, "verbatim") {
            &**inner
        } else {
            e
        },
        _ => e,
    }
}

/// One step of the traversal: the rewritten node for `e`, with every
/// structural error met on the way appended to `errs` in traversal order.
fn visit(width: &Expr, e: &Expr, errs: &mut Vec<RewriteError>) -> (r: Expr)
    ensures
        r == rewritten(*width, *e),
        final(errs)@ == old(errs)@ + error_report(*e),
    decreases *e,
{
    match e {
        Expr::Var(x) => {
            proof {
                assert(errs@ =~= errs@ + error_report(*e));
            }
            Expr::Var(x.clone())
        },
        Expr::Literal(l) => {
            proof {
                assert(errs@ =~= errs@ + error_report(*e));
            }
            Expr::Broadcast(Box::new(width.duplicate()), Box::new(Expr::Literal(l.clone())))
        },
        Expr::Binary(op, l, r) => {
            let rl = visit(width, l, errs);
            let rr = visit(width, r, errs);
            proof {
                assert(errs@ =~= old(errs)@ + error_report(*e));
            }
            match comparator(*op) {
                Option::Some(cmp) => Expr::Compare(cmp, Box::new(rl), Box::new(rr)),
                Option::None => Expr::Binary(*op, Box::new(rl), Box::new(rr)),
            }
        },
        Expr::Conditional(loc, c, t, els) => match els {
            Option::Some(eb) => {
                let rc = visit(width, c, errs);
                let rt = visit(width, t, errs);
                let re = visit(width, eb, errs);
                proof {
                    assert(errs@ =~= old(errs)@ + error_report(*e));
                }
                Expr::Select(Box::new(rc), Box::new(rt), Box::new(re))
            },
            Option::None => {
                errs.push(RewriteError { loc: *loc, kind: ErrorKind::MissingElseBranch });
                let rc = visit(width, c, errs);
                let rt = visit(width, t, errs);
                proof {
                    assert(errs@ =~= old(errs)@ + error_report(*e));
                }
                Expr::Conditional(*loc, Box::new(rc), Box::new(rt), Option::None)
            },
        },
        Expr::Cast(operand, target) => {
            let ro = visit(width, operand, errs);
            Expr::VectorCast(
                Box::new(width.duplicate()),
                Box::new(ro),
                Box::new(target.duplicate()),
            )
        },
        Expr::EscapeCall(name, inner) => {
            proof {
                assert(errs@ =~= errs@ + error_report(*e));
            }
            if name_is(name, "verbatim") {
                inner.duplicate()
            } else if name_is(name, "scalar") {
                let peeled = peeled_verbatim(inner);
                Expr::Broadcast(Box::new(width.duplicate()), Box::new(peeled.duplicate()))
            } else {
                Expr::EscapeCall(name.clone(), Box::new(inner.duplicate()))
            }
        },
        Expr::TypeReference(t) => {
            proof {
                assert(errs@ =~= errs@ + error_report(*e));
            }
            Expr::TypeReference(
                Box::new(Ty::Vector(Box::new(width.duplicate()), Box::new(t.duplicate()))),
            )
        },
        Expr::Opaque(tag, children) => {
            let rc = visit_list(width, children, errs);
            Expr::Opaque(tag.clone(), Box::new(rc))
        },
        Expr::Select(c, t, eb) => {
            let rc = visit(width, c, errs);
            let rt = visit(width, t, errs);
            let re = visit(width, eb, errs);
            proof {
                assert(errs@ =~= old(errs)@ + error_report(*e));
            }
            Expr::Select(Box::new(rc), Box::new(rt), Box::new(re))
        },
        Expr::Compare(cmp, l, r) => {
            let rl = visit(width, l, errs);
            let rr = visit(width, r, errs);
            proof {
                assert(errs@ =~= old(errs)@ + error_report(*e));
            }
            Expr::Compare(*cmp, Box::new(rl), Box::new(rr))
        },
        Expr::Broadcast(wd, x) => {
            let rw = visit(width, wd, errs);
            let rx = visit(width, x, errs);
            proof {
                assert(errs@ =~= old(errs)@ + error_report(*e));
            }
            Expr::Broadcast(Box::new(rw), Box::new(rx))
        },
        Expr::VectorCast(wd, x, t) => {
            let rw = visit(width, wd, errs);
            let rx = visit(width, x, errs);
            proof {
                assert(errs@ =~= old(errs)@ + error_report(*e));
            }
            Expr::VectorCast(Box::new(rw), Box::new(rx), Box::new(t.duplicate()))
        },
    }
}

/// The traversal over an opaque node's children, left to right.
fn visit_list(width: &Expr, l: &ExprList, errs: &mut Vec<RewriteError>) -> (r: ExprList)
    ensures
        r == rewritten_list(*width, *l),
        final(errs)@ == old(errs)@ + error_report_list(*l),
    decreases *l,
{
    match l {
        ExprList::Nil => {
            proof {
                assert(errs@ =~= errs@ + error_report_list(*l));
            }
            ExprList::Nil
        },
        ExprList::Cons(h, t) => {
            let rh = visit(width, h, errs);
            let rt = visit_list(width, t, errs);
            proof {
                assert(errs@ =~= old(errs)@ + error_report_list(*l));
            }
            ExprList::Cons(Box::new(rh), Box::new(rt))
        },
    }
}

/// One rewrite call: the tree `tree`, rewritten under the lane count
/// `width`, or the full report of every structural error one traversal of
/// `tree` meets.
///
/// The two outcomes are mutually exclusive: a tree comes back exactly when
/// the report would have been empty, and a report is never empty.
pub fn rewrite(width: &Expr, tree: &Expr) -> (r: Result<Expr, Vec<RewriteError>>)
    ensures
        r is Ok <==> error_report(*tree).len() == 0,
        (r matches Ok(out) ==> out == rewritten(*width, *tree)),
        (r matches Err(report) ==> report@ == error_report(*tree) && report@.len() > 0),
{
    let mut errs: Vec<RewriteError> = Vec::new();
    let out = visit(width, tree, &mut errs);
    proof {
        assert(errs@ =~= error_report(*tree));
    }
    if errs.len() == 0 {
        Result::Ok(out)
    } else {
        Result::Err(errs)
    }
}

} // verus!
