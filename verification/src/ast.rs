//! The expression trees that the rewriter consumes and produces.
//!
//! One representation serves both sides of the rewrite: the input is a scalar
//! expression tree in the source shapes (`Literal`, `Binary`, `Conditional`,
//! `Cast`, `EscapeCall`, `TypeReference`, and `Opaque` for every other
//! shape), and the output reuses those shapes plus the five vector-runtime
//! forms the rewriter emits (`Select`, `Compare`, `Broadcast`, `VectorCast`,
//! and the vector type `Ty::Vector`).

use vstd::prelude::*;

verus! {

/// A binary operator of the source language.  Only the six comparison
/// operators trigger a rewrite rule; every other operator keeps its shape
/// and relies on the vector runtime's operator overloading.
#[derive(Clone, Copy, Debug, PartialEq, Eq, Structural)]
pub enum BinOp {
    Eq,
    Ne,
    Gt,
    Ge,
    Lt,
    Le,
    Add,
    Sub,
    Mul,
    Div,
}

/// A lane-wise vector comparator in the rewritten tree, one for each
/// comparison operator of [`BinOp`].
#[derive(Clone, Copy, Debug, PartialEq, Eq, Structural)]
pub enum CmpOp {
    Eq,
    Ne,
    Gt,
    Ge,
    Lt,
    Le,
}

/// A type mention.  The rewriter turns a bare `Name` reached by the default
/// traversal into `Vector(width, Name)`: "that many lanes of that type".
#[derive(Debug, PartialEq, Eq)]
pub enum Ty {
    /// A scalar type, by its source spelling.
    Name(String),
    /// A lane-vector type: the width expression and the element type.
    Vector(Box<Expr>, Box<Ty>),
}

/// An expression node.
///
/// The first eight variants are the source shapes the rewriter recognizes;
/// the last four are the vector-runtime calls it emits.  `Conditional`
/// carries the source location of its branch keyword, so that a
/// missing-else error can point at the branch itself.
#[derive(Debug, PartialEq, Eq)]
pub enum Expr {
    /// A plain identifier, by its source spelling.
    Var(String),
    /// A constant scalar value, by its source spelling.
    Literal(String),
    /// `Binary(op, left, right)`.
    Binary(BinOp, Box<Expr>, Box<Expr>),
    /// `Conditional(loc, cond, then, else)`: a branch with an optional else,
    /// located at `loc`.
    Conditional(u64, Box<Expr>, Box<Expr>, Option<Box<Expr>>),
    /// `Cast(operand, target)`: a conversion of `operand` to type `target`.
    Cast(Box<Expr>, Box<Ty>),
    /// A call-like escape form `name(inner)`.  Only the names `scalar` and
    /// `verbatim` are recognized; any other name passes through untouched.
    EscapeCall(String, Box<Expr>),
    /// A type mention in expression position (for instance the type of an
    /// ascription).
    TypeReference(Box<Ty>),
    /// Any other node shape: a tag and the child expressions, recursed into
    /// structurally and otherwise left as they are.
    Opaque(String, Box<ExprList>),
    /// `Select(cond, then, else)`: the lane-wise select the rewriter emits
    /// for a conditional.
    Select(Box<Expr>, Box<Expr>, Box<Expr>),
    /// `Compare(cmp, left, right)`: a lane-wise comparison.
    Compare(CmpOp, Box<Expr>, Box<Expr>),
    /// `Broadcast(width, scalar)`: one scalar splat across `width` lanes.
    Broadcast(Box<Expr>, Box<Expr>),
    /// `VectorCast(width, operand, target)`: a lane-wise cast of `operand`
    /// to `width` lanes of the scalar type `target`.
    VectorCast(Box<Expr>, Box<Expr>, Box<Ty>),
}

/// The children of an opaque node, as a list so that both executable code
/// and specifications can build and walk it structurally.
#[derive(Debug, PartialEq, Eq)]
pub enum ExprList {
    Nil,
    Cons(Box<Expr>, Box<ExprList>),
}

impl Ty {
    /// An equal copy, built leaf by leaf.
    pub fn duplicate(&self) -> (r: Ty)
        ensures
            r == *self,
        decreases *self,
    {
        match self {
            Ty::Name(s) => Ty::Name(s.clone()),
            Ty::Vector(w, t) => Ty::Vector(Box::new(w.duplicate()), Box::new(t.duplicate())),
        }
    }
}

impl Expr {
    /// An equal copy, built leaf by leaf.
    pub fn duplicate(&self) -> (r: Expr)
        ensures
            r == *self,
        decreases *self,
    {
        match self {
            Expr::Var(x) => Expr::Var(x.clone()),
            Expr::Literal(l) => Expr::Literal(l.clone()),
            Expr::Binary(op, l, r) => Expr::Binary(
                *op,
                Box::new(l.duplicate()),
                Box::new(r.duplicate()),
            ),
            Expr::Conditional(loc, c, t, els) => {
                let eb: Option<Box<Expr>> = match els {
                    Option::Some(e) => Option::Some(Box::new(e.duplicate())),
                    Option::None => Option::None,
                };
                Expr::Conditional(*loc, Box::new(c.duplicate()), Box::new(t.duplicate()), eb)
            },
            Expr::Cast(operand, target) => Expr::Cast(
                Box::new(operand.duplicate()),
                Box::new(target.duplicate()),
            ),
            Expr::EscapeCall(name, inner) => Expr::EscapeCall(
                name.clone(),
                Box::new(inner.duplicate()),
            ),
            Expr::TypeReference(t) => Expr::TypeReference(Box::new(t.duplicate())),
            Expr::Opaque(tag, children) => Expr::Opaque(
                tag.clone(),
                Box::new(children.duplicate()),
            ),
            Expr::Select(c, t, eb) => Expr::Select(
                Box::new(c.duplicate()),
                Box::new(t.duplicate()),
                Box::new(eb.duplicate()),
            ),
            Expr::Compare(cmp, l, r) => Expr::Compare(
                *cmp,
                Box::new(l.duplicate()),
                Box::new(r.duplicate()),
            ),
            Expr::Broadcast(w, x) => Expr::Broadcast(
                Box::new(w.duplicate()),
                Box::new(x.duplicate()),
            ),
            Expr::VectorCast(w, x, t) => Expr::VectorCast(
                Box::new(w.duplicate()),
                Box::new(x.duplicate()),
                Box::new(t.duplicate()),
            ),
        }
    }
}

/// The children list holding exactly the expressions of `s`, in order.
pub open spec fn expr_list_of(s: Seq<Expr>) -> ExprList
    decreases s.len(),
{
    if s.len() == 0 {
        ExprList::Nil
    } else {
        ExprList::Cons(Box::new(s[0]), Box::new(expr_list_of(s.drop_first())))
    }
}

impl ExprList {
    /// The list of the vector's expressions, in their order.
    pub fn from_vec(v: Vec<Expr>) -> (r: ExprList)
        ensures
            r == expr_list_of(v@),
    {
        let ghost orig: Seq<Expr> = v@;
        let mut rest = v;
        let mut acc = ExprList::Nil;
        proof {
            assert(orig.skip(orig.len() as int) =~= Seq::<Expr>::empty());
        }
        while rest.len() > 0
            invariant
                rest@.len() <= orig.len(),
                rest@ == orig.take(rest@.len() as int),
                acc == expr_list_of(orig.skip(rest@.len() as int)),
            decreases rest.len(),
        {
            let ghost n = rest@.len() as int;
            let e = rest.pop().unwrap();
            acc = ExprList::Cons(Box::new(e), Box::new(acc));
            proof {
                assert(rest@ =~= orig.take(n - 1));
                let s = orig.skip(n - 1);
                assert(s.drop_first() =~= orig.skip(n));
                assert(s[0] == orig[n - 1]);
            }
        }
        proof {
            assert(orig.skip(0) =~= orig);
        }
        acc
    }
}

impl ExprList {
    /// An equal copy, built leaf by leaf.
    pub fn duplicate(&self) -> (r: ExprList)
        ensures
            r == *self,
        decreases *self,
    {
        match self {
            ExprList::Nil => ExprList::Nil,
            ExprList::Cons(h, t) => ExprList::Cons(
                Box::new(h.duplicate()),
                Box::new(t.duplicate()),
            ),
        }
    }
}

/// The one structural fault the rewriter detects.
#[derive(Clone, Copy, Debug, PartialEq, Eq, Structural)]
pub enum ErrorKind {
    /// A conditional inside the vectorized region has no else branch, so no
    /// lane-wise select can be formed for it.
    MissingElseBranch,
}

/// One entry of an error report: what went wrong and the source location of
/// the node it went wrong at.
#[derive(Clone, Copy, Debug, PartialEq, Eq, Structural)]
pub struct RewriteError {
    pub loc: u64,
    pub kind: ErrorKind,
}

impl RewriteError {
    /// The report entry's message, for the host's error channel.
    pub fn message(&self) -> (r: String)
        ensures
            self.kind == ErrorKind::MissingElseBranch ==> r@ =~= "vectorizing a branch needs a matching else"@,
    {
        match self.kind {
            ErrorKind::MissingElseBranch => "vectorizing a branch needs a matching else".to_owned(),
        }
    }
}

} // verus!
