use vectorize::rewrite;
use vectorize::BinOp;
use vectorize::CmpOp;
use vectorize::ErrorKind;
use vectorize::Expr;
use vectorize::ExprList;
use vectorize::RewriteError;
use vectorize::Ty;

fn v(name: &str) -> Expr {
    Expr::Var(name.to_string())
}

fn lit(text: &str) -> Expr {
    Expr::Literal(text.to_string())
}

fn bx(e: Expr) -> Box<Expr> {
    Box::new(e)
}

fn bin(op: BinOp, l: Expr, r: Expr) -> Expr {
    Expr::Binary(op, bx(l), bx(r))
}

fn cond(loc: u64, c: Expr, t: Expr, e: Expr) -> Expr {
    Expr::Conditional(loc, bx(c), bx(t), Some(bx(e)))
}

fn cond_no_else(loc: u64, c: Expr, t: Expr) -> Expr {
    Expr::Conditional(loc, bx(c), bx(t), None)
}

fn escape(name: &str, inner: Expr) -> Expr {
    Expr::EscapeCall(name.to_string(), bx(inner))
}

fn cast(operand: Expr, ty: &str) -> Expr {
    Expr::Cast(bx(operand), Box::new(Ty::Name(ty.to_string())))
}

fn select(c: Expr, t: Expr, e: Expr) -> Expr {
    Expr::Select(bx(c), bx(t), bx(e))
}

fn compare(cmp: CmpOp, l: Expr, r: Expr) -> Expr {
    Expr::Compare(cmp, bx(l), bx(r))
}

fn broadcast(w: Expr, x: Expr) -> Expr {
    Expr::Broadcast(bx(w), bx(x))
}

fn vector_cast(w: Expr, x: Expr, ty: &str) -> Expr {
    Expr::VectorCast(bx(w), bx(x), Box::new(Ty::Name(ty.to_string())))
}

fn width() -> Expr {
    lit("4")
}

fn opaque(tag: &str, children: Vec<Expr>) -> Expr {
    Expr::Opaque(tag.to_string(), Box::new(ExprList::from_vec(children)))
}

fn rewrite_ok(tree: &Expr) -> Expr {
    rewrite(&width(), tree).expect("expected a rewritten tree, got an error report")
}

fn rewrite_err(tree: &Expr) -> Vec<RewriteError> {
    match rewrite(&width(), tree) {
        Ok(_) => panic!("expected an error report, got a rewritten tree"),
        Err(report) => report,
    }
}

#[test]
fn comparisons_become_comparators() {
    let table = vec![
        (BinOp::Eq, CmpOp::Eq),
        (BinOp::Ne, CmpOp::Ne),
        (BinOp::Gt, CmpOp::Gt),
        (BinOp::Ge, CmpOp::Ge),
        (BinOp::Lt, CmpOp::Lt),
        (BinOp::Le, CmpOp::Le),
    ];
    for (op, cmp) in table {
        let out = rewrite_ok(&bin(op, v("a"), v("b")));
        assert_eq!(out, compare(cmp, v("a"), v("b")));
    }
}

#[test]
fn comparison_operands_are_recursed_into() {
    let out = rewrite_ok(&bin(BinOp::Eq, v("y"), lit("1")));
    assert_eq!(out, compare(CmpOp::Eq, v("y"), broadcast(width(), lit("1"))));
}

#[test]
fn arithmetic_operators_keep_their_shape() {
    for op in vec![BinOp::Add, BinOp::Sub, BinOp::Mul, BinOp::Div] {
        let out = rewrite_ok(&bin(op, v("x"), lit("2")));
        assert_eq!(out, bin(op, v("x"), broadcast(width(), lit("2"))));
    }
}

#[test]
fn literal_becomes_a_broadcast_leaf() {
    let out = rewrite_ok(&lit("1"));
    assert_eq!(out, broadcast(width(), lit("1")));
}

#[test]
fn conditional_with_else_becomes_select() {
    let out = rewrite_ok(&cond(3, v("c"), v("a"), v("b")));
    assert_eq!(out, select(v("c"), v("a"), v("b")));
}

#[test]
fn missing_else_gives_one_located_error() {
    let report = rewrite_err(&cond_no_else(11, bin(BinOp::Eq, v("y"), lit("1")), v("x")));
    assert_eq!(
        report,
        vec![RewriteError { loc: 11, kind: ErrorKind::MissingElseBranch }]
    );
    assert_eq!(
        report[0].message(),
        "vectorizing a branch needs a matching else"
    );
}

#[test]
fn verbatim_contents_are_spliced_unchanged() {
    let payload = opaque("Simd::splat", vec![lit("3")]);
    let out = rewrite_ok(&escape("verbatim", payload));
    assert_eq!(out, opaque("Simd::splat", vec![lit("3")]));
}

#[test]
fn verbatim_suppresses_every_inner_rewrite() {
    let payload = cond(9, bin(BinOp::Eq, v("y"), lit("1")), lit("2"), v("x"));
    let out = rewrite_ok(&escape("verbatim", payload));
    assert_eq!(out, cond(9, bin(BinOp::Eq, v("y"), lit("1")), lit("2"), v("x")));
}

#[test]
fn scalar_broadcasts_contents_unmodified() {
    let payload = bin(BinOp::Add, lit("1.0"), lit("1.0"));
    let out = rewrite_ok(&escape("scalar", payload));
    assert_eq!(
        out,
        broadcast(width(), bin(BinOp::Add, lit("1.0"), lit("1.0")))
    );
}

#[test]
fn scalar_of_verbatim_broadcasts_the_bare_payload() {
    let out = rewrite_ok(&escape("scalar", escape("verbatim", v("e"))));
    assert_eq!(out, broadcast(width(), v("e")));
}

#[test]
fn verbatim_of_scalar_splices_the_escape_call_unchanged() {
    let out = rewrite_ok(&escape("verbatim", escape("scalar", v("e"))));
    assert_eq!(out, escape("scalar", v("e")));
}

#[test]
fn unrecognized_escape_name_passes_through_untouched() {
    let out = rewrite_ok(&escape("splat", lit("1")));
    assert_eq!(out, escape("splat", lit("1")));
}

#[test]
fn sibling_missing_else_errors_are_both_reported_in_order() {
    let tree = bin(
        BinOp::Add,
        cond_no_else(5, v("c"), v("a")),
        cond_no_else(8, v("d"), v("b")),
    );
    let report = rewrite_err(&tree);
    assert_eq!(
        report,
        vec![
            RewriteError { loc: 5, kind: ErrorKind::MissingElseBranch },
            RewriteError { loc: 8, kind: ErrorKind::MissingElseBranch },
        ]
    );
}

#[test]
fn nested_missing_else_is_reported_at_the_inner_branch() {
    let tree = cond(
        1,
        v("c"),
        cond_no_else(2, v("d"), v("a")),
        cond_no_else(3, v("e"), v("b")),
    );
    let report = rewrite_err(&tree);
    assert_eq!(
        report,
        vec![
            RewriteError { loc: 2, kind: ErrorKind::MissingElseBranch },
            RewriteError { loc: 3, kind: ErrorKind::MissingElseBranch },
        ]
    );
}

#[test]
fn cast_target_type_is_not_vectorized() {
    let out = rewrite_ok(&cast(v("y"), "f32"));
    assert_eq!(out, vector_cast(width(), v("y"), "f32"));
}

#[test]
fn width_is_copied_verbatim_even_when_not_a_literal() {
    let w = bin(BinOp::Mul, v("n"), lit("2"));
    let out = rewrite(&w, &lit("7")).expect("no error expected");
    assert_eq!(out, Expr::Broadcast(bx(w), bx(lit("7"))));
}

#[test]
fn scenario_else_if_chain_becomes_nested_selects() {
    let tree = cond(
        1,
        bin(BinOp::Eq, v("y"), lit("1")),
        v("x"),
        cond(
            2,
            bin(BinOp::Eq, v("y"), lit("2")),
            bin(BinOp::Add, v("x"), lit("1.0")),
            bin(BinOp::Add, v("x"), cast(v("y"), "f32")),
        ),
    );
    let expected = select(
        compare(CmpOp::Eq, v("y"), broadcast(width(), lit("1"))),
        v("x"),
        select(
            compare(CmpOp::Eq, v("y"), broadcast(width(), lit("2"))),
            bin(BinOp::Add, v("x"), broadcast(width(), lit("1.0"))),
            bin(BinOp::Add, v("x"), vector_cast(width(), v("y"), "f32")),
        ),
    );
    assert_eq!(rewrite_ok(&tree), expected);
}

#[test]
fn scenario_single_else_becomes_one_select() {
    let tree = cond(
        1,
        bin(BinOp::Eq, v("y"), lit("1")),
        v("x"),
        bin(BinOp::Add, v("x"), cast(v("y"), "f32")),
    );
    let expected = select(
        compare(CmpOp::Eq, v("y"), broadcast(width(), lit("1"))),
        v("x"),
        bin(BinOp::Add, v("x"), vector_cast(width(), v("y"), "f32")),
    );
    assert_eq!(rewrite_ok(&tree), expected);
}

#[test]
fn scenario_escapes_inside_a_chain() {
    let tree = cond(
        1,
        bin(BinOp::Eq, v("y"), lit("1")),
        v("x"),
        cond(
            2,
            bin(BinOp::Eq, v("y"), lit("2")),
            bin(BinOp::Add, v("x"), lit("1.0")),
            cond(
                3,
                bin(
                    BinOp::Eq,
                    v("y"),
                    escape("verbatim", opaque("Simd::splat", vec![lit("3")])),
                ),
                bin(
                    BinOp::Add,
                    v("x"),
                    escape("scalar", bin(BinOp::Add, lit("1.0"), lit("1.0"))),
                ),
                bin(BinOp::Add, v("x"), cast(v("y"), "f32")),
            ),
        ),
    );
    let expected = select(
        compare(CmpOp::Eq, v("y"), broadcast(width(), lit("1"))),
        v("x"),
        select(
            compare(CmpOp::Eq, v("y"), broadcast(width(), lit("2"))),
            bin(BinOp::Add, v("x"), broadcast(width(), lit("1.0"))),
            select(
                compare(CmpOp::Eq, v("y"), opaque("Simd::splat", vec![lit("3")])),
                bin(
                    BinOp::Add,
                    v("x"),
                    broadcast(width(), bin(BinOp::Add, lit("1.0"), lit("1.0"))),
                ),
                bin(BinOp::Add, v("x"), vector_cast(width(), v("y"), "f32")),
            ),
        ),
    );
    assert_eq!(rewrite_ok(&tree), expected);
}

#[test]
fn scenario_missing_else_yields_report_and_no_tree() {
    let tree = cond_no_else(1, bin(BinOp::Eq, v("y"), lit("1")), v("x"));
    let report = rewrite_err(&tree);
    assert_eq!(
        report,
        vec![RewriteError { loc: 1, kind: ErrorKind::MissingElseBranch }]
    );
}

#[test]
fn scenario_bare_type_mention_becomes_vector_type() {
    let tree = opaque(
        "ascription",
        vec![v("x"), Expr::TypeReference(Box::new(Ty::Name("f32".to_string())))],
    );
    let out = rewrite_ok(&tree);
    let expected_ty = Ty::Vector(bx(width()), Box::new(Ty::Name("f32".to_string())));
    let expected = opaque(
        "ascription",
        vec![v("x"), Expr::TypeReference(Box::new(expected_ty))],
    );
    assert_eq!(out, expected);
}

#[test]
fn duplicate_builds_an_equal_tree() {
    let tree = cond(
        4,
        bin(BinOp::Le, v("y"), lit("9")),
        escape("scalar", lit("1.0")),
        cast(v("y"), "f32"),
    );
    assert_eq!(tree.duplicate(), tree);
}

#[test]
fn from_vec_keeps_the_order() {
    let l = ExprList::from_vec(vec![v("a"), v("b")]);
    let expected = ExprList::Cons(
        Box::new(v("a")),
        Box::new(ExprList::Cons(Box::new(v("b")), Box::new(ExprList::Nil))),
    );
    assert_eq!(l, expected);
    assert_eq!(ExprList::from_vec(vec![]), ExprList::Nil);
}

#[test]
fn comparator_table_matches_operators() {
    assert_eq!(vectorize::comparator(BinOp::Eq), Some(CmpOp::Eq));
    assert_eq!(vectorize::comparator(BinOp::Ne), Some(CmpOp::Ne));
    assert_eq!(vectorize::comparator(BinOp::Gt), Some(CmpOp::Gt));
    assert_eq!(vectorize::comparator(BinOp::Ge), Some(CmpOp::Ge));
    assert_eq!(vectorize::comparator(BinOp::Lt), Some(CmpOp::Lt));
    assert_eq!(vectorize::comparator(BinOp::Le), Some(CmpOp::Le));
    assert_eq!(vectorize::comparator(BinOp::Add), None);
    assert_eq!(vectorize::comparator(BinOp::Sub), None);
    assert_eq!(vectorize::comparator(BinOp::Mul), None);
    assert_eq!(vectorize::comparator(BinOp::Div), None);
}
