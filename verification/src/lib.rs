//! A source-to-source rewriter that turns a scalar expression tree into an
//! equivalent tree of explicit fixed-width vector (SIMD) operations.
//!
//! Given a lane-count expression and a scalar expression tree, [`rewrite`]
//! produces a new tree in which every comparison is a lane-wise vector
//! comparison, every branch a lane-wise select, every literal a broadcast,
//! and every type mention a vector type of the given width; or, if the tree
//! holds branches that cannot be vectorized, an ordered report of every such
//! error found in one traversal.

mod ast;
mod laws;
mod rewrite;

pub use ast::BinOp;
pub use ast::CmpOp;
pub use ast::expr_list_of;
pub use ast::ErrorKind;
pub use ast::Expr;
pub use ast::ExprList;
pub use ast::RewriteError;
pub use ast::Ty;
pub use laws::lemma_comparator_injective;
pub use laws::lemma_comparison_rule;
pub use laws::lemma_conditional_rule;
pub use laws::lemma_errors_accumulate;
pub use laws::lemma_escape_nesting_rule;
pub use laws::lemma_literal_rule;
pub use laws::lemma_missing_else_rule;
pub use laws::lemma_scalar_rule;
pub use laws::lemma_verbatim_rule;
pub use rewrite::comparator;
pub use rewrite::comparator_of;
pub use rewrite::error_report;
pub use rewrite::error_report_list;
pub use rewrite::is_comparison;
pub use rewrite::peel_verbatim;
pub use rewrite::rewrite;
pub use rewrite::rewritten;
pub use rewrite::rewritten_list;
