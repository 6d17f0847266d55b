//! An evaluator for a small two-sorted expression language: 64-bit integer
//! arithmetic and boolean logic over a tree that the caller builds.

pub mod eval;
pub mod int64;
pub mod laws;
pub mod semantics;
pub mod syntax;

pub use eval::{
    eval, eval_arith_expr, eval_bool_expr, try_eval, try_eval_arith_expr, try_eval_bool_expr,
};
pub use syntax::{ArithCmpOp, ArithExpr, BinArithOp, BinLogicOp, BoolExpr, EvalError, Expr, Value};
