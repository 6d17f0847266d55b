//! The evaluator.
//!
//! One function per sort reduces a tree to what it denotes, by recursion on
//! the tree, and `eval` dispatches on the sort. A binary node evaluates its
//! left child, then its right child, then combines the two results; neither
//! conjunction nor disjunction skips its right operand. Integer results wrap
//! around at 64 bits.
//!
//! The evaluator comes in two forms. `eval`, `eval_arith_expr` and
//! `eval_bool_expr` return the bare value and are for trees that are known
//! to divide by zero nowhere. `try_eval`, `try_eval_arith_expr` and
//! `try_eval_bool_expr` take any tree and report a division by zero as
//! `EvalError::DivisionByZero`.

use vstd::prelude::*;
use crate::int64::wrapping_div;
use crate::syntax::{ArithCmpOp, ArithExpr, BinArithOp, BinLogicOp, BoolExpr, EvalError, Expr, Value};

verus! {

/// Evaluates an expression of either sort and tags the result with the sort.
///
/// The tree must divide by zero nowhere; `try_eval` takes any tree.
pub fn eval(expr: Expr) -> (v: Value)
    requires
        !expr.divides_by_zero(),
    ensures
        expr.value() == Ok::<Value, EvalError>(v),
        expr is ArithExpr <==> v is IntValue,
        expr is BoolExpr <==> v is BoolValue,
{
    match expr {
        Expr::ArithExpr(arithexpr) => Value::IntValue(eval_arith_expr(arithexpr)),
        Expr::BoolExpr(boolexpr) => Value::BoolValue(eval_bool_expr(boolexpr)),
    }
}

/// Evaluates an arithmetic expression.
///
/// The tree must divide by zero nowhere; `try_eval_arith_expr` takes any
/// tree.
pub fn eval_arith_expr(arith_expr: ArithExpr) -> (n: i64)
    requires
        !arith_expr.divides_by_zero(),
    ensures
        arith_expr.value() == Ok::<i64, EvalError>(n),
    decreases arith_expr,
{
    match arith_expr {
        ArithExpr::BinArithExpr { left, right, op } => {
            let a = eval_arith_expr(*left);
            let b = eval_arith_expr(*right);
            match op {
                BinArithOp::AddOp => a.wrapping_add(b),
                BinArithOp::SubOp => a.wrapping_sub(b),
                BinArithOp::MulOp => a.wrapping_mul(b),
                BinArithOp::IntDivOp => wrapping_div(a, b),
            }
        },
        ArithExpr::IntLit(num) => num,
    }
}

/// Evaluates a boolean expression. Both operands of a binary node are
/// evaluated, whatever the left one gives.
///
/// The tree must divide by zero nowhere; `try_eval_bool_expr` takes any tree.
pub fn eval_bool_expr(bool_expr: BoolExpr) -> (p: bool)
    requires
        !bool_expr.divides_by_zero(),
    ensures
        bool_expr.value() == Ok::<bool, EvalError>(p),
    decreases bool_expr,
{
    match bool_expr {
        BoolExpr::ArithCmpExpr { left, right, op } => {
            let a = eval_arith_expr(*left);
            let b = eval_arith_expr(*right);
            match op {
                ArithCmpOp::LtOp => a < b,
                ArithCmpOp::LteOp => a <= b,
                ArithCmpOp::GtOp => a > b,
                ArithCmpOp::GteOp => a >= b,
                ArithCmpOp::ArithEqOp => a == b,
                ArithCmpOp::ArithNeqOp => a != b,
            }
        },
        BoolExpr::BinBoolExpr { left, right, op } => {
            let p = eval_bool_expr(*left);
            let q = eval_bool_expr(*right);
            match op {
                BinLogicOp::AndOp => p && q,
                BinLogicOp::OrOp => p || q,
                BinLogicOp::BoolEqOp => p == q,
                BinLogicOp::BoolNeqOp => p != q,
            }
        },
        BoolExpr::NotExpr(operand) => !eval_bool_expr(*operand),
        BoolExpr::BoolLit(p) => p,
    }
}

/// Evaluates an expression of either sort and tags the result with the sort,
/// or reports the division by zero that stopped the evaluation.
pub fn try_eval(expr: Expr) -> (r: Result<Value, EvalError>)
    ensures
        r == expr.value(),
        r is Err <==> expr.divides_by_zero(),
        r matches Ok(v) ==> (expr is ArithExpr <==> v is IntValue),
        r matches Ok(v) ==> (expr is BoolExpr <==> v is BoolValue),
        r matches Err(e) ==> e == EvalError::DivisionByZero,
{
    match expr {
        Expr::ArithExpr(arithexpr) => match try_eval_arith_expr(arithexpr) {
            Ok(n) => Ok(Value::IntValue(n)),
            Err(e) => Err(e),
        },
        Expr::BoolExpr(boolexpr) => match try_eval_bool_expr(boolexpr) {
            Ok(p) => Ok(Value::BoolValue(p)),
            Err(e) => Err(e),
        },
    }
}

/// Evaluates an arithmetic expression, or reports the division by zero that
/// stopped the evaluation.
///
/// A division whose right operand evaluates to zero fails, whatever its left
/// operand evaluates to.
pub fn try_eval_arith_expr(arith_expr: ArithExpr) -> (r: Result<i64, EvalError>)
    ensures
        r == arith_expr.value(),
        r is Err <==> arith_expr.divides_by_zero(),
        r matches Err(e) ==> e == EvalError::DivisionByZero,
        arith_expr matches ArithExpr::BinArithExpr { right, op, .. } ==> (op is IntDivOp
            && right.value() == Ok::<i64, EvalError>(0) ==> r == Err::<i64, EvalError>(
            EvalError::DivisionByZero,
        )),
    decreases arith_expr,
{
    match arith_expr {
        ArithExpr::BinArithExpr { left, right, op } => {
            let a = match try_eval_arith_expr(*left) {
                Ok(a) => a,
                Err(e) => {
                    return Err(e);
                },
            };
            let b = match try_eval_arith_expr(*right) {
                Ok(b) => b,
                Err(e) => {
                    return Err(e);
                },
            };
            match op {
                BinArithOp::AddOp => Ok(a.wrapping_add(b)),
                BinArithOp::SubOp => Ok(a.wrapping_sub(b)),
                BinArithOp::MulOp => Ok(a.wrapping_mul(b)),
                BinArithOp::IntDivOp => if b == 0 {
                    Err(EvalError::DivisionByZero)
                } else {
                    Ok(wrapping_div(a, b))
                },
            }
        },
        ArithExpr::IntLit(num) => Ok(num),
    }
}

/// Evaluates a boolean expression, or reports the division by zero that
/// stopped the evaluation of an arithmetic expression inside it. Both
/// operands of a binary node are evaluated, whatever the left one gives.
pub fn try_eval_bool_expr(bool_expr: BoolExpr) -> (r: Result<bool, EvalError>)
    ensures
        r == bool_expr.value(),
        r is Err <==> bool_expr.divides_by_zero(),
        r matches Err(e) ==> e == EvalError::DivisionByZero,
    decreases bool_expr,
{
    match bool_expr {
        BoolExpr::ArithCmpExpr { left, right, op } => {
            let a = match try_eval_arith_expr(*left) {
                Ok(a) => a,
                Err(e) => {
                    return Err(e);
                },
            };
            let b = match try_eval_arith_expr(*right) {
                Ok(b) => b,
                Err(e) => {
                    return Err(e);
                },
            };
            Ok(
                match op {
                    ArithCmpOp::LtOp => a < b,
                    ArithCmpOp::LteOp => a <= b,
                    ArithCmpOp::GtOp => a > b,
                    ArithCmpOp::GteOp => a >= b,
                    ArithCmpOp::ArithEqOp => a == b,
                    ArithCmpOp::ArithNeqOp => a != b,
                },
            )
        },
        BoolExpr::BinBoolExpr { left, right, op } => {
            let p = match try_eval_bool_expr(*left) {
                Ok(p) => p,
                Err(e) => {
                    return Err(e);
                },
            };
            let q = match try_eval_bool_expr(*right) {
                Ok(q) => q,
                Err(e) => {
                    return Err(e);
                },
            };
            Ok(
                match op {
                    BinLogicOp::AndOp => p && q,
                    BinLogicOp::OrOp => p || q,
                    BinLogicOp::BoolEqOp => p == q,
                    BinLogicOp::BoolNeqOp => p != q,
                },
            )
        },
        BoolExpr::NotExpr(operand) => match try_eval_bool_expr(*operand) {
            Ok(p) => Ok(!p),
            Err(e) => Err(e),
        },
        BoolExpr::BoolLit(p) => Ok(p),
    }
}

} // verus!
