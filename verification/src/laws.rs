//! Laws of the evaluator.
//!
//! Each law is stated over the denotation `value`, which is what the
//! evaluation functions are proved to return.

use vstd::prelude::*;
use crate::int64::{fits_i64, lemma_wrap_i64_fits, trunc_div, wrap_i64};
use crate::syntax::{ArithCmpOp, ArithExpr, BinArithOp, BinLogicOp, BoolExpr, EvalError, Expr, Value};

verus! {

/// The arithmetic node `a op b` on two literals.
pub open spec fn arith_node(a: i64, op: BinArithOp, b: i64) -> ArithExpr {
    ArithExpr::BinArithExpr {
        left: Box::new(ArithExpr::IntLit(a)),
        right: Box::new(ArithExpr::IntLit(b)),
        op,
    }
}

/// The comparison node `a op b` on two literals.
pub open spec fn comparison_node(a: i64, op: ArithCmpOp, b: i64) -> BoolExpr {
    BoolExpr::ArithCmpExpr {
        left: Box::new(ArithExpr::IntLit(a)),
        right: Box::new(ArithExpr::IntLit(b)),
        op,
    }
}

/// The boolean node `p op q` on two literals.
pub open spec fn logic_node(p: bool, op: BinLogicOp, q: bool) -> BoolExpr {
    BoolExpr::BinBoolExpr {
        left: Box::new(BoolExpr::BoolLit(p)),
        right: Box::new(BoolExpr::BoolLit(q)),
        op,
    }
}

/// Whether `e` denotes the integer `n`.
pub open spec fn denotes(e: ArithExpr, n: int) -> bool {
    match e.value() {
        Ok(v) => v == n,
        Err(_) => false,
    }
}

/// With a divisor other than zero, a binary node on two literals denotes the
/// mathematical result of its operator whenever an `i64` can hold that
/// result: the sum, the difference, the product, the quotient rounded toward
/// zero.
pub proof fn lemma_arith_node_exact(a: i64, b: i64)
    requires
        b != 0,
    ensures
        fits_i64(a + b) ==> denotes(arith_node(a, BinArithOp::AddOp, b), a + b),
        fits_i64(a - b) ==> denotes(arith_node(a, BinArithOp::SubOp, b), a - b),
        fits_i64(a * b) ==> denotes(arith_node(a, BinArithOp::MulOp, b), a * b),
        fits_i64(trunc_div(a as int, b as int)) ==> denotes(
            arith_node(a, BinArithOp::IntDivOp, b),
            trunc_div(a as int, b as int),
        ),
{
    lemma_arith_node_wraps(a, b);
    let product = a * b;
    let quotient = trunc_div(a as int, b as int);
    if fits_i64(a + b) {
        lemma_wrap_i64_fits(a + b);
    }
    if fits_i64(a - b) {
        lemma_wrap_i64_fits(a - b);
    }
    if fits_i64(product) {
        lemma_wrap_i64_fits(product);
    }
    if fits_i64(quotient) {
        lemma_wrap_i64_fits(quotient);
    }
}

/// With a divisor other than zero, a binary node on two literals denotes the
/// mathematical result of its operator reduced to 64 bits, whether or not an
/// `i64` can hold that result.
pub proof fn lemma_arith_node_wraps(a: i64, b: i64)
    requires
        b != 0,
    ensures
        arith_node(a, BinArithOp::AddOp, b).value() == Ok::<i64, EvalError>(wrap_i64(a + b)),
        arith_node(a, BinArithOp::SubOp, b).value() == Ok::<i64, EvalError>(wrap_i64(a - b)),
        arith_node(a, BinArithOp::MulOp, b).value() == Ok::<i64, EvalError>(wrap_i64(a * b)),
        arith_node(a, BinArithOp::IntDivOp, b).value() == Ok::<i64, EvalError>(
            wrap_i64(trunc_div(a as int, b as int)),
        ),
{
    reveal_with_fuel(ArithExpr::value, 2);
}

/// A division whose right operand denotes zero fails with
/// `DivisionByZero`, whatever its left operand is.
pub proof fn lemma_division_by_zero_fails(left: ArithExpr, right: ArithExpr)
    requires
        right.value() == Ok::<i64, EvalError>(0),
    ensures
        (ArithExpr::BinArithExpr {
            left: Box::new(left),
            right: Box::new(right),
            op: BinArithOp::IntDivOp,
        }).value() == Err::<i64, EvalError>(EvalError::DivisionByZero),
{
}

/// A comparison node on two literals denotes the comparison of the two
/// integers.
pub proof fn lemma_comparison_node(a: i64, b: i64)
    ensures
        comparison_node(a, ArithCmpOp::LtOp, b).value() == Ok::<bool, EvalError>(a < b),
        comparison_node(a, ArithCmpOp::LteOp, b).value() == Ok::<bool, EvalError>(a <= b),
        comparison_node(a, ArithCmpOp::GtOp, b).value() == Ok::<bool, EvalError>(a > b),
        comparison_node(a, ArithCmpOp::GteOp, b).value() == Ok::<bool, EvalError>(a >= b),
        comparison_node(a, ArithCmpOp::ArithEqOp, b).value() == Ok::<bool, EvalError>(a == b),
        comparison_node(a, ArithCmpOp::ArithNeqOp, b).value() == Ok::<bool, EvalError>(a != b),
{
}

/// A boolean node on two literals denotes the conjunction, the disjunction,
/// the equivalence or the exclusive disjunction of the two truth values.
pub proof fn lemma_logic_node(p: bool, q: bool)
    ensures
        logic_node(p, BinLogicOp::AndOp, q).value() == Ok::<bool, EvalError>(p && q),
        logic_node(p, BinLogicOp::OrOp, q).value() == Ok::<bool, EvalError>(p || q),
        logic_node(p, BinLogicOp::BoolEqOp, q).value() == Ok::<bool, EvalError>(p == q),
        logic_node(p, BinLogicOp::BoolNeqOp, q).value() == Ok::<bool, EvalError>(p != q),
{
    reveal_with_fuel(BoolExpr::value, 2);
}

/// The negation of a literal denotes the other truth value.
pub proof fn lemma_negation(p: bool)
    ensures
        BoolExpr::NotExpr(Box::new(BoolExpr::BoolLit(p))).value() == Ok::<bool, EvalError>(!p),
{
    reveal_with_fuel(BoolExpr::value, 2);
}

/// The negation of any operand that denotes a truth value denotes the
/// other one.
pub proof fn lemma_negation_inverts(operand: BoolExpr, p: bool)
    requires
        operand.value() == Ok::<bool, EvalError>(p),
    ensures
        BoolExpr::NotExpr(Box::new(operand)).value() == Ok::<bool, EvalError>(!p),
{
}

/// The value of an expression has the expression's sort: an integer for an
/// arithmetic expression, a truth value for a boolean one.
pub proof fn lemma_value_has_sort(expr: Expr)
    ensures
        expr.value() matches Ok(v) ==> (expr is ArithExpr <==> v is IntValue),
        expr.value() matches Ok(v) ==> (expr is BoolExpr <==> v is BoolValue),
{
}

/// An arithmetic expression fails exactly when some division inside it has
/// a right operand that denotes zero, and then with `DivisionByZero`.
pub proof fn lemma_arith_fails_iff_divides_by_zero(e: ArithExpr)
    ensures
        e.value() is Err <==> e.divides_by_zero(),
        e.value() matches Err(err) ==> err == EvalError::DivisionByZero,
    decreases e,
{
    match e {
        ArithExpr::IntLit(_) => {},
        ArithExpr::BinArithExpr { left, right, op } => {
            lemma_arith_fails_iff_divides_by_zero(*left);
            lemma_arith_fails_iff_divides_by_zero(*right);
        },
    }
}

/// A boolean expression fails exactly when some division inside it has a
/// right operand that denotes zero, and then with `DivisionByZero`.
pub proof fn lemma_bool_fails_iff_divides_by_zero(e: BoolExpr)
    ensures
        e.value() is Err <==> e.divides_by_zero(),
        e.value() matches Err(err) ==> err == EvalError::DivisionByZero,
    decreases e,
{
    match e {
        BoolExpr::BoolLit(_) => {},
        BoolExpr::NotExpr(operand) => {
            lemma_bool_fails_iff_divides_by_zero(*operand);
        },
        BoolExpr::BinBoolExpr { left, right, op } => {
            lemma_bool_fails_iff_divides_by_zero(*left);
            lemma_bool_fails_iff_divides_by_zero(*right);
        },
        BoolExpr::ArithCmpExpr { left, right, op } => {
            lemma_arith_fails_iff_divides_by_zero(*left);
            lemma_arith_fails_iff_divides_by_zero(*right);
        },
    }
}

/// An expression of either sort fails exactly when some division inside it
/// has a right operand that denotes zero, and then with `DivisionByZero`.
pub proof fn lemma_fails_iff_divides_by_zero(expr: Expr)
    ensures
        expr.value() is Err <==> expr.divides_by_zero(),
        expr.value() matches Err(err) ==> err == EvalError::DivisionByZero,
{
    match expr {
        Expr::ArithExpr(e) => lemma_arith_fails_iff_divides_by_zero(e),
        Expr::BoolExpr(e) => lemma_bool_fails_iff_divides_by_zero(e),
    }
}

} // verus!
