//! What an expression means.
//!
//! Every expression denotes either a value or a failure. The denotation is
//! defined by recursion on the tree: a literal denotes itself, and a node
//! denotes what its operator makes of the denotations of its children. A
//! failure in any child is the failure of the whole tree, so a tree denotes a
//! value exactly when no division inside it has a divisor that denotes zero.
//!
//! Integer results are reduced to 64 bits: addition, subtraction and
//! multiplication wrap around, and so does the single quotient that does not
//! fit, `i64::MIN / -1`.

use vstd::prelude::*;
use crate::int64::{trunc_div, wrap_i64};
use crate::syntax::{ArithCmpOp, ArithExpr, BinArithOp, BinLogicOp, BoolExpr, EvalError, Expr, Value};

verus! {

impl BinArithOp {
    /// The operator on the mathematical integers. Division rounds toward
    /// zero.
    pub open spec fn exact(self, a: int, b: int) -> int
        recommends
            self is IntDivOp ==> b != 0,
    {
        match self {
            BinArithOp::AddOp => a + b,
            BinArithOp::SubOp => a - b,
            BinArithOp::MulOp => a * b,
            BinArithOp::IntDivOp => trunc_div(a, b),
        }
    }

    /// The operator on 64-bit integers: the exact result reduced to 64 bits,
    /// or a failure where a division has the divisor zero.
    pub open spec fn apply(self, a: i64, b: i64) -> Result<i64, EvalError> {
        if self is IntDivOp && b == 0 {
            Err(EvalError::DivisionByZero)
        } else {
            Ok(wrap_i64(self.exact(a as int, b as int)))
        }
    }
}

impl ArithCmpOp {
    /// Whether the comparison holds of `a` and `b`.
    pub open spec fn holds(self, a: i64, b: i64) -> bool {
        match self {
            ArithCmpOp::LtOp => a < b,
            ArithCmpOp::LteOp => a <= b,
            ArithCmpOp::GtOp => a > b,
            ArithCmpOp::GteOp => a >= b,
            ArithCmpOp::ArithEqOp => a == b,
            ArithCmpOp::ArithNeqOp => a != b,
        }
    }
}

impl BinLogicOp {
    /// The operator on truth values.
    pub open spec fn apply(self, p: bool, q: bool) -> bool {
        match self {
            BinLogicOp::AndOp => p && q,
            BinLogicOp::OrOp => p || q,
            BinLogicOp::BoolEqOp => p == q,
            BinLogicOp::BoolNeqOp => p != q,
        }
    }
}

impl ArithExpr {
    /// The integer that the expression denotes, or the failure.
    pub open spec fn value(self) -> Result<i64, EvalError>
        decreases self,
    {
        match self {
            ArithExpr::IntLit(n) => Ok(n),
            ArithExpr::BinArithExpr { left, right, op } => match (left.value(), right.value()) {
                (Ok(a), Ok(b)) => op.apply(a, b),
                (Err(e), _) => Err(e),
                (_, Err(e)) => Err(e),
            },
        }
    }
}

impl ArithExpr {
    /// Whether some division inside the expression has a right operand that
    /// denotes zero.
    pub open spec fn divides_by_zero(self) -> bool
        decreases self,
    {
        match self {
            ArithExpr::IntLit(_) => false,
            ArithExpr::BinArithExpr { left, right, op } => {
                ||| left.divides_by_zero()
                ||| right.divides_by_zero()
                ||| op is IntDivOp && right.value() == Ok::<i64, EvalError>(0)
            },
        }
    }
}

impl BoolExpr {
    /// The truth value that the expression denotes, or the failure of an
    /// arithmetic expression inside it.
    ///
    /// Both operands of a binary node count, whatever the left one denotes:
    /// `false && q` fails where `q` fails.
    pub open spec fn value(self) -> Result<bool, EvalError>
        decreases self,
    {
        match self {
            BoolExpr::BoolLit(p) => Ok(p),
            BoolExpr::NotExpr(operand) => match operand.value() {
                Ok(p) => Ok(!p),
                Err(e) => Err(e),
            },
            BoolExpr::BinBoolExpr { left, right, op } => match (left.value(), right.value()) {
                (Ok(p), Ok(q)) => Ok(op.apply(p, q)),
                (Err(e), _) => Err(e),
                (_, Err(e)) => Err(e),
            },
            BoolExpr::ArithCmpExpr { left, right, op } => match (left.value(), right.value()) {
                (Ok(a), Ok(b)) => Ok(op.holds(a, b)),
                (Err(e), _) => Err(e),
                (_, Err(e)) => Err(e),
            },
        }
    }
}

impl BoolExpr {
    /// Whether some division inside the expression has a right operand that
    /// denotes zero.
    pub open spec fn divides_by_zero(self) -> bool
        decreases self,
    {
        match self {
            BoolExpr::BoolLit(_) => false,
            BoolExpr::NotExpr(operand) => operand.divides_by_zero(),
            BoolExpr::BinBoolExpr { left, right, .. } => {
                left.divides_by_zero() || right.divides_by_zero()
            },
            BoolExpr::ArithCmpExpr { left, right, .. } => {
                left.divides_by_zero() || right.divides_by_zero()
            },
        }
    }
}

impl Expr {
    /// Whether some division inside the expression has a right operand that
    /// denotes zero.
    pub open spec fn divides_by_zero(self) -> bool {
        match self {
            Expr::ArithExpr(e) => e.divides_by_zero(),
            Expr::BoolExpr(e) => e.divides_by_zero(),
        }
    }

    /// The value that the expression denotes, tagged with its sort, or the
    /// failure.
    pub open spec fn value(self) -> Result<Value, EvalError> {
        match self {
            Expr::ArithExpr(e) => match e.value() {
                Ok(n) => Ok(Value::IntValue(n)),
                Err(e) => Err(e),
            },
            Expr::BoolExpr(e) => match e.value() {
                Ok(p) => Ok(Value::BoolValue(p)),
                Err(e) => Err(e),
            },
        }
    }
}

} // verus!
