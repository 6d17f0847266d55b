//! The expression tree.
//!
//! Two sorts of expression exist: arithmetic ones, which denote a 64-bit
//! signed integer, and boolean ones, which denote a truth value. A node owns
//! its children, so every tree is finite and shares nothing. Any tree that
//! can be built is well formed; whether a division divides by zero is a
//! question for evaluation, not for construction.

use vstd::prelude::*;

verus! {

/// An expression of either sort.
#[derive(Debug)]
pub enum Expr {
    ArithExpr(ArithExpr),
    BoolExpr(BoolExpr),
}

/// An expression that denotes an integer.
#[derive(Debug)]
pub enum ArithExpr {
    /// `left op right`.
    BinArithExpr { left: Box<ArithExpr>, right: Box<ArithExpr>, op: BinArithOp },
    /// An integer literal.
    IntLit(i64),
}

/// An expression that denotes a truth value.
#[derive(Debug)]
#[allow(inconsistent_fields)]
pub enum BoolExpr {
    /// A comparison `left op right` of two integers.
    ArithCmpExpr { left: Box<ArithExpr>, right: Box<ArithExpr>, op: ArithCmpOp },
    /// `left op right` on two truth values.
    BinBoolExpr { left: Box<BoolExpr>, right: Box<BoolExpr>, op: BinLogicOp },
    /// The negation of the operand.
    NotExpr(Box<BoolExpr>),
    /// A boolean literal.
    BoolLit(bool),
}

/// The binary operators on integers.
#[derive(Debug, Clone, Copy, PartialEq, Eq, Structural)]
pub enum BinArithOp {
    AddOp,
    SubOp,
    MulOp,
    /// Division that rounds toward zero.
    IntDivOp,
}

/// The comparisons of two integers.
#[derive(Debug, Clone, Copy, PartialEq, Eq, Structural)]
pub enum ArithCmpOp {
    LtOp,
    LteOp,
    GtOp,
    GteOp,
    ArithEqOp,
    ArithNeqOp,
}

/// The binary operators on truth values.
#[derive(Debug, Clone, Copy, PartialEq, Eq, Structural)]
pub enum BinLogicOp {
    AndOp,
    OrOp,
    BoolEqOp,
    BoolNeqOp,
}

/// What an expression evaluates to: an integer for an arithmetic expression,
/// a truth value for a boolean one.
#[derive(Debug, Clone, Copy, PartialEq, Eq, Structural)]
pub enum Value {
    BoolValue(bool),
    IntValue(i64),
}

/// Why an evaluation produced no value.
#[derive(Debug, Clone, Copy, PartialEq, Eq, Structural)]
pub enum EvalError {
    /// The right operand of an integer division evaluated to zero.
    DivisionByZero,
}

} // verus!
