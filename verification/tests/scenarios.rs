use expr_eval::{eval, ArithCmpOp, ArithExpr, BinArithOp, BinLogicOp, BoolExpr, Expr, Value};

#[test]
fn test_sample() {
    let expr = Expr::BoolExpr(BoolExpr::BoolLit(true));
    let answer = Value::BoolValue(true);

    assert_eq!(eval(expr), answer);
}

#[test]
fn test_others() {
    println!("{:?}", Value::BoolValue(true));
    assert_eq!(format!("{:?}", Value::BoolValue(true)), "BoolValue(true)");
}

#[test]
fn test_arithexpr_plus() {
    let expr = Expr::ArithExpr(ArithExpr::BinArithExpr {
        left: Box::new(ArithExpr::IntLit(56)),
        right: Box::new(ArithExpr::IntLit(44)),
        op: BinArithOp::AddOp,
    });

    let answer = Value::IntValue(100);
    assert_eq!(eval(expr), answer);
}

#[test]
fn test_arithexpr_minus() {
    let expr = Expr::ArithExpr(ArithExpr::BinArithExpr {
        left: Box::new(ArithExpr::IntLit(56)),
        right: Box::new(ArithExpr::IntLit(44)),
        op: BinArithOp::SubOp,
    });

    let answer = Value::IntValue(12);
    assert_eq!(eval(expr), answer);
}

#[test]
fn test_arithexpr_mul() {
    let expr = Expr::ArithExpr(ArithExpr::BinArithExpr {
        left: Box::new(ArithExpr::IntLit(56)),
        right: Box::new(ArithExpr::IntLit(44)),
        op: BinArithOp::MulOp,
    });

    let answer = Value::IntValue(2464);
    assert_eq!(eval(expr), answer);
}

#[test]
fn test_arithexpr_div() {
    let expr = Expr::ArithExpr(ArithExpr::BinArithExpr {
        left: Box::new(ArithExpr::IntLit(56)),
        right: Box::new(ArithExpr::IntLit(44)),
        op: BinArithOp::IntDivOp,
    });

    let answer = Value::IntValue(1);
    assert_eq!(eval(expr), answer);
}

#[test]
fn test_arithcmp_lt() {
    let expr = Expr::BoolExpr(BoolExpr::ArithCmpExpr {
        left: Box::new(ArithExpr::IntLit(56)),
        right: Box::new(ArithExpr::IntLit(44)),
        op: ArithCmpOp::LtOp,
    });

    let answer = Value::BoolValue(false);
    assert_eq!(eval(expr), answer);
}

#[test]
fn test_arithcmp_lte() {
    let expr = Expr::BoolExpr(BoolExpr::ArithCmpExpr {
        left: Box::new(ArithExpr::IntLit(56)),
        right: Box::new(ArithExpr::IntLit(44)),
        op: ArithCmpOp::LteOp,
    });

    let answer = Value::BoolValue(false);
    assert_eq!(eval(expr), answer);
}

#[test]
fn test_arithcmp_gt() {
    let expr = Expr::BoolExpr(BoolExpr::ArithCmpExpr {
        left: Box::new(ArithExpr::IntLit(56)),
        right: Box::new(ArithExpr::IntLit(44)),
        op: ArithCmpOp::GtOp,
    });

    let answer = Value::BoolValue(true);
    assert_eq!(eval(expr), answer);
}

#[test]
fn test_arithcmp_gte() {
    let expr = Expr::BoolExpr(BoolExpr::ArithCmpExpr {
        left: Box::new(ArithExpr::IntLit(56)),
        right: Box::new(ArithExpr::IntLit(44)),
        op: ArithCmpOp::GteOp,
    });

    let answer = Value::BoolValue(true);
    assert_eq!(eval(expr), answer);
}

#[test]
fn test_arithcmp_aritheq() {
    let expr = Expr::BoolExpr(BoolExpr::ArithCmpExpr {
        left: Box::new(ArithExpr::IntLit(56)),
        right: Box::new(ArithExpr::IntLit(44)),
        op: ArithCmpOp::ArithEqOp,
    });

    let answer = Value::BoolValue(false);
    assert_eq!(eval(expr), answer);
}

#[test]
fn test_arithcmp_arithneq() {
    let expr = Expr::BoolExpr(BoolExpr::ArithCmpExpr {
        left: Box::new(ArithExpr::IntLit(56)),
        right: Box::new(ArithExpr::IntLit(44)),
        op: ArithCmpOp::ArithNeqOp,
    });

    let answer = Value::BoolValue(true);
    assert_eq!(eval(expr), answer);
}

#[test]
fn test_binbool_and() {
    let expr = Expr::BoolExpr(BoolExpr::BinBoolExpr {
        left: Box::new(BoolExpr::BoolLit(true)),
        right: Box::new(BoolExpr::BoolLit(false)),
        op: BinLogicOp::AndOp,
    });

    let answer = Value::BoolValue(false);
    assert_eq!(eval(expr), answer);
}

#[test]
fn test_binbool_or() {
    let expr = Expr::BoolExpr(BoolExpr::BinBoolExpr {
        left: Box::new(BoolExpr::BoolLit(false)),
        right: Box::new(BoolExpr::BoolLit(true)),
        op: BinLogicOp::OrOp,
    });

    let answer = Value::BoolValue(true);
    assert_eq!(eval(expr), answer);
}

#[test]
fn test_binbool_eq() {
    let expr = Expr::BoolExpr(BoolExpr::BinBoolExpr {
        left: Box::new(BoolExpr::BoolLit(true)),
        right: Box::new(BoolExpr::BoolLit(false)),
        op: BinLogicOp::BoolEqOp,
    });

    let answer = Value::BoolValue(false);
    assert_eq!(eval(expr), answer);
}

#[test]
fn test_binbool_neq() {
    let expr = Expr::BoolExpr(BoolExpr::BinBoolExpr {
        left: Box::new(BoolExpr::BoolLit(true)),
        right: Box::new(BoolExpr::BoolLit(false)),
        op: BinLogicOp::BoolNeqOp,
    });

    let answer = Value::BoolValue(true);
    assert_eq!(eval(expr), answer);
}

#[test]
fn test_notexpr() {
    let expr = Expr::BoolExpr(BoolExpr::NotExpr(Box::new(BoolExpr::BoolLit(false))));

    let answer = Value::BoolValue(true);
    assert_eq!(eval(expr), answer);
}
