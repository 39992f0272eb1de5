use sexpr_eval::desugarer::CompExpr;
use sexpr_eval::interpreter::{interp, InterpError, ValExpr};

#[test]
fn interpreter_number() {
    let expr = CompExpr::Num(1);
    let res = interp(expr);
    assert_eq!(res, Ok(ValExpr::Num(1)));
}

#[test]
fn interpreter_negative_number() {
    let expr = CompExpr::Num(-10);
    let res = interp(expr);
    assert_eq!(res, Ok(ValExpr::Num(-10)));
}

#[test]
fn interpreter_plus() {
    let expr = CompExpr::Plus(Box::new(CompExpr::Num(1)), Box::new(CompExpr::Num(2)));
    let res = interp(expr);
    assert_eq!(res, Ok(ValExpr::Num(3)));
}

#[test]
fn interpreter_mult() {
    let expr = CompExpr::Mult(Box::new(CompExpr::Num(2)), Box::new(CompExpr::Num(3)));
    let res = interp(expr);
    assert_eq!(res, Ok(ValExpr::Num(6)));
}

#[test]
fn negative_mult() {
    let expr = CompExpr::Mult(Box::new(CompExpr::Num(-2)), Box::new(CompExpr::Num(3)));
    let res = interp(expr);
    assert_eq!(res, Ok(ValExpr::Num(-6)));
}

#[test]
fn double_negative_mult() {
    let expr = CompExpr::Mult(Box::new(CompExpr::Num(-5)), Box::new(CompExpr::Num(-4)));
    let res = interp(expr);
    assert_eq!(res, Ok(ValExpr::Num(20)));
}

#[test]
fn plus_bool_should_err() {
    let expr = CompExpr::Plus(Box::new(CompExpr::Num(-5)), Box::new(CompExpr::Bool(false)));
    let res = interp(expr);
    assert_eq!(res, Err(InterpError::InvalidType));
}

#[test]
fn mult_bool_should_err() {
    let expr = CompExpr::Mult(Box::new(CompExpr::Num(-5)), Box::new(CompExpr::Bool(false)));
    let res = interp(expr);
    assert_eq!(res, Err(InterpError::InvalidType));
}

#[test]
fn not_true() {
    let expr = CompExpr::Not(Box::new(CompExpr::Bool(true)));
    let res = interp(expr);
    assert_eq!(res, Ok(ValExpr::Bool(false)));
}

#[test]
fn not_false() {
    let expr = CompExpr::Not(Box::new(CompExpr::Bool(false)));
    let res = interp(expr);
    assert_eq!(res, Ok(ValExpr::Bool(true)));
}

#[test]
fn not_number() {
    let expr = CompExpr::Not(Box::new(CompExpr::Num(1)));
    let res = interp(expr);
    assert_eq!(res, Err(InterpError::InvalidType));
}

#[test]
fn if_true() {
    let expr = CompExpr::If(
        Box::new(CompExpr::Bool(true)),
        Box::new(CompExpr::Num(3)),
        Box::new(CompExpr::Num(4)),
    );
    let res = interp(expr);
    assert_eq!(res, Ok(ValExpr::Num(3)));
}

#[test]
fn if_false() {
    let expr = CompExpr::If(
        Box::new(CompExpr::Bool(false)),
        Box::new(CompExpr::Num(3)),
        Box::new(CompExpr::Num(4)),
    );
    let res = interp(expr);
    assert_eq!(res, Ok(ValExpr::Num(4)));
}

#[test]
fn if_number() {
    let expr = CompExpr::If(
        Box::new(CompExpr::Num(1)),
        Box::new(CompExpr::Num(3)),
        Box::new(CompExpr::Num(4)),
    );
    let res = interp(expr);
    assert_eq!(res, Err(InterpError::InvalidType));
}

#[test]
fn if_true_ignores_ill_typed_else() {
    let expr = CompExpr::If(
        Box::new(CompExpr::Bool(true)),
        Box::new(CompExpr::Num(3)),
        Box::new(CompExpr::Plus(
            Box::new(CompExpr::Num(1)),
            Box::new(CompExpr::Bool(false)),
        )),
    );
    let res = interp(expr);
    assert_eq!(res, Ok(ValExpr::Num(3)));
}

#[test]
fn if_false_ignores_ill_typed_then() {
    let expr = CompExpr::If(
        Box::new(CompExpr::Bool(false)),
        Box::new(CompExpr::Not(Box::new(CompExpr::Num(9)))),
        Box::new(CompExpr::Num(4)),
    );
    let res = interp(expr);
    assert_eq!(res, Ok(ValExpr::Num(4)));
}

#[test]
fn plus_overflow() {
    let expr = CompExpr::Plus(
        Box::new(CompExpr::Num(i32::MAX)),
        Box::new(CompExpr::Num(1)),
    );
    let res = interp(expr);
    assert_eq!(res, Err(InterpError::Overflow));
}

#[test]
fn mult_overflow() {
    let expr = CompExpr::Mult(
        Box::new(CompExpr::Num(i32::MAX)),
        Box::new(CompExpr::Num(2)),
    );
    let res = interp(expr);
    assert_eq!(res, Err(InterpError::Overflow));
}

#[test]
fn plus_at_the_edge_of_range() {
    let expr = CompExpr::Plus(
        Box::new(CompExpr::Num(i32::MAX - 1)),
        Box::new(CompExpr::Num(1)),
    );
    let res = interp(expr);
    assert_eq!(res, Ok(ValExpr::Num(i32::MAX)));
}

#[test]
fn bool_plus_bool_should_err() {
    let expr = CompExpr::Plus(Box::new(CompExpr::Bool(true)), Box::new(CompExpr::Num(1)));
    let res = interp(expr);
    assert_eq!(res, Err(InterpError::InvalidType));
}
