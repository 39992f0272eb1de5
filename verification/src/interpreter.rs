use crate::desugarer::CompExpr;
use vstd::prelude::*;

verus! {

/// A terminal runtime value, the result of a successful evaluation: a number
/// or a boolean, never a tree.
#[derive(Debug, PartialEq, Eq)]
pub enum ValExpr {
    Num(i32),
    Bool(bool),
}

/// What evaluation rejects. `InvalidType` covers every operand of the wrong
/// runtime variant; no value is ever coerced. `Overflow` is this
/// implementation's answer to arithmetic leaving the range of `i32`: the
/// interpreter checks every sum and product and reports the failure rather
/// than wrapping silently.
#[derive(Debug, PartialEq, Eq)]
pub enum InterpError {
    InvalidType,
    Overflow,
}

/// The number of nodes in a core tree; the measure that termination of the
/// interpreter rests on.
pub open spec fn comp_size(exp: CompExpr) -> nat
    decreases exp,
{
    match exp {
        CompExpr::Num(_) => 1,
        CompExpr::Bool(_) => 1,
        CompExpr::Plus(left, right) => 1 + comp_size(*left) + comp_size(*right),
        CompExpr::Mult(left, right) => 1 + comp_size(*left) + comp_size(*right),
        CompExpr::Not(expr) => 1 + comp_size(*expr),
        CompExpr::If(cond, then_branch, else_branch) => 1 + comp_size(*cond) + comp_size(
            *then_branch,
        ) + comp_size(*else_branch),
    }
}

/// What coercing an evaluated expression to a number yields: the numeric
/// value if evaluation succeeds with a number, `InvalidType` if it succeeds
/// with anything else, and the evaluation's own error otherwise.
pub open spec fn as_number_spec(expr: CompExpr) -> Result<i32, InterpError>
    decreases comp_size(expr), 1int,
{
    match interp_spec(expr) {
        Ok(ValExpr::Num(number)) => Ok(number),
        Ok(ValExpr::Bool(_)) => Err(InterpError::InvalidType),
        Err(e) => Err(e),
    }
}

/// What coercing an evaluated expression to a boolean yields, in the same
/// way as the numeric coercion.
pub open spec fn as_bool_spec(expr: CompExpr) -> Result<bool, InterpError>
    decreases comp_size(expr), 1int,
{
    match interp_spec(expr) {
        Ok(ValExpr::Bool(b)) => Ok(b),
        Ok(ValExpr::Num(_)) => Err(InterpError::InvalidType),
        Err(e) => Err(e),
    }
}

/// What evaluating a sum yields: the exact mathematical sum of the two
/// operands when both coerce to numbers and the sum fits in `i32`, the left
/// coercion's error first otherwise.
pub open spec fn interp_plus_spec(left: CompExpr, right: CompExpr) -> Result<ValExpr, InterpError>
    decreases comp_size(left) + comp_size(right), 2int,
{
    match as_number_spec(left) {
        Ok(l) => match as_number_spec(right) {
            Ok(r) => if i32::MIN <= l + r <= i32::MAX {
                Ok(ValExpr::Num((l + r) as i32))
            } else {
                Err(InterpError::Overflow)
            },
            Err(e) => Err(e),
        },
        Err(e) => Err(e),
    }
}

/// What evaluating a product yields, as for the sum.
pub open spec fn interp_mult_spec(left: CompExpr, right: CompExpr) -> Result<ValExpr, InterpError>
    decreases comp_size(left) + comp_size(right), 2int,
{
    match as_number_spec(left) {
        Ok(l) => match as_number_spec(right) {
            Ok(r) => if i32::MIN <= l * r <= i32::MAX {
                Ok(ValExpr::Num((l * r) as i32))
            } else {
                Err(InterpError::Overflow)
            },
            Err(e) => Err(e),
        },
        Err(e) => Err(e),
    }
}

/// What evaluating a negation yields: the logical negation of an operand
/// that coerces to a boolean, the coercion's error otherwise.
pub open spec fn interp_not_spec(expr: CompExpr) -> Result<ValExpr, InterpError>
    decreases comp_size(expr), 2int,
{
    match as_bool_spec(expr) {
        Ok(b) => Ok(ValExpr::Bool(!b)),
        Err(e) => Err(e),
    }
}

/// What `interp` yields for every core tree: literals evaluate to
/// themselves; sums, products and negations coerce their operands and fail
/// with `InvalidType` on a wrong variant; a conditional evaluates its
/// condition, then exactly one branch — the untaken branch contributes
/// nothing, not even its errors.
pub open spec fn interp_spec(exp: CompExpr) -> Result<ValExpr, InterpError>
    decreases comp_size(exp), 0int,
{
    match exp {
        CompExpr::Num(number) => Ok(ValExpr::Num(number)),
        CompExpr::Bool(b) => Ok(ValExpr::Bool(b)),
        CompExpr::Plus(left, right) => interp_plus_spec(*left, *right),
        CompExpr::Mult(left, right) => interp_mult_spec(*left, *right),
        CompExpr::Not(expr) => interp_not_spec(*expr),
        CompExpr::If(cond, then_branch, else_branch) => match as_bool_spec(*cond) {
            Ok(true) => interp_spec(*then_branch),
            Ok(false) => interp_spec(*else_branch),
            Err(e) => Err(e),
        },
    }
}

/// Short-circuit: when the condition of a conditional evaluates to a
/// boolean, the conditional's result is exactly the taken branch's result.
/// The untaken branch contributes nothing — not even its type errors or
/// overflows.
pub proof fn lemma_if_short_circuit(
    cond: Box<CompExpr>,
    then_branch: Box<CompExpr>,
    else_branch: Box<CompExpr>,
)
    ensures
        interp_spec(*cond) == Ok::<ValExpr, InterpError>(ValExpr::Bool(true)) ==> interp_spec(
            CompExpr::If(cond, then_branch, else_branch),
        ) == interp_spec(*then_branch),
        interp_spec(*cond) == Ok::<ValExpr, InterpError>(ValExpr::Bool(false)) ==> interp_spec(
            CompExpr::If(cond, then_branch, else_branch),
        ) == interp_spec(*else_branch),
{
    reveal_with_fuel(interp_spec, 2);
}

/// Type-error closure: a direct operand of `Plus`, `Mult` or `Not` that
/// evaluates to the wrong runtime variant makes the whole node evaluate to
/// `InvalidType` — never a coerced or default value. Operands are inspected
/// left to right, so for the right operand the claim holds once the left
/// one evaluated to a number.
pub proof fn lemma_type_error_closure(left: Box<CompExpr>, right: Box<CompExpr>)
    ensures
        interp_spec(*left) is Ok && interp_spec(*left)->Ok_0 is Bool ==> interp_spec(
            CompExpr::Plus(left, right),
        ) == Err::<ValExpr, InterpError>(InterpError::InvalidType) && interp_spec(
            CompExpr::Mult(left, right),
        ) == Err::<ValExpr, InterpError>(InterpError::InvalidType),
        interp_spec(*left) is Ok && interp_spec(*left)->Ok_0 is Num && interp_spec(*right) is Ok
            && interp_spec(*right)->Ok_0 is Bool ==> interp_spec(CompExpr::Plus(left, right))
            == Err::<ValExpr, InterpError>(InterpError::InvalidType) && interp_spec(
            CompExpr::Mult(left, right),
        ) == Err::<ValExpr, InterpError>(InterpError::InvalidType),
        interp_spec(*left) is Ok && interp_spec(*left)->Ok_0 is Num ==> interp_spec(
            CompExpr::Not(left),
        ) == Err::<ValExpr, InterpError>(InterpError::InvalidType),
{
    reveal_with_fuel(interp_spec, 4);
}

/// Evaluate an expression and require a numeric result; every other outcome
/// is an error. This is the coercion helper every arithmetic operator goes
/// through.
pub fn as_number(expr: CompExpr) -> (r: Result<i32, InterpError>)
    ensures
        r == as_number_spec(expr),
    decreases comp_size(expr), 1int,
{
    let interpreted = interp(expr)?;
    if let ValExpr::Num(num) = interpreted {
        Ok(num)
    } else {
        Err(InterpError::InvalidType)
    }
}

/// Evaluate an expression and require a boolean result; every other outcome
/// is an error. This is the coercion helper `not` and `if` go through.
pub fn as_bool(expr: CompExpr) -> (r: Result<bool, InterpError>)
    ensures
        r == as_bool_spec(expr),
    decreases comp_size(expr), 1int,
{
    let interpreted = interp(expr)?;
    if let ValExpr::Bool(b) = interpreted {
        Ok(b)
    } else {
        Err(InterpError::InvalidType)
    }
}

/// Evaluate a sum: both operands must coerce to numbers, and the exact sum
/// must fit in `i32`.
pub fn interp_plus(left: CompExpr, right: CompExpr) -> (r: Result<ValExpr, InterpError>)
    ensures
        r == interp_plus_spec(left, right),
    decreases comp_size(left) + comp_size(right), 2int,
{
    let l = as_number(left)?;
    let r = as_number(right)?;
    match l.checked_add(r) {
        Some(sum) => Ok(ValExpr::Num(sum)),
        None => Err(InterpError::Overflow),
    }
}

/// Evaluate a product: both operands must coerce to numbers, and the exact
/// product must fit in `i32`.
pub fn interp_mult(left: CompExpr, right: CompExpr) -> (r: Result<ValExpr, InterpError>)
    ensures
        r == interp_mult_spec(left, right),
    decreases comp_size(left) + comp_size(right), 2int,
{
    let l = as_number(left)?;
    let r = as_number(right)?;
    match l.checked_mul(r) {
        Some(product) => Ok(ValExpr::Num(product)),
        None => Err(InterpError::Overflow),
    }
}

/// Evaluate a logical negation: the operand must coerce to a boolean.
pub fn interp_not(expr: CompExpr) -> (r: Result<ValExpr, InterpError>)
    ensures
        r == interp_not_spec(expr),
    decreases comp_size(expr), 2int,
{
    let b = as_bool(expr)?;
    Ok(ValExpr::Bool(!b))
}

/// Evaluate a core AST to a runtime value, enforcing operand types at each
/// operator: no truthiness, no numeric-to-boolean conversion, and checked
/// arithmetic throughout. A conditional evaluates only the taken branch.
pub fn interp(exp: CompExpr) -> (r: Result<ValExpr, InterpError>)
    ensures
        r == interp_spec(exp),
    decreases comp_size(exp), 0int,
{
    match exp {
        CompExpr::Num(number) => Ok(ValExpr::Num(number)),
        CompExpr::Bool(b) => Ok(ValExpr::Bool(b)),
        CompExpr::Plus(left, right) => interp_plus(*left, *right),
        CompExpr::Mult(left, right) => interp_mult(*left, *right),
        CompExpr::Not(expr) => interp_not(*expr),
        CompExpr::If(cond, then_branch, else_branch) => {
            let b = as_bool(*cond)?;
            if b {
                interp(*then_branch)
            } else {
                interp(*else_branch)
            }
        },
    }
}

} // verus!
