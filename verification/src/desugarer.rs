use crate::parser::ArithExpr;
use vstd::prelude::*;

verus! {

/// The minimal core AST the interpreter understands. Subtraction is absent
/// on purpose: the desugarer rewrites it into a plus/times combination, so
/// every surface operator maps to exactly one core shape.
#[derive(Debug, PartialEq, Eq)]
pub enum CompExpr {
    Num(i32),
    Bool(bool),
    Plus(Box<CompExpr>, Box<CompExpr>),
    Mult(Box<CompExpr>, Box<CompExpr>),
    Not(Box<CompExpr>),
    If(Box<CompExpr>, Box<CompExpr>, Box<CompExpr>),
}

impl Clone for CompExpr {
    fn clone(&self) -> (r: Self)
        ensures
            r == *self,
        decreases self,
    {
        match self {
            CompExpr::Num(number) => CompExpr::Num(*number),
            CompExpr::Bool(b) => CompExpr::Bool(*b),
            CompExpr::Plus(left, right) => CompExpr::Plus(
                Box::new((**left).clone()),
                Box::new((**right).clone()),
            ),
            CompExpr::Mult(left, right) => CompExpr::Mult(
                Box::new((**left).clone()),
                Box::new((**right).clone()),
            ),
            CompExpr::Not(expr) => CompExpr::Not(Box::new((**expr).clone())),
            CompExpr::If(cond, then_branch, else_branch) => CompExpr::If(
                Box::new((**cond).clone()),
                Box::new((**then_branch).clone()),
                Box::new((**else_branch).clone()),
            ),
        }
    }
}

/// What the desugarer rejects: an operator text outside the closed set for
/// its arity.
#[derive(Debug, PartialEq, Eq, Clone)]
pub enum DesugarError {
    UnrecognizedUnaryOperation,
    UnrecognizedBinaryOperation,
    UnrecognizedTernaryOperation,
}

/// The number of nodes in a surface tree; the measure that termination of
/// the desugarer rests on.
pub open spec fn arith_size(exp: ArithExpr) -> nat
    decreases exp,
{
    match exp {
        ArithExpr::Num(_) => 1,
        ArithExpr::Bool(_) => 1,
        ArithExpr::BinOp(_, left, right) => 1 + arith_size(*left) + arith_size(*right),
        ArithExpr::UnOp(_, expr) => 1 + arith_size(*expr),
        ArithExpr::TriOp(_, first, second, third) => 1 + arith_size(*first) + arith_size(*second)
            + arith_size(*third),
    }
}

/// What desugaring a binary operation yields: `+` and `*` map to the core
/// primitives; `-` is sugar, rewritten into `left + (-1 * right)`; anything
/// else is `UnrecognizedBinaryOperation`. Operands are lowered left to
/// right, the left error winning.
pub open spec fn desugar_bin_op_spec(op: String, left: ArithExpr, right: ArithExpr) -> Result<
    CompExpr,
    DesugarError,
>
    decreases arith_size(left) + arith_size(right), 1int,
{
    if op@ == "+"@ {
        match desugar_spec(left) {
            Ok(l) => match desugar_spec(right) {
                Ok(r) => Ok(CompExpr::Plus(Box::new(l), Box::new(r))),
                Err(e) => Err(e),
            },
            Err(e) => Err(e),
        }
    } else if op@ == "*"@ {
        match desugar_spec(left) {
            Ok(l) => match desugar_spec(right) {
                Ok(r) => Ok(CompExpr::Mult(Box::new(l), Box::new(r))),
                Err(e) => Err(e),
            },
            Err(e) => Err(e),
        }
    } else if op@ == "-"@ {
        match desugar_spec(left) {
            Ok(l) => match desugar_spec(right) {
                Ok(r) => Ok(
                    CompExpr::Plus(
                        Box::new(l),
                        Box::new(
                            CompExpr::Mult(Box::new(CompExpr::Num(-1i32)), Box::new(r)),
                        ),
                    ),
                ),
                Err(e) => Err(e),
            },
            Err(e) => Err(e),
        }
    } else {
        Err(DesugarError::UnrecognizedBinaryOperation)
    }
}

/// What desugaring a unary operation yields: `not` maps to the core
/// negation; anything else is `UnrecognizedUnaryOperation`.
pub open spec fn desugar_un_op_spec(op: String, expr: ArithExpr) -> Result<CompExpr, DesugarError>
    decreases arith_size(expr), 1int,
{
    if op@ == "not"@ {
        match desugar_spec(expr) {
            Ok(e) => Ok(CompExpr::Not(Box::new(e))),
            Err(e) => Err(e),
        }
    } else {
        Err(DesugarError::UnrecognizedUnaryOperation)
    }
}

/// What desugaring a ternary operation yields: `if` maps to the core
/// conditional; anything else is `UnrecognizedTernaryOperation`. Operands
/// are lowered left to right, the first error winning.
pub open spec fn desugar_tri_op_spec(
    op: String,
    first: ArithExpr,
    second: ArithExpr,
    third: ArithExpr,
) -> Result<CompExpr, DesugarError>
    decreases arith_size(first) + arith_size(second) + arith_size(third), 1int,
{
    if op@ == "if"@ {
        match desugar_spec(first) {
            Ok(c) => match desugar_spec(second) {
                Ok(t) => match desugar_spec(third) {
                    Ok(e) => Ok(CompExpr::If(Box::new(c), Box::new(t), Box::new(e))),
                    Err(e) => Err(e),
                },
                Err(e) => Err(e),
            },
            Err(e) => Err(e),
        }
    } else {
        Err(DesugarError::UnrecognizedTernaryOperation)
    }
}

/// What `desugar` yields for every surface tree: literals pass through
/// value for value, and each operator node is dispatched on its text by
/// arity. No type checking happens here; it is a purely structural rewrite.
pub open spec fn desugar_spec(exp: ArithExpr) -> Result<CompExpr, DesugarError>
    decreases arith_size(exp), 0int,
{
    match exp {
        ArithExpr::Num(number) => Ok(CompExpr::Num(number)),
        ArithExpr::Bool(b) => Ok(CompExpr::Bool(b)),
        ArithExpr::BinOp(op, left, right) => desugar_bin_op_spec(op, *left, *right),
        ArithExpr::UnOp(op, expr) => desugar_un_op_spec(op, *expr),
        ArithExpr::TriOp(op, first, second, third) => desugar_tri_op_spec(
            op,
            *first,
            *second,
            *third,
        ),
    }
}

/// Unknown-operator closure: an operator text outside the closed vocabulary
/// of its arity always desugars to the corresponding error, whatever the
/// operands are.
pub proof fn lemma_unknown_operator_closure(
    op: String,
    first: Box<ArithExpr>,
    second: Box<ArithExpr>,
    third: Box<ArithExpr>,
)
    ensures
        op@ != "+"@ && op@ != "*"@ && op@ != "-"@ ==> desugar_spec(
            ArithExpr::BinOp(op, first, second),
        ) == Err::<CompExpr, DesugarError>(DesugarError::UnrecognizedBinaryOperation),
        op@ != "not"@ ==> desugar_spec(ArithExpr::UnOp(op, first)) == Err::<
            CompExpr,
            DesugarError,
        >(DesugarError::UnrecognizedUnaryOperation),
        op@ != "if"@ ==> desugar_spec(ArithExpr::TriOp(op, first, second, third)) == Err::<
            CompExpr,
            DesugarError,
        >(DesugarError::UnrecognizedTernaryOperation),
{
}

fn desugar_bin_op(op: String, left: ArithExpr, right: ArithExpr) -> (r: Result<
    CompExpr,
    DesugarError,
>)
    ensures
        r == desugar_bin_op_spec(op, left, right),
    decreases arith_size(left) + arith_size(right), 1int,
{
    if op == "+".to_owned() {
        Ok(CompExpr::Plus(Box::new(desugar(left)?), Box::new(desugar(right)?)))
    } else if op == "*".to_owned() {
        Ok(CompExpr::Mult(Box::new(desugar(left)?), Box::new(desugar(right)?)))
    } else if op == "-".to_owned() {
        Ok(
            CompExpr::Plus(
                Box::new(desugar(left)?),
                Box::new(
                    CompExpr::Mult(Box::new(CompExpr::Num(-1)), Box::new(desugar(right)?)),
                ),
            ),
        )
    } else {
        Err(DesugarError::UnrecognizedBinaryOperation)
    }
}

fn desugar_un_op(op: String, expr: ArithExpr) -> (r: Result<CompExpr, DesugarError>)
    ensures
        r == desugar_un_op_spec(op, expr),
    decreases arith_size(expr), 1int,
{
    if op == "not".to_owned() {
        Ok(CompExpr::Not(Box::new(desugar(expr)?)))
    } else {
        Err(DesugarError::UnrecognizedUnaryOperation)
    }
}

fn desugar_tri_op(op: String, first: ArithExpr, second: ArithExpr, third: ArithExpr) -> (r: Result<
    CompExpr,
    DesugarError,
>)
    ensures
        r == desugar_tri_op_spec(op, first, second, third),
    decreases arith_size(first) + arith_size(second) + arith_size(third), 1int,
{
    if op == "if".to_owned() {
        Ok(
            CompExpr::If(
                Box::new(desugar(first)?),
                Box::new(desugar(second)?),
                Box::new(desugar(third)?),
            ),
        )
    } else {
        Err(DesugarError::UnrecognizedTernaryOperation)
    }
}

/// Lower a surface AST into the minimal core AST, expanding derived
/// operators (subtraction becomes `left + (-1 * right)`) and rejecting any
/// operator text outside the closed vocabulary of its arity. The first
/// error in a left-to-right, outside-in traversal wins.
pub fn desugar(exp: ArithExpr) -> (r: Result<CompExpr, DesugarError>)
    ensures
        r == desugar_spec(exp),
    decreases arith_size(exp), 0int,
{
    match exp {
        ArithExpr::Num(number) => Ok(CompExpr::Num(number)),
        ArithExpr::UnOp(op, expr) => desugar_un_op(op, *expr),
        ArithExpr::BinOp(op, left, right) => desugar_bin_op(op, *left, *right),
        ArithExpr::Bool(b) => Ok(CompExpr::Bool(b)),
        ArithExpr::TriOp(op, first, second, third) => desugar_tri_op(op, *first, *second, *third),
    }
}

} // verus!
