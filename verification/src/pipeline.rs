use crate::desugarer::{desugar_spec, CompExpr, DesugarError};
use crate::interpreter::{interp_spec, InterpError, ValExpr};
use crate::parser::{parse_spec, ArithExpr, ParseError, SExpr};
use vstd::prelude::*;

verus! {

/// Round-trip identity: a number survives every stage unchanged, so the
/// whole pipeline maps `Number(n)` to `Ok(Number(n))`.
pub proof fn lemma_number_round_trip(n: i32)
    ensures
        parse_spec(SExpr::Num(n)) == Ok::<ArithExpr, ParseError>(ArithExpr::Num(n)),
        desugar_spec(ArithExpr::Num(n)) == Ok::<CompExpr, DesugarError>(CompExpr::Num(n)),
        interp_spec(CompExpr::Num(n)) == Ok::<ValExpr, InterpError>(ValExpr::Num(n)),
        interp_spec(desugar_spec(parse_spec(SExpr::Num(n))->Ok_0)->Ok_0) == Ok::<
            ValExpr,
            InterpError,
        >(ValExpr::Num(n)),
{
}

/// Subtraction equivalence: the list `(- a b)` runs through the whole
/// pipeline to the exact mathematical difference `a - b`. The rewrite
/// `a + (-1 * b)` computes in `i32`, so the claim asks that the negation of
/// `b` and the difference itself stay in range.
pub proof fn lemma_subtraction_equivalence(list: Vec<SExpr>, op: String, a: i32, b: i32)
    requires
        op@ == "-"@,
        list@ =~= seq![SExpr::Symbol(op), SExpr::Num(a), SExpr::Num(b)],
        b != i32::MIN,
        i32::MIN <= a - b <= i32::MAX,
    ensures
        parse_spec(SExpr::List(list)) is Ok,
        desugar_spec(parse_spec(SExpr::List(list))->Ok_0) is Ok,
        interp_spec(desugar_spec(parse_spec(SExpr::List(list))->Ok_0)->Ok_0) == Ok::<
            ValExpr,
            InterpError,
        >(ValExpr::Num((a - b) as i32)),
{
    reveal_strlit("+");
    reveal_strlit("*");
    reveal_strlit("-");
    assert("-"@[0] == '-' && "+"@[0] == '+' && "*"@[0] == '*');
    assert(op@ != "+"@ && op@ != "*"@);
    reveal_with_fuel(parse_spec, 4);
    let parsed = ArithExpr::BinOp(
        op,
        Box::new(ArithExpr::Num(a)),
        Box::new(ArithExpr::Num(b)),
    );
    assert(parse_spec(SExpr::List(list)) == Ok::<ArithExpr, ParseError>(parsed));
    let lowered = CompExpr::Plus(
        Box::new(CompExpr::Num(a)),
        Box::new(CompExpr::Mult(Box::new(CompExpr::Num(-1i32)), Box::new(CompExpr::Num(b)))),
    );
    reveal_with_fuel(desugar_spec, 4);
    assert(desugar_spec(parsed) == Ok::<CompExpr, DesugarError>(lowered));
    reveal_with_fuel(interp_spec, 8);
    assert(interp_spec(lowered) == Ok::<ValExpr, InterpError>(ValExpr::Num((a - b) as i32)));
}

} // verus!
