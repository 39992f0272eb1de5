use vstd::prelude::*;

verus! {

/// A symbolic input tree: an integer atom, a parenthesized list, or a bare
/// symbol. This is the parser's input; it carries no meaning of its own.
#[derive(Debug, PartialEq, Eq)]
pub enum SExpr {
    Num(i32),
    List(Vec<SExpr>),
    Symbol(String),
}

/// The surface abstract syntax tree. Operator identity is carried as bare
/// text at this stage: the parser validates only shape and arity, and leaves
/// the judgment of operator spellings to the desugarer.
#[derive(Debug, PartialEq, Eq)]
pub enum ArithExpr {
    Num(i32),
    Bool(bool),
    BinOp(String, Box<ArithExpr>, Box<ArithExpr>),
    UnOp(String, Box<ArithExpr>),
    TriOp(String, Box<ArithExpr>, Box<ArithExpr>, Box<ArithExpr>),
}

impl Clone for SExpr {
    /// Duplicates the tree node by node. Verified code never relies on the
    /// copy; callers that keep an input around duplicate it with this.
    #[verifier::loop_isolation(false)]
    fn clone(&self) -> (r: Self)
        decreases self,
    {
        match self {
            SExpr::Num(number) => SExpr::Num(*number),
            SExpr::Symbol(symbol) => SExpr::Symbol(symbol.clone()),
            SExpr::List(list) => {
                let mut items: Vec<SExpr> = Vec::new();
                let mut i: usize = 0;
                while i < list.len()
                    invariant
                        i <= list@.len(),
                    decreases list@.len() - i,
                {
                    items.push(list[i].clone());
                    i = i + 1;
                }
                SExpr::List(items)
            },
        }
    }
}

impl Clone for ArithExpr {
    fn clone(&self) -> (r: Self)
        ensures
            r == *self,
        decreases self,
    {
        match self {
            ArithExpr::Num(number) => ArithExpr::Num(*number),
            ArithExpr::Bool(b) => ArithExpr::Bool(*b),
            ArithExpr::BinOp(op, left, right) => ArithExpr::BinOp(
                op.clone(),
                Box::new((**left).clone()),
                Box::new((**right).clone()),
            ),
            ArithExpr::UnOp(op, expr) => ArithExpr::UnOp(op.clone(), Box::new((**expr).clone())),
            ArithExpr::TriOp(op, first, second, third) => ArithExpr::TriOp(
                op.clone(),
                Box::new((**first).clone()),
                Box::new((**second).clone()),
                Box::new((**third).clone()),
            ),
        }
    }
}

/// What the parser rejects: a bare symbol outside the keyword set, or a list
/// that is not the exact three-element `[operator, left, right]` shape. The
/// offending input is carried for diagnostics.
#[derive(Debug, PartialEq, Eq)]
pub enum ParseError {
    UnexpectedSymbol(String),
    UnknownExpression(SExpr),
}

/// What parsing a list node yields: a binary operation for the exact shape
/// `[symbol, expr, expr]`, with both operands parsed in turn (the left one
/// first, its error winning), and `UnknownExpression` carrying the whole
/// list for any other shape.
pub open spec fn parse_list_spec(list: Vec<SExpr>) -> Result<ArithExpr, ParseError>
    decreases list,
{
    if list@.len() == 3 && list@[0] is Symbol {
        match parse_spec(list@[1]) {
            Ok(left) => match parse_spec(list@[2]) {
                Ok(right) => Ok(
                    ArithExpr::BinOp(list@[0]->Symbol_0, Box::new(left), Box::new(right)),
                ),
                Err(e) => Err(e),
            },
            Err(e) => Err(e),
        }
    } else {
        Err(ParseError::UnknownExpression(SExpr::List(list)))
    }
}

/// What parsing a bare symbol yields: the boolean literals for the exact
/// lowercase spellings `true` and `false`, and `UnexpectedSymbol` carrying
/// the text for anything else.
pub open spec fn parse_symbol_spec(symbol: String) -> Result<ArithExpr, ParseError> {
    if symbol@ == "false"@ {
        Ok(ArithExpr::Bool(false))
    } else if symbol@ == "true"@ {
        Ok(ArithExpr::Bool(true))
    } else {
        Err(ParseError::UnexpectedSymbol(symbol))
    }
}

/// What `parse` yields for every symbolic tree: numbers pass through
/// unchanged, lists must have the `[symbol, expr, expr]` shape, and bare
/// symbols must be one of the boolean keywords. Any other input is an error;
/// nothing is defaulted.
pub open spec fn parse_spec(exp: SExpr) -> Result<ArithExpr, ParseError>
    decreases exp,
{
    match exp {
        SExpr::Num(number) => Ok(ArithExpr::Num(number)),
        SExpr::List(list) => parse_list_spec(list),
        SExpr::Symbol(symbol) => parse_symbol_spec(symbol),
    }
}

fn parse_list(list: Vec<SExpr>) -> (r: Result<ArithExpr, ParseError>)
    ensures
        r == parse_list_spec(list),
    decreases list,
{
    if list.len() != 3 {
        return Err(ParseError::UnknownExpression(SExpr::List(list)));
    }
    let op: String = match &list[0] {
        SExpr::Symbol(symbol) => symbol.clone(),
        _ => {
            return Err(ParseError::UnknownExpression(SExpr::List(list)));
        },
    };
    let mut rest = list;
    let right_exp = rest.remove(2);
    let left_exp = rest.remove(1);
    let left = match parse(left_exp) {
        Ok(left) => left,
        Err(e) => {
            return Err(e);
        },
    };
    let right = match parse(right_exp) {
        Ok(right) => right,
        Err(e) => {
            return Err(e);
        },
    };
    Ok(ArithExpr::BinOp(op, Box::new(left), Box::new(right)))
}

fn parse_symbol(symbol: String) -> (r: Result<ArithExpr, ParseError>)
    ensures
        r == parse_symbol_spec(symbol),
{
    if symbol == "false".to_owned() {
        Ok(ArithExpr::Bool(false))
    } else if symbol == "true".to_owned() {
        Ok(ArithExpr::Bool(true))
    } else {
        Err(ParseError::UnexpectedSymbol(symbol))
    }
}

/// Convert a symbolic tree into a surface AST, validating shape only: a
/// three-element list parses as a binary operation whatever its operator
/// text says, while unknown operator spellings are rejected later, by the
/// desugarer.
pub fn parse(exp: SExpr) -> (r: Result<ArithExpr, ParseError>)
    ensures
        r == parse_spec(exp),
    decreases exp,
{
    match exp {
        SExpr::Num(number) => Ok(ArithExpr::Num(number)),
        SExpr::List(list) => parse_list(list),
        SExpr::Symbol(symbol) => parse_symbol(symbol),
    }
}

} // verus!
