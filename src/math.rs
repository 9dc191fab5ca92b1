use vstd::prelude::*;

verus! {

/// Why an arithmetic tool gave no result.
#[derive(Debug, Clone, Copy, PartialEq, Eq, Structural)]
pub enum ArithmeticError {
    /// The exact result does not fit in an `i64`.
    Overflow,
    /// The divisor is zero.
    DivisionByZero,
}

/// An exact result, when it fits in an `i64`.
pub open spec fn fitting(n: int) -> Result<i64, ArithmeticError> {
    if i64::MIN <= n <= i64::MAX {
        Ok(n as i64)
    } else {
        Err(ArithmeticError::Overflow)
    }
}

pub open spec fn abs(n: int) -> int {
    if n < 0 {
        -n
    } else {
        n
    }
}

/// Division that rounds toward zero.
pub open spec fn trunc_div(a: int, b: int) -> int {
    if (a < 0) == (b < 0) {
        abs(a) / abs(b)
    } else {
        -(abs(a) / abs(b))
    }
}

pub struct AddArgs {
    pub lhs: i64,
    pub rhs: i64,
}

pub struct SubtractArgs {
    pub lhs: i64,
    pub rhs: i64,
}

pub struct MultiplyArgs {
    pub lhs: i64,
    pub rhs: i64,
}

pub struct DivideArgs {
    pub lhs: i64,
    pub rhs: i64,
}

/// The sum of two numbers.
pub struct Add;

/// The difference of two numbers.
pub struct Subtract;

/// The product of two numbers.
pub struct Multiply;

/// The quotient of two numbers.
pub struct Divide;

impl Add {
    pub fn call(&self, args: AddArgs) -> (r: Result<i64, ArithmeticError>)
        ensures
            r == fitting(args.lhs + args.rhs),
    {
        match args.lhs.checked_add(args.rhs) {
            Some(n) => Ok(n),
            None => Err(ArithmeticError::Overflow),
        }
    }
}

impl Subtract {
    /// `lhs - rhs`.
    pub fn call(&self, args: SubtractArgs) -> (r: Result<i64, ArithmeticError>)
        ensures
            r == fitting(args.lhs - args.rhs),
    {
        match args.lhs.checked_sub(args.rhs) {
            Some(n) => Ok(n),
            None => Err(ArithmeticError::Overflow),
        }
    }
}

impl Multiply {
    pub fn call(&self, args: MultiplyArgs) -> (r: Result<i64, ArithmeticError>)
        ensures
            r == fitting(args.lhs * args.rhs),
    {
        match args.lhs.checked_mul(args.rhs) {
            Some(n) => Ok(n),
            None => Err(ArithmeticError::Overflow),
        }
    }
}

impl Divide {
    /// `lhs / rhs`, rounded toward zero.
    pub fn call(&self, args: DivideArgs) -> (r: Result<i64, ArithmeticError>)
        ensures
            r == (if args.rhs == 0 {
                Err(ArithmeticError::DivisionByZero)
            } else {
                fitting(trunc_div(args.lhs as int, args.rhs as int))
            }),
    {
        if args.rhs == 0 {
            return Err(ArithmeticError::DivisionByZero);
        }
        match args.lhs.checked_div(args.rhs) {
            Some(n) => Ok(n),
            None => Err(ArithmeticError::Overflow),
        }
    }
}

} // verus!
