//! Checked arithmetic over reward and fund quantities.
//!
//! Every add/sub/mul/div on such a quantity goes through one of these
//! helpers, which yield a distinct `ArithmeticError` on overflow, underflow
//! or division by zero rather than wrapping or saturating silently.

use vstd::prelude::*;

use crate::errors::ErrorCode;

verus! {

/// Checked addition: `a + b`, or `ArithmeticError` if the sum does not fit.
pub fn try_add(a: u64, b: u64) -> (r: Result<u64, ErrorCode>)
    ensures
        a + b <= u64::MAX ==> r == Ok::<u64, ErrorCode>((a + b) as u64),
        a + b > u64::MAX ==> r == Err::<u64, ErrorCode>(ErrorCode::ArithmeticError),
{
    match a.checked_add(b) {
        Some(c) => Ok(c),
        None => Err(ErrorCode::ArithmeticError),
    }
}

/// Checked subtraction: `a - b`, or `ArithmeticError` on underflow.
pub fn try_sub(a: u64, b: u64) -> (r: Result<u64, ErrorCode>)
    ensures
        b <= a ==> r == Ok::<u64, ErrorCode>((a - b) as u64),
        b > a ==> r == Err::<u64, ErrorCode>(ErrorCode::ArithmeticError),
{
    match a.checked_sub(b) {
        Some(c) => Ok(c),
        None => Err(ErrorCode::ArithmeticError),
    }
}

/// Checked multiplication: `a * b`, or `ArithmeticError` if the product does
/// not fit.
pub fn try_mul(a: u64, b: u64) -> (r: Result<u64, ErrorCode>)
    ensures
        a * b <= u64::MAX ==> r == Ok::<u64, ErrorCode>((a * b) as u64),
        a * b > u64::MAX ==> r == Err::<u64, ErrorCode>(ErrorCode::ArithmeticError),
{
    match a.checked_mul(b) {
        Some(c) => Ok(c),
        None => Err(ErrorCode::ArithmeticError),
    }
}

/// Checked division: `a / b` rounded towards zero, or `ArithmeticError` when
/// `b` is zero.
pub fn try_div(a: u64, b: u64) -> (r: Result<u64, ErrorCode>)
    ensures
        b != 0 ==> r == Ok::<u64, ErrorCode>((a / b) as u64) && a / b <= a,
        b == 0 ==> r == Err::<u64, ErrorCode>(ErrorCode::ArithmeticError),
{
    proof {
        if b != 0 {
            assert(a / b <= a) by (nonlinear_arith)
                requires
                    b >= 1,
                    a >= 0,
            ;
        }
    }
    match a.checked_div(b) {
        Some(c) => Ok(c),
        None => Err(ErrorCode::ArithmeticError),
    }
}

/// Checked addition on a `u32` counter, or `ArithmeticError` if the sum does
/// not fit.
pub fn try_add_u32(a: u32, b: u32) -> (r: Result<u32, ErrorCode>)
    ensures
        a + b <= u32::MAX ==> r == Ok::<u32, ErrorCode>((a + b) as u32),
        a + b > u32::MAX ==> r == Err::<u32, ErrorCode>(ErrorCode::ArithmeticError),
{
    match a.checked_add(b) {
        Some(c) => Ok(c),
        None => Err(ErrorCode::ArithmeticError),
    }
}

} // verus!
