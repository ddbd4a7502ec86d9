//! Errors of volatility estimators (the estimators compute in floating point).

use vstd::prelude::*;

use crate::text::push_str;

verus! {

/// Errors raised by volatility estimators.
#[derive(Debug, Clone, Copy, PartialEq, Eq, Structural)]
pub enum VolatilityError {
    /// The estimation window is empty.
    ZeroWindow,
}

impl VolatilityError {
    /// Text of the error.
    pub fn message(&self) -> (r: String)
        ensures
            r@ == "窗口大小为零"@,
    {
        let mut s = String::new();
        push_str(&mut s, "窗口大小为零");
        s
    }
}

} // verus!
