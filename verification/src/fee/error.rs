//! Errors of the fee model.

use vstd::prelude::*;

use crate::text::push_str;

verus! {

/// Errors raised while computing fees.
#[derive(Debug, Clone, PartialEq)]
pub enum FeeModelError {
    /// No fee table is registered for the exchange.
    ExchangeNotRegistered(String),
    /// The fee table has no tier that applies.
    NoTiersConfigured(String),
    /// An invalid fee rate.
    InvalidRate(String),
    /// An invalid quantity.
    InvalidQuantity(String),
    /// The fee computation left the decimal range.
    Overflow(String),
}

/// Text of a fee model error.
pub open spec fn fee_message(e: FeeModelError) -> Seq<char> {
    match e {
        FeeModelError::ExchangeNotRegistered(s) => "交易所未注册："@ + s@,
        FeeModelError::NoTiersConfigured(s) => "未配置费率阶梯："@ + s@,
        FeeModelError::InvalidRate(s) => "无效的费率："@ + s@,
        FeeModelError::InvalidQuantity(s) => "无效的数量："@ + s@,
        FeeModelError::Overflow(s) => "费用计算溢出："@ + s@,
    }
}

impl FeeModelError {
    /// Text of the error.
    pub fn message(&self) -> (r: String)
        ensures
            r@ == fee_message(*self),
    {
        let mut out = String::new();
        match self {
            FeeModelError::ExchangeNotRegistered(s) => {
                push_str(&mut out, "交易所未注册：");
                push_str(&mut out, s.as_str());
            },
            FeeModelError::NoTiersConfigured(s) => {
                push_str(&mut out, "未配置费率阶梯：");
                push_str(&mut out, s.as_str());
            },
            FeeModelError::InvalidRate(s) => {
                push_str(&mut out, "无效的费率：");
                push_str(&mut out, s.as_str());
            },
            FeeModelError::InvalidQuantity(s) => {
                push_str(&mut out, "无效的数量：");
                push_str(&mut out, s.as_str());
            },
            FeeModelError::Overflow(s) => {
                push_str(&mut out, "费用计算溢出：");
                push_str(&mut out, s.as_str());
            },
        }
        out
    }
}

/// Result type of the fee model.
pub type FeeModelResult<T> = Result<T, FeeModelError>;

} // verus!
