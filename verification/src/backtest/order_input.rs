//! Reading orders from text fields (as scripting front ends hand them over).

use vstd::prelude::*;

use crate::market::Side;
use crate::order::{OrderType, TimeInForce};
use crate::text::push_str;
use crate::types::Price;

verus! {

/// The lower-case form of a text, as `str::to_lowercase` gives it.
pub uninterp spec fn str_lowercase(s: Seq<char>) -> Seq<char>;

/// The upper-case form of a text, as `str::to_uppercase` gives it.
pub uninterp spec fn str_uppercase(s: Seq<char>) -> Seq<char>;

/// `str::to_lowercase`: the Unicode lower-case form of `s`.
#[verifier::external_body]
fn to_lowercase(s: &str) -> (r: String)
    ensures
        r@ == str_lowercase(s@),
{
    s.to_lowercase()
}

/// `str::to_uppercase`: the Unicode upper-case form of `s`.
#[verifier::external_body]
fn to_uppercase(s: &str) -> (r: String)
    ensures
        r@ == str_uppercase(s@),
{
    s.to_uppercase()
}

/// Whether a string holds exactly the text `lit`.
fn text_is(s: &String, lit: &str) -> (r: bool)
    ensures
        r == (s@ == lit@),
{
    let owned = lit.to_owned();
    String::eq(s, &owned)
}

/// `prefix` followed by `rest`.
fn joined(prefix: &str, rest: &str) -> (r: String)
    ensures
        r@ == prefix@ + rest@,
{
    let mut out = String::new();
    push_str(&mut out, prefix);
    push_str(&mut out, rest);
    assert(out@ =~= prefix@ + rest@);
    out
}

/// A side from its name in any case: `buy` or `sell`; otherwise an error
/// naming the lower-cased text.
pub fn parse_side(s: &str) -> (r: Result<Side, String>)
    ensures
        str_lowercase(s@) == "buy"@ ==> r == Ok::<Side, String>(Side::Buy),
        str_lowercase(s@) == "sell"@ ==> r == Ok::<Side, String>(Side::Sell),
        str_lowercase(s@) != "buy"@ && str_lowercase(s@) != "sell"@ ==> (r matches Err(m) && m@
            == "invalid side: "@ + str_lowercase(s@)),
{
    proof {
        reveal_strlit("buy");
        reveal_strlit("sell");
        assert("buy"@.len() == 3 && "sell"@.len() == 4);
        assert("buy"@ != "sell"@);
    }
    let lower = to_lowercase(s);
    if text_is(&lower, "buy") {
        Ok(Side::Buy)
    } else if text_is(&lower, "sell") {
        Ok(Side::Sell)
    } else {
        Err(joined("invalid side: ", lower.as_str()))
    }
}

/// A time in force from its name in any case: `GTC`, `IOC` or `FOK`;
/// otherwise an error naming the upper-cased text.
pub fn parse_tif(s: &str) -> (r: Result<TimeInForce, String>)
    ensures
        str_uppercase(s@) == "GTC"@ ==> r == Ok::<TimeInForce, String>(TimeInForce::GTC),
        str_uppercase(s@) == "IOC"@ ==> r == Ok::<TimeInForce, String>(TimeInForce::IOC),
        str_uppercase(s@) == "FOK"@ ==> r == Ok::<TimeInForce, String>(TimeInForce::FOK),
        str_uppercase(s@) != "GTC"@ && str_uppercase(s@) != "IOC"@ && str_uppercase(s@) != "FOK"@
            ==> (r matches Err(m) && m@ == "invalid tif: "@ + str_uppercase(s@)),
{
    proof {
        reveal_strlit("GTC");
        reveal_strlit("IOC");
        reveal_strlit("FOK");
        assert("GTC"@[0] == 'G' && "IOC"@[0] == 'I' && "FOK"@[0] == 'F');
        assert("GTC"@ != "IOC"@ && "GTC"@ != "FOK"@ && "IOC"@ != "FOK"@);
    }
    let upper = to_uppercase(s);
    if text_is(&upper, "GTC") {
        Ok(TimeInForce::GTC)
    } else if text_is(&upper, "IOC") {
        Ok(TimeInForce::IOC)
    } else if text_is(&upper, "FOK") {
        Ok(TimeInForce::FOK)
    } else {
        Err(joined("invalid tif: ", upper.as_str()))
    }
}

/// Why an order kind could not be read.
#[derive(Debug, Clone, PartialEq, Eq)]
pub enum OrderTypeError {
    /// A limit order came without a price.
    MissingLimitPrice,
    /// The kind is neither `limit` nor `market`; the text is given.
    Unsupported(String),
}

/// An order kind from its name (`limit`, which needs a price, or `market`,
/// exactly so written).
pub fn order_type_from(kind: &str, price: Option<Price>) -> (r: Result<OrderType, OrderTypeError>)
    ensures
        kind@ == "limit"@ ==> match price {
            Some(p) => r == Ok::<OrderType, OrderTypeError>(OrderType::Limit { price: p }),
            None => r == Err::<OrderType, OrderTypeError>(OrderTypeError::MissingLimitPrice),
        },
        kind@ == "market"@ ==> r == Ok::<OrderType, OrderTypeError>(OrderType::Market),
        kind@ != "limit"@ && kind@ != "market"@ ==> (r matches Err(OrderTypeError::Unsupported(m))
            && m@ == kind@),
{
    proof {
        reveal_strlit("limit");
        reveal_strlit("market");
        assert("limit"@.len() == 5 && "market"@.len() == 6);
        assert("limit"@ != "market"@);
    }
    let k = kind.to_owned();
    if text_is(&k, "limit") {
        match price {
            Some(p) => Ok(OrderType::Limit { price: p }),
            None => Err(OrderTypeError::MissingLimitPrice),
        }
    } else if text_is(&k, "market") {
        Ok(OrderType::Market)
    } else {
        Err(OrderTypeError::Unsupported(k))
    }
}

} // verus!
