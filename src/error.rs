//! The library's errors.
use vstd::prelude::*;

verus! {

#[derive(Debug, Clone, PartialEq, Eq)]
pub enum Error {
    BadOAuth,
    /// The playing item is not a track.
    NotASong,
    NotImplemented,
    /// An outside service answered with an unexpected status.
    BadRequest { url: String, status_code: u16 },
    /// A request to an outside service did not complete; its message.
    RequestFailed(String),
    /// A value that the catalog or the store holds could not be read.
    ParseError(String),
    /// The record store failed; its message.
    StoreError(String),
}

/// The decimal form of an integer: an optional `-` and its digits, no leading zeros.
pub open spec fn decimal_text(n: int) -> Seq<char>
    decreases (if n < 0 { 1 - n } else { n }),
{
    if n < 0 {
        seq!['-'] + decimal_text(-n)
    } else if n < 10 {
        seq![('0' as u8 + n) as char]
    } else {
        decimal_text(n / 10).push(('0' as u8 + n % 10) as char)
    }
}

/// Relies on `i64`'s `ToString`: its decimal form.
#[verifier::external_body]
pub(crate) fn to_decimal(n: i64) -> (r: String)
    ensures
        r@ == decimal_text(n as int),
{
    n.to_string()
}

} // verus!
