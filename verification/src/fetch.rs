//! Fetch failures and the classification of a raw price field.
//!
//! A fetch either yields the raw string of a price field or fails on the
//! way. The four failure kinds cover the transport, the response body,
//! a missing field, and a field that is not a number. Every kind is
//! recovered into a human-readable message that the state objects
//! attach to their error fields; no failure ever escapes further.

use vstd::prelude::*;
use vstd::string::StringExecFns;

use crate::decimal::{parseable, spec_decimal, Decimal};

verus! {

/// Why a fetch produced no usable value.
#[derive(Debug, Clone)]
pub enum FetchError {
    /// The HTTP round trip itself failed; carries the transport's text.
    Transport(String),
    /// The response body was not valid structured data.
    Decode(String),
    /// The expected price field was absent from a well-formed response.
    MissingField,
    /// The price field was present but not a decimal literal.
    NumericParse(String),
}

impl FetchError {
    /// The human-readable message shown next to stale values.
    pub open spec fn message_spec(&self) -> Seq<char> {
        match self {
            FetchError::Transport(d) => "HTTP request failed: "@ + d@,
            FetchError::Decode(d) => "Failed to parse JSON: "@ + d@,
            FetchError::MissingField => "Price field missing in response"@,
            FetchError::NumericParse(d) => "Failed to parse price string: "@ + d@,
        }
    }

    /// Render the failure as its message.
    pub fn message(&self) -> (r: String)
        ensures
            r@ == self.message_spec(),
    {
        match self {
            FetchError::Transport(d) => "HTTP request failed: ".to_owned().concat(d.as_str()),
            FetchError::Decode(d) => "Failed to parse JSON: ".to_owned().concat(d.as_str()),
            FetchError::MissingField => "Price field missing in response".to_owned(),
            FetchError::NumericParse(d) => "Failed to parse price string: ".to_owned().concat(d.as_str()),
        }
    }
}

/// Classify the raw price field of one fetched response: an absent
/// field and an unparseable field are distinct failures, and a
/// parseable field yields its exact decimal value.
pub fn price_outcome(raw: Option<String>) -> (r: Result<Decimal, FetchError>)
    ensures
        match raw {
            None => r matches Err(e) && e is MissingField,
            Some(s) => {
                &&& parseable(s@) ==> (r matches Ok(d) && d == spec_decimal(s@))
                &&& !parseable(s@) ==> {
                    &&& r matches Err(e)
                    &&& e matches FetchError::NumericParse(t)
                    &&& t@ == s@
                }
            },
        },
{
    match raw {
        None => Err(FetchError::MissingField),
        Some(s) => match Decimal::parse(s.as_str()) {
            Some(d) => Ok(d),
            None => Err(FetchError::NumericParse(s)),
        },
    }
}

} // verus!
