//! Bearer authorization: reading the token out of the `authorization`
//! header.

use vstd::prelude::*;
use crate::param::{ApiRequest, spec_pair_lookup, pair_lookup};

verus! {

use crate::codec::str_eq;
use vstd::string::{StrSliceExecFns, StringExecFns};

/// What a well-formed bearer header value looks like: the scheme, one
/// space, then the token.
pub open spec fn spec_bearer_token(value: Seq<char>) -> Option<Seq<char>> {
    if value.len() >= 7 && value.subrange(0, 7) == "Bearer "@ {
        Some(value.skip(7))
    } else {
        None
    }
}

/// A bearer token read from the `authorization` header.
#[derive(Debug, Clone, PartialEq, Eq)]
pub struct Bearer {
    /// The token itself, without the scheme prefix.
    pub token: String,
}

impl Bearer {
    /// Read the token out of one header value.
    pub fn parse_header_value(value: &str) -> (r: Option<Bearer>)
        ensures
            match r {
                Some(b) => spec_bearer_token(value@) == Some(b.token@),
                None => spec_bearer_token(value@) is None,
            },
    {
        let n = value.unicode_len();
        if n < 7 {
            return None;
        }
        let scheme = value.substring_char(0, 7);
        if str_eq(scheme, "Bearer ") {
            let token = value.substring_char(7, n);
            Some(Bearer { token: String::from_str(token) })
        } else {
            None
        }
    }

    /// Read the bearer token of a request, if its `authorization` header
    /// carries one.
    pub fn from_request(request: &ApiRequest) -> (r: Option<Bearer>)
        ensures
            match r {
                Some(b) => {
                    &&& spec_pair_lookup(request.headers@, "authorization"@) matches Some(v)
                        && spec_bearer_token(v) == Some(b.token@)
                },
                None => match spec_pair_lookup(request.headers@, "authorization"@) {
                    Some(v) => spec_bearer_token(v) is None,
                    None => true,
                },
            },
    {
        match pair_lookup(&request.headers, "authorization") {
            Some(value) => Bearer::parse_header_value(value.as_str()),
            None => None,
        }
    }
}

} // verus!
