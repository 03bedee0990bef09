//! Binding of operation parameters: fetch the raw string from the declared
//! source, parse it, fall back to a typed default when the source is absent,
//! and run the validator pipeline.

use vstd::prelude::*;
use crate::error::{ParseRequestError, RequestErrorModel};
use crate::registry::{HttpMethod, MetaParamIn};
use crate::types::Type;
use crate::validation::{
    ValidatorSpec, msg_param_failure, pipeline_wf, spec_first_failure, validate_param,
};

verus! {

use crate::codec::str_eq;

/// The transport-independent form of an incoming request: every parameter
/// source as plain strings, and the body as plain bytes.
#[derive(Debug, PartialEq)]
pub struct ApiRequest {
    pub method: HttpMethod,
    pub path: String,
    pub path_params: Vec<(String, String)>,
    pub query: Vec<(String, String)>,
    pub headers: Vec<(String, String)>,
    pub cookies: Vec<(String, String)>,
    pub content_type: Option<String>,
    pub body: Option<Vec<u8>>,
}

/// The first value bound to `key`, scanning the pairs front to back.
pub open spec fn spec_pair_lookup(pairs: Seq<(String, String)>, key: Seq<char>) -> Option<
    Seq<char>,
>
    decreases pairs.len(),
{
    if pairs.len() == 0 {
        None
    } else if pairs[0].0@ == key {
        Some(pairs[0].1@)
    } else {
        spec_pair_lookup(pairs.skip(1), key)
    }
}

/// Look up the first value bound to `key` in a pair list.
pub fn pair_lookup<'a>(pairs: &'a Vec<(String, String)>, key: &str) -> (r: Option<&'a String>)
    ensures
        match r {
            Some(v) => spec_pair_lookup(pairs@, key@) == Some(v@),
            None => spec_pair_lookup(pairs@, key@) is None,
        },
{
    let mut i: usize = 0;
    proof {
        assert(pairs@.skip(0) =~= pairs@);
    }
    while i < pairs.len()
        invariant
            i <= pairs@.len(),
            spec_pair_lookup(pairs@, key@) == spec_pair_lookup(pairs@.skip(i as int), key@),
        decreases pairs@.len() - i,
    {
        let ghost rest = pairs@.skip(i as int);
        proof {
            assert(rest[0] == pairs@[i as int]);
            assert(rest.skip(1) =~= pairs@.skip(i as int + 1));
        }
        if str_eq(pairs[i].0.as_str(), key) {
            return Some(&pairs[i].1);
        }
        i = i + 1;
    }
    proof {
        assert(pairs@.skip(i as int) =~= Seq::<(String, String)>::empty());
    }
    None
}

/// The raw string for a parameter, read from its declared source.
pub open spec fn spec_raw_param(req: ApiRequest, in_type: MetaParamIn, name: Seq<char>) -> Option<
    Seq<char>,
> {
    match in_type {
        MetaParamIn::Query => spec_pair_lookup(req.query@, name),
        MetaParamIn::Header => spec_pair_lookup(req.headers@, name),
        MetaParamIn::Path => spec_pair_lookup(req.path_params@, name),
        MetaParamIn::Cookie => spec_pair_lookup(req.cookies@, name),
    }
}

/// Read the raw string for a parameter from its declared source.
pub fn raw_param<'a>(request: &'a ApiRequest, in_type: MetaParamIn, name: &str) -> (r: Option<
    &'a String,
>)
    ensures
        match r {
            Some(v) => spec_raw_param(*request, in_type, name@) == Some(v@),
            None => spec_raw_param(*request, in_type, name@) is None,
        },
{
    match in_type {
        MetaParamIn::Query => pair_lookup(&request.query, name),
        MetaParamIn::Header => pair_lookup(&request.headers, name),
        MetaParamIn::Path => pair_lookup(&request.path_params, name),
        MetaParamIn::Cookie => pair_lookup(&request.cookies, name),
    }
}

/// How a parameter bind result must line up with the parse specification:
/// the parsed value for success, a parameter error carrying the exact
/// message for failure.
pub open spec fn param_outcome<T: Type>(
    r: Result<T, ParseRequestError>,
    s: Result<T::V, Seq<char>>,
    name: Seq<char>,
) -> bool {
    match r {
        Ok(x) => s == Ok::<T::V, Seq<char>>(x.deep_view()),
        Err(e) => {
            &&& e@ matches RequestErrorModel::ParseParam { name: n, reason } && n == name && s
                == Err::<T::V, Seq<char>>(reason)
        },
    }
}

/// Parse a parameter from the query string.
pub fn parse_from_query<T: Type>(name: &str, request: &ApiRequest) -> (r: Result<
    T,
    ParseRequestError,
>)
    ensures
        param_outcome::<T>(
            r,
            T::spec_parse_str(spec_pair_lookup(request.query@, name@)),
            name@,
        ),
{
    let raw = pair_lookup(&request.query, name);
    let raw_str = match raw {
        Some(s) => Some(s.as_str()),
        None => None,
    };
    match T::parse_from_str(raw_str) {
        Ok(v) => Ok(v),
        Err(e) => Err(
            ParseRequestError::ParseParam { name: String::from_str(name), reason: e.into_message() },
        ),
    }
}

/// Parse a parameter from the request headers.
pub fn parse_from_header<T: Type>(name: &str, request: &ApiRequest) -> (r: Result<
    T,
    ParseRequestError,
>)
    ensures
        param_outcome::<T>(
            r,
            T::spec_parse_str(spec_pair_lookup(request.headers@, name@)),
            name@,
        ),
{
    let raw = pair_lookup(&request.headers, name);
    let raw_str = match raw {
        Some(s) => Some(s.as_str()),
        None => None,
    };
    match T::parse_from_str(raw_str) {
        Ok(v) => Ok(v),
        Err(e) => Err(
            ParseRequestError::ParseParam { name: String::from_str(name), reason: e.into_message() },
        ),
    }
}

/// Parse a parameter from a path-template capture.
pub fn parse_from_path<T: Type>(name: &str, request: &ApiRequest) -> (r: Result<
    T,
    ParseRequestError,
>)
    ensures
        param_outcome::<T>(
            r,
            T::spec_parse_str(spec_pair_lookup(request.path_params@, name@)),
            name@,
        ),
{
    let raw = pair_lookup(&request.path_params, name);
    let raw_str = match raw {
        Some(s) => Some(s.as_str()),
        None => None,
    };
    match T::parse_from_str(raw_str) {
        Ok(v) => Ok(v),
        Err(e) => Err(
            ParseRequestError::ParseParam { name: String::from_str(name), reason: e.into_message() },
        ),
    }
}

/// Parse a parameter from the cookie jar.
pub fn parse_from_cookie<T: Type>(name: &str, request: &ApiRequest) -> (r: Result<
    T,
    ParseRequestError,
>)
    ensures
        param_outcome::<T>(
            r,
            T::spec_parse_str(spec_pair_lookup(request.cookies@, name@)),
            name@,
        ),
{
    let raw = pair_lookup(&request.cookies, name);
    let raw_str = match raw {
        Some(s) => Some(s.as_str()),
        None => None,
    };
    match T::parse_from_str(raw_str) {
        Ok(v) => Ok(v),
        Err(e) => Err(
            ParseRequestError::ParseParam { name: String::from_str(name), reason: e.into_message() },
        ),
    }
}

/// Bind one declared parameter: fetch the raw string from its source; when
/// it is absent and a typed default is declared, take the default without
/// re-parsing; otherwise parse; then run the validator pipeline over the
/// bound value's wire form.  A failure names the parameter.
pub fn bind_param<T: Type>(
    request: &ApiRequest,
    name: &str,
    in_type: MetaParamIn,
    default: Option<T>,
    validators: &Vec<ValidatorSpec>,
) -> (r: Result<T, ParseRequestError>)
    requires
        pipeline_wf(validators@),
    ensures
        match r {
            Ok(x) => {
                &&& match (spec_raw_param(*request, in_type, name@), default) {
                    (None, Some(d)) => x == d,
                    (raw, _) => T::spec_parse_str(raw) == Ok::<T::V, Seq<char>>(x.deep_view()),
                }
                &&& spec_first_failure(validators@, x.wire()) is None
            },
            Err(e) => {
                &&& e@ matches RequestErrorModel::ParseParam { name: n, reason } && n == name@ && ({
                    ||| (T::spec_parse_str(spec_raw_param(*request, in_type, name@)) matches Err(m)
                        && reason == m && !(spec_raw_param(*request, in_type, name@) is None
                        && default is Some))
                    ||| exists|x: T|
                        {
                            &&& match (spec_raw_param(*request, in_type, name@), default) {
                                (None, Some(d)) => x == d,
                                (raw, _) => T::spec_parse_str(raw) == Ok::<T::V, Seq<char>>(
                                    x.deep_view(),
                                ),
                            }
                            &&& (#[trigger] spec_first_failure(validators@, x.wire())) matches Some(
                                shown,
                            ) && reason == msg_param_failure(shown)
                        }
                })
            },
        },
{
    let raw = raw_param(request, in_type, name);
    let bound: T = match raw {
        None => match default {
            Some(d) => d,
            None => match T::parse_from_str(None) {
                Ok(v) => v,
                Err(e) => {
                    return Err(
                        ParseRequestError::ParseParam {
                            name: String::from_str(name),
                            reason: e.into_message(),
                        },
                    );
                },
            },
        },
        Some(s) => match T::parse_from_str(Some(s.as_str())) {
            Ok(v) => v,
            Err(e) => {
                return Err(
                    ParseRequestError::ParseParam {
                        name: String::from_str(name),
                        reason: e.into_message(),
                    },
                );
            },
        },
    };
    let wire = bound.to_value();
    match validate_param(&wire, validators) {
        Ok(()) => Ok(bound),
        Err(m) => {
            proof {
                assert(spec_first_failure(validators@, bound.wire()) matches Some(shown) && m@
                    == msg_param_failure(shown));
            }
            Err(ParseRequestError::ParseParam { name: String::from_str(name), reason: m })
        },
    }
}

} // verus!
