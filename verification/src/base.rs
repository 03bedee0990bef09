//! The request/response binding protocol: selecting a body variant by
//! content type, turning typed results into HTTP responses, and the
//! bad-request recovery hook.

use vstd::prelude::*;
use crate::codec::string_to_bytes;
use crate::error::{ParseRequestError, RequestErrorModel, spec_request_error_message};
use crate::param::ApiRequest;
use crate::payload::{HttpResponse, Payload};
use crate::registry::{
    MetaAPI, MetaMediaType, MetaRequest, MetaResponses, MetaSchema, Registry, registry_extends,
};

verus! {

use crate::codec::str_eq;
use vstd::string::StringExecFns;
use vstd::utf8::encode_utf8;

/// Represents a logical request body: a fixed set of alternative payload
/// encodings, one selected by the request's content type.
pub trait Request: DeepView + Sized {
    /// What the request metadata looks like.
    spec fn request_meta_ok(m: MetaRequest) -> bool;

    /// What binding a whole request to this body returns.
    spec fn spec_from_request(req: ApiRequest) -> Result<Self::V, RequestErrorModel>;

    /// Metadata of this request body.
    fn meta() -> (r: MetaRequest)
        ensures
            Self::request_meta_ok(r),
    ;

    /// Register the schemas contained in this request body.
    fn register(registry: &mut Registry)
        ensures
            registry_extends(*old(registry), *final(registry)),
    ;

    /// Bind the request's body to this type.
    fn from_request(request: &ApiRequest) -> (r: Result<Self, ParseRequestError>)
        ensures
            match r {
                Ok(x) => Self::spec_from_request(*request) == Ok::<Self::V, RequestErrorModel>(
                    x.deep_view(),
                ),
                Err(e) => Self::spec_from_request(*request) == Err::<Self::V, RequestErrorModel>(
                    e@,
                ),
            },
    ;
}

/// A single payload is a request body with exactly one encoding; the
/// content type is not inspected, as there is no alternative to select.
impl<T: Payload> Request for T {
    open spec fn request_meta_ok(m: MetaRequest) -> bool {
        &&& m.description is None
        &&& m.content@.len() == 1
        &&& m.content@[0].content_type@ == T::spec_content_type()
        &&& T::payload_schema_ok(m.content@[0].schema)
        &&& m.required == true
    }

    open spec fn spec_from_request(req: ApiRequest) -> Result<T::V, RequestErrorModel> {
        T::spec_from_bytes(
            match req.body {
                Some(b) => Some(b@),
                None => None,
            },
        )
    }

    fn meta() -> (r: MetaRequest) {
        MetaRequest {
            description: None,
            content: {
                let mut content: Vec<MetaMediaType> = Vec::new();
                content.push(
                    MetaMediaType {
                        content_type: String::from_str(T::content_type()),
                        schema: T::schema_ref(),
                    },
                );
                content
            },
            required: true,
        }
    }

    fn register(registry: &mut Registry) {
        T::register(registry);
    }

    fn from_request(request: &ApiRequest) -> (r: Result<T, ParseRequestError>) {
        let body = match &request.body {
            Some(b) => Some(b),
            None => None,
        };
        T::from_bytes(body)
    }
}

/// The first declared content type equal to `ct`, if any.
pub open spec fn spec_ct_index(supported: Seq<String>, ct: Seq<char>) -> Option<int>
    decreases supported.len(),
{
    if supported.len() == 0 {
        None
    } else if supported[0]@ == ct {
        Some(0int)
    } else {
        match spec_ct_index(supported.drop_first(), ct) {
            Some(i) => Some(i + 1),
            None => None,
        }
    }
}

/// A found content-type index lies within the declared list.
proof fn lemma_ct_index_bounds(s: Seq<String>, ct: Seq<char>)
    ensures
        match spec_ct_index(s, ct) {
            Some(j) => 0 <= j < s.len(),
            None => true,
        },
    decreases s.len(),
{
    if s.len() > 0 && !(s[0]@ == ct) {
        lemma_ct_index_bounds(s.drop_first(), ct);
    }
}

/// Select the request-body variant matching the request's content type:
/// the index of the first declared content type equal to it.  A missing
/// header or an unknown content type is an error.
pub fn select_content_type(content_type: Option<&str>, supported: &Vec<String>) -> (r: Result<
    usize,
    ParseRequestError,
>)
    ensures
        match content_type {
            None => r matches Err(e) && e@ == RequestErrorModel::ExpectContentType,
            Some(ct) => match spec_ct_index(supported@, ct@) {
                Some(i) => r matches Ok(j) && j == i,
                None => r matches Err(e) && e@ == (RequestErrorModel::ContentTypeNotSupported {
                    content_type: ct@,
                }),
            },
        },
{
    let ct = match content_type {
        None => {
            return Err(ParseRequestError::ExpectContentType);
        },
        Some(ct) => ct,
    };
    let mut i: usize = 0;
    proof {
        assert(supported@.skip(0) =~= supported@);
        lemma_ct_index_bounds(supported@, ct@);
    }
    while i < supported.len()
        invariant
            content_type == Some(ct),
            i <= supported@.len(),
            match spec_ct_index(supported@, ct@) {
                Some(j) => i <= j && spec_ct_index(supported@.skip(i as int), ct@) == Some(
                    j - i,
                ),
                None => spec_ct_index(supported@.skip(i as int), ct@) is None,
            },
        decreases supported@.len() - i,
    {
        let ghost rest = supported@.skip(i as int);
        proof {
            assert(rest[0] == supported@[i as int]);
            assert(rest.drop_first() =~= supported@.skip(i as int + 1));
            lemma_ct_index_bounds(rest.drop_first(), ct@);
        }
        if str_eq(supported[i].as_str(), ct) {
            return Ok(i);
        }
        i = i + 1;
    }
    proof {
        assert(supported@.skip(i as int) =~= Seq::<String>::empty());
    }
    Err(ParseRequestError::ContentTypeNotSupported { content_type: String::from_str(ct) })
}

/// Represents a logical response: a fixed set of variants keyed by status
/// code, with an optional bad-request recovery hook.
pub trait Response: Sized {
    /// Whether this response type declares a bad-request handler.
    spec fn spec_bad_request_handler() -> bool;

    /// What the recovery hook returns for a binding error.
    spec fn from_error_ok(err: RequestErrorModel, r: Self) -> bool;

    /// What HTTP response a value of this type renders to.
    spec fn response_of(self, r: HttpResponse) -> bool;

    /// What the response metadata looks like.
    spec fn responses_meta_ok(m: MetaResponses) -> bool;

    /// Whether this response type declares a bad-request handler.
    fn bad_request_handler_enabled() -> (r: bool)
        ensures
            r == Self::spec_bad_request_handler(),
    ;

    /// Metadata of this response.
    fn meta() -> (r: MetaResponses)
        ensures
            Self::responses_meta_ok(r),
    ;

    /// Register the schemas contained in this response.
    fn register(registry: &mut Registry)
        ensures
            registry_extends(*old(registry), *final(registry)),
    ;

    /// Convert a binding error into one of this type's own variants; only
    /// for a type that declares a bad-request handler.
    fn from_parse_request_error(err: ParseRequestError) -> (r: Self)
        requires
            Self::spec_bad_request_handler(),
        ensures
            Self::from_error_ok(err@, r),
    ;

    /// Render this value as an HTTP response, selecting its variant's
    /// declared status code.
    fn into_response(self) -> (r: HttpResponse)
        ensures
            self.response_of(r),
    ;
}

/// What the terminal rendering of a binding error looks like: HTTP 400,
/// plain text, the error's message as the body.
pub open spec fn plain_bad_request(err: RequestErrorModel, r: HttpResponse) -> bool {
    &&& r.status == 400
    &&& r.content_type matches Some(ct) && ct@ == "text/plain"@
    &&& r.body@ == encode_utf8(spec_request_error_message(err))
}

/// Turn a parameter or body binding failure into the HTTP response the
/// transport sends: through the response type's bad-request handler when it
/// declares one, as a plain 400 with the error's message otherwise.
pub fn handle_binding_error<R: Response>(err: ParseRequestError) -> (r: HttpResponse)
    ensures
        R::spec_bad_request_handler() ==> exists|x: R|
            R::from_error_ok(err@, x) && #[trigger] x.response_of(r),
        !R::spec_bad_request_handler() ==> plain_bad_request(err@, r),
{
    if R::bad_request_handler_enabled() {
        let ghost e = err@;
        let recovered = R::from_parse_request_error(err);
        let ghost w = recovered;
        let resp = recovered.into_response();
        proof {
            assert(R::from_error_ok(e, w) && w.response_of(resp));
        }
        resp
    } else {
        let msg = err.message();
        HttpResponse {
            status: 400,
            content_type: Some(String::from_str("text/plain")),
            body: string_to_bytes(msg),
        }
    }
}

/// Represents one API object: the paths it serves and the schemas it needs.
pub trait OpenApi: Sized {
    /// The paths this API contributes.
    spec fn spec_api_meta() -> Seq<MetaAPI>;

    /// The registry entries after this API registers its schemas over a
    /// registry with the given entries.
    spec fn spec_register(before: Seq<(String, MetaSchema)>) -> Seq<(String, MetaSchema)>;

    /// Metadata of this API object.
    fn meta() -> (r: Vec<MetaAPI>)
        ensures
            r@ == Self::spec_api_meta(),
    ;

    /// Register every schema this API needs.  Existing entries are kept.
    fn register(registry: &mut Registry)
        ensures
            final(registry).schemas@ == Self::spec_register(old(registry).schemas@),
            registry_extends(*old(registry), *final(registry)),
    ;
}

/// Two API objects combined into one.
pub struct CombinedAPI<A, B>(pub A, pub B);

impl<A: OpenApi, B: OpenApi> CombinedAPI<A, B> {
    /// Combine two API objects into one.
    pub fn combine(a: A, b: B) -> (r: CombinedAPI<A, B>)
        ensures
            r == CombinedAPI(a, b),
    {
        CombinedAPI(a, b)
    }
}

impl<A: OpenApi, B: OpenApi> OpenApi for CombinedAPI<A, B> {
    open spec fn spec_api_meta() -> Seq<MetaAPI> {
        A::spec_api_meta() + B::spec_api_meta()
    }

    open spec fn spec_register(before: Seq<(String, MetaSchema)>) -> Seq<(String, MetaSchema)> {
        B::spec_register(A::spec_register(before))
    }

    fn meta() -> (r: Vec<MetaAPI>) {
        let mut m = A::meta();
        let mut more = B::meta();
        m.append(&mut more);
        m
    }

    fn register(registry: &mut Registry) {
        A::register(registry);
        B::register(registry);
    }
}

} // verus!
