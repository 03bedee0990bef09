use openapi_core::auth::Bearer;
use openapi_core::base::{Response, handle_binding_error, select_content_type};
use openapi_core::error::ParseRequestError;
use openapi_core::param::{ApiRequest, bind_param, parse_from_cookie, parse_from_header, parse_from_path, parse_from_query};
use openapi_core::payload::{Binary, HttpResponse, Json, Payload, PlainText};
use openapi_core::registry::{HttpMethod, MetaParamIn, MetaResponse, MetaResponses, Registry};
use openapi_core::validation::{Maximum, ValidatorSpec};

fn empty_request() -> ApiRequest {
    ApiRequest {
        method: HttpMethod::Get,
        path: String::from("/"),
        path_params: vec![],
        query: vec![],
        headers: vec![],
        cookies: vec![],
        content_type: None,
        body: None,
    }
}

fn request_with_query(name: &str, value: &str) -> ApiRequest {
    let mut req = empty_request();
    req.query.push((String::from(name), String::from(value)));
    req
}

#[test]
fn query() {
    let req = request_with_query("v", "10");
    let v: i32 = parse_from_query("v", &req).unwrap();
    assert_eq!(v, 10);
}

#[test]
fn param_name() {
    let req = request_with_query("a", "10");
    let v: i32 = parse_from_query("a", &req).unwrap();
    assert_eq!(v, 10);
}

#[test]
fn query_default() {
    let req = empty_request();
    let v: i32 = bind_param(&req, "v", MetaParamIn::Query, Some(999), &vec![]).unwrap();
    assert_eq!(v, 999);
}

#[test]
fn header() {
    let mut req = empty_request();
    req.headers.push((String::from("v"), String::from("10")));
    let v: i32 = parse_from_header("v", &req).unwrap();
    assert_eq!(v, 10);
}

#[test]
fn header_default() {
    let req = empty_request();
    let v: i32 = bind_param(&req, "v", MetaParamIn::Header, Some(999), &vec![]).unwrap();
    assert_eq!(v, 999);
}

#[test]
fn path() {
    let mut req = empty_request();
    req.path = String::from("/k/10");
    req.path_params.push((String::from("v"), String::from("10")));
    let v: i32 = parse_from_path("v", &req).unwrap();
    assert_eq!(v, 10);
}

#[test]
fn cookie() {
    let mut req = empty_request();
    req.cookies.push((String::from("v"), String::from("10")));
    let v: i32 = parse_from_cookie("v", &req).unwrap();
    assert_eq!(v, 10);
}

#[test]
fn cookie_default() {
    let req = empty_request();
    let v: i32 = bind_param(&req, "v", MetaParamIn::Cookie, Some(999), &vec![]).unwrap();
    assert_eq!(v, 999);
}

#[test]
fn param_validator() {
    let validators = vec![ValidatorSpec::Maximum(Maximum::new(100, true))];
    let req = request_with_query("v", "999");
    let err = bind_param::<i32>(&req, "v", MetaParamIn::Query, None, &validators).unwrap_err();
    assert_eq!(
        err.message(),
        "failed to parse param `v`: verification failed. maximum(100, exclusive: true)"
    );
    let req = request_with_query("v", "50");
    let v: i32 = bind_param(&req, "v", MetaParamIn::Query, None, &validators).unwrap();
    assert_eq!(v, 50);
}

struct NoRecovery;

impl Response for NoRecovery {
    // The remaining trait items are specification-only; they are erased
    // at run time and never called.
    fn spec_bad_request_handler() -> bool {
        unreachable!()
    }

    fn from_error_ok(_err: openapi_core::error::RequestErrorModel, _r: Self) -> bool {
        unreachable!()
    }

    fn response_of(self, _r: HttpResponse) -> bool {
        unreachable!()
    }

    fn responses_meta_ok(_m: MetaResponses) -> bool {
        unreachable!()
    }

    fn bad_request_handler_enabled() -> bool {
        false
    }

    fn meta() -> MetaResponses {
        MetaResponses {
            responses: vec![MetaResponse { description: None, status: Some(200), content: vec![] }],
        }
    }

    fn register(_registry: &mut Registry) {}

    fn from_parse_request_error(_err: ParseRequestError) -> Self {
        unreachable!()
    }

    fn into_response(self) -> HttpResponse {
        HttpResponse::status_only(200)
    }
}

#[test]
fn missing_required_query_param_is_bad_request() {
    // GET /? with `v` absent: HTTP 400 whose body names the missing input.
    let req = empty_request();
    let err = parse_from_query::<i32>("v", &req).unwrap_err();
    let resp = handle_binding_error::<NoRecovery>(err);
    assert_eq!(resp.status, 400);
    let body = String::from_utf8(resp.body).unwrap();
    assert!(body.contains("expects an input value"));

    // GET /?v=10: the parameter binds and the handler's response stands.
    let req = request_with_query("v", "10");
    let v: i32 = parse_from_query("v", &req).unwrap();
    assert_eq!(v, 10);
    let resp = NoRecovery.into_response();
    assert_eq!(resp.status, 200);
}

#[test]
fn request() {
    // One logical request body with three encodings; the content type
    // selects the variant.
    let supported = vec![
        String::from(<Json<u64> as Payload>::content_type()),
        String::from(<PlainText as Payload>::content_type()),
        String::from(<Binary as Payload>::content_type()),
    ];
    assert_eq!(supported, vec![
        String::from("application/json"),
        String::from("text/plain"),
        String::from("application/octet-stream"),
    ]);

    let idx = select_content_type(Some("application/json"), &supported).unwrap();
    assert_eq!(idx, 0);
    let body: Vec<u8> = Vec::from(&b"100"[..]);
    let parsed = Json::<u64>::from_bytes(Some(&body)).unwrap();
    assert_eq!(parsed, Json(100));

    let idx = select_content_type(Some("text/plain"), &supported).unwrap();
    assert_eq!(idx, 1);
    let body: Vec<u8> = Vec::from(&b"abc:123"[..]);
    let parsed = PlainText::from_bytes(Some(&body)).unwrap();
    assert_eq!(parsed, PlainText(String::from("abc:123")));

    let idx = select_content_type(Some("application/octet-stream"), &supported).unwrap();
    assert_eq!(idx, 2);
    let parsed = Binary::from_bytes(Some(&body)).unwrap();
    assert_eq!(parsed, Binary(Vec::from(&b"abc:123"[..])));

    let err = select_content_type(None, &supported).unwrap_err();
    assert_eq!(err.message(), "expect a `Content-Type` header.");
    let err = select_content_type(Some("application/msgpack"), &supported).unwrap_err();
    assert_eq!(
        err.message(),
        "the content type `application/msgpack` is not supported."
    );
}

enum MyResponse {
    Done,
    AlreadyExists(Json<u16>),
    Default(u16, PlainText),
}

impl Response for MyResponse {
    // The remaining trait items are specification-only; they are erased
    // at run time and never called.
    fn spec_bad_request_handler() -> bool {
        unreachable!()
    }

    fn from_error_ok(_err: openapi_core::error::RequestErrorModel, _r: Self) -> bool {
        unreachable!()
    }

    fn response_of(self, _r: HttpResponse) -> bool {
        unreachable!()
    }

    fn responses_meta_ok(_m: MetaResponses) -> bool {
        unreachable!()
    }

    fn bad_request_handler_enabled() -> bool {
        false
    }

    fn meta() -> MetaResponses {
        MetaResponses {
            responses: vec![
                MetaResponse {
                    description: Some(String::from("Ok")),
                    status: Some(200),
                    content: vec![],
                },
                MetaResponse {
                    description: Some(String::from("Already exists")),
                    status: Some(409),
                    content: vec![],
                },
                MetaResponse {
                    description: Some(String::from("Default")),
                    status: None,
                    content: vec![],
                },
            ],
        }
    }

    fn register(_registry: &mut Registry) {}

    fn from_parse_request_error(_err: ParseRequestError) -> Self {
        unreachable!()
    }

    fn into_response(self) -> HttpResponse {
        match self {
            MyResponse::Done => HttpResponse::status_only(200),
            MyResponse::AlreadyExists(payload) => payload.into_response().with_status(409),
            MyResponse::Default(status, payload) => payload.into_response().with_status(status),
        }
    }
}

fn respond_by_code(code: u16) -> MyResponse {
    match code {
        200 => MyResponse::Done,
        409 => MyResponse::AlreadyExists(Json(code)),
        _ => MyResponse::Default(code, PlainText(format!("code: {}", code))),
    }
}

#[test]
fn response() {
    let meta = MyResponse::meta();
    assert_eq!(meta.responses[0].description, Some(String::from("Ok")));
    assert_eq!(meta.responses[0].status, Some(200));
    assert_eq!(meta.responses[1].status, Some(409));
    assert_eq!(meta.responses[2].status, None);

    let req = request_with_query("code", "200");
    let code: u16 = parse_from_query("code", &req).unwrap();
    let resp = respond_by_code(code).into_response();
    assert_eq!(resp.status, 200);
    assert_eq!(resp.body, Vec::<u8>::new());

    let req = request_with_query("code", "409");
    let code: u16 = parse_from_query("code", &req).unwrap();
    let resp = respond_by_code(code).into_response();
    assert_eq!(resp.status, 409);
    assert_eq!(resp.content_type, Some(String::from("application/json")));
    assert_eq!(String::from_utf8(resp.body).unwrap(), "409");

    let req = request_with_query("code", "404");
    let code: u16 = parse_from_query("code", &req).unwrap();
    let resp = respond_by_code(code).into_response();
    assert_eq!(resp.status, 404);
    assert_eq!(resp.content_type, Some(String::from("text/plain")));
    assert_eq!(String::from_utf8(resp.body).unwrap(), "code: 404");
}

enum RecoveringResponse {
    Done(PlainText),
    BadRequest(PlainText),
}

impl Response for RecoveringResponse {
    // The remaining trait items are specification-only; they are erased
    // at run time and never called.
    fn spec_bad_request_handler() -> bool {
        unreachable!()
    }

    fn from_error_ok(_err: openapi_core::error::RequestErrorModel, _r: Self) -> bool {
        unreachable!()
    }

    fn response_of(self, _r: HttpResponse) -> bool {
        unreachable!()
    }

    fn responses_meta_ok(_m: MetaResponses) -> bool {
        unreachable!()
    }

    fn bad_request_handler_enabled() -> bool {
        true
    }

    fn meta() -> MetaResponses {
        MetaResponses {
            responses: vec![
                MetaResponse { description: None, status: Some(200), content: vec![] },
                MetaResponse { description: None, status: Some(400), content: vec![] },
            ],
        }
    }

    fn register(_registry: &mut Registry) {}

    fn from_parse_request_error(err: ParseRequestError) -> Self {
        RecoveringResponse::BadRequest(PlainText(format!("!!! {}", err.message())))
    }

    fn into_response(self) -> HttpResponse {
        match self {
            RecoveringResponse::Done(payload) => payload.into_response(),
            RecoveringResponse::BadRequest(payload) => payload.into_response().with_status(400),
        }
    }
}

#[test]
fn bad_request_handler() {
    let req = request_with_query("code", "200");
    let code: u16 = parse_from_query("code", &req).unwrap();
    let resp = RecoveringResponse::Done(PlainText(format!("code: {}", code))).into_response();
    assert_eq!(resp.status, 200);
    assert_eq!(resp.content_type, Some(String::from("text/plain")));
    assert_eq!(String::from_utf8(resp.body).unwrap(), "code: 200");

    // The parameter fails to bind, and the response type's own handler
    // renders the failure instead of the generic error renderer.
    let req = empty_request();
    let err = parse_from_query::<u16>("code", &req).unwrap_err();
    let resp = handle_binding_error::<RecoveringResponse>(err);
    assert_eq!(resp.status, 400);
    assert_eq!(resp.content_type, Some(String::from("text/plain")));
    assert_eq!(
        String::from_utf8(resp.body).unwrap(),
        "!!! failed to parse param `code`: Type \"integer($uint16)\" expects an input value."
    );
}

#[test]
fn bearer_auth() {
    let b = Bearer::parse_header_value("Bearer abcdef").unwrap();
    assert_eq!(b.token, "abcdef");
    assert!(Bearer::parse_header_value("Basic abcdef").is_none());
    assert!(Bearer::parse_header_value("Bearer").is_none());

    let mut req = empty_request();
    req.headers.push((String::from("authorization"), String::from("Bearer tok123")));
    let b = Bearer::from_request(&req).unwrap();
    assert_eq!(b.token, "tok123");
}
