//! Payload types: the alternative encodings of a request or response body.
//! Each payload owns a fixed content type, parses itself from plain body
//! bytes, and renders itself back to bytes.

use vstd::prelude::*;
use crate::codec::{bytes_to_string, decode_json, json_doc_of, json_text_of, render_json, string_to_bytes};
use crate::error::{ParseRequestError, RequestErrorModel};
use crate::registry::{MetaSchema, MetaSchemaRef, Registry, registry_extends};
use crate::types::{Type, display_of};

verus! {

use vstd::slice::slice_to_vec;
use vstd::string::StringExecFns;
use vstd::utf8::{decode_utf8, encode_utf8, valid_utf8};

/// The model of an optional body.
pub open spec fn opt_bytes_model(b: Option<&Vec<u8>>) -> Option<Seq<u8>> {
    match b {
        Some(v) => Some(v@),
        None => None,
    }
}

/// Represents one payload encoding of a body.
///
/// `spec_from_bytes` pins, for every body, either the abstract value parsed
/// or the exact binding error.
pub trait Payload: DeepView + Sized {
    /// The content type this payload owns.
    spec fn spec_content_type() -> Seq<char>;

    /// What the schema reference of this payload looks like.
    spec fn payload_schema_ok(r: MetaSchemaRef) -> bool;

    /// What parsing a body returns.
    spec fn spec_from_bytes(body: Option<Seq<u8>>) -> Result<Self::V, RequestErrorModel>;

    /// The content type this payload owns.
    fn content_type() -> (r: &'static str)
        ensures
            r@ == Self::spec_content_type(),
    ;

    /// The schema reference of this payload.
    fn schema_ref() -> (r: MetaSchemaRef)
        ensures
            Self::payload_schema_ok(r),
    ;

    /// Register the schemas this payload needs.  Existing entries are kept.
    fn register(registry: &mut Registry)
        ensures
            registry_extends(*old(registry), *final(registry)),
    ;

    /// Parse this payload from the body bytes.
    fn from_bytes(body: Option<&Vec<u8>>) -> (r: Result<Self, ParseRequestError>)
        ensures
            match r {
                Ok(x) => Self::spec_from_bytes(opt_bytes_model(body)) == Ok::<
                    Self::V,
                    RequestErrorModel,
                >(x.deep_view()),
                Err(e) => Self::spec_from_bytes(opt_bytes_model(body)) == Err::<
                    Self::V,
                    RequestErrorModel,
                >(e@),
            },
    ;
}

/// A JSON payload carrying any bindable type.
#[derive(Debug, PartialEq)]
pub struct Json<T>(pub T);

impl<T: Type> DeepView for Json<T> {
    type V = T::V;

    open spec fn deep_view(&self) -> T::V {
        self.0.deep_view()
    }
}

impl<T: Type> Payload for Json<T> {
    open spec fn spec_content_type() -> Seq<char> {
        "application/json"@
    }

    open spec fn payload_schema_ok(r: MetaSchemaRef) -> bool {
        T::schema_ok(r)
    }

    open spec fn spec_from_bytes(body: Option<Seq<u8>>) -> Result<T::V, RequestErrorModel> {
        match body {
            None => Err(
                RequestErrorModel::ParseRequestBody {
                    ty_name: display_of(T::spec_name()),
                    reason: "expect request body"@,
                },
            ),
            Some(bytes) => match json_doc_of(bytes) {
                None => Err(
                    RequestErrorModel::ParseRequestBody {
                        ty_name: display_of(T::spec_name()),
                        reason: "invalid request body"@,
                    },
                ),
                Some(m) => match T::spec_parse(Some(m)) {
                    Ok(v) => Ok(v),
                    Err(msg) => Err(
                        RequestErrorModel::ParseRequestBody {
                            ty_name: display_of(T::spec_name()),
                            reason: msg,
                        },
                    ),
                },
            },
        }
    }

    fn content_type() -> (r: &'static str) {
        "application/json"
    }

    fn schema_ref() -> (r: MetaSchemaRef) {
        T::schema_ref()
    }

    fn register(registry: &mut Registry) {
        T::register(registry);
    }

    fn from_bytes(body: Option<&Vec<u8>>) -> (r: Result<Json<T>, ParseRequestError>) {
        let name = T::name();
        match body {
            None => Err(
                ParseRequestError::ParseRequestBody {
                    ty_name: name.display(),
                    reason: String::from_str("expect request body"),
                },
            ),
            Some(bytes) => match decode_json(bytes.as_slice()) {
                None => Err(
                    ParseRequestError::ParseRequestBody {
                        ty_name: name.display(),
                        reason: String::from_str("invalid request body"),
                    },
                ),
                Some(v) => match T::parse(Some(v)) {
                    Ok(x) => Ok(Json(x)),
                    Err(e) => Err(
                        ParseRequestError::ParseRequestBody {
                            ty_name: name.display(),
                            reason: e.into_message(),
                        },
                    ),
                },
            },
        }
    }
}

impl<T: Type> Json<T> {
    /// Render this payload as an HTTP response: status 200, JSON body.
    pub fn into_response(self) -> (r: HttpResponse)
        ensures
            r.status == 200,
            r.content_type matches Some(ct) && ct@ == "application/json"@,
            r.body@ == encode_utf8(json_text_of(self.0.wire())),
    {
        let v = self.0.to_value();
        let text = render_json(&v);
        HttpResponse {
            status: 200,
            content_type: Some(String::from_str("application/json")),
            body: string_to_bytes(text),
        }
    }
}

/// A UTF-8 text payload.
#[derive(Debug, Clone, PartialEq)]
pub struct PlainText(pub String);

impl DeepView for PlainText {
    type V = Seq<char>;

    open spec fn deep_view(&self) -> Seq<char> {
        self.0@
    }
}

impl Payload for PlainText {
    open spec fn spec_content_type() -> Seq<char> {
        "text/plain"@
    }

    open spec fn payload_schema_ok(r: MetaSchemaRef) -> bool {
        <String as Type>::schema_ok(r)
    }

    open spec fn spec_from_bytes(body: Option<Seq<u8>>) -> Result<Seq<char>, RequestErrorModel> {
        match body {
            None => Ok(Seq::empty()),
            Some(bytes) => if valid_utf8(bytes) {
                Ok(decode_utf8(bytes))
            } else {
                Err(
                    RequestErrorModel::ParseRequestBody {
                        ty_name: "string"@,
                        reason: "invalid utf8"@,
                    },
                )
            },
        }
    }

    fn content_type() -> (r: &'static str) {
        "text/plain"
    }

    fn schema_ref() -> (r: MetaSchemaRef) {
        <String as Type>::schema_ref()
    }

    fn register(registry: &mut Registry) {
    }

    fn from_bytes(body: Option<&Vec<u8>>) -> (r: Result<PlainText, ParseRequestError>) {
        match body {
            None => Ok(PlainText(String::new())),
            Some(bytes) => {
                let copied = slice_to_vec(bytes.as_slice());
                match bytes_to_string(copied) {
                    Some(s) => Ok(PlainText(s)),
                    None => Err(
                        ParseRequestError::ParseRequestBody {
                            ty_name: String::from_str("string"),
                            reason: String::from_str("invalid utf8"),
                        },
                    ),
                }
            },
        }
    }
}

impl PlainText {
    /// Render this payload as an HTTP response: status 200, text body.
    pub fn into_response(self) -> (r: HttpResponse)
        ensures
            r.status == 200,
            r.content_type matches Some(ct) && ct@ == "text/plain"@,
            r.body@ == encode_utf8(self.0@),
    {
        HttpResponse {
            status: 200,
            content_type: Some(String::from_str("text/plain")),
            body: string_to_bytes(self.0),
        }
    }
}

/// A raw binary payload.
#[derive(Debug, Clone, PartialEq)]
pub struct Binary(pub Vec<u8>);

impl DeepView for Binary {
    type V = Seq<u8>;

    open spec fn deep_view(&self) -> Seq<u8> {
        self.0@
    }
}

impl Payload for Binary {
    open spec fn spec_content_type() -> Seq<char> {
        "application/octet-stream"@
    }

    open spec fn payload_schema_ok(r: MetaSchemaRef) -> bool {
        &&& r matches MetaSchemaRef::Inline(s)
        &&& s.ty@ == "binary"@
        &&& s.is_bare()
    }

    open spec fn spec_from_bytes(body: Option<Seq<u8>>) -> Result<Seq<u8>, RequestErrorModel> {
        match body {
            None => Ok(Seq::empty()),
            Some(bytes) => Ok(bytes),
        }
    }

    fn content_type() -> (r: &'static str) {
        "application/octet-stream"
    }

    fn schema_ref() -> (r: MetaSchemaRef) {
        MetaSchemaRef::Inline(MetaSchema::new(String::from_str("binary")))
    }

    fn register(registry: &mut Registry) {
    }

    fn from_bytes(body: Option<&Vec<u8>>) -> (r: Result<Binary, ParseRequestError>) {
        match body {
            None => Ok(Binary(Vec::new())),
            Some(bytes) => Ok(Binary(slice_to_vec(bytes.as_slice()))),
        }
    }
}

impl Binary {
    /// Render this payload as an HTTP response: status 200, binary body.
    pub fn into_response(self) -> (r: HttpResponse)
        ensures
            r.status == 200,
            r.content_type matches Some(ct) && ct@ == "application/octet-stream"@,
            r.body@ == self.0@,
    {
        HttpResponse {
            status: 200,
            content_type: Some(String::from_str("application/octet-stream")),
            body: self.0,
        }
    }
}

/// An optional payload: an absent body parses to "no payload".
impl<T: Payload> Payload for Option<T> {
    open spec fn spec_content_type() -> Seq<char> {
        T::spec_content_type()
    }

    open spec fn payload_schema_ok(r: MetaSchemaRef) -> bool {
        T::payload_schema_ok(r)
    }

    open spec fn spec_from_bytes(body: Option<Seq<u8>>) -> Result<
        Option<T::V>,
        RequestErrorModel,
    > {
        match body {
            None => Ok(None),
            Some(bytes) => match T::spec_from_bytes(Some(bytes)) {
                Ok(v) => Ok(Some(v)),
                Err(e) => Err(e),
            },
        }
    }

    fn content_type() -> (r: &'static str) {
        T::content_type()
    }

    fn schema_ref() -> (r: MetaSchemaRef) {
        T::schema_ref()
    }

    fn register(registry: &mut Registry) {
        T::register(registry);
    }

    fn from_bytes(body: Option<&Vec<u8>>) -> (r: Result<Option<T>, ParseRequestError>) {
        match body {
            None => Ok(None),
            Some(bytes) => match T::from_bytes(Some(bytes)) {
                Ok(x) => Ok(Some(x)),
                Err(e) => Err(e),
            },
        }
    }
}

/// A payload read from one multipart field, together with the part's own
/// headers.
#[derive(Debug, PartialEq)]
pub struct Field<T> {
    pub payload: T,
    pub content_type: Option<String>,
    pub file_name: Option<String>,
}

impl<T> Field<T> {
    /// Assemble a field from a parsed payload and the part's headers.
    pub fn assemble(payload: T, content_type: Option<String>, file_name: Option<String>) -> (r:
        Field<T>)
        ensures
            r == (Field { payload, content_type, file_name }),
    {
        Field { payload, content_type, file_name }
    }

    /// Convert itself to the inner payload.
    pub fn into_inner(self) -> (r: T)
        ensures
            r == self.payload,
    {
        self.payload
    }

    /// The content type of the field.
    pub fn content_type(&self) -> (r: Option<&String>)
        ensures
            match r {
                Some(ct) => self.content_type == Some(*ct),
                None => self.content_type is None,
            },
    {
        self.content_type.as_ref()
    }

    /// The file name found in the part's `Content-Disposition` header.
    pub fn file_name(&self) -> (r: Option<&String>)
        ensures
            match r {
                Some(n) => self.file_name == Some(*n),
                None => self.file_name is None,
            },
    {
        self.file_name.as_ref()
    }
}

/// An outgoing HTTP response: status code, content type, body bytes.
#[derive(Debug, PartialEq)]
pub struct HttpResponse {
    pub status: u16,
    pub content_type: Option<String>,
    pub body: Vec<u8>,
}

impl HttpResponse {
    /// A response with a status code and no body.
    pub fn status_only(status: u16) -> (r: HttpResponse)
        ensures
            r.status == status,
            r.content_type is None,
            r.body@ == Seq::<u8>::empty(),
    {
        HttpResponse { status, content_type: None, body: Vec::new() }
    }

    /// Replace the status code, keeping content type and body.
    pub fn with_status(self, status: u16) -> (r: HttpResponse)
        ensures
            r.status == status,
            r.content_type == self.content_type,
            r.body@ == self.body@,
    {
        HttpResponse { status, content_type: self.content_type, body: self.body }
    }
}

} // verus!
