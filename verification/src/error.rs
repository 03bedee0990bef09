//! The errors that occur while binding an HTTP request to typed arguments.

use vstd::prelude::*;

verus! {

use vstd::string::StringExecFns;

/// The mathematical form of a request binding error.
pub ghost enum RequestErrorModel {
    ParseParam { name: Seq<char>, reason: Seq<char> },
    ParseRequestBody { ty_name: Seq<char>, reason: Seq<char> },
    ContentTypeNotSupported { content_type: Seq<char> },
    ExpectContentType,
}

/// An error binding the HTTP request: a parameter or the body failed to
/// parse, the content type is unsupported, or it is missing.
#[derive(Debug, PartialEq)]
pub enum ParseRequestError {
    /// Failed to parse a parameter.
    ParseParam {
        /// The name of the parameter.
        name: String,
        /// The reason for the error.
        reason: String,
    },
    /// Failed to parse the request body.
    ParseRequestBody {
        /// The rendered name of the payload's type.
        ty_name: String,
        /// The reason for the error.
        reason: String,
    },
    /// The `Content-Type` requested by the client is not supported.
    ContentTypeNotSupported {
        /// The `Content-Type` header requested by the client.
        content_type: String,
    },
    /// The client request does not include a `Content-Type` header.
    ExpectContentType,
}

impl View for ParseRequestError {
    type V = RequestErrorModel;

    open spec fn view(&self) -> RequestErrorModel {
        match self {
            ParseRequestError::ParseParam { name, reason } => RequestErrorModel::ParseParam {
                name: name@,
                reason: reason@,
            },
            ParseRequestError::ParseRequestBody { ty_name, reason } => {
                RequestErrorModel::ParseRequestBody { ty_name: ty_name@, reason: reason@ }
            },
            ParseRequestError::ContentTypeNotSupported { content_type } => {
                RequestErrorModel::ContentTypeNotSupported { content_type: content_type@ }
            },
            ParseRequestError::ExpectContentType => RequestErrorModel::ExpectContentType,
        }
    }
}

/// The rendered message of a request binding error.
pub open spec fn spec_request_error_message(m: RequestErrorModel) -> Seq<char> {
    match m {
        RequestErrorModel::ParseParam { name, reason } => "failed to parse param `"@ + name
            + "`: "@ + reason,
        RequestErrorModel::ParseRequestBody { ty_name, reason } => {
            "failed to parse request body: ("@ + ty_name + "): "@ + reason
        },
        RequestErrorModel::ContentTypeNotSupported { content_type } => "the content type `"@
            + content_type + "` is not supported."@,
        RequestErrorModel::ExpectContentType => "expect a `Content-Type` header."@,
    }
}

impl ParseRequestError {
    /// Render this error as its message.
    pub fn message(&self) -> (r: String)
        ensures
            r@ == spec_request_error_message(self@),
    {
        match self {
            ParseRequestError::ParseParam { name, reason } => {
                let mut m = String::from_str("failed to parse param `");
                m.append(name.as_str());
                m.append("`: ");
                m.append(reason.as_str());
                proof {
                    assert(m@ =~= spec_request_error_message(self@));
                }
                m
            },
            ParseRequestError::ParseRequestBody { ty_name, reason } => {
                let mut m = String::from_str("failed to parse request body: (");
                m.append(ty_name.as_str());
                m.append("): ");
                m.append(reason.as_str());
                proof {
                    assert(m@ =~= spec_request_error_message(self@));
                }
                m
            },
            ParseRequestError::ContentTypeNotSupported { content_type } => {
                let mut m = String::from_str("the content type `");
                m.append(content_type.as_str());
                m.append("` is not supported.");
                proof {
                    assert(m@ =~= spec_request_error_message(self@));
                }
                m
            },
            ParseRequestError::ExpectContentType => {
                String::from_str("expect a `Content-Type` header.")
            },
        }
    }
}

} // verus!
