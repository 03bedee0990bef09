//! The error produced when parsing a value of a described type fails.
//! Every constructor pins the exact message text.

use vstd::prelude::*;
use crate::codec::render_json;
use crate::types::{
    TypeName, display_of, msg_custom, msg_expected_input, msg_expected_type, spec_propagate,
};
use crate::value::JsonValue;

verus! {

use vstd::string::StringExecFns;

/// An error parsing a value, keyed by the name of the type being parsed.
#[derive(Debug, PartialEq)]
pub struct ParseError {
    /// The rendered name of the type the error belongs to.
    pub ty_name: String,
    /// The human-readable message.
    pub message: String,
}

impl ParseError {
    /// An error with the given type name and message, verbatim.
    pub fn new(ty_name: String, message: String) -> (r: ParseError)
        ensures
            r.ty_name@ == ty_name@,
            r.message@ == message@,
    {
        ParseError { ty_name, message }
    }

    /// The expected input type did not match the actual input value.
    pub fn expected_type(name: &TypeName, actual: &JsonValue) -> (r: ParseError)
        ensures
            r.ty_name@ == display_of(name@),
            r.message@ == msg_expected_type(display_of(name@), actual@),
    {
        let shown = name.display();
        let mut m = String::from_str("Expected input type \"");
        m.append(shown.as_str());
        m.append("\", found ");
        let rendered = render_json(actual);
        m.append(rendered.as_str());
        m.append(".");
        proof {
            assert(m@ =~= msg_expected_type(display_of(name@), actual@));
        }
        ParseError { ty_name: shown, message: m }
    }

    /// The type expects an input value, and none was present.
    pub fn expected_input(name: &TypeName) -> (r: ParseError)
        ensures
            r.ty_name@ == display_of(name@),
            r.message@ == msg_expected_input(display_of(name@)),
    {
        let shown = name.display();
        let mut m = String::from_str("Type \"");
        m.append(shown.as_str());
        m.append("\" expects an input value.");
        proof {
            assert(m@ =~= msg_expected_input(display_of(name@)));
        }
        ParseError { ty_name: shown, message: m }
    }

    /// A custom failure reason, wrapped with the type's name.
    pub fn custom(name: &TypeName, reason: &str) -> (r: ParseError)
        ensures
            r.ty_name@ == display_of(name@),
            r.message@ == msg_custom(display_of(name@), reason@),
    {
        let shown = name.display();
        let mut m = String::from_str("failed to parse \"");
        m.append(shown.as_str());
        m.append("\": ");
        m.append(reason);
        proof {
            assert(m@ =~= msg_custom(display_of(name@), reason@));
        }
        ParseError { ty_name: shown, message: m }
    }

    /// This type does not support parsing from a parameter string.
    pub fn not_support_parsing_from_parameter(name: &TypeName) -> (r: ParseError)
        ensures
            r.ty_name@ == display_of(name@),
            r.message@ == msg_custom(display_of(name@), "not support parsing from parameter"@),
    {
        ParseError::custom(name, "not support parsing from parameter")
    }

    /// This type does not support parsing from a multipart field.
    pub fn not_support_parsing_from_multipart(name: &TypeName) -> (r: ParseError)
        ensures
            r.ty_name@ == display_of(name@),
            r.message@ == msg_custom(display_of(name@), "not support parsing from multipart"@),
    {
        ParseError::custom(name, "not support parsing from multipart")
    }

    /// Propagate the error to a different type: the occurrence context is
    /// added only when the target's name differs, so the same type never
    /// wraps its own message twice.
    pub fn propagate(self, target: &TypeName) -> (r: ParseError)
        ensures
            r.ty_name@ == display_of(target@),
            r.message@ == spec_propagate(self.message@, self.ty_name@, display_of(target@)),
    {
        let ghost msg0 = self.message@;
        let shown = target.display();
        if !(self.ty_name == shown) {
            let mut m = self.message;
            m.append(" (occurred while parsing \"");
            m.append(shown.as_str());
            m.append("\")");
            proof {
                assert(m@ =~= spec_propagate(msg0, self.ty_name@, display_of(target@)));
            }
            ParseError { ty_name: shown, message: m }
        } else {
            ParseError { ty_name: shown, message: self.message }
        }
    }

    /// Consume this error and keep only its message.
    pub fn into_message(self) -> (r: String)
        ensures
            r@ == self.message@,
    {
        self.message
    }
}

} // verus!
