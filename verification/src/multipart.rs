//! Matching multipart parts against declared field names: each declared
//! field takes the first part carrying its name, parts matching no declared
//! field are ignored, and a required field with no part is a structured
//! error naming that field.

use vstd::prelude::*;
use crate::error::{ParseRequestError, RequestErrorModel};

verus! {

use crate::codec::str_eq;
use vstd::string::StringExecFns;

/// One part of a multipart body, already read into plain values.
#[derive(Debug, PartialEq)]
pub struct MultipartPart {
    pub name: String,
    pub file_name: Option<String>,
    pub content_type: Option<String>,
    pub data: Vec<u8>,
}

/// The first part carrying a field name, if any.
pub open spec fn spec_find_part(parts: Seq<MultipartPart>, name: Seq<char>) -> Option<int>
    decreases parts.len(),
{
    if parts.len() == 0 {
        None
    } else if parts[0].name@ == name {
        Some(0int)
    } else {
        match spec_find_part(parts.drop_first(), name) {
            Some(i) => Some(i + 1),
            None => None,
        }
    }
}

/// A found part index lies within the body.
proof fn lemma_find_part_bounds(parts: Seq<MultipartPart>, name: Seq<char>)
    ensures
        match spec_find_part(parts, name) {
            Some(i) => 0 <= i < parts.len() && parts[i].name@ == name,
            None => true,
        },
    decreases parts.len(),
{
    if parts.len() > 0 && !(parts[0].name@ == name) {
        lemma_find_part_bounds(parts.drop_first(), name);
    }
}

/// The first part carrying a declared field's name; a part matching no
/// declared field is simply never asked for.
pub fn find_part<'a>(parts: &'a Vec<MultipartPart>, name: &str) -> (r: Option<&'a MultipartPart>)
    ensures
        match r {
            Some(p) => {
                &&& spec_find_part(parts@, name@) matches Some(i) && *p == parts@[i]
            },
            None => spec_find_part(parts@, name@) is None,
        },
{
    let mut i: usize = 0;
    proof {
        assert(parts@.skip(0) =~= parts@);
        lemma_find_part_bounds(parts@, name@);
    }
    while i < parts.len()
        invariant
            i <= parts@.len(),
            match spec_find_part(parts@, name@) {
                Some(j) => i <= j && spec_find_part(parts@.skip(i as int), name@) == Some(j - i),
                None => spec_find_part(parts@.skip(i as int), name@) is None,
            },
        decreases parts@.len() - i,
    {
        let ghost rest = parts@.skip(i as int);
        proof {
            assert(rest[0] == parts@[i as int]);
            assert(rest.drop_first() =~= parts@.skip(i as int + 1));
            lemma_find_part_bounds(rest.drop_first(), name@);
        }
        if str_eq(parts[i].name.as_str(), name) {
            return Some(&parts[i]);
        }
        i = i + 1;
    }
    proof {
        assert(parts@.skip(i as int) =~= Seq::<MultipartPart>::empty());
    }
    None
}

/// The message of a required field with no matching part.
pub open spec fn msg_required_field(name: Seq<char>) -> Seq<char> {
    "field `"@ + name + "` is required"@
}

/// The first part carrying a required field's name; its absence after the
/// whole body has been read is an error naming that field.
pub fn require_part<'a>(
    parts: &'a Vec<MultipartPart>,
    ty_name: &str,
    name: &str,
) -> (r: Result<&'a MultipartPart, ParseRequestError>)
    ensures
        match r {
            Ok(p) => {
                &&& spec_find_part(parts@, name@) matches Some(i) && *p == parts@[i]
            },
            Err(e) => spec_find_part(parts@, name@) is None && e@ == (
            RequestErrorModel::ParseRequestBody {
                ty_name: ty_name@,
                reason: msg_required_field(name@),
            }),
        },
{
    match find_part(parts, name) {
        Some(p) => Ok(p),
        None => {
            let mut reason = String::from_str("field `");
            reason.append(name);
            reason.append("` is required");
            proof {
                assert(reason@ =~= msg_required_field(name@));
            }
            Err(
                ParseRequestError::ParseRequestBody {
                    ty_name: String::from_str(ty_name),
                    reason,
                },
            )
        },
    }
}

} // verus!
