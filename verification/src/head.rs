//! The head of a reply: what it declares ahead of its body.

use crate::decimal::{decimal_value, parse_decimal};
use crate::error::HeaderFault;
use crate::field::{is_bytes_unit, names_bytes_unit};
use reqwest::header::HeaderMap;
use vstd::prelude::*;

verus! {

/// `reqwest::header::HeaderMap`, the header fields of a request or a reply.
/// What one holds is spoken of through `first_values`.
#[verifier::external_type_specification]
#[verifier::external_body]
#[verifier::reject_recursive_types(T)]
pub struct ExHeaderMap<T>(reqwest::header::HeaderMap<T>);

/// `reqwest::header::HeaderValue`, the value of one header field, which
/// `HeaderMap` holds where nothing else is asked for.
#[verifier::external_type_specification]
#[verifier::external_body]
pub struct ExHeaderValue(reqwest::header::HeaderValue);

/// What a header map holds, as far as a lookup shows it: for each field, by
/// its name in lower case, the bytes of the value that was added first.
pub uninterp spec fn first_values(headers: HeaderMap) -> Map<Seq<char>, Seq<u8>>;

/// Whether `name` is made of lower-case letters and hyphens alone, fewer
/// than 65536 of them.
spec fn is_plain_name(name: Seq<char>) -> bool {
    &&& name.len() < 0x1_0000
    &&& forall|i: int| 0 <= i < name.len() ==> ('a' <= #[trigger] name[i] <= 'z' || name[i] == '-')
}

/// The value that `fields` has under `name`, if it has one.
pub open spec fn value_of(fields: Map<Seq<char>, Seq<u8>>, name: Seq<char>) -> Option<Seq<u8>> {
    if fields.contains_key(name) {
        Some(fields[name])
    } else {
        None
    }
}

/// The bytes of a value that may be absent.
pub open spec fn bytes_of(value: Option<Vec<u8>>) -> Option<Seq<u8>> {
    match value {
        Some(bytes) => Some(bytes@),
        None => None,
    }
}

/// The name of the field that declares the length of a body.
pub open spec fn content_length_name() -> Seq<char> {
    "content-length"@
}

/// The name of the field that says which range units a server accepts.
pub open spec fn accept_ranges_name() -> Seq<char> {
    "accept-ranges"@
}

/// `HeaderMap::get` with a name given as text, and `HeaderValue::as_bytes` on
/// what it finds. A lookup compares names without regard to case, and the map
/// keeps its names in lower case; for a name that is in lower case already,
/// the result is the first value that the map holds under that very name, or
/// `None` where it holds none. A name of 65536 bytes or more makes the lookup
/// panic, and is not admitted.
#[verifier::external_body]
fn first_value(headers: &HeaderMap, name: &str) -> (value: Option<Vec<u8>>)
    requires
        is_plain_name(name@),
    ensures
        bytes_of(value) == value_of(first_values(*headers), name@),
{
    headers.get(name).map(|value| value.as_bytes().to_vec())
}

/// What size probing reads of a reply's head: the status, and the raw values
/// of two header fields, each `None` where the reply has no such field.
#[derive(Debug, PartialEq, Eq)]
pub struct Head {
    pub status: u16,
    pub content_length_value: Option<Vec<u8>>,
    pub accept_ranges_value: Option<Vec<u8>>,
}

/// A `Head` as contracts see it.
pub struct HeadView {
    pub status: u16,
    pub content_length_value: Option<Seq<u8>>,
    pub accept_ranges_value: Option<Seq<u8>>,
}

impl View for Head {
    type V = HeadView;

    open spec fn view(&self) -> HeadView {
        HeadView {
            status: self.status,
            content_length_value: bytes_of(self.content_length_value),
            accept_ranges_value: bytes_of(self.accept_ranges_value),
        }
    }
}

impl HeadView {
    /// Whether the status is one of success: 200 to 299.
    pub open spec fn is_success(self) -> bool {
        200 <= self.status < 300
    }

    /// The length that the head declares for the body, or what is wrong with
    /// the declaration.
    pub open spec fn content_length(self) -> Result<u64, HeaderFault> {
        match self.content_length_value {
            None => Err(HeaderFault::Absent),
            Some(value) => match decimal_value(value) {
                Some(length) => Ok(length),
                None => Err(HeaderFault::Unparsable),
            },
        }
    }

    /// Whether the head says that the server accepts ranges counted in
    /// bytes: `Accept-Ranges` is there, is text, and reads `bytes` once the
    /// blanks around it are cut off.
    pub open spec fn offers_byte_ranges(self) -> bool {
        match self.accept_ranges_value {
            Some(value) => names_bytes_unit(value),
            None => false,
        }
    }
}

impl Head {
    /// Takes from a reply's header fields what size probing reads.
    pub fn read(status: u16, headers: &HeaderMap) -> (head: Head)
        ensures
            head@ == (HeadView {
                status,
                content_length_value: value_of(first_values(*headers), content_length_name()),
                accept_ranges_value: value_of(first_values(*headers), accept_ranges_name()),
            }),
    {
        proof {
            reveal_strlit("content-length");
            reveal_strlit("accept-ranges");
        }
        Head {
            status,
            content_length_value: first_value(headers, "content-length"),
            accept_ranges_value: first_value(headers, "accept-ranges"),
        }
    }

    /// Says whether the status is one of success.
    pub fn is_success(&self) -> (success: bool)
        ensures
            success == self@.is_success(),
    {
        200 <= self.status && self.status < 300
    }

    /// Determines the length of the body from the `Content-Length` field.
    pub fn content_length(&self) -> (length: Result<u64, HeaderFault>)
        ensures
            length == self@.content_length(),
    {
        match &self.content_length_value {
            None => Err(HeaderFault::Absent),
            Some(value) => match parse_decimal(value.as_slice()) {
                Some(length) => Ok(length),
                None => Err(HeaderFault::Unparsable),
            },
        }
    }

    /// Says whether the server offers ranges counted in bytes.
    pub fn offers_byte_ranges(&self) -> (offered: bool)
        ensures
            offered == self@.offers_byte_ranges(),
    {
        match &self.accept_ranges_value {
            Some(value) => is_bytes_unit(value.as_slice()),
            None => false,
        }
    }
}

} // verus!
