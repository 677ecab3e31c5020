//! The decisions a protocol handler takes when the embedder answers the requests for a scheme it
//! registered: which requests fail, and what the others are answered with.

use http::header::InvalidHeaderValue;
use http::HeaderValue;

use vstd::prelude::*;
use vstd::string::StringExecFns;

use crate::c_string::{fits_c_string, is_c_string};

verus! {

broadcast use vstd::string::group_string_axioms;

#[verifier::external_type_specification]
#[verifier::external_body]
pub struct ExHeaderValue(HeaderValue);

#[verifier::external_type_specification]
#[verifier::external_body]
pub struct ExInvalidHeaderValue(InvalidHeaderValue);

/// Whether `c` may stand in an HTTP header value: a tab, or any character from the space on but
/// DEL. A character past ASCII is encoded in UTF-8 as bytes of 128 and more, all of which may.
pub open spec fn is_header_value_char(c: char) -> bool {
    (c as u32 >= 32 && c as u32 != 127) || c == '\t'
}

/// Whether every character of `s` may stand in an HTTP header value.
pub open spec fn is_header_value(s: Seq<char>) -> bool {
    forall|i: int| 0 <= i < s.len() ==> is_header_value_char(#[trigger] s[i])
}

/// The header value `http::HeaderValue::from_str` makes of the characters `s`.
pub uninterp spec fn header_value_of(s: Seq<char>) -> HeaderValue;

/// `http::HeaderValue::from_str`, which checks each byte of the UTF-8 encoding of `s` and
/// accepts `s` exactly when every byte is a tab or lies from 32 to 255 but for 127. Claimed here:
/// it succeeds exactly when every character of `s` passes `is_header_value_char`, and then gives
/// the value that depends on the characters of `s` alone. The bytes it holds are not stated.
#[verifier::external_body]
fn header_value_from_str(s: &str) -> (res: Result<HeaderValue, InvalidHeaderValue>)
    ensures
        res is Ok <==> is_header_value(s@),
        res matches Ok(v) ==> v == header_value_of(s@),
{
    HeaderValue::from_str(s)
}

/// Why a request for a resource of a registered scheme fails.
#[derive(Clone, Copy, Debug, PartialEq, Eq, Structural)]
pub enum LoadError {
    /// The requested URL holds a NUL character, so it cannot be handed to the embedder.
    UrlNotCString,
    /// The embedder did not answer the request with a resource.
    NoSuchResource,
}

impl LoadError {
    /// The message of the network error the request fails with.
    pub fn message(&self) -> (res: &'static str)
        ensures
            *self == LoadError::UrlNotCString ==> res@ == "URL is not a valid C string"@,
            *self == LoadError::NoSuchResource ==> res@ == "No such resource"@,
    {
        match self {
            LoadError::UrlNotCString => "URL is not a valid C string",
            LoadError::NoSuchResource => "No such resource",
        }
    }
}

/// What a request for a resource of a registered scheme is answered with.
pub struct LoadedResource {
    /// The bytes of the resource.
    pub body: Vec<u8>,
    /// Its MIME type.
    pub content_type: String,
    /// The `Content-Type` header to send, when the MIME type is a valid header value.
    pub content_type_header: Option<HeaderValue>,
}

/// The MIME type of a resource the embedder gave none for.
pub open spec fn default_content_type() -> Seq<char> {
    seq!['t', 'e', 'x', 't', '/', 'p', 'l', 'a', 'i', 'n']
}

/// Whether the request for `url` can be handed to the embedder: it fails when the URL cannot be
/// written as a C string.
pub fn check_request_url(url: &str) -> (res: Result<(), LoadError>)
    ensures
        res is Ok <==> is_c_string(url@),
        res matches Err(e) ==> e == LoadError::UrlNotCString,
{
    if fits_c_string(url) {
        Ok(())
    } else {
        Err(LoadError::UrlNotCString)
    }
}

/// What the request is answered with once the embedder's callback returned `handled` and filled
/// in `data` (`None` when it left the data pointer null) and `content_type` (`None` when it left
/// it null): it fails unless the callback handled it and gave data; otherwise the resource is
/// those bytes, with the MIME type given or `text/plain`, and the header that carries it when
/// the MIME type is a valid header value.
pub fn answer_request(handled: bool, data: Option<Vec<u8>>, content_type: Option<String>) -> (res:
    Result<LoadedResource, LoadError>)
    ensures
        !handled || data is None ==> res == Err::<LoadedResource, LoadError>(LoadError::NoSuchResource),
        handled && data is Some ==> (res matches Ok(r) && {
            let mime = match content_type {
                Some(t) => t@,
                None => default_content_type(),
            };
            &&& r.body@ == data->0@
            &&& r.content_type@ == mime
            &&& r.content_type_header == if is_header_value(mime) {
                Some(header_value_of(mime))
            } else {
                None
            }
        }),
{
    if !handled {
        return Err(LoadError::NoSuchResource);
    }
    let body = match data {
        None => {
            return Err(LoadError::NoSuchResource);
        },
        Some(body) => body,
    };
    let content_type = match content_type {
        Some(content_type) => content_type,
        None => {
            let text = String::from_str("text/plain");
            proof {
                reveal_strlit("text/plain");
                assert(text@ =~= default_content_type());
            }
            text
        },
    };
    let content_type_header = match header_value_from_str(content_type.as_str()) {
        Ok(value) => Some(value),
        Err(_) => None,
    };
    Ok(LoadedResource { body, content_type, content_type_header })
}

} // verus!
