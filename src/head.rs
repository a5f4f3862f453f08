use vstd::prelude::*;
use vstd::utf8::encode_utf8;

use crate::headers::HeaderMap;
use crate::message::Method;
use crate::message::RequestParts;
use crate::message::Scheme;

verus! {

/// Whether `s` is a URI authority (`host[:port]`, with optional user info).
pub uninterp spec fn valid_authority(s: Seq<char>) -> bool;

/// Whether `s` is the path and query of a URI.
pub uninterp spec fn valid_path_and_query(s: Seq<char>) -> bool;

/// A byte that may stand in a header name: a token character, with
/// upper-case letters allowed (they are folded to lower case).
pub open spec fn is_token_byte(b: u8) -> bool {
    b == 33 || (35 <= b && b <= 39) || b == 42 || b == 43 || b == 45 || b == 46 || (48 <= b && b
        <= 57) || (65 <= b && b <= 90) || (94 <= b && b <= 122) || b == 124 || b == 126
}

/// Whether `b` is a header name: 1 to 65535 token bytes.
pub open spec fn valid_header_name(b: Seq<u8>) -> bool {
    &&& 1 <= b.len() <= 65535
    &&& forall|i: int| 0 <= i < b.len() ==> is_token_byte(#[trigger] b[i])
}

/// Whether `b` is a header value: no control byte but tab, and no DEL.
pub open spec fn valid_header_value(b: Seq<u8>) -> bool {
    forall|i: int| 0 <= i < b.len() ==> ((#[trigger] b[i] >= 32 && b[i] != 127) || b[i] == 9)
}

/// Relies on `http::HeaderName::from_bytes`: it accepts a name of 1 to
/// 65535 bytes whose every byte maps to a non-zero entry of its table of
/// token characters.
#[verifier::external_body]
fn header_name_ok(b: &[u8]) -> (r: bool)
    ensures
        r == valid_header_name(b@),
{
    http::HeaderName::from_bytes(b).is_ok()
}

/// Relies on `http::HeaderValue::from_bytes`: it accepts a value whose every
/// byte is at least 32 and not 127, or is a tab.
#[verifier::external_body]
fn header_value_ok(b: &[u8]) -> (r: bool)
    ensures
        r == valid_header_value(b@),
{
    http::HeaderValue::from_bytes(b).is_ok()
}

/// Relies on `http::uri::Authority::try_from(&str)`: it accepts exactly the
/// strings that are a URI authority.
#[verifier::external_body]
fn authority_ok(s: &str) -> (r: bool)
    ensures
        r == valid_authority(s@),
{
    http::uri::Authority::try_from(s).is_ok()
}

/// Relies on `http::uri::PathAndQuery::try_from(&str)`: it accepts exactly
/// the strings that are the path and query of a URI.
#[verifier::external_body]
fn path_and_query_ok(s: &str) -> (r: bool)
    ensures
        r == valid_path_and_query(s@),
{
    http::uri::PathAndQuery::try_from(s).is_ok()
}

/// Why the host's description of a request does not make a request.
#[derive(Debug)]
pub enum HeadError {
    /// The scheme is neither HTTP nor HTTPS, or absent.
    InvalidScheme,
    MissingAuthority,
    InvalidAuthority,
    MissingPathAndQuery,
    InvalidPathAndQuery,
    /// CONNECT, or a method outside the standard set.
    InvalidMethod,
    /// A header field with a malformed name or value.
    InvalidHeader,
}

impl HeadError {
    pub open spec fn text(&self) -> Seq<char> {
        match self {
            HeadError::InvalidScheme => "Invalid scheme"@,
            HeadError::MissingAuthority => "Missing authority"@,
            HeadError::InvalidAuthority => "Invalid authority"@,
            HeadError::MissingPathAndQuery => "Missing path and query"@,
            HeadError::InvalidPathAndQuery => "Invalid path and query"@,
            HeadError::InvalidMethod => "Invalid method"@,
            HeadError::InvalidHeader => "Invalid header"@,
        }
    }

    /// A sentence that says what went wrong.
    pub fn to_string(&self) -> (r: &'static str)
        ensures
            r@ == self.text(),
    {
        match self {
            HeadError::InvalidScheme => "Invalid scheme",
            HeadError::MissingAuthority => "Missing authority",
            HeadError::InvalidAuthority => "Invalid authority",
            HeadError::MissingPathAndQuery => "Missing path and query",
            HeadError::InvalidPathAndQuery => "Invalid path and query",
            HeadError::InvalidMethod => "Invalid method",
            HeadError::InvalidHeader => "Invalid header",
        }
    }
}

/// A field with a valid name and a valid value.
pub open spec fn field_ok(f: (String, Vec<u8>)) -> bool {
    valid_header_name(encode_utf8(f.0@)) && valid_header_value(f.1@)
}

/// Every field has a valid name and a valid value.
pub open spec fn fields_valid(fields: Seq<(String, Vec<u8>)>) -> bool {
    forall|i: int| 0 <= i < fields.len() ==> #[trigger] field_ok(fields[i])
}

/// Checks the host's header fields: each name and each value must be
/// well-formed.
pub fn check_fields(fields: &Vec<(String, Vec<u8>)>) -> (r: Result<(), HeadError>)
    ensures
        r is Ok <==> fields_valid(fields@),
        r is Err ==> r == Err::<(), HeadError>(HeadError::InvalidHeader),
{
    let mut i: usize = 0;
    while i < fields.len()
        invariant
            i <= fields@.len(),
            forall|k: int| 0 <= k < i ==> #[trigger] field_ok(fields@[k]),
        decreases fields@.len() - i,
    {
        let name = fields[i].0.as_str().as_bytes();
        assert(name@ == encode_utf8(fields@[i as int].0@));
        let name_ok = header_name_ok(name);
        let value_ok = header_value_ok(fields[i].1.as_slice());
        if !name_ok || !value_ok {
            assert(!field_ok(fields@[i as int]));
            return Err(HeadError::InvalidHeader);
        }
        assert(field_ok(fields@[i as int]));
        i += 1;
    }
    Ok(())
}

/// The methods a request may carry: all standard ones but CONNECT.
pub open spec fn is_supported(m: Method) -> bool {
    !(m is Connect) && !(m is Other)
}

/// Whether requests with this method are handled.
pub fn supported_method(m: &Method) -> (r: bool)
    ensures
        r == is_supported(*m),
{
    match m {
        Method::Connect => false,
        Method::Other(_) => false,
        _ => true,
    }
}

/// The error, if any, in the host's description of a request; the checks
/// run in order: scheme, authority, path and query, method.
pub open spec fn head_error(
    scheme: Option<Scheme>,
    authority: Option<Seq<char>>,
    path_and_query: Option<Seq<char>>,
    method: Method,
) -> Option<HeadError> {
    if !(scheme matches Some(s) && (s is Http || s is Https)) {
        Some(HeadError::InvalidScheme)
    } else if authority is None {
        Some(HeadError::MissingAuthority)
    } else if !valid_authority(authority->0) {
        Some(HeadError::InvalidAuthority)
    } else if path_and_query is None {
        Some(HeadError::MissingPathAndQuery)
    } else if !valid_path_and_query(path_and_query->0) {
        Some(HeadError::InvalidPathAndQuery)
    } else if !is_supported(method) {
        Some(HeadError::InvalidMethod)
    } else {
        None
    }
}

pub open spec fn text_of(s: Option<String>) -> Option<Seq<char>> {
    match s {
        Some(t) => Some(t@),
        None => None,
    }
}

/// Checks the host's description of a request and assembles its parts.
pub fn request_parts(
    scheme: Option<Scheme>,
    authority: Option<String>,
    path_and_query: Option<String>,
    method: Method,
    headers: HeaderMap,
) -> (r: Result<RequestParts, HeadError>)
    ensures
        match head_error(scheme, text_of(authority), text_of(path_and_query), method) {
            Some(e) => r == Err::<RequestParts, HeadError>(e),
            None => r matches Ok(p) && p.scheme == scheme->0 && p.authority == authority->0
                && p.path_with_query == path_and_query->0 && p.method == method && p.headers
                == headers,
        },
{
    let scheme = match scheme {
        Some(Scheme::Http) => Scheme::Http,
        Some(Scheme::Https) => Scheme::Https,
        _ => return Err(HeadError::InvalidScheme),
    };
    let authority = match authority {
        Some(a) => a,
        None => return Err(HeadError::MissingAuthority),
    };
    if !authority_ok(authority.as_str()) {
        return Err(HeadError::InvalidAuthority);
    }
    let path_with_query = match path_and_query {
        Some(p) => p,
        None => return Err(HeadError::MissingPathAndQuery),
    };
    if !path_and_query_ok(path_with_query.as_str()) {
        return Err(HeadError::InvalidPathAndQuery);
    }
    if !supported_method(&method) {
        return Err(HeadError::InvalidMethod);
    }
    Ok(RequestParts { method, scheme, authority, path_with_query, headers })
}

} // verus!
