use vstd::prelude::*;
use vstd::string::StrSliceExecFns;
use vstd::string::StringExecFns;
use vstd::utf8::decode_utf8;
use vstd::utf8::encode_utf8;
use vstd::utf8::encode_utf8_decode_utf8;
use vstd::utf8::encode_utf8_valid_utf8;
use vstd::utf8::valid_utf8;

use crate::json::json_valid;
use crate::json::parse_value;
use crate::json::value_bytes;
use crate::message::with_default_type;
use crate::message::ResponseParts;

verus! {

/// The media type of JSON bodies.
pub const JSON_TYPE: &'static str = "application/json";

/// The media type of HTML bodies.
pub const HTML_TYPE: &'static str = "text/html; charset=utf-8";

/// Why a request body could not be decoded.
#[derive(Debug)]
pub enum DecodeError {
    /// The body is not valid UTF-8.
    Encoding,
    /// The body is no JSON document of the expected shape.
    Malformed { detail: String },
}

impl DecodeError {
    pub open spec fn text(&self) -> Seq<char> {
        match self {
            DecodeError::Encoding => "Request body is not valid UTF-8"@,
            DecodeError::Malformed { detail } => "Malformed JSON in request body: "@ + detail@,
        }
    }

    /// A sentence that says what went wrong.
    pub fn to_string(&self) -> (r: String)
        ensures
            r@ == self.text(),
    {
        match self {
            DecodeError::Encoding => String::from_str("Request body is not valid UTF-8"),
            DecodeError::Malformed { detail } => String::from_str(
                "Malformed JSON in request body: ",
            ).concat(detail.as_str()),
        }
    }
}

/// A value that a request body decodes into.
pub trait FromBody: Sized {
    /// Whether `data` decodes at all.
    spec fn accepts(data: Seq<u8>) -> bool;

    /// Whether `value` is what `data` decodes into.
    spec fn decodes_to(data: Seq<u8>, value: Self) -> bool;

    /// Whether `e` is the error that rejecting `data` reports.
    spec fn fails_with(data: Seq<u8>, e: DecodeError) -> bool;

    fn from_data(data: Vec<u8>) -> (r: Result<Self, DecodeError>)
        ensures
            r is Ok <==> Self::accepts(data@),
            r is Ok ==> Self::decodes_to(data@, r->Ok_0),
            r is Err ==> Self::fails_with(data@, r->Err_0),
    ;
}

/// A value that a response body is encoded from.
pub trait IntoBody: Sized {
    /// Whether `bytes` is an encoding of this value.
    spec fn encodes_to(&self, bytes: Seq<u8>) -> bool;

    /// The content type this value's responses carry by default.
    spec fn default_type(&self) -> Option<Seq<char>>;

    /// Whether failures of this kind of response are reported as an HTML page.
    spec fn html_errors() -> bool;

    /// Encodes the value; encoding never fails.
    fn into_body(self) -> (r: Vec<u8>)
        ensures
            self.encodes_to(r@),
    ;

    fn content_type(&self) -> (r: Option<&'static str>)
        ensures
            match r {
                Some(t) => self.default_type() == Some(t@),
                None => self.default_type() is None,
            },
    ;

    fn error_page_is_html() -> (r: bool)
        ensures
            r == Self::html_errors(),
    ;

    /// Offers the value's default content type to the response; a content
    /// type that is already set is kept.
    fn extend_response_parts(&self, parts: &mut ResponseParts)
        requires
            old(parts).headers.wf(),
        ensures
            final(parts).status == old(parts).status,
            final(parts).headers.wf(),
            final(parts).headers@ == with_default_type(old(parts).headers@, self.default_type()),
    {
        let ct = self.content_type();
        parts.offer_content_type(ct);
    }
}

impl FromBody for () {
    open spec fn accepts(data: Seq<u8>) -> bool {
        true
    }

    open spec fn decodes_to(data: Seq<u8>, value: ()) -> bool {
        true
    }

    open spec fn fails_with(data: Seq<u8>, e: DecodeError) -> bool {
        false
    }

    fn from_data(data: Vec<u8>) -> (r: Result<(), DecodeError>) {
        Ok(())
    }
}

impl IntoBody for () {
    open spec fn encodes_to(&self, bytes: Seq<u8>) -> bool {
        bytes.len() == 0
    }


    open spec fn default_type(&self) -> Option<Seq<char>> {
        None
    }

    open spec fn html_errors() -> bool {
        false
    }

    fn into_body(self) -> (r: Vec<u8>) {
        Vec::new()
    }

    fn content_type(&self) -> (r: Option<&'static str>) {
        None
    }

    fn error_page_is_html() -> (r: bool) {
        false
    }
}

impl FromBody for Vec<u8> {
    open spec fn accepts(data: Seq<u8>) -> bool {
        true
    }

    open spec fn decodes_to(data: Seq<u8>, value: Vec<u8>) -> bool {
        value@ == data
    }

    open spec fn fails_with(data: Seq<u8>, e: DecodeError) -> bool {
        false
    }

    fn from_data(data: Vec<u8>) -> (r: Result<Vec<u8>, DecodeError>) {
        Ok(data)
    }
}

impl IntoBody for Vec<u8> {
    open spec fn encodes_to(&self, bytes: Seq<u8>) -> bool {
        bytes == self@
    }


    open spec fn default_type(&self) -> Option<Seq<char>> {
        None
    }

    open spec fn html_errors() -> bool {
        false
    }

    fn into_body(self) -> (r: Vec<u8>) {
        self
    }

    fn content_type(&self) -> (r: Option<&'static str>) {
        None
    }

    fn error_page_is_html() -> (r: bool) {
        false
    }
}

/// Relies on `String::from_utf8`: it succeeds exactly on valid UTF-8 and then
/// holds the text that the bytes encode.
#[verifier::external_body]
fn utf8_text(data: Vec<u8>) -> (r: Option<String>)
    ensures
        r is Some <==> valid_utf8(data@),
        r is Some ==> r->0@ == decode_utf8(data@),
{
    String::from_utf8(data).ok()
}

impl FromBody for String {
    open spec fn accepts(data: Seq<u8>) -> bool {
        valid_utf8(data)
    }

    open spec fn decodes_to(data: Seq<u8>, value: String) -> bool {
        value@ == decode_utf8(data)
    }

    open spec fn fails_with(data: Seq<u8>, e: DecodeError) -> bool {
        e is Encoding
    }

    fn from_data(data: Vec<u8>) -> (r: Result<String, DecodeError>) {
        match utf8_text(data) {
            Some(s) => Ok(s),
            None => Err(DecodeError::Encoding),
        }
    }
}

impl IntoBody for String {
    open spec fn encodes_to(&self, bytes: Seq<u8>) -> bool {
        bytes == encode_utf8(self@)
    }


    open spec fn default_type(&self) -> Option<Seq<char>> {
        None
    }

    open spec fn html_errors() -> bool {
        false
    }

    fn into_body(self) -> (r: Vec<u8>) {
        self.as_str().as_bytes_vec()
    }

    fn content_type(&self) -> (r: Option<&'static str>) {
        None
    }

    fn error_page_is_html() -> (r: bool) {
        false
    }
}

impl<T: FromBody> FromBody for Option<T> {
    open spec fn accepts(data: Seq<u8>) -> bool {
        data.len() == 0 || T::accepts(data)
    }

    open spec fn decodes_to(data: Seq<u8>, value: Option<T>) -> bool {
        if data.len() == 0 {
            value is None
        } else {
            value is Some && T::decodes_to(data, value->0)
        }
    }

    open spec fn fails_with(data: Seq<u8>, e: DecodeError) -> bool {
        data.len() > 0 && T::fails_with(data, e)
    }

    fn from_data(data: Vec<u8>) -> (r: Result<Option<T>, DecodeError>) {
        if data.len() == 0 {
            Ok(None)
        } else {
            match T::from_data(data) {
                Ok(v) => Ok(Some(v)),
                Err(e) => Err(e),
            }
        }
    }
}

impl<T: IntoBody> IntoBody for Option<T> {
    open spec fn encodes_to(&self, bytes: Seq<u8>) -> bool {
        match self {
            Some(v) => v.encodes_to(bytes),
            None => bytes.len() == 0,
        }
    }


    open spec fn default_type(&self) -> Option<Seq<char>> {
        match self {
            Some(v) => v.default_type(),
            None => None,
        }
    }

    open spec fn html_errors() -> bool {
        T::html_errors()
    }

    fn into_body(self) -> (r: Vec<u8>) {
        match self {
            Some(v) => v.into_body(),
            None => Vec::new(),
        }
    }

    fn content_type(&self) -> (r: Option<&'static str>) {
        match self {
            Some(v) => v.content_type(),
            None => None,
        }
    }

    fn error_page_is_html() -> (r: bool) {
        T::error_page_is_html()
    }
}

/// A body that is a JSON document.
#[derive(Debug)]
pub struct Json<T>(pub T);

impl FromBody for Json<serde_json::Value> {
    open spec fn accepts(data: Seq<u8>) -> bool {
        json_valid(data)
    }

    open spec fn decodes_to(data: Seq<u8>, value: Json<serde_json::Value>) -> bool {
        true
    }

    open spec fn fails_with(data: Seq<u8>, e: DecodeError) -> bool {
        e is Malformed
    }

    fn from_data(data: Vec<u8>) -> (r: Result<Json<serde_json::Value>, DecodeError>) {
        match parse_value(data.as_slice()) {
            Ok(v) => Ok(Json(v)),
            Err(detail) => Err(DecodeError::Malformed { detail }),
        }
    }
}

impl IntoBody for Json<serde_json::Value> {
    open spec fn encodes_to(&self, bytes: Seq<u8>) -> bool {
        true
    }


    open spec fn default_type(&self) -> Option<Seq<char>> {
        Some(JSON_TYPE@)
    }

    open spec fn html_errors() -> bool {
        false
    }

    fn into_body(self) -> (r: Vec<u8>) {
        value_bytes(&self.0)
    }

    fn content_type(&self) -> (r: Option<&'static str>) {
        Some(JSON_TYPE)
    }

    fn error_page_is_html() -> (r: bool) {
        false
    }
}

/// A body that already holds serialized JSON.
#[derive(Debug)]
pub struct RawJson<T>(pub T);

impl IntoBody for RawJson<Vec<u8>> {
    open spec fn encodes_to(&self, bytes: Seq<u8>) -> bool {
        bytes == self.0@
    }


    open spec fn default_type(&self) -> Option<Seq<char>> {
        Some(JSON_TYPE@)
    }

    open spec fn html_errors() -> bool {
        false
    }

    fn into_body(self) -> (r: Vec<u8>) {
        self.0
    }

    fn content_type(&self) -> (r: Option<&'static str>) {
        Some(JSON_TYPE)
    }

    fn error_page_is_html() -> (r: bool) {
        false
    }
}

/// A body that is an HTML document.
#[derive(Debug)]
pub struct Html<T>(pub T);

impl IntoBody for Html<Vec<u8>> {
    open spec fn encodes_to(&self, bytes: Seq<u8>) -> bool {
        bytes == self.0@
    }


    open spec fn default_type(&self) -> Option<Seq<char>> {
        Some(HTML_TYPE@)
    }

    open spec fn html_errors() -> bool {
        true
    }

    fn into_body(self) -> (r: Vec<u8>) {
        self.0
    }

    fn content_type(&self) -> (r: Option<&'static str>) {
        Some(HTML_TYPE)
    }

    fn error_page_is_html() -> (r: bool) {
        true
    }
}

/// Decoding an optional body: an empty body is the absent value; any other
/// body decodes, and fails, exactly as the inner type decodes it.
pub proof fn lemma_optional_decode<T: FromBody>(data: Seq<u8>, value: T, e: DecodeError)
    ensures
        data.len() == 0 ==> <Option<T> as FromBody>::accepts(data) && <Option<
            T,
        > as FromBody>::decodes_to(data, None),
        data.len() == 0 ==> !<Option<T> as FromBody>::decodes_to(data, Some(value)),
        data.len() > 0 ==> (<Option<T> as FromBody>::accepts(data) <==> T::accepts(data)),
        data.len() > 0 ==> (<Option<T> as FromBody>::decodes_to(data, Some(value))
            <==> T::decodes_to(data, value)),
        data.len() > 0 ==> !<Option<T> as FromBody>::decodes_to(data, None),
        data.len() > 0 ==> (<Option<T> as FromBody>::fails_with(data, e) <==> T::fails_with(
            data,
            e,
        )),
{
}

/// A value whose own codec round-trips, and whose encoding is not empty,
/// round-trips as a present optional value: the bytes are accepted and
/// decode to `Some(x)` and nothing else.
pub proof fn lemma_optional_round_trip<T: FromBody + IntoBody>(x: T, bytes: Seq<u8>, v: Option<T>)
    requires
        x.encodes_to(bytes),
        bytes.len() > 0,
        T::accepts(bytes),
        forall|y: T| #[trigger] T::decodes_to(bytes, y) ==> y == x,
        <Option<T> as FromBody>::decodes_to(bytes, v),
    ensures
        Some(x).encodes_to(bytes),
        <Option<T> as FromBody>::accepts(bytes),
        v == Some(x),
{
}

/// Text round-trips through its body encoding.
pub proof fn lemma_text_round_trip(s: String, bytes: Seq<u8>, back: String)
    requires
        s.encodes_to(bytes),
        <String as FromBody>::decodes_to(bytes, back),
    ensures
        <String as FromBody>::accepts(bytes),
        back@ == s@,
{
    encode_utf8_valid_utf8(s@);
    encode_utf8_decode_utf8(s@);
}

/// Non-empty text round-trips through the optional body encoding: what is
/// present stays present and keeps its text.
pub proof fn lemma_optional_text_round_trip(s: String, bytes: Seq<u8>, back: Option<String>)
    requires
        s@.len() > 0,
        Some(s).encodes_to(bytes),
        <Option<String> as FromBody>::decodes_to(bytes, back),
    ensures
        <Option<String> as FromBody>::accepts(bytes),
        back is Some,
        back->0@ == s@,
{
    encode_utf8_valid_utf8(s@);
    encode_utf8_decode_utf8(s@);
    if bytes.len() == 0 {
        assert(decode_utf8(bytes) =~= Seq::<char>::empty());
    }
}


} // verus!
