use vstd::prelude::*;
use vstd::string::StrSliceExecFns;
use vstd::utf8::encode_utf8;

use crate::adapter::error_reply;
use crate::adapter::is_error_response;
use crate::adapter::Outcome;
use crate::adapter::ResponseOutparam;
use crate::adapter::Sent;
use crate::headers::values_of;
use crate::headers::HeaderEntry;
use crate::headers::HeaderMap;
use crate::message::Response;
use crate::message::ResponseParts;
use crate::text::same_name;

verus! {

/// Assembles a response step by step and hands it to the host.
#[derive(Debug)]
pub struct ResponseBuilder {
    headers: HeaderMap,
    status_code: u16,
    body_content: Option<String>,
}

/// The bytes of an optional text body: nothing when there is none.
pub open spec fn body_bytes(body: Option<Seq<char>>) -> Seq<u8> {
    match body {
        Some(b) => encode_utf8(b),
        None => Seq::<u8>::empty(),
    }
}

impl ResponseBuilder {
    pub closed spec fn wf(&self) -> bool {
        self.headers.wf()
    }

    pub closed spec fn status(&self) -> u16 {
        self.status_code
    }

    pub closed spec fn header_entries(&self) -> Seq<HeaderEntry> {
        self.headers@
    }

    pub closed spec fn body(&self) -> Option<Seq<char>> {
        match &self.body_content {
            Some(b) => Some(b@),
            None => None,
        }
    }

    /// A builder for an empty response with status 200.
    pub fn new() -> (r: ResponseBuilder)
        ensures
            r.wf(),
            r.status() == 200,
            r.header_entries() == Seq::<HeaderEntry>::empty(),
            r.body() is None,
    {
        ResponseBuilder { headers: HeaderMap::new(), status_code: 200, body_content: None }
    }

    /// Sets the header `key` to the single value `value`, replacing what it held.
    pub fn set_header(&mut self, key: &str, value: &str) -> (r: &mut ResponseBuilder)
        requires
            old(self).wf(),
        ensures
            r.wf(),
            values_of(r.header_entries(), key@) == Some(seq![value@]),
            forall|k: Seq<char>|
                !same_name(k, key@) ==> #[trigger] values_of(r.header_entries(), k) == values_of(
                    old(self).header_entries(),
                    k,
                ),
            r.status() == old(self).status(),
            r.body() == old(self).body(),
            *final(self) == *final(r),
    {
        let values = vec![value.to_owned()];
        assert(crate::headers::texts(values@) =~= seq![value@]);
        self.headers.insert(key.to_owned(), values);
        assert forall|k: Seq<char>| !same_name(k, key@) implies values_of(self.headers@, k)
            == values_of(old(self).headers@, k) by {
            assert(self.headers.lookup(k) == old(self).headers.lookup(k));
        }
        self
    }

    /// Sets the status code.
    pub fn set_status_code(&mut self, status_code: u16) -> (r: &mut ResponseBuilder)
        requires
            old(self).wf(),
        ensures
            r.wf(),
            r.status() == status_code,
            r.header_entries() == old(self).header_entries(),
            r.body() == old(self).body(),
            *final(self) == *final(r),
    {
        self.status_code = status_code;
        self
    }

    /// Sets the body text.
    pub fn set_body(&mut self, body: &str) -> (r: &mut ResponseBuilder)
        requires
            old(self).wf(),
        ensures
            r.wf(),
            r.body() == Some(body@),
            r.status() == old(self).status(),
            r.header_entries() == old(self).header_entries(),
            *final(self) == *final(r),
    {
        self.body_content = Some(body.to_owned());
        self
    }

    /// Hands the response to the host.
    pub fn build(self, resp: ResponseOutparam) -> (r: Sent)
        requires
            self.wf(),
        ensures
            r.delivered() matches Outcome::Response(res) && res.parts.status == self.status()
                && res.parts.headers.wf() && res.parts.headers@ == self.header_entries() && res.body@
                == body_bytes(self.body()),
    {
        let body = match &self.body_content {
            Some(b) => b.as_str().as_bytes_vec(),
            None => Vec::new(),
        };
        let parts = ResponseParts { status: self.status_code, headers: self.headers };
        resp.send(Response { parts, body })
    }
}

impl Default for ResponseBuilder {
    fn default() -> (r: ResponseBuilder)
        ensures
            r.wf(),
            r.status() == 200,
            r.header_entries() == Seq::<HeaderEntry>::empty(),
            r.body() is None,
    {
        ResponseBuilder::new()
    }
}

/// Answers with the JSON error envelope for `msg` and the given status.
pub fn error_response(msg: &str, status_code: u16, resp: ResponseOutparam) -> (r: Sent)
    ensures
        r.delivered() matches Outcome::Response(res) && is_error_response(
            res,
            false,
            status_code,
            msg@,
        ),
{
    resp.send(error_reply(false, status_code, msg))
}

} // verus!
