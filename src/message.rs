use vstd::prelude::*;

use crate::headers::has_name;
use crate::headers::HeaderEntry;
use crate::headers::HeaderMap;

verus! {

/// The header that names the media type of a body.
pub const CONTENT_TYPE: &'static str = "content-type";

/// A request method as the host reports it.
#[derive(Debug)]
pub enum Method {
    Get,
    Head,
    Post,
    Put,
    Delete,
    Connect,
    Options,
    Trace,
    Patch,
    Other(String),
}

/// A request scheme as the host reports it.
#[derive(Debug)]
pub enum Scheme {
    Http,
    Https,
    Other(String),
}

/// Everything of a request but its body.
#[derive(Debug)]
pub struct RequestParts {
    pub method: Method,
    pub scheme: Scheme,
    pub authority: String,
    pub path_with_query: String,
    pub headers: HeaderMap,
}

#[derive(Debug)]
pub struct Request<B> {
    pub parts: RequestParts,
    pub body: B,
}

/// Everything of a response but its body.
#[derive(Debug)]
pub struct ResponseParts {
    pub status: u16,
    pub headers: HeaderMap,
}

#[derive(Debug)]
pub struct Response<B> {
    pub parts: ResponseParts,
    pub body: B,
}

/// The headers after a default content type has been offered: one that is
/// already set stays as it is.
pub open spec fn with_default_type(h: Seq<HeaderEntry>, ct: Option<Seq<char>>) -> Seq<HeaderEntry> {
    match ct {
        None => h,
        Some(t) => if has_name(h, CONTENT_TYPE@) {
            h
        } else {
            h.push((CONTENT_TYPE@, seq![t]))
        },
    }
}

impl ResponseParts {
    /// Fresh response parts: status 200 and no headers.
    pub fn new() -> (r: ResponseParts)
        ensures
            r.status == 200,
            r.headers.wf(),
            r.headers@ == Seq::<HeaderEntry>::empty(),
    {
        ResponseParts { status: 200, headers: HeaderMap::new() }
    }

    /// Sets the content type unless the response already has one.
    pub fn offer_content_type(&mut self, ct: Option<&'static str>)
        requires
            old(self).headers.wf(),
        ensures
            final(self).status == old(self).status,
            final(self).headers.wf(),
            final(self).headers@ == with_default_type(
                old(self).headers@,
                match ct {
                    Some(t) => Some(t@),
                    None => None,
                },
            ),
    {
        if let Some(t) = ct {
            self.headers.insert_if_absent(CONTENT_TYPE, t);
        }
    }
}

} // verus!
