use vstd::prelude::*;
use vstd::string::StrSliceExecFns;
use vstd::string::StringExecFns;
use vstd::utf8::encode_utf8;

use crate::body::DecodeError;
use crate::body::FromBody;
use crate::body::IntoBody;
use crate::body::JSON_TYPE;
use crate::json::json_quoted;
use crate::json::quote;
use crate::message::with_default_type;
use crate::message::Request;
use crate::message::Response;
use crate::message::ResponseParts;
use crate::message::CONTENT_TYPE;

verus! {

/// The page sent when a handler that answers in HTML fails.
pub const ERROR_PAGE: &'static str = "<!DOCTYPE html>\n<html>\n<head><title>Internal server error</title></head>\n<body>\n<h1>Internal server error</h1>\n<p>The request could not be completed.</p>\n</body>\n</html>\n";

/// The media type of the HTML error page.
pub const ERROR_PAGE_TYPE: &'static str = "text/html";

/// The JSON error envelope that carries `msg`.
pub open spec fn envelope_text(msg: Seq<char>) -> Seq<char> {
    "{\"error\":\"Internal server error\",\"message\":"@ + json_quoted(msg) + "}"@
}

/// Renders the JSON error envelope for `msg`.
pub fn envelope(msg: &str) -> (r: String)
    ensures
        r@ == envelope_text(msg@),
{
    let head = String::from_str("{\"error\":\"Internal server error\",\"message\":");
    let quoted = quote(msg);
    head.concat(quoted.as_str()).concat("}")
}

/// `r` reports a failure with `status`: the HTML error page, or the JSON
/// envelope that carries `msg`.
pub open spec fn is_error_response(r: Response<Vec<u8>>, html: bool, status: u16, msg: Seq<char>) -> bool {
    &&& r.parts.status == status
    &&& r.parts.headers.wf()
    &&& r.parts.headers@ == seq![
        (
            CONTENT_TYPE@,
            seq![
                if html {
                    ERROR_PAGE_TYPE@
                } else {
                    JSON_TYPE@
                },
            ],
        ),
    ]
    &&& r.body@ == encode_utf8(
        if html {
            ERROR_PAGE@
        } else {
            envelope_text(msg)
        },
    )
}

/// Builds the response that reports a failure.
pub fn error_reply(html: bool, status: u16, msg: &str) -> (r: Response<Vec<u8>>)
    ensures
        is_error_response(r, html, status, msg@),
{
    let mut parts = ResponseParts::new();
    parts.status = status;
    let body = if html {
        parts.headers.insert_if_absent(CONTENT_TYPE, ERROR_PAGE_TYPE);
        ERROR_PAGE.as_bytes_vec()
    } else {
        parts.headers.insert_if_absent(CONTENT_TYPE, JSON_TYPE);
        envelope(msg).as_str().as_bytes_vec()
    };
    let r = Response { parts, body };
    assert(r.parts.headers@ =~= seq![
        (
            CONTENT_TYPE@,
            seq![
                if html {
                    ERROR_PAGE_TYPE@
                } else {
                    JSON_TYPE@
                },
            ],
        ),
    ]);
    r
}

/// A failure that the host reports in place of a response.
#[derive(Debug)]
pub enum ErrorCode {
    InternalError(Option<String>),
}

/// What was handed to the host for one request.
#[derive(Debug)]
pub enum Outcome {
    Response(Response<Vec<u8>>),
    Failure(ErrorCode),
}

/// The proof that a request was answered: only a response slot makes one,
/// and only by being used up.
#[derive(Debug)]
pub struct Sent {
    outcome: Outcome,
}

impl Sent {
    pub closed spec fn delivered(&self) -> Outcome {
        self.outcome
    }

    /// What was handed to the host.
    pub fn outcome(&self) -> (r: &Outcome)
        ensures
            *r == self.delivered(),
    {
        &self.outcome
    }

    pub fn into_outcome(self) -> (r: Outcome)
        ensures
            r == self.delivered(),
    {
        self.outcome
    }
}

/// The host's single-use slot for the answer to one request. Each way of
/// filling it consumes it, so a request is answered at most once, and every
/// path that must answer has to give up the slot to produce a `Sent`.
#[derive(Debug)]
pub struct ResponseOutparam {
    slot: (),
}

impl ResponseOutparam {
    pub fn new() -> (r: ResponseOutparam) {
        ResponseOutparam { slot: () }
    }

    /// Answers with a response.
    pub fn send(self, res: Response<Vec<u8>>) -> (r: Sent)
        ensures
            r.delivered() == Outcome::Response(res),
    {
        Sent { outcome: Outcome::Response(res) }
    }

    /// Answers with a transport-level failure.
    pub fn error(self, code: ErrorCode) -> (r: Sent)
        ensures
            r.delivered() == Outcome::Failure(code),
    {
        Sent { outcome: Outcome::Failure(code) }
    }
}

/// A handler's failure: the status to answer with and what went wrong.
#[derive(Debug)]
pub struct HandlerError {
    pub status: u16,
    pub message: String,
}

/// Answers with the failure report that suits the output type `O`.
pub fn send_error<O: IntoBody>(out: ResponseOutparam, status: u16, msg: &str) -> (r: Sent)
    ensures
        r.delivered() matches Outcome::Response(res) && is_error_response(
            res,
            O::html_errors(),
            status,
            msg@,
        ),
{
    let html = O::error_page_is_html();
    out.send(error_reply(html, status, msg))
}

/// `sent` is what the adapter answers for the handler's result `res`.
pub open spec fn is_reply<O: IntoBody>(res: Result<Response<O>, HandlerError>, sent: Outcome) -> bool {
    match res {
        Err(e) => sent matches Outcome::Response(r) && is_error_response(
            r,
            O::html_errors(),
            e.status,
            e.message@,
        ),
        Ok(resp) => sent matches Outcome::Response(r) && r.parts.status == resp.parts.status
            && r.parts.headers.wf() && r.parts.headers@ == with_default_type(
            resp.parts.headers@,
            resp.body.default_type(),
        ) && resp.body.encodes_to(r.body@),
    }
}

/// Encodes a handler's result and answers with it.
pub fn send_reply<O: IntoBody>(out: ResponseOutparam, res: Result<Response<O>, HandlerError>) -> (r: Sent)
    requires
        res is Ok ==> res->Ok_0.parts.headers.wf(),
    ensures
        is_reply::<O>(res, r.delivered()),
{
    match res {
        Err(e) => send_error::<O>(out, e.status, e.message.as_str()),
        Ok(resp) => {
            let Response { parts, body } = resp;
            let mut parts = parts;
            body.extend_response_parts(&mut parts);
            let bytes = body.into_body();
            out.send(Response { parts, body: bytes })
        },
    }
}

/// Runs one request through a typed handler: decodes the body as `I`, calls
/// the handler, encodes its result as `O` and answers exactly once. A body
/// that does not decode is answered with status 500 without calling the
/// handler; a handler failure is answered with the failure's status.
pub fn run<I, O, F>(req: Request<Vec<u8>>, out: ResponseOutparam, handler: F) -> (sent: Sent) where
    I: FromBody,
    O: IntoBody,
    F: FnOnce(Request<I>) -> Result<Response<O>, HandlerError>,

    requires
        req.parts.headers.wf(),
        forall|r: Request<I>| r.parts.headers.wf() ==> #[trigger] handler.requires((r,)),
        forall|r: Request<I>, res: Result<Response<O>, HandlerError>|
            #[trigger] handler.ensures((r,), res) && res is Ok ==> res->Ok_0.parts.headers.wf(),
    ensures
        !I::accepts(req.body@) ==> (sent.delivered() matches Outcome::Response(res) && exists|
            e: DecodeError,
        | I::fails_with(req.body@, e) && is_error_response(res, O::html_errors(), 500, #[trigger] e.text())),
        I::accepts(req.body@) ==> exists|input: I, res: Result<Response<O>, HandlerError>|
            I::decodes_to(req.body@, input) && #[trigger] handler.ensures(
                (Request { parts: req.parts, body: input },),
                res,
            ) && is_reply::<O>(res, sent.delivered()),
{
    let ghost data = req.body@;
    let Request { parts, body } = req;
    let input = match I::from_data(body) {
        Ok(v) => v,
        Err(e) => {
            let msg = e.to_string();
            return send_error::<O>(out, 500, msg.as_str());
        },
    };
    let ghost g_input = input;
    let res = handler(Request { parts, body: input });
    let sent = send_reply::<O>(out, res);
    assert(I::decodes_to(data, g_input));
    sent
}


/// Whatever the handler returns, the adapter's answer is a response: the
/// slot is filled once, with a response, and never left empty.
pub proof fn lemma_reply_is_response<O: IntoBody>(
    res: Result<Response<O>, HandlerError>,
    sent: Outcome,
)
    requires
        is_reply::<O>(res, sent),
    ensures
        sent is Response,
{
}

} // verus!
