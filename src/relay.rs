use vstd::prelude::*;
use vstd::string::StrSliceExecFns;
use vstd::string::StringExecFns;
use vstd::utf8::encode_utf8;

use crate::adapter::is_error_response;
use crate::adapter::is_reply;
use crate::adapter::run;
use crate::adapter::HandlerError;
use crate::adapter::Outcome;
use crate::adapter::ResponseOutparam;
use crate::adapter::Sent;
use crate::body::RawJson;
use crate::body::JSON_TYPE;
use crate::headers::HeaderEntry;
use crate::json::json_quoted;
use crate::json::json_valid;
use crate::json::json_text_member;
use crate::json::quote;
use crate::json::text_member;
use crate::message::Request;
use crate::message::Response;
use crate::message::ResponseParts;
use crate::settings::settings_outcome;
use crate::settings::ConfigError;
use crate::settings::Settings;
use crate::settings::SETTINGS_HEADER;

verus! {

/// Reported when the configuration gives no webhook to call.
pub const MISSING_SETTINGS: &'static str =
    "Failed to parse component settings, missing Slack webhook URL";

/// Reported when the request body is no JSON document.
pub const INVALID_JSON: &'static str = "Invalid JSON in request body";

/// Reported when the request body has no `message` string.
pub const MISSING_MESSAGE: &'static str = "Missing 'message' field in request body";

/// The member of the request body that holds the text to relay.
pub const MESSAGE_KEY: &'static str = "message";

/// The body answered when the webhook accepted the message.
pub const DELIVERED: &'static str = "{\"ok\":true}";

/// The body answered when the webhook answered with another status.
pub const NOT_DELIVERED: &'static str = "{\"ok\":false}";

/// The JSON payload that posts `text` to the webhook.
pub open spec fn payload_text(text: Seq<char>) -> Seq<char> {
    "{\"text\":"@ + json_quoted(text) + "}"@
}

/// A simple text message for the webhook.
#[derive(Debug)]
pub struct SlackMessagePayload {
    pub text: String,
}

impl SlackMessagePayload {
    pub fn new(text: String) -> (r: SlackMessagePayload)
        ensures
            r.text == text,
    {
        SlackMessagePayload { text }
    }

    /// The payload as JSON text.
    pub fn to_json(&self) -> (r: String)
        ensures
            r@ == payload_text(self.text@),
    {
        let quoted = quote(self.text.as_str());
        String::from_str("{\"text\":").concat(quoted.as_str()).concat("}")
    }
}

/// What the request body says to relay.
#[derive(Debug)]
pub enum BodyMessage {
    /// The body is no JSON document.
    NotJson,
    /// The body has no `message` member that holds a string.
    Missing,
    /// The text of the `message` member.
    Text(String),
}

/// What a request body says to relay: no JSON document, no `message`
/// string, or the text of that string.
pub open spec fn message_of(body: Seq<u8>, m: BodyMessage) -> bool {
    if !json_valid(body) {
        m is NotJson
    } else {
        match json_text_member(body, MESSAGE_KEY@) {
            None => m is Missing,
            Some(t) => m matches BodyMessage::Text(x) && x@ == t,
        }
    }
}

/// Reads the `message` string out of a JSON request body.
pub fn read_message(body: &[u8]) -> (r: BodyMessage)
    ensures
        message_of(body@, r),
{
    match text_member(body, MESSAGE_KEY) {
        Err(()) => BodyMessage::NotJson,
        Ok(Some(t)) => BodyMessage::Text(t),
        Ok(None) => BodyMessage::Missing,
    }
}

/// The POST that relays a message.
#[derive(Debug)]
pub struct OutboundPost {
    /// Where to send it.
    pub url: String,
    /// The media type of the payload.
    pub content_type: String,
    /// The JSON payload.
    pub body: Vec<u8>,
}

/// `r` is what the relay does with the configuration `settings` and the
/// request's `message`: a missing or empty webhook address is a server-side
/// failure (500); a body that is no JSON or has no message string is the
/// client's (400); otherwise the message is posted to the webhook as JSON.
pub open spec fn plan_outcome(
    settings: Result<Settings, ConfigError>,
    message: BodyMessage,
    r: Result<OutboundPost, HandlerError>,
) -> bool {
    match settings {
        Ok(s) if s.webhook_url@.len() > 0 => match message {
            BodyMessage::NotJson => r matches Err(e) && e.status == 400 && e.message@
                == INVALID_JSON@,
            BodyMessage::Missing => r matches Err(e) && e.status == 400 && e.message@
                == MISSING_MESSAGE@,
            BodyMessage::Text(t) => r matches Ok(p) && p.url@ == s.webhook_url@ && p.content_type@
                == JSON_TYPE@ && p.body@ == encode_utf8(payload_text(t@)),
        },
        _ => r matches Err(e) && e.status == 500 && e.message@ == MISSING_SETTINGS@,
    }
}

fn failure(status: u16, message: &str) -> (r: HandlerError)
    ensures
        r.status == status,
        r.message@ == message@,
{
    HandlerError { status, message: String::from_str(message) }
}

/// Decides what to post from the configuration and the request's message.
pub fn plan_from(settings: Result<Settings, ConfigError>, message: BodyMessage) -> (r: Result<
    OutboundPost,
    HandlerError,
>)
    ensures
        plan_outcome(settings, message, r),
{
    let url = match settings {
        Ok(s) => s.webhook_url,
        Err(_) => return Err(failure(500, MISSING_SETTINGS)),
    };
    if url.as_str().unicode_len() == 0 {
        return Err(failure(500, MISSING_SETTINGS));
    }
    match message {
        BodyMessage::NotJson => Err(failure(400, INVALID_JSON)),
        BodyMessage::Missing => Err(failure(400, MISSING_MESSAGE)),
        BodyMessage::Text(t) => {
            let payload = SlackMessagePayload::new(t);
            let body = payload.to_json().as_str().as_bytes_vec();
            Ok(OutboundPost { url, content_type: String::from_str(JSON_TYPE), body })
        },
    }
}

/// Decides what to post for a request: its settings header and its body.
pub fn plan_relay(req: &Request<Vec<u8>>) -> (r: Result<OutboundPost, HandlerError>)
    requires
        req.parts.headers.wf(),
    ensures
        plan_relay_spec(*req, r),
{
    let settings = Settings::new(&req.parts.headers);
    let message = read_message(req.body.as_slice());
    let ghost gs = settings;
    let ghost gm = message;
    let r = plan_from(settings, message);
    assert(plan_outcome(gs, gm, r));
    r
}

/// The status and body answered for what the webhook did: its status with
/// `{"ok":true}` when it answered 200, `{"ok":false}` otherwise; a failed
/// call is a server-side failure that carries the transport's cause.
pub open spec fn reply_outcome(
    outcome: Result<u16, String>,
    r: Result<Response<RawJson<Vec<u8>>>, HandlerError>,
) -> bool {
    match outcome {
        Err(cause) => r matches Err(e) && e.status == 500 && e.message@ == cause@,
        Ok(code) => r matches Ok(resp) && resp.parts.status == code && resp.parts.headers.wf()
            && resp.parts.headers@ == Seq::<HeaderEntry>::empty() && resp.body.0@ == encode_utf8(
            if code == 200 {
                DELIVERED@
            } else {
                NOT_DELIVERED@
            },
        ),
    }
}

/// Turns what the webhook did into the handler's answer.
pub fn relay_reply(outcome: Result<u16, String>) -> (r: Result<
    Response<RawJson<Vec<u8>>>,
    HandlerError,
>)
    ensures
        reply_outcome(outcome, r),
{
    match outcome {
        Err(cause) => Err(HandlerError { status: 500, message: cause }),
        Ok(code) => {
            let mut parts = ResponseParts::new();
            parts.status = code;
            let text = if code == 200 {
                DELIVERED
            } else {
                NOT_DELIVERED
            };
            Ok(Response { parts, body: RawJson(text.as_bytes_vec()) })
        },
    }
}

/// The relay handler: checks the configuration, reads the message, has
/// `client` post it to the webhook, and reports what the webhook did.
pub fn relay<C>(req: Request<Vec<u8>>, client: C) -> (r: Result<
    Response<RawJson<Vec<u8>>>,
    HandlerError,
>) where C: FnOnce(OutboundPost) -> Result<u16, String>
    requires
        req.parts.headers.wf(),
        forall|p: OutboundPost| #[trigger] client.requires((p,)),
    ensures
        relay_answer(req, client, r),
{
    let plan = plan_relay(&req);
    let ghost g_plan = plan;
    match plan {
        Err(e) => {
            assert(plan_relay_spec(req, g_plan));
            Err(e)
        },
        Ok(p) => {
            let ghost gp = p;
            let outcome = client(p);
            assert(client.ensures((gp,), outcome));
            assert(plan_relay_spec(req, g_plan));
            relay_reply(outcome)
        },
    }
}

/// What the relay handler answers for `req` when `client` makes the POST:
/// the failure that the plan reports, or the reply for what the call gave.
pub open spec fn relay_answer<C: FnOnce(OutboundPost) -> Result<u16, String>>(
    req: Request<Vec<u8>>,
    client: C,
    r: Result<Response<RawJson<Vec<u8>>>, HandlerError>,
) -> bool {
    exists|plan: Result<OutboundPost, HandlerError>|
        {
            &&& #[trigger] plan_relay_spec(req, plan)
            &&& match plan {
                Err(e) => r == Err::<Response<RawJson<Vec<u8>>>, HandlerError>(e),
                Ok(p) => exists|outcome: Result<u16, String>|
                    #[trigger] client.ensures((p,), outcome) && reply_outcome(outcome, r),
            }
        }
}

/// What `plan_relay` may decide for `req`.
pub open spec fn plan_relay_spec(req: Request<Vec<u8>>, plan: Result<OutboundPost, HandlerError>) -> bool {
    exists|settings: Result<Settings, ConfigError>, message: BodyMessage|
        settings_outcome(req.parts.headers.lookup(SETTINGS_HEADER@), settings) && message_of(
            req.body@,
            message,
        ) && #[trigger] plan_outcome(settings, message, plan)
}

/// Answers one request with the relay handler behind the adapter: exactly
/// one response, which reports either what the webhook did or why nothing
/// was posted.
pub fn handle<C>(req: Request<Vec<u8>>, out: ResponseOutparam, client: C) -> (sent: Sent) where
    C: FnOnce(OutboundPost) -> Result<u16, String>,

    requires
        req.parts.headers.wf(),
        forall|p: OutboundPost| #[trigger] client.requires((p,)),
    ensures
        exists|res: Result<Response<RawJson<Vec<u8>>>, HandlerError>|
            #[trigger] relay_answer(req, client, res) && is_reply::<RawJson<Vec<u8>>>(
                res,
                sent.delivered(),
            ),
{
    let ghost g_req = req;
    let ghost g_client = client;
    let handler = move|r: Request<Vec<u8>>| -> (res: Result<Response<RawJson<Vec<u8>>>, HandlerError>)
        requires
            r.parts.headers.wf(),
        ensures
            res is Ok ==> res->Ok_0.parts.headers.wf(),
            relay_answer(r, client, res),
        { relay(r, client) };
    let sent = run::<Vec<u8>, RawJson<Vec<u8>>, _>(req, out, handler);
    proof {
        let (input, res) = choose|input: Vec<u8>, res: Result<Response<RawJson<Vec<u8>>>, HandlerError>|
            input@ == g_req.body@ && #[trigger] handler.ensures(
                (Request { parts: g_req.parts, body: input },),
                res,
            ) && is_reply::<RawJson<Vec<u8>>>(res, sent.delivered());
        let req2 = Request { parts: g_req.parts, body: input };
        assert(relay_answer(req2, g_client, res));
        let plan = choose|plan: Result<OutboundPost, HandlerError>|
            {
                &&& #[trigger] plan_relay_spec(req2, plan)
                &&& match plan {
                    Err(e) => res == Err::<Response<RawJson<Vec<u8>>>, HandlerError>(e),
                    Ok(p) => exists|outcome: Result<u16, String>|
                        #[trigger] g_client.ensures((p,), outcome) && reply_outcome(outcome, res),
                }
            };
        let (st, m) = choose|st: Result<Settings, ConfigError>, m: BodyMessage|
            settings_outcome(req2.parts.headers.lookup(SETTINGS_HEADER@), st) && message_of(
                req2.body@,
                m,
            ) && #[trigger] plan_outcome(st, m, plan);
        assert(plan_outcome(st, m, plan));
        assert(plan_relay_spec(g_req, plan));
        assert(relay_answer(g_req, g_client, res));
    }
    sent
}


/// With a usable configuration, a body that has no `message` string is
/// answered with one 400 JSON error that says the field is missing, and no
/// POST is planned.
pub proof fn lemma_missing_message_answer(
    s: Settings,
    plan: Result<OutboundPost, HandlerError>,
    sent: Outcome,
)
    requires
        s.webhook_url@.len() > 0,
        plan_outcome(Ok(s), BodyMessage::Missing, plan),
        is_reply::<RawJson<Vec<u8>>>(
            Err::<Response<RawJson<Vec<u8>>>, HandlerError>(plan->Err_0),
            sent,
        ),
    ensures
        plan is Err,
        sent matches Outcome::Response(r) && is_error_response(r, false, 400, MISSING_MESSAGE@),
{
}

} // verus!
