use vstd::prelude::*;
use vstd::string::StringExecFns;

use crate::headers::field_texts;
use crate::headers::grouped;
use crate::headers::parse_headers;
use crate::headers::HeaderMap;
use crate::json::json_string_map;
use crate::json::pair_texts;
use crate::json::parse_string_map;
use crate::text::decimal;
use crate::text::decimal_text;

verus! {

/// The request header that carries the component's configuration.
pub const SETTINGS_HEADER: &'static str = "x-edgee-component-settings";

/// The key of the configuration object that holds the webhook's address.
pub const WEBHOOK_URL_KEY: &'static str = "webhook_url";

/// Why the configuration could not be read from the request.
#[derive(Debug)]
pub enum ConfigError {
    /// The settings header is absent.
    Missing,
    /// The settings header came `count` times; exactly one is expected.
    Duplicate { count: usize },
    /// The header's value is no JSON object of strings.
    Malformed { detail: String },
}

impl ConfigError {
    pub open spec fn text(&self) -> Seq<char> {
        match self {
            ConfigError::Missing => "Missing 'x-edgee-component-settings' header"@,
            ConfigError::Duplicate { count } => "Expected exactly one 'x-edgee-component-settings' header, found "@
                + decimal(*count as nat),
            ConfigError::Malformed { detail } => "Malformed 'x-edgee-component-settings' header: "@
                + detail@,
        }
    }

    /// A sentence that says what went wrong.
    pub fn to_string(&self) -> (r: String)
        ensures
            r@ == self.text(),
    {
        match self {
            ConfigError::Missing => String::from_str("Missing 'x-edgee-component-settings' header"),
            ConfigError::Duplicate { count } => {
                let head = String::from_str(
                    "Expected exactly one 'x-edgee-component-settings' header, found ",
                );
                let n = decimal_text(*count);
                head.concat(n.as_str())
            },
            ConfigError::Malformed { detail } => {
                let head = String::from_str("Malformed 'x-edgee-component-settings' header: ");
                head.concat(detail.as_str())
            },
        }
    }
}

/// The component's configuration.
#[derive(Debug)]
pub struct Settings {
    pub webhook_url: String,
}

/// The value stored under `key` in a list of members; the last one wins.
pub open spec fn member_value(pairs: Seq<(Seq<char>, Seq<char>)>, key: Seq<char>) -> Option<
    Seq<char>,
>
    decreases pairs.len(),
{
    if pairs.len() == 0 {
        None
    } else if pairs.last().0 == key {
        Some(pairs.last().1)
    } else {
        member_value(pairs.drop_last(), key)
    }
}

/// The webhook address that a configuration object gives: empty when the
/// object has no `webhook_url` member.
pub open spec fn webhook_of(pairs: Seq<(Seq<char>, Seq<char>)>) -> Seq<char> {
    match member_value(pairs, WEBHOOK_URL_KEY@) {
        Some(u) => u,
        None => Seq::<char>::empty(),
    }
}

/// What the settings header's values (`None`: the header is absent) make of
/// the configuration.
pub open spec fn settings_outcome(values: Option<Seq<Seq<char>>>, r: Result<Settings, ConfigError>) -> bool {
    match values {
        None => r matches Err(ConfigError::Missing),
        Some(vs) => if vs.len() != 1 {
            r matches Err(ConfigError::Duplicate { count }) && count == vs.len()
        } else {
            match json_string_map(vs[0]) {
                None => r matches Err(ConfigError::Malformed { .. }),
                Some(pairs) => r matches Ok(s) && s.webhook_url@ == webhook_of(pairs),
            }
        },
    }
}

impl Settings {
    /// Builds the configuration from the value of the settings header: a
    /// JSON object whose `webhook_url` member holds the address.
    pub fn from_members(members: &Vec<(String, String)>) -> (r: Settings)
        ensures
            r.webhook_url@ == webhook_of(pair_texts(members@)),
    {
        let ghost all = pair_texts(members@);
        let key = String::from_str(WEBHOOK_URL_KEY);
        let mut found: Option<usize> = None;
        let mut i: usize = 0;
        while i < members.len()
            invariant
                i <= members@.len(),
                all == pair_texts(members@),
                key@ == WEBHOOK_URL_KEY@,
                match found {
                    Some(k) => k < i && member_value(all.take(i as int), WEBHOOK_URL_KEY@) == Some(
                        all[k as int].1,
                    ),
                    None => member_value(all.take(i as int), WEBHOOK_URL_KEY@) is None,
                },
            decreases members@.len() - i,
        {
            assert(all.take(i as int + 1).drop_last() =~= all.take(i as int));
            if members[i].0 == key {
                found = Some(i);
            }
            i += 1;
        }
        assert(all.take(members@.len() as int) =~= all);
        match found {
            Some(k) => Settings { webhook_url: members[k].1.clone() },
            None => Settings { webhook_url: String::new() },
        }
    }

    /// Reads the configuration from the request headers: the settings header
    /// must come exactly once and hold a JSON object of strings. A missing
    /// `webhook_url` member gives an empty address.
    pub fn new(headers: &HeaderMap) -> (r: Result<Settings, ConfigError>)
        requires
            headers.wf(),
        ensures
            settings_outcome(headers.lookup(SETTINGS_HEADER@), r),
    {
        let values = match headers.get(SETTINGS_HEADER) {
            Some(v) => v,
            None => return Err(ConfigError::Missing),
        };
        if values.len() != 1 {
            return Err(ConfigError::Duplicate { count: values.len() });
        }
        match parse_string_map(values[0].as_str()) {
            Ok(members) => Ok(Settings::from_members(&members)),
            Err(detail) => Err(ConfigError::Malformed { detail }),
        }
    }

    /// Reads the configuration from the request's raw header fields.
    pub fn from_req(fields: &Vec<(String, Vec<u8>)>) -> (r: Result<Settings, ConfigError>)
        ensures
            settings_outcome(grouped(field_texts(fields@), SETTINGS_HEADER@), r),
    {
        let headers = parse_headers(fields);
        Settings::new(&headers)
    }
}

/// A settings header that comes once and holds a JSON object whose
/// `webhook_url` member is `url` gives settings with exactly that address.
pub proof fn lemma_settings_take_url(
    vs: Seq<Seq<char>>,
    pairs: Seq<(Seq<char>, Seq<char>)>,
    url: Seq<char>,
    r: Result<Settings, ConfigError>,
)
    requires
        vs.len() == 1,
        json_string_map(vs[0]) == Some(pairs),
        member_value(pairs, WEBHOOK_URL_KEY@) == Some(url),
        settings_outcome(Some(vs), r),
    ensures
        r matches Ok(s) && s.webhook_url@ == url,
{
}

/// Without the settings header the outcome is always `ConfigError::Missing`.
pub proof fn lemma_missing_header(r: Result<Settings, ConfigError>)
    requires
        settings_outcome(None, r),
    ensures
        r matches Err(ConfigError::Missing),
        r->Err_0.text() == "Missing 'x-edgee-component-settings' header"@,
{
}

/// A settings header that comes more than once is refused, and the message
/// gives how many times it came.
pub proof fn lemma_repeated_header(vs: Seq<Seq<char>>, r: Result<Settings, ConfigError>)
    requires
        vs.len() >= 2,
        settings_outcome(Some(vs), r),
    ensures
        r matches Err(ConfigError::Duplicate { count }) && count == vs.len(),
        r->Err_0.text() == "Expected exactly one 'x-edgee-component-settings' header, found "@
            + decimal(vs.len()),
{
}

} // verus!
