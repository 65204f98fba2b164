use vstd::prelude::*;
use crate::decimal::{decimal, digit_char, push_decimal};

verus! {

/// A generation response: the candidate outputs.
#[derive(Default, Debug, Clone, PartialEq)]
pub struct GenResponse {
    pub candidates: Vec<Candidate>,
}

/// One candidate output with its safety ratings.
#[derive(Default, Debug, Clone, PartialEq)]
pub struct Candidate {
    pub output: String,
    pub safety_ratings: Vec<SafetyRating>,
}

/// A safety rating of a candidate.
#[derive(Default, Debug, Clone, PartialEq)]
pub struct SafetyRating {
    pub category: String,
    pub probability: String,
}

/// Generation parameters sent with every prompt.
#[derive(Clone, Copy, Debug, PartialEq, Eq, Structural)]
pub struct GenParams {
    pub temperature: usize,
    pub n_predict: usize,
}

pub const DEFAULT_TEMPERATURE: usize = 0;

pub const DEFAULT_N_PREDICT: usize = 250;

impl GenParams {
    /// Temperature 0 and 250 predicted tokens.
    pub fn default_params() -> (r: GenParams)
        ensures
            r.temperature == DEFAULT_TEMPERATURE,
            r.n_predict == DEFAULT_N_PREDICT,
    {
        GenParams { temperature: DEFAULT_TEMPERATURE, n_predict: DEFAULT_N_PREDICT }
    }
}

/// Lower-case hexadecimal digit `d` (0 to 15).
pub open spec fn hex_digit(d: nat) -> char {
    if d < 10 {
        digit_char(d)
    } else if d == 10 {
        'a'
    } else if d == 11 {
        'b'
    } else if d == 12 {
        'c'
    } else if d == 13 {
        'd'
    } else if d == 14 {
        'e'
    } else {
        'f'
    }
}

/// How one character stands inside a compact JSON string: quote and
/// backslash are escaped, backspace, tab, newline, form feed and carriage
/// return get their short escapes, other control characters below 0x20 are
/// written `\u00XX`, and everything else stands as it is.
pub open spec fn json_escape_char(c: char) -> Seq<char> {
    if c == '"' {
        seq!['\\', '"']
    } else if c == '\\' {
        seq!['\\', '\\']
    } else if c == '\x08' {
        seq!['\\', 'b']
    } else if c == '\t' {
        seq!['\\', 't']
    } else if c == '\n' {
        seq!['\\', 'n']
    } else if c == '\x0c' {
        seq!['\\', 'f']
    } else if c == '\r' {
        seq!['\\', 'r']
    } else if (c as int) < 0x20 {
        seq!['\\', 'u', '0', '0', hex_digit((c as int / 16) as nat), hex_digit((c as int % 16) as nat)]
    } else {
        seq![c]
    }
}

/// The escaped contents of a JSON string, character by character.
pub open spec fn json_escaped(s: Seq<char>) -> Seq<char>
    decreases s.len(),
{
    if s.len() == 0 {
        Seq::<char>::empty()
    } else {
        json_escaped(s.drop_last()) + json_escape_char(s.last())
    }
}

/// The compact JSON string literal for a text: its escaped contents in quotes.
pub open spec fn json_string_of(s: Seq<char>) -> Seq<char> {
    seq!['"'] + json_escaped(s) + seq!['"']
}

/// Relies on serde_json's `Value::String` and its compact `Display`, which
/// writes the text between quotes through serde_json's escape table.
#[verifier::external_body]
fn json_quote(s: &str) -> (r: String)
    ensures
        r@ == json_string_of(s@),
{
    serde_json::Value::String(s.to_string()).to_string()
}

/// The request body for a completion: a JSON object with the fields in
/// key order, `{"n_predict":N,"prompt":"...","temperature":T}`.
pub open spec fn completion_body_of(prompt: Seq<char>, temperature: nat, n_predict: nat) -> Seq<
    char,
> {
    "{\"n_predict\":"@ + decimal(n_predict) + ",\"prompt\":"@ + json_string_of(prompt)
        + ",\"temperature\":"@ + decimal(temperature) + "}"@
}

/// Builds the completion request body for a prompt.
pub fn completion_body(prompt: &str, params: GenParams) -> (r: String)
    ensures
        r@ == completion_body_of(prompt@, params.temperature as nat, params.n_predict as nat),
{
    let mut body = String::from_str("{\"n_predict\":");
    push_decimal(&mut body, params.n_predict as u64);
    body.append(",\"prompt\":");
    let quoted = json_quote(prompt);
    body.append(quoted.as_str());
    body.append(",\"temperature\":");
    push_decimal(&mut body, params.temperature as u64);
    body.append("}");
    assert(body@ =~= completion_body_of(prompt@, params.temperature as nat, params.n_predict as nat));
    body
}

/// Where the completion service listens unless told otherwise.
pub const API_URL: &'static str = "http://localhost:8080";

/// The path of the completion endpoint.
pub const COMPLETION_ENDPOINT: &'static str = "completion";

/// Addresses of the completion service.
#[derive(Debug)]
pub struct APIRequestClient {
    api_url: String,
}

impl APIRequestClient {
    pub closed spec fn base_url(&self) -> Seq<char> {
        self.api_url@
    }

    /// A client for the service at `API_URL`.
    pub fn new() -> (r: APIRequestClient)
        ensures
            r.base_url() == API_URL@,
    {
        APIRequestClient { api_url: String::from_str(API_URL) }
    }

    /// A client for the service at `url`.
    pub fn with_base_url(url: &str) -> (r: APIRequestClient)
        ensures
            r.base_url() == url@,
    {
        APIRequestClient { api_url: String::from_str(url) }
    }

    /// `<base url>/<endpoint>`.
    pub fn endpoint_url(&self, endpoint: &str) -> (r: String)
        ensures
            r@ == self.base_url() + "/"@ + endpoint@,
    {
        let mut url = self.api_url.clone();
        url.append("/");
        url.append(endpoint);
        url
    }

    /// The address and JSON body of the completion request for a prompt.
    pub fn completion_request(&self, text: &str, params: GenParams) -> (r: (String, String))
        ensures
            r.0@ == self.base_url() + "/"@ + COMPLETION_ENDPOINT@,
            r.1@ == completion_body_of(text@, params.temperature as nat, params.n_predict as nat),
    {
        (self.completion_url(), completion_body(text, params))
    }

    /// The address that completion requests are posted to.
    pub fn completion_url(&self) -> (r: String)
        ensures
            r@ == self.base_url() + "/"@ + COMPLETION_ENDPOINT@,
    {
        self.endpoint_url(COMPLETION_ENDPOINT)
    }
}

} // verus!
