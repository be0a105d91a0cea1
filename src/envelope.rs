//! The uniform response body `{ "status": ..., "message": ..., "data": ... }`.
use vstd::prelude::*;

verus! {

/// HTTP status code for a request whose input failed validation.
pub const BAD_REQUEST: u16 = 400;

/// HTTP status code for a request without valid credentials.
pub const UNAUTHORIZED: u16 = 401;

/// HTTP status code for a missing route or record.
pub const NOT_FOUND: u16 = 404;

/// HTTP status code for a known path called with the wrong method.
pub const METHOD_NOT_ALLOWED: u16 = 405;

/// HTTP status code for any failure the service did not anticipate.
pub const INTERNAL_SERVER_ERROR: u16 = 500;

/// The envelope's discriminator, distinct from the HTTP status code.
#[derive(Clone, Copy, Debug, PartialEq, Eq, Structural)]
pub enum Status {
    Success,
    Error,
}

impl Status {
    pub open spec fn spec_as_str(self) -> Seq<char> {
        match self {
            Status::Success => "success"@,
            Status::Error => "error"@,
        }
    }

    /// The wire name of the discriminator.
    pub fn as_str(&self) -> (r: &'static str)
        ensures
            r@ == self.spec_as_str(),
    {
        match self {
            Status::Success => "success",
            Status::Error => "error",
        }
    }
}

/// The lower-case hexadecimal digit of `n`, for `n < 16`.
pub open spec fn hex_digit(n: int) -> char {
    seq!['0', '1', '2', '3', '4', '5', '6', '7', '8', '9', 'a', 'b', 'c', 'd', 'e', 'f'][n]
}

/// Whether `c` stands for itself inside a JSON string.
pub open spec fn is_plain_char(c: char) -> bool {
    c != '"' && c != '\\' && (c as int) >= 0x20
}

/// How one character is written inside a JSON string: the quote and the
/// backslash escaped, the control characters with a short escape where JSON has
/// one and as `\u00xx` otherwise, every other character as itself.
pub open spec fn escaped_char(c: char) -> Seq<char> {
    if c == '"' {
        seq!['\\', '"']
    } else if c == '\\' {
        seq!['\\', '\\']
    } else if c == '\u{8}' {
        seq!['\\', 'b']
    } else if c == '\t' {
        seq!['\\', 't']
    } else if c == '\n' {
        seq!['\\', 'n']
    } else if c == '\u{c}' {
        seq!['\\', 'f']
    } else if c == '\r' {
        seq!['\\', 'r']
    } else if (c as int) < 0x20 {
        seq!['\\', 'u', '0', '0', hex_digit(c as int / 16), hex_digit(c as int % 16)]
    } else {
        seq![c]
    }
}

/// The characters of `s`, each written as inside a JSON string.
pub open spec fn escaped_text(s: Seq<char>) -> Seq<char>
    decreases s.len(),
{
    if s.len() == 0 {
        Seq::empty()
    } else {
        escaped_text(s.drop_last()) + escaped_char(s.last())
    }
}

/// The compact JSON text of the string `s`: in quotes, with its characters escaped.
pub open spec fn json_string_text(s: Seq<char>) -> Seq<char> {
    seq!['"'] + escaped_text(s) + seq!['"']
}

/// Text without quotes, backslashes or control characters is written unchanged.
pub proof fn lemma_plain_text_unescaped(s: Seq<char>)
    requires
        forall|i: int| 0 <= i < s.len() ==> is_plain_char(#[trigger] s[i]),
    ensures
        escaped_text(s) == s,
    decreases s.len(),
{
    if s.len() > 0 {
        let p = s.drop_last();
        assert forall|i: int| 0 <= i < p.len() implies is_plain_char(#[trigger] p[i]) by {
            assert(p[i] == s[i]);
        }
        lemma_plain_text_unescaped(p);
        assert(s == p + seq![s.last()]);
    }
}

/// Relies on serde_json's `Display` for `Value::String`, which writes the
/// compact JSON text of a string through `format_escaped_str` and its escape table.
#[verifier::external_body]
fn json_string(s: &str) -> (r: String)
    ensures
        r@ == json_string_text(s@),
{
    serde_json::Value::String(s.to_string()).to_string()
}

/// What an envelope holds: `data` is the payload's JSON text, if any.
pub struct EnvelopeView {
    pub status: Status,
    pub message: Seq<char>,
    pub data: Option<Seq<char>>,
}

/// The serialized body of an envelope, fields in the order status, message, data;
/// an absent payload is written `null`.
pub open spec fn envelope_text(v: EnvelopeView) -> Seq<char> {
    "{\"status\":\""@ + v.status.spec_as_str() + "\",\"message\":"@ + json_string_text(v.message)
        + ",\"data\":"@ + match v.data {
        Some(d) => d,
        None => "null"@,
    } + "}"@
}

/// Renders an envelope from its parts; `data` is the payload already encoded as JSON.
pub fn render_envelope(status: Status, message: &str, data: Option<&str>) -> (r: String)
    ensures
        r@ == envelope_text(
            EnvelopeView {
                status,
                message: message@,
                data: match data {
                    Some(d) => Some(d@),
                    None => None,
                },
            },
        ),
{
    let mut out = String::from_str("{\"status\":\"");
    out.append(status.as_str());
    out.append("\",\"message\":");
    let quoted = json_string(message);
    out.append(quoted.as_str());
    out.append(",\"data\":");
    match data {
        Some(d) => out.append(d),
        None => out.append("null"),
    }
    out.append("}");
    out
}

/// The response wrapper used for every response, success or error.
#[derive(Clone, Debug)]
pub struct ResponseEnvelope {
    pub status: Status,
    pub message: String,
    /// The payload, already encoded as JSON text.
    pub data: Option<String>,
}

impl View for ResponseEnvelope {
    type V = EnvelopeView;

    open spec fn view(&self) -> EnvelopeView {
        EnvelopeView {
            status: self.status,
            message: self.message@,
            data: match self.data {
                Some(d) => Some(d@),
                None => None,
            },
        }
    }
}

impl ResponseEnvelope {
    /// An error envelope: no payload.
    pub fn error(message: String) -> (r: ResponseEnvelope)
        ensures
            r@ == (EnvelopeView { status: Status::Error, message: message@, data: None }),
    {
        ResponseEnvelope { status: Status::Error, message, data: None }
    }

    /// The serialized body of this envelope.
    pub fn render(&self) -> (r: String)
        ensures
            r@ == envelope_text(self@),
    {
        match &self.data {
            Some(d) => render_envelope(self.status, self.message.as_str(), Some(d.as_str())),
            None => render_envelope(self.status, self.message.as_str(), None),
        }
    }
}

/// A terminal HTTP response: a status code and its JSON body.
#[derive(Clone, Debug)]
pub struct HttpReply {
    pub status_code: u16,
    pub body: String,
}

/// Pairs a status code with the error envelope carrying `message`.
pub fn error_reply(status_code: u16, message: &str) -> (r: HttpReply)
    ensures
        r.status_code == status_code,
        r.body@ == envelope_text(EnvelopeView { status: Status::Error, message: message@, data: None }),
{
    HttpReply { status_code, body: render_envelope(Status::Error, message, None) }
}

} // verus!
