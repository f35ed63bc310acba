//! Activation of the agent from the tray app. The tray app launches nothing: on
//! activation it writes the credentials into the shared data folder, and the service,
//! which watches that file, (re)starts the agent.
use vstd::prelude::*;

use crate::service::data_dir_text;

verus! {

pub const ACTIVATION_URL: &'static str =
    "https://uqa4ti7fwi.execute-api.us-east-1.amazonaws.com/prod/agents/activate";

/// Whether the agent has been activated, and under which name.
#[derive(Debug, Clone)]
pub struct ActivationStatus {
    pub activated: bool,
    pub agent_name: Option<String>,
}

/// What activation hands back, and what `credentials.json` holds.
#[derive(Debug, Clone)]
pub struct AgentCredentials {
    pub agent_id: String,
    pub name: String,
    pub api_key: String,
}

/// The folder shared with the service (LocalSystem); the installer lets the users
/// modify it, so this app, which runs without privileges, can write the credentials.
pub fn data_dir() -> (p: String)
    ensures
        p@ == data_dir_text(),
{
    String::from_str("C:\\ProgramData\\InnoApp Agent")
}

pub fn credentials_path() -> (p: String)
    ensures
        p@ == data_dir_text() + "\\credentials.json"@,
{
    let mut p = data_dir();
    p.append("\\credentials.json");
    p
}

/// The activation status that stored credentials (or none) amount to.
pub fn activation_status(credentials: Option<AgentCredentials>) -> (s: ActivationStatus)
    ensures
        s.activated == credentials is Some,
        s.agent_name == (match credentials {
            Some(c) => Some(c.name),
            None => None,
        }),
{
    match credentials {
        Some(c) => ActivationStatus { activated: true, agent_name: Some(c.name) },
        None => ActivationStatus { activated: false, agent_name: None },
    }
}

/// Unicode `White_Space` (PropList.txt): the characters that `char::is_whitespace`
/// accepts and `str::trim` removes.
pub open spec fn is_white_space(c: char) -> bool {
    let v = c as u32;
    ||| 0x9 <= v <= 0xd
    ||| v == 0x20
    ||| v == 0x85
    ||| v == 0xa0
    ||| v == 0x1680
    ||| 0x2000 <= v <= 0x200a
    ||| v == 0x2028
    ||| v == 0x2029
    ||| v == 0x202f
    ||| v == 0x205f
    ||| v == 0x3000
}

pub open spec fn without_leading_white_space(text: Seq<char>) -> Seq<char>
    decreases text.len(),
{
    if text.len() > 0 && is_white_space(text[0]) {
        without_leading_white_space(text.drop_first())
    } else {
        text
    }
}

pub open spec fn without_trailing_white_space(text: Seq<char>) -> Seq<char>
    decreases text.len(),
{
    if text.len() > 0 && is_white_space(text.last()) {
        without_trailing_white_space(text.drop_last())
    } else {
        text
    }
}

/// What `str::trim` gives: the text without its leading and trailing white space.
pub open spec fn trimmed(text: Seq<char>) -> Seq<char> {
    without_trailing_white_space(without_leading_white_space(text))
}

/// What `str::to_uppercase` gives: the text with every character mapped to its
/// Unicode upper case.
pub uninterp spec fn uppercased(text: Seq<char>) -> Seq<char>;

/// The text of the member `key` of the JSON document `text`: what
/// `serde_json::from_str::<serde_json::Value>` followed by `Value::get(key)` and
/// `Value::as_str` gives. `None` where the text is not JSON, is not an object, has no
/// such member, or the member is not a string. It depends on the two texts alone.
pub uninterp spec fn json_string_member(text: Seq<char>, key: Seq<char>) -> Option<Seq<char>>;

fn is_white_space_char(c: char) -> (w: bool)
    ensures
        w == is_white_space(c),
{
    let v = c as u32;
    (0x9 <= v && v <= 0xd) || v == 0x20 || v == 0x85 || v == 0xa0 || v == 0x1680 || (0x2000
        <= v && v <= 0x200a) || v == 0x2028 || v == 0x2029 || v == 0x202f || v == 0x205f || v
        == 0x3000
}

/// The text without its leading and trailing Unicode white space, as `str::trim`
/// gives it.
pub fn trim_text(s: &str) -> (r: &str)
    ensures
        r@ == trimmed(s@),
{
    let len = s.unicode_len();
    let mut i: usize = 0;
    assert(s@.skip(0) =~= s@);
    while i < len && is_white_space_char(s.get_char(i))
        invariant
            len == s@.len(),
            i <= len,
            without_leading_white_space(s@) == without_leading_white_space(s@.skip(i as int)),
        decreases len - i,
    {
        assert(s@.skip(i as int).drop_first() =~= s@.skip(i + 1));
        i = i + 1;
    }
    let ghost rest = s@.skip(i as int);
    assert(rest =~= s@.subrange(i as int, len as int));
    let mut j: usize = len;
    while j > i && is_white_space_char(s.get_char(j - 1))
        invariant
            len == s@.len(),
            i <= j <= len,
            rest == s@.subrange(i as int, len as int),
            without_trailing_white_space(rest) == without_trailing_white_space(
                s@.subrange(i as int, j as int),
            ),
        decreases j - i,
    {
        assert(s@.subrange(i as int, j as int).drop_last() =~= s@.subrange(i as int, j - 1));
        j = j - 1;
    }
    s.substring_char(i, j)
}

/// Wraps `str::to_uppercase`: the result is `uppercased` of the text. The Unicode
/// case mapping itself is left unsaid.
#[verifier::external_body]
fn uppercase_text(s: &str) -> (r: String)
    ensures
        r@ == uppercased(s@),
{
    s.to_uppercase()
}

/// The two fields of an activation request: the code, trimmed and in upper case, and
/// the name, trimmed.
pub fn activation_request(code: &str, name: &str) -> (r: (String, String))
    ensures
        r.0@ == uppercased(trimmed(code@)),
        r.1@ == trimmed(name@),
{
    let code = uppercase_text(trim_text(code));
    let name = trim_text(name).to_owned();
    (code, name)
}

/// Wraps the reading of a string member out of a JSON text with `serde_json`:
/// `from_str::<Value>`, then `Value::get(key)`, then `Value::as_str`, owned. The result
/// is `json_string_member` of the two texts.
#[verifier::external_body]
fn json_string_member_of(text: &str, key: &str) -> (r: Option<String>)
    ensures
        match r {
            Some(m) => json_string_member(text@, key@) == Some(m@),
            None => json_string_member(text@, key@) is None,
        },
{
    match serde_json::from_str::<serde_json::Value>(text) {
        Ok(value) => match value.get(key) {
            Some(member) => match member.as_str() {
                Some(text) => Some(text.to_owned()),
                None => None,
            },
            None => None,
        },
        Err(_) => None,
    }
}

/// The `error` text of a JSON reply: the reply must be a JSON object whose `error`
/// member is a string.
pub fn reply_error_field(body: &str) -> (r: Option<String>)
    ensures
        match r {
            Some(m) => json_string_member(body@, "error"@) == Some(m@),
            None => json_string_member(body@, "error"@) is None,
        },
{
    json_string_member_of(body, "error")
}

/// Whether the activation server's status code `code` reports success: the 2xx
/// codes, as `http::StatusCode::is_success` (which reqwest uses) counts them.
pub fn is_success_status(code: u16) -> (success: bool)
    ensures
        success == (200 <= code < 300),
{
    200 <= code && code < 300
}

/// The message of a refused activation: the server's own `error` text where it sent
/// one, else the HTTP status.
pub open spec fn refusal_text(error: Option<String>, status_text: Seq<char>) -> Seq<char> {
    match error {
        Some(e) => e@,
        None => "la activación respondió HTTP "@ + status_text,
    }
}

pub fn refusal_message(error: Option<String>, status_text: &str) -> (m: String)
    ensures
        m@ == refusal_text(error, status_text@),
{
    match error {
        Some(e) => e,
        None => {
            let mut m = String::from_str("la activación respondió HTTP ");
            m.append(status_text);
            m
        },
    }
}

/// The message for an activation that the server answered with a failure status
/// (`status_text`, as in "404 Not Found") and `body`.
pub fn activation_refusal(body: &str, status_text: &str) -> (m: String)
    ensures
        m@ == match json_string_member(body@, "error"@) {
            Some(e) => e,
            None => "la activación respondió HTTP "@ + status_text@,
        },
{
    let error = reply_error_field(body);
    refusal_message(error, status_text)
}

} // verus!
