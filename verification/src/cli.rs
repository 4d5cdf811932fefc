//! The command-line client: API URLs, configuration commands, the login
//! flow and the answers it reads from the user and the panel.

use vstd::prelude::*;
use crate::text::{
    chars_of, is_ws, str_eq, string_from_chars, trim, trim_chars, concat_all, concat_strs,
    views_of,
};
use crate::agent::dns::{strip_trailing, strip_trailing_chars};

verus! {

/// The full URL of an API path: the base URL without trailing slashes,
/// then the path.
pub open spec fn api_url_of(base: Seq<char>, path: Seq<char>) -> Seq<char> {
    strip_trailing(base, '/') + path
}

/// Joins the panel base URL and an API path.
pub fn api_url(base_url: &str, path: &str) -> (r: String)
    ensures
        r@ == api_url_of(base_url@, path@),
{
    let b = chars_of(base_url);
    let t = strip_trailing_chars(&b, '/');
    let mut r = string_from_chars(&t);
    r.append(path);
    r
}

proof fn lemma_strip_trailing_idem(s: Seq<char>, c: char)
    ensures
        strip_trailing(strip_trailing(s, c), c) == strip_trailing(s, c),
        strip_trailing(s + seq![c], c) == strip_trailing(s, c),
    decreases s.len(),
{
    assert((s + seq![c]).drop_last() =~= s);
    if s.len() > 0 && s.last() == c {
        lemma_strip_trailing_idem(s.drop_last(), c);
    }
}

/// Extra slashes at the end of the base URL do not change any API URL.
pub proof fn lemma_api_url_ignores_trailing_slash(base: Seq<char>, path: Seq<char>)
    ensures
        api_url_of(base + seq!['/'], path) == api_url_of(base, path),
{
    lemma_strip_trailing_idem(base, '/');
}

/// The `Authorization` header sent with a token.
pub fn auth_header(token: Option<&str>) -> (r: Option<String>)
    ensures
        match token {
            Some(t) => r matches Some(h) && h@ == "Bearer "@ + t@,
            None => r is None,
        },
{
    match token {
        Some(t) => {
            let mut h = String::from_str("Bearer ");
            h.append(t);
            Some(h)
        },
        None => None,
    }
}

/// The site statuses `sites list` can filter on.
#[derive(Debug, Clone, Copy, PartialEq, Eq)]
pub enum SiteStatus {
    Active,
    Suspended,
}

/// The query value of a status: its name in lower case.
pub open spec fn status_param(s: SiteStatus) -> Seq<char> {
    match s {
        SiteStatus::Active => "active"@,
        SiteStatus::Suspended => "suspended"@,
    }
}

/// The API path of `sites list`: `/api/v1/sites`, with `server_id` and
/// `status` query parameters when given, joined by `&`.
pub open spec fn sites_list_path_of(server: Option<Seq<char>>, status: Option<SiteStatus>) -> Seq<
    char,
> {
    let base = "/api/v1/sites"@;
    match (server, status) {
        (Some(s), Some(st)) => base + "?server_id="@ + s + "&status="@ + status_param(st),
        (Some(s), None) => base + "?server_id="@ + s,
        (None, Some(st)) => base + "?status="@ + status_param(st),
        (None, None) => base,
    }
}

/// Builds the API path of `sites list`.
pub fn sites_list_path(server: Option<&str>, status: Option<SiteStatus>) -> (r: String)
    ensures
        r@ == sites_list_path_of(
            match server {
                Some(s) => Some(s@),
                None => None,
            },
            status,
        ),
{
    let mut r = String::from_str("/api/v1/sites");
    let mut first = true;
    match server {
        Some(s) => {
            r.append("?server_id=");
            r.append(s);
            first = false;
        },
        None => {},
    }
    match status {
        Some(st) => {
            if first {
                r.append("?status=");
            } else {
                r.append("&status=");
            }
            match st {
                SiteStatus::Active => r.append("active"),
                SiteStatus::Suspended => r.append("suspended"),
            }
        },
        None => {},
    }
    r
}

/// The first `n` characters of `s` (all of it when shorter).
pub open spec fn take_chars(s: Seq<char>, n: nat) -> Seq<char> {
    if s.len() <= n {
        s
    } else {
        s.take(n as int)
    }
}

/// Shortens a value for a table column (`chars().take(n)`).
pub fn shorten(s: &str, n: usize) -> (r: String)
    ensures
        r@ == take_chars(s@, n as nat),
{
    let v = chars_of(s);
    if v.len() <= n {
        string_from_chars(&v)
    } else {
        let t = crate::text::slice_chars(&v, 0, n);
        assert(t@ =~= s@.take(n as int));
        string_from_chars(&t)
    }
}

/// The client configuration file's contents.
#[derive(Debug, Clone)]
pub struct CliConfig {
    /// The panel's base URL.
    pub url: Option<String>,
}

/// The result of `config set-url`: the configuration to save and the
/// message to print.
pub fn cmd_config_set_url(cfg: CliConfig, url: String) -> (r: (CliConfig, String))
    ensures
        r.0.url matches Some(u) && u@ == url@,
        r.1@ == "Panel URL set to '"@ + url@ + "'"@,
{
    let mut msg = String::from_str("Panel URL set to '");
    msg.append(url.as_str());
    msg.append("'");
    let mut c = cfg;
    c.url = Some(url);
    (c, msg)
}

/// The result of `config set KEY VALUE`: `url` sets the panel URL; any other
/// key is refused.
pub fn cmd_config_set(cfg: CliConfig, key: &str, value: String) -> (r: Result<
    (CliConfig, String),
    String,
>)
    ensures
        key@ == "url"@ ==> (r matches Ok(p) && p.0.url matches Some(u) && u@ == value@ && p.1@
            == "Panel URL set to '"@ + value@ + "'"@),
        key@ != "url"@ ==> (r matches Err(m) && m@ == "unknown config key '"@ + key@
            + "' — supported keys: url"@),
{
    if str_eq(key, "url") {
        Ok(cmd_config_set_url(cfg, value))
    } else {
        let mut m = String::from_str("unknown config key '");
        m.append(key);
        m.append("' — supported keys: url");
        Err(m)
    }
}

/// The panel URL the client talks to: `ORBIT_URL` when set, else the
/// configured one; refused when neither is there.
pub fn base_url_from(env_url: Option<String>, cfg: &CliConfig) -> (r: Result<String, String>)
    ensures
        match env_url {
            Some(u) => r == Ok::<String, String>(u),
            None => match cfg.url {
                Some(u) => r matches Ok(v) && v@ == u@,
                None => r matches Err(m) && m@
                    == "no base URL configured — run `orbit config set-url https://panel.example.com`"@,
            },
        },
{
    match env_url {
        Some(u) => Ok(u),
        None => match &cfg.url {
            Some(u) => Ok(u.clone()),
            None => Err(
                String::from_str(
                    "no base URL configured — run `orbit config set-url https://panel.example.com`",
                ),
            ),
        },
    }
}

/// An answer to a yes/no question counts as yes when it is `y` or `Y` once
/// trimmed.
pub open spec fn is_yes(answer: Seq<char>) -> bool {
    trim(answer) == seq!['y'] || trim(answer) == seq!['Y']
}

/// Reads a confirmation answer.
pub fn confirm_answer(answer: &str) -> (r: bool)
    ensures
        r == is_yes(answer@),
{
    let v = chars_of(answer);
    let t = trim_chars(&v);
    if t.len() == 1 && (t[0] == 'y' || t[0] == 'Y') {
        assert(t@ =~= seq![t@[0]]);
        true
    } else {
        assert(t@.len() != 1 ==> t@ != seq!['y'] && t@ != seq!['Y']);
        false
    }
}

/// What the login flow does after the panel answered the password step.
#[derive(Debug)]
pub enum LoginStep {
    /// Ask for a TOTP code and send it with this session token.
    NeedTotp(String),
    /// Logged in with this token.
    Token(String),
    /// The answer held no token.
    NoToken,
}

/// The next login step from the password step's answer: a TOTP code when
/// `totp_required` is set (with the session token, empty when absent), else
/// the token.
pub fn login_step(totp_required: Option<bool>, session_token: Option<String>, token: Option<
    String,
>) -> (r: LoginStep)
    ensures
        totp_required == Some(true) ==> (r matches LoginStep::NeedTotp(s) && s@ == (match session_token {
            Some(t) => t@,
            None => Seq::<char>::empty(),
        })),
        totp_required != Some(true) ==> match token {
            Some(t) => r matches LoginStep::Token(u) && u == t,
            None => r is NoToken,
        },
{
    let needs = match totp_required {
        Some(b) => b,
        None => false,
    };
    if needs {
        match session_token {
            Some(s) => LoginStep::NeedTotp(s),
            None => LoginStep::NeedTotp(String::new()),
        }
    } else {
        match token {
            Some(t) => LoginStep::Token(t),
            None => LoginStep::NoToken,
        }
    }
}

/// The message of a failed API call: the `error` field of the JSON body
/// when there is one, else the body text.
pub fn api_error_message(body_text: &str, error_field: Option<&str>) -> (r: String)
    ensures
        match error_field {
            Some(e) => r@ == e@,
            None => r@ == body_text@,
        },
{
    match error_field {
        Some(e) => String::from_str(e),
        None => String::from_str(body_text),
    }
}


/// What reading a response body as JSON gives: none when it is not JSON;
/// else its `error` member when that is a string.
pub open spec fn json_read_of(text: Seq<char>) -> Option<Option<Seq<char>>> {
    match crate::mcp::json_top_of(text) {
        Ok(t) => Some(
            crate::mcp::string_member(crate::mcp::member_of(crate::mcp::members_of(Ok(t)), "error"@)),
        ),
        Err(_) => None,
    }
}

/// Reads a response body as JSON: `None` when it is not JSON, else `Some`
/// of its `error` member when that is a string.
fn json_read(text: &str) -> (r: Option<Option<String>>)
    ensures
        match r {
            None => json_read_of(text@) is None,
            Some(None) => json_read_of(text@) == Some(None::<Seq<char>>),
            Some(Some(e)) => json_read_of(text@) == Some(Some(e@)),
        },
{
    match crate::mcp::json_top(text) {
        Err(_) => None,
        Ok(t) => {
            let ms: Vec<(String, String)> = match t {
                crate::mcp::JsonTop::Object(ms) => ms,
                _ => Vec::new(),
            };
            assert(crate::mcp::members_view(ms@) =~= crate::mcp::members_of(crate::mcp::json_top_of(text@)));
            Some(crate::mcp::string_value(&crate::mcp::find_member(&ms, "error")))
        },
    }
}

/// A successful response's body: nothing, or JSON text.
#[derive(Debug, PartialEq, Eq)]
pub enum ResponseBody {
    Null,
    Json(String),
}

/// How an HTTP status prints: its code and reason phrase.
pub open spec fn status_text(status: u16, reason: Option<Seq<char>>) -> Seq<char> {
    crate::text::decimal(status as nat) + " "@ + match reason {
        Some(r) => r,
        None => "<unknown status code>"@,
    }
}

/// What a response comes to: a status outside 200–299 is an error
/// `API error {status}: {message}`, the message being the body's `error`
/// member when it is JSON with a string there, else the body text; an empty
/// successful body is `Null`; any other successful body must be JSON.
pub open spec fn response_outcome_of(status: u16, reason: Option<Seq<char>>, text: Seq<char>) -> Result<
    Option<Seq<char>>,
    Seq<char>,
> {
    if status < 200 || status >= 300 {
        Err("API error "@ + status_text(status, reason) + ": "@ + match json_read_of(text) {
            Some(Some(e)) => e,
            _ => text,
        })
    } else if text.len() == 0 {
        Ok(None)
    } else if json_read_of(text) is Some {
        Ok(Some(text))
    } else {
        Err("parse response JSON: "@ + text)
    }
}

/// Decides what an API response comes to, from its status code, the
/// status's reason phrase and its body text.
pub fn response_outcome(status: u16, reason: Option<&str>, text: &str) -> (r: Result<ResponseBody, String>)
    ensures
        match response_outcome_of(
            status,
            match reason {
                Some(x) => Some(x@),
                None => None,
            },
            text@,
        ) {
            Ok(None) => r == Ok::<ResponseBody, String>(ResponseBody::Null),
            Ok(Some(t)) => r matches Ok(ResponseBody::Json(j)) && j@ == t,
            Err(m) => r matches Err(e) && e@ == m,
        },
{
    let read = json_read(text);
    if status < 200 || status >= 300 {
        let code = crate::text::decimal_string(status as u64);
        let why = match reason {
            Some(x) => x,
            None => "<unknown status code>",
        };
        let msg = match read {
            Some(Some(e)) => e,
            _ => String::from_str(text),
        };
        let parts: Vec<&str> = vec!["API error ", code.as_str(), " ", why, ": ", msg.as_str()];
        let out = crate::text::concat_strs(&parts);
        proof {
            reveal_with_fuel(crate::text::concat_all, 7);
            assert(crate::text::views_of(parts@) =~= seq!["API error "@, code@, " "@, why@, ": "@, msg@]);
        }
        return Err(out);
    }
    if text.unicode_len() == 0 {
        return Ok(ResponseBody::Null);
    }
    match read {
        Some(_) => Ok(ResponseBody::Json(String::from_str(text))),
        None => Err(crate::text::concat2("parse response JSON: ", text)),
    }
}

} // verus!
