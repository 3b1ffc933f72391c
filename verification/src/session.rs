use vstd::prelude::*;
use vstd::string::{StrSliceExecFns, StringExecFns};

use crate::errors::{AuthError, ConfigError};
use crate::numfmt::{append_dec_u64, dec_digits, digit_char};

verus! {

/// The normalized result of a successful login or registration: the
/// server-assigned session id and routing hosts, with the fixed defaults for
/// region, entitled expansion and language.
#[derive(Debug)]
pub struct SessionDescriptor {
    pub sid: String,
    pub lobby_host: String,
    pub frontier_host: String,
    pub region: i32,
    pub max_expansion: i32,
    pub language: i32,
}

/// The mathematical value of a session descriptor.
pub ghost struct SessionView {
    pub sid: Seq<char>,
    pub lobby_host: Seq<char>,
    pub frontier_host: Seq<char>,
    pub region: int,
    pub max_expansion: int,
    pub language: int,
}

impl View for SessionDescriptor {
    type V = SessionView;

    open spec fn view(&self) -> SessionView {
        SessionView {
            sid: self.sid@,
            lobby_host: self.lobby_host@,
            frontier_host: self.frontier_host@,
            region: self.region as int,
            max_expansion: self.max_expansion as int,
            language: self.language as int,
        }
    }
}

impl Default for SessionDescriptor {
    /// An empty session with the protocol defaults: region 3, one entitled
    /// expansion, language 1.
    fn default() -> (r: Self)
        ensures
            r.sid@ == Seq::<char>::empty(),
            r.lobby_host@ == Seq::<char>::empty(),
            r.frontier_host@ == Seq::<char>::empty(),
            r.region == 3,
            r.max_expansion == 1,
            r.language == 1,
    {
        SessionDescriptor {
            sid: String::new(),
            lobby_host: String::new(),
            frontier_host: String::new(),
            region: 3,
            max_expansion: 1,
            language: 1,
        }
    }
}

/// The persisted core settings: the game installation directory and the
/// remote endpoint's host, port and scheme.
#[derive(Debug)]
pub struct CoreSettings {
    pub game_dir: String,
    pub frontier_ip: String,
    pub frontier_port: u16,
    pub frontier_scheme: String,
}

/// The mathematical value of the core settings.
pub ghost struct CoreSettingsView {
    pub game_dir: Seq<char>,
    pub frontier_ip: Seq<char>,
    pub frontier_port: u16,
    pub frontier_scheme: Seq<char>,
}

impl View for CoreSettings {
    type V = CoreSettingsView;

    open spec fn view(&self) -> CoreSettingsView {
        CoreSettingsView {
            game_dir: self.game_dir@,
            frontier_ip: self.frontier_ip@,
            frontier_port: self.frontier_port,
            frontier_scheme: self.frontier_scheme@,
        }
    }
}

/// The outcome of checking the core settings, in the fixed order: host, then
/// port, then scheme, then game directory; the first absent field names the
/// error.
pub open spec fn core_settings_check(v: CoreSettingsView) -> Result<(), ConfigError> {
    if v.frontier_ip.len() == 0 {
        Err(ConfigError::MissingFrontierIp)
    } else if v.frontier_port == 0 {
        Err(ConfigError::MissingFrontierPort)
    } else if v.frontier_scheme.len() == 0 {
        Err(ConfigError::MissingFrontierScheme)
    } else if v.game_dir.len() == 0 {
        Err(ConfigError::MissingGameDir)
    } else {
        Ok(())
    }
}

impl CoreSettings {
    /// Checks that every settings field is usable: non-empty strings and a
    /// non-zero port.
    pub fn validate(&self) -> (r: Result<(), ConfigError>)
        ensures
            r == core_settings_check(self@),
    {
        if self.frontier_ip.as_str().is_empty() {
            Err(ConfigError::MissingFrontierIp)
        } else if self.frontier_port == 0 {
            Err(ConfigError::MissingFrontierPort)
        } else if self.frontier_scheme.as_str().is_empty() {
            Err(ConfigError::MissingFrontierScheme)
        } else if self.game_dir.as_str().is_empty() {
            Err(ConfigError::MissingGameDir)
        } else {
            Ok(())
        }
    }
}

/// What reading one string field at the top of a JSON document yields: the
/// field's text when the document parses, is an object and holds a string
/// under the key, nothing otherwise.
pub uninterp spec fn json_str_field_of(text: Seq<char>, key: Seq<char>) -> Option<Seq<char>>;

/// What reading one unsigned-integer field at the top of a JSON document
/// yields.
pub uninterp spec fn json_u64_field_of(text: Seq<char>, key: Seq<char>) -> Option<u64>;

/// Relies on serde_json's `from_str` for `Value`, `Value::get` and
/// `Value::as_str`: parses the document and reads the string field under
/// `key`. The outcome is a function of the text and the key alone.
#[verifier::external_body]
fn json_str_field(text: &str, key: &str) -> (r: Option<String>)
    ensures
        json_str_field_of(text@, key@) == (match r {
            Some(v) => Some(v@),
            None => None::<Seq<char>>,
        }),
{
    let v: serde_json::Value = match serde_json::from_str(text) {
        Ok(v) => v,
        Err(_) => return None,
    };
    Some(v.get(key)?.as_str()?.to_owned())
}

/// Relies on serde_json's `from_str` for `Value`, `Value::get` and
/// `Value::as_u64`: parses the document and reads the unsigned-integer field
/// under `key`. The outcome is a function of the text and the key alone.
#[verifier::external_body]
fn json_u64_field(text: &str, key: &str) -> (r: Option<u64>)
    ensures
        json_u64_field_of(text@, key@) == r,
{
    let v: serde_json::Value = match serde_json::from_str(text) {
        Ok(v) => v,
        Err(_) => return None,
    };
    v.get(key)?.as_u64()
}

/// The session fields of a login or registration response body.
pub open spec fn login_fields_of(body: Seq<char>) -> (
    Option<Seq<char>>,
    Option<Seq<char>>,
    Option<Seq<char>>,
) {
    (
        json_str_field_of(body, "sId"@),
        json_str_field_of(body, "lobbyHost"@),
        json_str_field_of(body, "frontierHost"@),
    )
}

/// What a login or registration answer normalizes to: a non-success status
/// is rejected with its code; a success status whose body carries the three
/// session fields gives the descriptor with the fixed defaults; a success
/// status with anything else is a malformed response.
pub open spec fn spec_session_of(status: u16, body: Seq<char>) -> Result<SessionView, AuthError> {
    if !(200 <= status && status < 300) {
        Err(AuthError::RemoteRejected(status))
    } else {
        match login_fields_of(body) {
            (Some(sid), Some(lobby), Some(frontier)) => Ok(
                SessionView {
                    sid: sid,
                    lobby_host: lobby,
                    frontier_host: frontier,
                    region: 3,
                    max_expansion: 1,
                    language: 1,
                },
            ),
            _ => Err(AuthError::MalformedResponse),
        }
    }
}

/// The value of a session result, for stating contracts.
pub open spec fn session_result_view(r: Result<SessionDescriptor, AuthError>) -> Result<
    SessionView,
    AuthError,
> {
    match r {
        Ok(d) => Ok(d@),
        Err(e) => Err(e),
    }
}

/// Normalizes an endpoint answer — HTTP status and response body — into a
/// session descriptor, or the error that ends the run.
pub fn session_from_response(status: u16, body: &str) -> (r: Result<SessionDescriptor, AuthError>)
    ensures
        session_result_view(r) == spec_session_of(status, body@),
{
    if !(200 <= status && status < 300) {
        return Err(AuthError::RemoteRejected(status));
    }
    let sid = json_str_field(body, "sId");
    let lobby = json_str_field(body, "lobbyHost");
    let frontier = json_str_field(body, "frontierHost");
    match (sid, lobby, frontier) {
        (Some(sid), Some(lobby), Some(frontier)) => Ok(
            SessionDescriptor {
                sid,
                lobby_host: lobby,
                frontier_host: frontier,
                region: 3,
                max_expansion: 1,
                language: 1,
            },
        ),
        _ => Err(AuthError::MalformedResponse),
    }
}

/// The outcome of reading the core settings from their persisted text: the
/// four fields read from the document, the port checked against its 16-bit
/// range, and the whole checked as `core_settings_check` does.
pub open spec fn spec_core_settings_of(text: Seq<char>) -> Result<CoreSettingsView, ConfigError> {
    match (
        json_str_field_of(text, "game_dir"@),
        json_str_field_of(text, "frontier_ip"@),
        json_u64_field_of(text, "frontier_port"@),
        json_str_field_of(text, "frontier_scheme"@),
    ) {
        (Some(game_dir), Some(ip), Some(port), Some(scheme)) => {
            if port > 65535 {
                Err(ConfigError::Malformed)
            } else {
                let v = CoreSettingsView {
                    game_dir: game_dir,
                    frontier_ip: ip,
                    frontier_port: port as u16,
                    frontier_scheme: scheme,
                };
                match core_settings_check(v) {
                    Ok(()) => Ok(v),
                    Err(e) => Err(e),
                }
            }
        },
        _ => Err(ConfigError::Malformed),
    }
}

/// The value of a settings result, for stating contracts.
pub open spec fn settings_result_view(r: Result<CoreSettings, ConfigError>) -> Result<
    CoreSettingsView,
    ConfigError,
> {
    match r {
        Ok(s) => Ok(s@),
        Err(e) => Err(e),
    }
}

/// Reads the core settings out of their persisted text and checks them,
/// naming the first unusable field.
pub fn parse_core_settings(text: &str) -> (r: Result<CoreSettings, ConfigError>)
    ensures
        settings_result_view(r) == spec_core_settings_of(text@),
{
    let game_dir = json_str_field(text, "game_dir");
    let ip = json_str_field(text, "frontier_ip");
    let port = json_u64_field(text, "frontier_port");
    let scheme = json_str_field(text, "frontier_scheme");
    match (game_dir, ip, port, scheme) {
        (Some(game_dir), Some(ip), Some(port), Some(scheme)) => {
            if port > 65535 {
                return Err(ConfigError::Malformed);
            }
            let settings = CoreSettings {
                game_dir,
                frontier_ip: ip,
                frontier_port: port as u16,
                frontier_scheme: scheme,
            };
            match settings.validate() {
                Ok(()) => Ok(settings),
                Err(e) => Err(e),
            }
        },
        _ => Err(ConfigError::Malformed),
    }
}

/// The request URL for an endpoint path: scheme, host, port and path joined
/// as `scheme://host:port/path`.
pub open spec fn spec_request_url(
    scheme: Seq<char>,
    host: Seq<char>,
    port: u16,
    endpoint: Seq<char>,
) -> Seq<char> {
    scheme + "://"@ + host + ":"@ + dec_digits(port as nat) + endpoint
}

/// Joins the configured endpoint parts into the request URL.
pub fn build_request_url(settings: &CoreSettings, endpoint: &str) -> (r: String)
    ensures
        r@ == spec_request_url(
            settings.frontier_scheme@,
            settings.frontier_ip@,
            settings.frontier_port,
            endpoint@,
        ),
{
    let mut out = String::new();
    out.append(settings.frontier_scheme.as_str());
    out.append("://");
    out.append(settings.frontier_ip.as_str());
    out.append(":");
    append_dec_u64(&mut out, settings.frontier_port as u64);
    out.append(endpoint);
    proof {
        assert(out@ =~= spec_request_url(
            settings.frontier_scheme@,
            settings.frontier_ip@,
            settings.frontier_port,
            endpoint@,
        ));
    }
    out
}

/// Accepts a password typed at the prompt: any non-empty text.
pub fn validate_password(entered: String) -> (r: Option<String>)
    ensures
        r is Some <==> entered@.len() != 0,
        r matches Some(p) ==> p@ == entered@,
{
    if entered.as_str().is_empty() {
        None
    } else {
        Some(entered)
    }
}

/// One character's JSON string escaping: quote and backslash get a leading
/// backslash, the common control characters their short escape, the rest of
/// the control range a `\u00..` form, and every other character stands as
/// itself.
pub open spec fn json_escape_char(c: char) -> Seq<char> {
    if c == '"' {
        seq!['\\', '"']
    } else if c == '\\' {
        seq!['\\', '\\']
    } else if c == '\u{08}' {
        seq!['\\', 'b']
    } else if c == '\u{09}' {
        seq!['\\', 't']
    } else if c == '\u{0a}' {
        seq!['\\', 'n']
    } else if c == '\u{0c}' {
        seq!['\\', 'f']
    } else if c == '\u{0d}' {
        seq!['\\', 'r']
    } else if (c as int) < 0x20 {
        seq!['\\', 'u', '0', '0', digit_char((c as int) / 16), digit_char((c as int) % 16)]
    } else {
        seq![c]
    }
}

/// The JSON string escaping of a whole text.
pub open spec fn json_escaped(s: Seq<char>) -> Seq<char>
    decreases s.len(),
{
    if s.len() == 0 {
        Seq::empty()
    } else {
        json_escape_char(s[0]) + json_escaped(s.drop_first())
    }
}

/// Escaping distributes over concatenation.
proof fn lemma_json_escaped_concat(a: Seq<char>, b: Seq<char>)
    ensures
        json_escaped(a + b) == json_escaped(a) + json_escaped(b),
    decreases a.len(),
{
    if a.len() == 0 {
        assert(a + b =~= b);
        assert(json_escaped(a) + json_escaped(b) =~= json_escaped(b));
    } else {
        assert((a + b).drop_first() =~= a.drop_first() + b);
        lemma_json_escaped_concat(a.drop_first(), b);
        assert(json_escaped(a + b) =~= json_escaped(a) + json_escaped(b));
    }
}

/// Escaping a single character is that character's escape.
proof fn lemma_json_escaped_singleton(c: char)
    ensures
        json_escaped(seq![c]) == json_escape_char(c),
{
    assert(seq![c].drop_first() =~= Seq::<char>::empty());
    assert(json_escaped(Seq::<char>::empty()) =~= Seq::<char>::empty());
    assert(seq![c][0] == c);
    assert(json_escaped(seq![c]) =~= json_escape_char(c) + json_escaped(seq![c].drop_first()));
    assert(json_escape_char(c) + Seq::<char>::empty() =~= json_escape_char(c));
}

fn append_escaped_char(out: &mut String, c: char)
    ensures
        final(out)@ == old(out)@ + json_escape_char(c),
{
    proof {
        reveal_strlit("\\\"");
        reveal_strlit("\\\\");
        reveal_strlit("\\b");
        reveal_strlit("\\t");
        reveal_strlit("\\n");
        reveal_strlit("\\f");
        reveal_strlit("\\r");
        reveal_strlit("\\u00");
    }
    let code = c as u32;
    if c == '"' {
        out.append("\\\"");
    } else if c == '\\' {
        out.append("\\\\");
    } else if code == 0x08 {
        out.append("\\b");
    } else if code == 0x09 {
        out.append("\\t");
    } else if code == 0x0a {
        out.append("\\n");
    } else if code == 0x0c {
        out.append("\\f");
    } else if code == 0x0d {
        out.append("\\r");
    } else if code < 0x20 {
        out.append("\\u00");
        crate::numfmt::append_digit(out, (code / 16) as u64);
        crate::numfmt::append_digit(out, (code % 16) as u64);
    } else {
        out.push(c);
    }
    proof {
        assert((*out)@ =~= old(out)@ + json_escape_char(c));
    }
}

fn append_json_escaped(out: &mut String, s: &str)
    ensures
        final(out)@ == old(out)@ + json_escaped(s@),
{
    let n = s.unicode_len();
    let mut i: usize = 0;
    while i < n
        invariant
            i <= n,
            n == s@.len(),
            out@ =~= old(out)@ + json_escaped(s@.subrange(0, i as int)),
        decreases n - i,
    {
        let c = s.get_char(i);
        append_escaped_char(out, c);
        proof {
            assert(s@.subrange(0, i + 1) =~= s@.subrange(0, i as int) + seq![s@[i as int]]);
            lemma_json_escaped_concat(s@.subrange(0, i as int), seq![s@[i as int]]);
            lemma_json_escaped_singleton(s@[i as int]);
        }
        i = i + 1;
    }
    proof {
        assert(s@.subrange(0, n as int) =~= s@);
    }
}

/// The login and registration request body: a JSON object carrying the
/// username and the password.
pub open spec fn spec_login_body(username: Seq<char>, pass: Seq<char>) -> Seq<char> {
    "{\"username\":\""@ + json_escaped(username) + "\",\"pass\":\""@ + json_escaped(pass)
        + "\"}"@
}

/// Builds the request body sent to the login and registration endpoints.
pub fn build_login_body(username: &str, pass: &str) -> (r: String)
    ensures
        r@ == spec_login_body(username@, pass@),
{
    let mut out = "{\"username\":\"".to_owned();
    append_json_escaped(&mut out, username);
    out.append("\",\"pass\":\"");
    append_json_escaped(&mut out, pass);
    out.append("\"}");
    proof {
        assert(out@ =~= spec_login_body(username@, pass@));
    }
    out
}

} // verus!
