//! Sunshine "add app" integration: what is sent to Sunshine's REST API and
//! how an existing entry for the same game is recognised.
use base64::Engine;
use vstd::prelude::*;

use crate::config::GamescopeSetting;
use crate::text::{chars_of, concat, concat3, owned, split_whitespace, split_whitespace_spec, str_eq, string_of, trim_matches, trim_matches_spec, u64_to_string};

verus! {

/// The Sunshine connection settings.
#[derive(Debug, Clone)]
pub struct Sunshine {
    pub host: String,
    pub port: u16,
    pub username: Option<String>,
    pub auth_token: Option<String>,
    pub gamescope: GamescopeSetting,
}

/// `https://<host>:<port>`.
pub fn base_url(cfg: &Sunshine) -> (r: String)
    ensures
        r@ == "https://"@ + cfg.host@ + ":"@ + crate::text::decimal(cfg.port as nat),
{
    let port = u64_to_string(cfg.port as u64);
    let mut r = concat3("https://", cfg.host.as_str(), ":");
    r.append(port.as_str());
    r
}

/// The apps endpoint under the base URL.
pub fn apps_url(cfg: &Sunshine) -> (r: String)
    ensures
        r@ == "https://"@ + cfg.host@ + ":"@ + crate::text::decimal(cfg.port as nat) + "/api/apps"@,
{
    let b = base_url(cfg);
    concat(b.as_str(), "/api/apps")
}

/// The character of a 6-bit value in the standard base64 alphabet
/// (`A`–`Z`, `a`–`z`, `0`–`9`, `+`, `/`).
pub open spec fn base64_digit(v: int) -> char {
    if v < 26 {
        (65 + v) as char
    } else if v < 52 {
        (97 + v - 26) as char
    } else if v < 62 {
        (48 + v - 52) as char
    } else if v == 62 {
        '+'
    } else {
        '/'
    }
}

/// Standard base64 with `=` padding (RFC 4648): every 3 bytes become 4
/// characters of 6 bits each; a last group of 1 or 2 bytes is padded to 4
/// characters with `=`.
pub open spec fn spec_base64(b: Seq<u8>) -> Seq<char>
    decreases b.len(),
{
    if b.len() == 0 {
        Seq::empty()
    } else {
        let x0 = b[0] as int;
        let x1 = if b.len() > 1 { b[1] as int } else { 0 };
        let x2 = if b.len() > 2 { b[2] as int } else { 0 };
        let c0 = base64_digit(x0 / 4);
        let c1 = base64_digit((x0 % 4) * 16 + x1 / 16);
        let c2 = base64_digit((x1 % 16) * 4 + x2 / 64);
        let c3 = base64_digit(x2 % 64);
        if b.len() == 1 {
            seq![c0, c1, '=', '=']
        } else if b.len() == 2 {
            seq![c0, c1, c2, '=']
        } else {
            seq![c0, c1, c2, c3] + spec_base64(b.subrange(3, b.len() as int))
        }
    }
}

/// The `base64` crate's `STANDARD.encode` of a string's UTF-8 bytes:
/// standard base64 with padding (see `spec_base64`). The crate panics when
/// the encoded length overflows `usize`, which the bound on the input rules
/// out.
#[verifier::external_body]
fn base64_encode(text: &str) -> (r: String)
    requires
        vstd::utf8::encode_utf8(text@).len() <= usize::MAX / 2,
    ensures
        r@ == spec_base64(vstd::utf8::encode_utf8(text@)),
{
    base64::engine::general_purpose::STANDARD.encode(text.as_bytes())
}

/// `Basic <base64 of "username:password">`.
pub open spec fn basic_auth_spec(username: Seq<char>, password: Seq<char>) -> Seq<char> {
    "Basic "@ + spec_base64(vstd::utf8::encode_utf8(username + ":"@ + password))
}

/// The HTTP Basic `Authorization` header value for a username and password.
pub fn basic_auth_header(username: &str, password: &str) -> (r: String)
    requires
        vstd::utf8::encode_utf8(username@ + ":"@ + password@).len() <= usize::MAX / 2,
    ensures
        r@ == basic_auth_spec(username@, password@),
{
    let joined = concat3(username, ":", password);
    let enc = base64_encode(joined.as_str());
    concat("Basic ", enc.as_str())
}

/// Why adding an app failed: the cached login no longer works, or anything
/// else (with its message).
#[derive(Debug, Clone)]
pub enum AddAppError {
    AuthExpired,
    Other(String),
}

impl AddAppError {
    /// The message shown for this error.
    pub fn message(&self) -> (r: String)
        ensures
            r@ == (match self {
                AddAppError::AuthExpired => "Sunshine login has expired \u{2014} add this game to Sunshine again to re-enter your username/password"@,
                AddAppError::Other(m) => m@,
            }),
    {
        match self {
            AddAppError::AuthExpired => owned(
                "Sunshine login has expired \u{2014} add this game to Sunshine again to re-enter your username/password",
            ),
            AddAppError::Other(m) => m.clone(),
        }
    }
}

/// An existing app's `cmd` is this slug's iprolaunch entry: its first word
/// (quotes stripped) has the file stem `iprolaunch`, and there is a later
/// word, the last of which is exactly `slug`.
pub open spec fn matches_slug_spec(cmd: Seq<char>, slug: Seq<char>) -> bool {
    let words = split_whitespace_spec(cmd);
    words.len() >= 2 && crate::prefix::spec_file_stem(trim_matches_spec(words[0], '"')) == Some("iprolaunch"@)
        && words.last() == slug
}

/// Whether an existing Sunshine app's `cmd` is this slug's iprolaunch
/// entry.
pub fn matches_iprolaunch_slug(cmd: &str, slug: &str) -> (r: bool)
    ensures
        r == matches_slug_spec(cmd@, slug@),
{
    let cv = chars_of(cmd);
    let words = split_whitespace(&cv);
    if words.len() < 2 {
        return false;
    }
    let first = trim_matches(&words[0], '"');
    let first_s = string_of(&first);
    let stem = crate::prefix::file_stem(first_s.as_str());
    proof {
        reveal_strlit("iprolaunch");
    }
    let is_ours = match stem {
        Some(st) => str_eq(st.as_str(), "iprolaunch"),
        None => false,
    };
    if !is_ours {
        return false;
    }
    let last = string_of(&words[words.len() - 1]);
    str_eq(last.as_str(), slug)
}

/// An existing Sunshine app entry: just its `cmd`.
#[derive(Debug, Clone)]
pub struct ExistingApp {
    pub cmd: String,
}

/// The position of the first app that is this slug's entry.
pub open spec fn first_match(apps: Seq<ExistingApp>, slug: Seq<char>, i: int) -> Option<int>
    decreases apps.len() - i,
{
    if i < 0 || i >= apps.len() {
        None
    } else if matches_slug_spec(apps[i].cmd@, slug) {
        Some(i)
    } else {
        first_match(apps, slug, i + 1)
    }
}

/// The array position of the first app that already is this slug's
/// iprolaunch entry (as Sunshine's `i32` index), if any.
pub fn find_existing_index_in_apps(apps: &[ExistingApp], slug: &str) -> (r: Option<i32>)
    ensures
        match first_match(apps@, slug@, 0) {
            Some(i) => r == Some(i as i32),
            None => r is None,
        },
{
    let mut i: usize = 0;
    while i < apps.len()
        invariant
            i <= apps@.len(),
            first_match(apps@, slug@, 0) == first_match(apps@, slug@, i as int),
        decreases apps@.len() - i,
    {
        if matches_iprolaunch_slug(apps[i].cmd.as_str(), slug) {
            return Some(i as i32);
        }
        i = i + 1;
    }
    None
}

/// The `index` to post: the existing entry's position (to update it in
/// place), else `-1` (append).
pub fn post_index(existing: Option<i32>) -> (r: i32)
    ensures
        r == (match existing {
            Some(i) => i,
            None => -1i32,
        }),
{
    match existing {
        Some(i) => i,
        None => -1,
    }
}

/// What LutrisToSunshine's `display.json` says about its virtual display.
#[derive(Debug, Clone)]
pub struct DisplayConfig {
    pub enabled: bool,
    pub set_resolution_script: String,
    pub reset_resolution_script: String,
}

/// The `(do, undo)` resolution scripts, when the virtual display is
/// enabled.
pub fn resolution_scripts(cfg: &DisplayConfig) -> (r: Option<(String, String)>)
    ensures
        cfg.enabled ==> (r matches Some(p) && p.0@ == cfg.set_resolution_script@ && p.1@ == cfg.reset_resolution_script@),
        !cfg.enabled ==> r is None,
{
    if cfg.enabled {
        Some((cfg.set_resolution_script.clone(), cfg.reset_resolution_script.clone()))
    } else {
        None
    }
}

} // verus!
