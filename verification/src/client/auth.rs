//! Subsonic token authentication: salted MD5 tokens and the query string that carries them.
use vstd::prelude::*;
use vstd::utf8::encode_utf8;
use crate::client::api::{error_detail, error_detail_text, status_ok};
use crate::client::models::SubsonicResponse;
use crate::config::Config;
use crate::rng::{random_bytes, thread_rng};
use crate::text::{hex_byte, hex_lower_bytes, hex_lower_string, push_all, push_hex_byte};

verus! {

/// The client name sent with every request.
pub const CLIENT_NAME: &'static str = "navidrome-tui";

/// The Subsonic API version the client speaks.
pub const API_VERSION: &'static str = "1.16.1";

/// What `md5::compute` returns for the UTF-8 bytes of a string: its MD5 digest.
pub uninterp spec fn md5_digest(input: Seq<char>) -> Seq<u8>;

/// Calls `md5::compute` on the UTF-8 bytes of `input` and returns the 16 digest bytes. The
/// digest is named `md5_digest(input@)`: it depends on the input alone. The MD5 algorithm
/// itself is not stated.
#[verifier::external_body]
fn md5_of(input: &str) -> (d: [u8; 16])
    ensures
        d@ == md5_digest(input@),
{
    md5::compute(input.as_bytes()).0
}

/// A byte that `url_encode` keeps as it is: ASCII letters (65-90, 97-122), digits (48-57),
/// `-` (45), `_` (95), `.` (46) and `~` (126).
pub open spec fn unreserved(b: u8) -> bool {
    (65u8 <= b && b <= 90u8) || (97u8 <= b && b <= 122u8) || (48u8 <= b && b <= 57u8) || b == 45u8
        || b == 95u8 || b == 46u8 || b == 126u8
}

/// A byte as `url_encode` writes it: itself when unreserved, else `%` and two uppercase
/// hexadecimal digits.
pub open spec fn encoded_byte(b: u8) -> Seq<char> {
    if unreserved(b) {
        seq![b as char]
    } else {
        seq!['%'] + hex_byte(b, true)
    }
}

/// Percent-encoding of a byte sequence.
pub open spec fn percent_encoded(bytes: Seq<u8>) -> Seq<char>
    decreases bytes.len(),
{
    if bytes.len() == 0 {
        Seq::empty()
    } else {
        percent_encoded(bytes.drop_last()) + encoded_byte(bytes.last())
    }
}

/// Percent-encodes the UTF-8 bytes of `s`, keeping only unreserved bytes as they are.
pub fn url_encode(s: &str) -> (r: String)
    ensures
        r@ == percent_encoded(encode_utf8(s@)),
{
    let bytes = s.as_bytes();
    let mut result = String::new();
    let mut i: usize = 0;
    while i < bytes.len()
        invariant
            bytes@ == encode_utf8(s@),
            i <= bytes@.len(),
            result@ == percent_encoded(bytes@.take(i as int)),
        decreases bytes@.len() - i,
    {
        let b = bytes[i];
        if (65u8 <= b && b <= 90u8) || (97u8 <= b && b <= 122u8) || (48u8 <= b && b <= 57u8) || b == 45u8
            || b == 95u8 || b == 46u8 || b == 126u8 {
            result.push(b as char);
        } else {
            result.push('%');
            push_hex_byte(&mut result, b, true);
        }
        assert(bytes@.take(i + 1).drop_last() =~= bytes@.take(i as int));
        assert(result@ =~= percent_encoded(bytes@.take(i + 1)));
        i = i + 1;
    }
    assert(bytes@.take(bytes@.len() as int) =~= bytes@);
    result
}

/// A salt: the lowercase hexadecimal digits of eight bytes.
pub open spec fn is_salt(s: Seq<char>) -> bool {
    exists|b: Seq<u8>| b.len() == 8 && s == #[trigger] hex_lower_bytes(b)
}

/// Generates a random salt: eight random bytes in lowercase hexadecimal.
pub fn random_salt() -> (s: String)
    ensures
        is_salt(s@),
{
    let mut rng = thread_rng();
    let bytes: [u8; 8] = random_bytes(&mut rng);
    let s = hex_lower_string(&bytes);
    assert(bytes@.len() == 8);
    s
}

/// The Subsonic auth token: the MD5 digest of the password followed by the salt, in
/// lowercase hexadecimal.
pub open spec fn token_text(password: Seq<char>, salt: Seq<char>) -> Seq<char> {
    hex_lower_bytes(md5_digest(password + salt))
}

/// Computes the Subsonic auth token, md5(password + salt) in lowercase hexadecimal.
pub fn auth_token(password: &str, salt: &str) -> (t: String)
    ensures
        t@ == token_text(password@, salt@),
{
    let mut input = String::new();
    push_all(&mut input, password);
    push_all(&mut input, salt);
    let digest = md5_of(input.as_str());
    hex_lower_string(&digest)
}

/// The auth query string for a salt:
/// `u=<username, percent-encoded>&t=<token>&s=<salt>&v=1.16.1&c=navidrome-tui&f=json`.
pub open spec fn auth_query_text(username: Seq<char>, password: Seq<char>, salt: Seq<char>) -> Seq<char> {
    "u="@ + percent_encoded(encode_utf8(username)) + "&t="@ + token_text(password, salt) + "&s="@ + salt
        + "&v="@ + API_VERSION@ + "&c="@ + CLIENT_NAME@ + "&f=json"@
}

/// The auth query string for the given salt (see [`auth_query_text`]).
pub fn auth_query_with_salt(username: &str, password: &str, salt: &str) -> (q: String)
    ensures
        q@ == auth_query_text(username@, password@, salt@),
{
    let token = auth_token(password, salt);
    let mut q = String::new();
    push_all(&mut q, "u=");
    let user = url_encode(username);
    push_all(&mut q, user.as_str());
    push_all(&mut q, "&t=");
    push_all(&mut q, token.as_str());
    push_all(&mut q, "&s=");
    push_all(&mut q, salt);
    push_all(&mut q, "&v=");
    push_all(&mut q, API_VERSION);
    push_all(&mut q, "&c=");
    push_all(&mut q, CLIENT_NAME);
    push_all(&mut q, "&f=json");
    assert(q@ =~= auth_query_text(username@, password@, salt@));
    q
}

/// Returns the query-string fragment for Subsonic auth with a fresh random salt, e.g.
/// `u=alice&t=...&s=...&v=1.16.1&c=navidrome-tui&f=json`.
pub fn auth_query(username: &str, password: &str) -> (q: String)
    ensures
        exists|salt: Seq<char>| is_salt(salt) && q@ == #[trigger] auth_query_text(username@, password@, salt),
{
    let salt = random_salt();
    auth_query_with_salt(username, password, salt.as_str())
}

/// Why the configuration cannot be used to sign in, if it cannot: the first empty field among
/// server URL, username and password.
pub open spec fn credentials_problem(c: Config) -> Option<Seq<char>> {
    if c.server_url@.len() == 0 {
        Some("Server URL is empty in config"@)
    } else if c.username@.len() == 0 {
        Some("Username is empty in config"@)
    } else if c.password@.len() == 0 {
        Some("Password is empty in config (re-run `navidrome-tui config` to set it)"@)
    } else {
        None
    }
}

/// Checks that the configuration names a server, a user and a password before signing in.
pub fn check_credentials(config: &Config) -> (r: Result<(), String>)
    ensures
        r is Ok == credentials_problem(*config) is None,
        r matches Err(e) ==> Some(e@) == credentials_problem(*config),
{
    if config.server_url.as_str().is_empty() {
        return Err("Server URL is empty in config".to_owned());
    }
    if config.username.as_str().is_empty() {
        return Err("Username is empty in config".to_owned());
    }
    if config.password.as_str().is_empty() {
        return Err("Password is empty in config (re-run `navidrome-tui config` to set it)".to_owned());
    }
    Ok(())
}

/// Records a successful sign-in: no stored token (the password is the shared secret) and the
/// username as user id.
pub fn mark_authenticated(config: &mut Config)
    ensures
        final(config).token is None,
        final(config).user_id matches Some(u) && u@ == old(config).username@,
        final(config).server_url == old(config).server_url,
        final(config).username == old(config).username,
        final(config).password == old(config).password,
{
    config.token = None;
    config.user_id = Some(config.username.clone());
}

/// Accepts the answer to the sign-in ping when its status is `ok`; otherwise the error reads
/// `Authentication rejected by server: <error detail>`.
pub fn check_auth_response<T>(response: &SubsonicResponse<T>) -> (r: Result<(), String>)
    ensures
        response.status@ == "ok"@ ==> r is Ok,
        response.status@ != "ok"@ ==> (r matches Err(e) && e@ == "Authentication rejected by server: "@ + error_detail_text(response.error)),
{
    if status_ok(response.status.as_str()) {
        Ok(())
    } else {
        let detail = error_detail(&response.error);
        let mut e = "Authentication rejected by server: ".to_owned();
        push_all(&mut e, detail.as_str());
        Err(e)
    }
}

} // verus!
