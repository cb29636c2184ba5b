//! Requests to the game-server host: API addresses and the authorization
//! header, computed from plain values.
use vstd::prelude::*;
use crate::models::{DatHostServer, ServerId};

verus! {

/// The standard, padded base64 encoding of a string's UTF-8 bytes.
pub uninterp spec fn base64_of(s: Seq<char>) -> Seq<char>;

/// Relies on base64's `Engine::encode` with the `STANDARD` engine: the
/// padded base64 text of the input's bytes, empty for empty input.
#[verifier::external_body]
fn base64_encode(s: &str) -> (r: String)
    ensures
        r@ == base64_of(s@),
        s@.len() == 0 ==> r@.len() == 0,
{
    base64::Engine::encode(&base64::engine::general_purpose::STANDARD, s.as_bytes())
}

pub open spec fn spec_server_url(server: Seq<char>) -> Seq<char> {
    "https://dathost.net/api/0.1/game-servers/"@ + server
}

/// The host API address of a game server.
pub fn server_url(server: &ServerId) -> (r: String)
    ensures
        r@ == spec_server_url(server.0@),
{
    String::from_str("https://dathost.net/api/0.1/game-servers/").concat(server.0.as_str())
}

/// The host API address of a file on a game server.
pub fn file_url(server: &ServerId, path: &str) -> (r: String)
    ensures
        r@ == spec_server_url(server.0@) + "/files/"@ + path@,
{
    server_url(server).concat("/files/").concat(path)
}

/// The host API address that stops a game server.
pub fn stop_url(server: &ServerId) -> (r: String)
    ensures
        r@ == spec_server_url(server.0@) + "/stop"@,
{
    server_url(server).concat("/stop")
}

/// The map a server is configured to start on, which is the map it plays.
pub fn server_map(info: &DatHostServer) -> (r: String)
    ensures
        r == info.csgo_settings.mapgroup_start_map,
{
    info.csgo_settings.mapgroup_start_map.clone()
}

pub open spec fn spec_credentials(user: Seq<char>, password: Option<&str>) -> Seq<char> {
    user + ":"@ + match password {
        Some(p) => p@,
        None => Seq::empty(),
    }
}

/// `user:password`, with an empty password when none is configured.
pub fn basic_credentials(user: &str, password: Option<&str>) -> (r: String)
    ensures
        r@ == spec_credentials(user@, password),
{
    let s = String::from_str(user).concat(":");
    match password {
        Some(p) => s.concat(p),
        None => {
            assert(s@ =~= spec_credentials(user@, password));
            s
        },
    }
}

/// The value of a basic-authentication header, given the encoded credentials.
pub fn basic_auth_value(encoded: &str) -> (r: String)
    ensures
        r@ == "Basic "@ + encoded@,
{
    String::from_str("Basic ").concat(encoded)
}

/// The authorization header that the host API expects.
pub fn authorization_header(user: &str, password: Option<&str>) -> (r: String)
    ensures
        r@ == "Basic "@ + base64_of(spec_credentials(user@, password)),
{
    let credentials = basic_credentials(user, password);
    let encoded = base64_encode(credentials.as_str());
    basic_auth_value(encoded.as_str())
}

} // verus!
