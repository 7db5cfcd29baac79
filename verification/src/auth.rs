//! Plex account authentication: the PIN flow, the request headers of
//! plex.tv, and the choice of a server.

use vstd::prelude::*;

use crate::text::{parse_unsigned, parse_unsigned_text, trim_text, trimmed};

verus! {

/// Response from the Plex PIN creation and check endpoints.
#[derive(Debug, Clone)]
pub struct PinResponse {
    pub id: u64,
    pub code: String,
    pub auth_token: Option<String>,
}

/// The headers sent with every plex.tv request.
pub open spec fn plex_headers_spec(client_id: Seq<char>) -> Seq<(Seq<char>, Seq<char>)> {
    seq![
        ("X-Plex-Product"@, "TermTunes"@),
        ("X-Plex-Client-Identifier"@, client_id),
        ("Accept"@, "application/json"@),
    ]
}

/// The views of a list of header name/value pairs.
pub open spec fn header_views(h: Seq<(String, String)>) -> Seq<(Seq<char>, Seq<char>)> {
    h.map_values(|p: (String, String)| (p.0@, p.1@))
}

/// Build the common headers required on all plex.tv requests: the product
/// name, the persistent client identifier, and `Accept: application/json`
/// (without it, Plex answers in XML).
pub fn build_plex_headers(client_id: &str) -> (r: Vec<(String, String)>)
    ensures
        header_views(r@) == plex_headers_spec(client_id@),
{
    let mut h: Vec<(String, String)> = Vec::new();
    h.push((String::from_str("X-Plex-Product"), String::from_str("TermTunes")));
    h.push((String::from_str("X-Plex-Client-Identifier"), String::from_str(client_id)));
    h.push((String::from_str("Accept"), String::from_str("application/json")));
    assert(header_views(h@) =~= plex_headers_spec(client_id@));
    h
}

/// The plex.tv headers with the auth token added (`X-Plex-Token`).
pub fn build_token_headers(client_id: &str, token: &str) -> (r: Vec<(String, String)>)
    ensures
        header_views(r@) == plex_headers_spec(client_id@).push(("X-Plex-Token"@, token@)),
{
    let mut h = build_plex_headers(client_id);
    let ghost before = h@;
    h.push((String::from_str("X-Plex-Token"), String::from_str(token)));
    assert(header_views(h@) =~= header_views(before).push(("X-Plex-Token"@, token@)));
    h
}

/// The address of the Plex sign-in page for a PIN.
pub open spec fn auth_url_text(client_id: Seq<char>, code: Seq<char>) -> Seq<char> {
    "https://app.plex.tv/auth#?clientID="@ + client_id + "&code="@ + code
        + "&context%5Bdevice%5D%5Bproduct%5D=TermTunes"@
}

/// The URL where the user signs in to authorize the PIN `code`.
pub fn auth_url(client_id: &str, code: &str) -> (r: String)
    ensures
        r@ == auth_url_text(client_id@, code@),
{
    let mut s = String::from_str("https://app.plex.tv/auth#?clientID=");
    s.append(client_id);
    s.append("&code=");
    s.append(code);
    s.append("&context%5Bdevice%5D%5Bproduct%5D=TermTunes");
    s
}

/// How many times the PIN is checked (once a second) before giving up.
pub const AUTH_POLL_LIMIT: u32 = 300;

/// What to do after a check of the PIN.
#[derive(Debug, Clone)]
pub enum AuthPoll {
    /// The user authorized the PIN: here is the token.
    Authorized(String),
    /// Not yet: wait a second and check again.
    Waiting,
    /// Five minutes have passed without authorization.
    TimedOut,
}

/// The decision after the `polls_done`-th check of the PIN, which returned
/// `token`: the token as soon as there is one; otherwise wait, until the
/// limit of checks is reached.
pub fn auth_poll_outcome(polls_done: u32, token: Option<String>) -> (r: AuthPoll)
    ensures
        match token {
            Some(t) => r == AuthPoll::Authorized(t),
            None => if polls_done >= AUTH_POLL_LIMIT {
                r is TimedOut
            } else {
                r is Waiting
            },
        },
{
    match token {
        Some(t) => AuthPoll::Authorized(t),
        None => if polls_done >= AUTH_POLL_LIMIT {
            AuthPoll::TimedOut
        } else {
            AuthPoll::Waiting
        },
    }
}

/// How the server is chosen once the account's servers are known.
#[derive(Debug, Clone, Copy, PartialEq, Eq, Structural)]
pub enum ServerSelection {
    /// The account has no reachable server: sign-in fails.
    NoneFound,
    /// Exactly one server: it is taken without asking.
    Only,
    /// Several servers: the user is asked to pick one.
    Ask,
}

/// The way to choose among `count` discovered servers.
pub fn server_selection(count: usize) -> (r: ServerSelection)
    ensures
        r == if count == 0 {
            ServerSelection::NoneFound
        } else if count == 1 {
            ServerSelection::Only
        } else {
            ServerSelection::Ask
        },
{
    if count == 0 {
        ServerSelection::NoneFound
    } else if count == 1 {
        ServerSelection::Only
    } else {
        ServerSelection::Ask
    }
}

/// Why a typed server choice was refused.
#[derive(Debug, Clone, Copy, PartialEq, Eq, Structural)]
pub enum ServerChoiceError {
    /// Not a number.
    Invalid,
    /// A number outside 1..=count.
    OutOfRange(usize),
}

/// The server picked by a typed answer: the answer, trimmed, must be a
/// number from 1 to `count`; the result is its position in the list.
pub fn parse_server_choice(input: &str, count: usize) -> (r: Result<usize, ServerChoiceError>)
    ensures
        match parse_unsigned(trimmed(input@), usize::MAX as nat) {
            None => r == Err::<usize, ServerChoiceError>(ServerChoiceError::Invalid),
            Some(v) => if 1 <= v && v <= count {
                r == Ok::<usize, ServerChoiceError>((v - 1) as usize)
            } else {
                r == Err::<usize, ServerChoiceError>(ServerChoiceError::OutOfRange(v as usize))
            },
        },
{
    let t = trim_text(input);
    match parse_unsigned_text(t.as_str(), usize::MAX as u64) {
        None => Err(ServerChoiceError::Invalid),
        Some(v) => {
            let choice = v as usize;
            if choice < 1 || choice > count {
                Err(ServerChoiceError::OutOfRange(choice))
            } else {
                Ok(choice - 1)
            }
        },
    }
}

} // verus!
