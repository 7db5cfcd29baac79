//! Plex server data: playlists, tracks, discovered servers, and the request
//! addresses of a connected server.

use vstd::prelude::*;

use crate::text::{str_contains, strip_trailing, strip_trailing_char, contains_seq};

verus! {

/// A Plex server discovered via the resources endpoint.
#[derive(Debug, Clone)]
pub struct PlexServer {
    /// Human-readable server name.
    pub name: String,
    /// Machine identifier (stable across restarts, used as config key).
    pub client_identifier: String,
    /// Best connection URI for this server (selected from connections list).
    pub uri: String,
}

/// Raw resource entry from `GET /api/v2/resources`.
#[derive(Debug, Clone)]
pub struct Resource {
    pub name: String,
    pub client_identifier: String,
    pub provides: String,
    pub connections: Vec<Connection>,
}

/// A single connection option for a Plex resource (server).
#[derive(Debug, Clone)]
pub struct Connection {
    pub uri: String,
    pub local: bool,
    pub relay: bool,
}

/// Top-level wrapper for the playlists response.
#[derive(Debug, Clone)]
pub struct PlaylistContainer {
    pub media_container: PlaylistMediaContainer,
}

/// The inner container holding the list of playlists.
#[derive(Debug, Clone)]
pub struct PlaylistMediaContainer {
    pub metadata: Vec<Playlist>,
}

/// A single audio playlist on the Plex server.
#[derive(Debug, Clone)]
pub struct Playlist {
    pub rating_key: String,
    pub title: String,
    pub leaf_count: Option<u32>,
    pub duration: Option<u64>,
}

/// Top-level wrapper for the track list response.
#[derive(Debug, Clone)]
pub struct TrackContainer {
    pub media_container: TrackMediaContainer,
}

/// The inner container holding the list of tracks.
#[derive(Debug, Clone)]
pub struct TrackMediaContainer {
    pub metadata: Vec<Track>,
}

/// A single audio track.
#[derive(Debug, Clone)]
pub struct Track {
    pub rating_key: String,
    pub title: String,
    /// Artist name (from grandparentTitle in the Plex response).
    pub artist: Option<String>,
    /// Album name (from parentTitle in the Plex response).
    pub album: Option<String>,
    pub duration: Option<u64>,
    pub media: Vec<Media>,
}

/// Media container within a Track (codec/bitrate level).
#[derive(Debug, Clone)]
pub struct Media {
    pub parts: Vec<Part>,
}

/// A single media part: holds the key used to construct the stream URL.
#[derive(Debug, Clone)]
pub struct Part {
    pub key: String,
}

/// The key of the first part of the first media entry of a track, if any.
pub open spec fn first_part_key(t: Track) -> Option<String> {
    if t.media@.len() > 0 && t.media@[0].parts@.len() > 0 {
        Some(t.media@[0].parts@[0].key)
    } else {
        None
    }
}

/// Returns the key of the track's first media part, if it has one.
pub fn track_part_key(t: &Track) -> (r: Option<&String>)
    ensures
        r matches Some(k) ==> first_part_key(*t) == Some(*k),
        r is None <==> first_part_key(*t) is None,
{
    if t.media.len() > 0 && t.media[0].parts.len() > 0 {
        Some(&t.media[0].parts[0].key)
    } else {
        None
    }
}

/// The stream address of a media part on a server.
pub open spec fn stream_url_text(server_url: Seq<char>, part_key: Seq<char>, token: Seq<char>) -> Seq<char> {
    server_url + part_key + "?X-Plex-Token="@ + token
}

/// A connected Plex media server: its base address (without trailing
/// slashes), the auth token and the client identifier sent with every
/// request.
#[derive(Debug, Clone)]
pub struct PlexClient {
    server_url: String,
    token: String,
    client_id: String,
}

impl PlexClient {
    pub closed spec fn spec_server_url(&self) -> Seq<char> {
        self.server_url@
    }

    pub closed spec fn spec_token(&self) -> Seq<char> {
        self.token@
    }

    pub closed spec fn spec_client_id(&self) -> Seq<char> {
        self.client_id@
    }

    /// Create a client for a specific server. Trailing `/` characters of
    /// the server address are removed.
    pub fn new(server_url: &str, token: &str, client_id: &str) -> (r: Self)
        ensures
            r.spec_server_url() == strip_trailing(server_url@, '/'),
            r.spec_token() == token@,
            r.spec_client_id() == client_id@,
    {
        PlexClient {
            server_url: strip_trailing_char(server_url, '/'),
            token: String::from_str(token),
            client_id: String::from_str(client_id),
        }
    }

    /// The server's base address.
    pub fn server_url(&self) -> (r: &str)
        ensures
            r@ == self.spec_server_url(),
    {
        self.server_url.as_str()
    }

    /// The auth token of this server.
    pub fn token(&self) -> (r: &str)
        ensures
            r@ == self.spec_token(),
    {
        self.token.as_str()
    }

    /// The client identifier sent with every request.
    pub fn client_id(&self) -> (r: &str)
        ensures
            r@ == self.spec_client_id(),
    {
        self.client_id.as_str()
    }

    /// Construct a stream URL for a media part: the server address, the
    /// part key, then the token as the `X-Plex-Token` query parameter.
    pub fn stream_url(&self, part_key: &str) -> (r: String)
        ensures
            r@ == stream_url_text(self.spec_server_url(), part_key@, self.spec_token()),
    {
        let mut s = self.server_url.clone();
        s.append(part_key);
        s.append("?X-Plex-Token=");
        s.append(self.token.as_str());
        s
    }

    /// The address listing the server's playlists.
    pub fn playlists_url(&self) -> (r: String)
        ensures
            r@ == self.spec_server_url() + "/playlists"@,
    {
        let mut s = self.server_url.clone();
        s.append("/playlists");
        s
    }

    /// The address listing the items of a playlist.
    pub fn playlist_items_url(&self, rating_key: &str) -> (r: String)
        ensures
            r@ == self.spec_server_url() + "/playlists/"@ + rating_key@ + "/items"@,
    {
        let mut s = self.server_url.clone();
        s.append("/playlists/");
        s.append(rating_key);
        s.append("/items");
        s
    }
}

// ---------------------------------------------------------------------------
// Server discovery
// ---------------------------------------------------------------------------

/// A local connection that does not go through a relay.
pub open spec fn is_local_direct(c: Connection) -> bool {
    c.local && !c.relay
}

/// Whether `i` is the connection the priority order picks: the first local
/// direct connection; failing that, the first direct connection; failing
/// that, the first connection.
pub open spec fn is_best_connection(cs: Seq<Connection>, i: int) -> bool {
    &&& 0 <= i < cs.len()
    &&& {
        ||| is_local_direct(cs[i]) && (forall|j: int| 0 <= j < i ==> !is_local_direct(#[trigger] cs[j]))
        ||| (forall|j: int| 0 <= j < cs.len() ==> !is_local_direct(#[trigger] cs[j])) && !cs[i].relay
            && (forall|j: int| 0 <= j < i ==> (#[trigger] cs[j]).relay)
        ||| (forall|j: int| 0 <= j < cs.len() ==> (#[trigger] cs[j]).relay) && i == 0
    }
}

/// The URI of the preferred connection, if there is any connection.
pub open spec fn best_connection(cs: Seq<Connection>) -> Option<String> {
    if cs.len() > 0 {
        Some(cs[choose|i: int| is_best_connection(cs, i)].uri)
    } else {
        None
    }
}

proof fn lemma_best_connection_unique(cs: Seq<Connection>, i: int, k: int)
    requires
        is_best_connection(cs, i),
        is_best_connection(cs, k),
    ensures
        i == k,
{
    let ci = cs[i];
    let ck = cs[k];
    assert(is_local_direct(ci) || !is_local_direct(ci));
    assert(is_local_direct(ck) || !is_local_direct(ck));
}

/// Select the best connection URI from a list of server connections.
///
/// Priority: local connections first, then non-relay direct connections,
/// then relay connections as a last resort.
pub fn pick_best_connection(connections: &Vec<Connection>) -> (r: Option<String>)
    ensures
        r == best_connection(connections@),
{
    let n = connections.len();
    let mut i: usize = 0;
    while i < n
        invariant
            n == connections@.len(),
            i <= n,
            forall|j: int| 0 <= j < i ==> !is_local_direct(#[trigger] connections@[j]),
        decreases n - i,
    {
        if connections[i].local && !connections[i].relay {
            proof {
                assert(is_best_connection(connections@, i as int));
                lemma_best_connection_unique(connections@, i as int, choose|k: int| is_best_connection(connections@, k));
            }
            return Some(connections[i].uri.clone());
        }
        i = i + 1;
    }
    let mut i: usize = 0;
    while i < n
        invariant
            n == connections@.len(),
            i <= n,
            forall|j: int| 0 <= j < n ==> !is_local_direct(#[trigger] connections@[j]),
            forall|j: int| 0 <= j < i ==> (#[trigger] connections@[j]).relay,
        decreases n - i,
    {
        if !connections[i].relay {
            proof {
                assert(is_best_connection(connections@, i as int));
                lemma_best_connection_unique(connections@, i as int, choose|k: int| is_best_connection(connections@, k));
            }
            return Some(connections[i].uri.clone());
        }
        i = i + 1;
    }
    if n > 0 {
        proof {
            assert(is_best_connection(connections@, 0));
            lemma_best_connection_unique(connections@, 0, choose|k: int| is_best_connection(connections@, k));
        }
        Some(connections[0].uri.clone())
    } else {
        None
    }
}

/// Whether a resource is a media server that can be reached.
pub open spec fn is_usable_server(r: Resource) -> bool {
    contains_seq(r.provides@, "server"@) && r.connections@.len() > 0
}

/// The server entry a usable resource stands for.
pub open spec fn server_of(r: Resource) -> PlexServer {
    PlexServer { name: r.name, client_identifier: r.client_identifier, uri: best_connection(r.connections@)->0 }
}

/// The servers among `rs`, in order.
pub open spec fn servers_of(rs: Seq<Resource>) -> Seq<PlexServer>
    decreases rs.len(),
{
    if rs.len() == 0 {
        Seq::empty()
    } else if is_usable_server(rs.last()) {
        servers_of(rs.drop_last()).push(server_of(rs.last()))
    } else {
        servers_of(rs.drop_last())
    }
}

/// Keep the resources that provide a server and have a connection, each
/// with its best connection URI, in the order given.
pub fn servers_from_resources(resources: &Vec<Resource>) -> (r: Vec<PlexServer>)
    ensures
        r@ == servers_of(resources@),
{
    let mut out: Vec<PlexServer> = Vec::new();
    let n = resources.len();
    let mut i: usize = 0;
    while i < n
        invariant
            n == resources@.len(),
            i <= n,
            out@ == servers_of(resources@.take(i as int)),
        decreases n - i,
    {
        let res = &resources[i];
        assert(resources@.take(i + 1).drop_last() =~= resources@.take(i as int));
        assert(resources@.take(i + 1).last() == resources@[i as int]);
        if str_contains(res.provides.as_str(), "server") {
            let best = pick_best_connection(&res.connections);
            match best {
                Some(uri) => {
                    out.push(PlexServer {
                        name: res.name.clone(),
                        client_identifier: res.client_identifier.clone(),
                        uri,
                    });
                },
                None => {},
            }
        }
        i = i + 1;
    }
    assert(resources@.take(n as int) =~= resources@);
    out
}

} // verus!
