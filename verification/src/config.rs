//! Configuration and session data: server credentials, favorite playlists,
//! and the playback state kept across restarts.

use vstd::prelude::*;

use crate::text::str_equal;

verus! {

/// An entry of a string-keyed table, kept in insertion order.
#[derive(Debug, Clone)]
pub struct Entry<V> {
    pub key: String,
    pub value: V,
}

/// Whether `i` is the first position of `key` in `entries`.
pub open spec fn is_first_key<V>(entries: Seq<Entry<V>>, key: Seq<char>, i: int) -> bool {
    &&& 0 <= i < entries.len()
    &&& entries[i].key@ == key
    &&& forall|j: int| 0 <= j < i ==> (#[trigger] entries[j]).key@ != key
}

/// Whether `key` occurs in `entries`.
pub open spec fn has_key<V>(entries: Seq<Entry<V>>, key: Seq<char>) -> bool {
    exists|i: int| 0 <= i < entries.len() && (#[trigger] entries[i]).key@ == key
}

/// The position of the first entry with `key`.
pub open spec fn key_index<V>(entries: Seq<Entry<V>>, key: Seq<char>) -> int {
    choose|i: int| is_first_key(entries, key, i)
}

/// The value stored under `key`.
pub open spec fn lookup<V>(entries: Seq<Entry<V>>, key: Seq<char>) -> Option<V> {
    if has_key(entries, key) {
        Some(entries[key_index(entries, key)].value)
    } else {
        None
    }
}

/// The table after storing `value` under `key`: an entry with that key is
/// given the new value in place, otherwise a new entry is appended.
pub open spec fn inserted<V>(entries: Seq<Entry<V>>, key: String, value: V) -> Seq<Entry<V>> {
    if has_key(entries, key@) {
        let i = key_index(entries, key@);
        entries.update(i, Entry { key: entries[i].key, value })
    } else {
        entries.push(Entry { key, value })
    }
}

/// No key occurs twice.
pub open spec fn keys_distinct<V>(entries: Seq<Entry<V>>) -> bool {
    forall|i: int, j: int|
        0 <= i < entries.len() && 0 <= j < entries.len() && i != j ==> (#[trigger] entries[i]).key@
            != (#[trigger] entries[j]).key@
}

pub proof fn lemma_first_key_exists<V>(entries: Seq<Entry<V>>, key: Seq<char>)
    requires
        has_key(entries, key),
    ensures
        is_first_key(entries, key, key_index(entries, key)),
    decreases entries.len(),
{
    let i = choose|i: int| 0 <= i < entries.len() && (#[trigger] entries[i]).key@ == key;
    if forall|j: int| 0 <= j < i ==> (#[trigger] entries[j]).key@ != key {
        assert(is_first_key(entries, key, i));
    } else {
        let prefix = entries.take(i);
        let j = choose|j: int| 0 <= j < i && (#[trigger] entries[j]).key@ != key == false;
        assert(prefix[j] == entries[j]);
        assert(has_key(prefix, key));
        lemma_first_key_exists(prefix, key);
        let k = key_index(prefix, key);
        assert forall|m: int| 0 <= m < k implies (#[trigger] entries[m]).key@ != key by {
            assert(prefix[m] == entries[m]);
        }
        assert(is_first_key(entries, key, k));
    }
}

proof fn lemma_first_key_unique<V>(entries: Seq<Entry<V>>, key: Seq<char>, i: int, k: int)
    requires
        is_first_key(entries, key, i),
        is_first_key(entries, key, k),
    ensures
        i == k,
{
    if i < k {
        assert(entries[i].key@ != key);
    } else if k < i {
        assert(entries[k].key@ != key);
    }
}

/// Finds the position of the first entry with `key`.
pub fn find_key<V>(entries: &Vec<Entry<V>>, key: &str) -> (r: Option<usize>)
    ensures
        r is Some <==> has_key(entries@, key@),
        r matches Some(i) ==> i == key_index(entries@, key@) && is_first_key(entries@, key@, i as int),
{
    let n = entries.len();
    let mut i: usize = 0;
    while i < n
        invariant
            n == entries@.len(),
            i <= n,
            forall|j: int| 0 <= j < i ==> (#[trigger] entries@[j]).key@ != key@,
        decreases n - i,
    {
        if str_equal(entries[i].key.as_str(), key) {
            proof {
                assert(is_first_key(entries@, key@, i as int));
                lemma_first_key_exists(entries@, key@);
                lemma_first_key_unique(entries@, key@, i as int, key_index(entries@, key@));
            }
            return Some(i);
        }
        i = i + 1;
    }
    None
}

/// Stores `value` under `key` (the insertion of a map: an existing entry
/// keeps its place and key, and takes the new value).
pub fn insert_entry<V>(entries: &mut Vec<Entry<V>>, key: String, value: V)
    ensures
        final(entries)@ == inserted(old(entries)@, key, value),
{
    match find_key(entries, key.as_str()) {
        Some(i) => {
            let k = entries[i].key.clone();
            entries.set(i, Entry { key: k, value });
        },
        None => {
            entries.push(Entry { key, value });
        },
    }
}

/// A value stored under a key can be read back, and storing leaves every
/// other key's value as it was.
pub proof fn lemma_lookup_inserted<V>(entries: Seq<Entry<V>>, key: String, value: V, other: Seq<char>)
    ensures
        lookup(inserted(entries, key, value), key@) == Some(value),
        other != key@ ==> lookup(inserted(entries, key, value), other) == lookup(entries, other),
{
    let after = inserted(entries, key, value);
    if has_key(entries, key@) {
        lemma_first_key_exists(entries, key@);
        let i = key_index(entries, key@);
        assert(after[i].key@ == key@);
        assert(is_first_key(after, key@, i));
        lemma_first_key_exists(after, key@);
        lemma_first_key_unique(after, key@, i, key_index(after, key@));
    } else {
        let i = entries.len() as int;
        assert(after[i].key@ == key@);
        assert forall|j: int| 0 <= j < i implies (#[trigger] after[j]).key@ != key@ by {
            assert(after[j] == entries[j]);
        }
        assert(is_first_key(after, key@, i));
        lemma_first_key_exists(after, key@);
        lemma_first_key_unique(after, key@, i, key_index(after, key@));
    }
    if other != key@ {
        lemma_lookup_other(entries, key, value, other);
    }
}

proof fn lemma_lookup_other<V>(entries: Seq<Entry<V>>, key: String, value: V, other: Seq<char>)
    requires
        other != key@,
    ensures
        lookup(inserted(entries, key, value), other) == lookup(entries, other),
{
    let after = inserted(entries, key, value);
    if has_key(entries, key@) {
        lemma_first_key_exists(entries, key@);
    }
    assert(after.len() >= entries.len());
    assert forall|j: int| 0 <= j < entries.len() implies (#[trigger] after[j]).key@ == entries[j].key@ && (
    after[j].key@ == other ==> after[j].value == entries[j].value) by {}
    if has_key(entries, other) {
        lemma_first_key_exists(entries, other);
        let i = key_index(entries, other);
        assert(after[i].key@ == other);
        assert(is_first_key(after, other, i));
        lemma_first_key_exists(after, other);
        lemma_first_key_unique(after, other, i, key_index(after, other));
    } else {
        assert forall|j: int| 0 <= j < after.len() implies (#[trigger] after[j]).key@ != other by {
            if j < entries.len() {
                assert(entries[j].key@ != other);
            }
        }
    }
}

/// Storing a value keeps the keys distinct.
pub proof fn lemma_inserted_keys_distinct<V>(entries: Seq<Entry<V>>, key: String, value: V)
    requires
        keys_distinct(entries),
    ensures
        keys_distinct(inserted(entries, key, value)),
{
    let after = inserted(entries, key, value);
    if has_key(entries, key@) {
        lemma_first_key_exists(entries, key@);
        assert forall|i: int, j: int|
            0 <= i < after.len() && 0 <= j < after.len() && i != j implies (#[trigger] after[i]).key@
            != (#[trigger] after[j]).key@ by {
            assert(after[i].key@ == entries[i].key@);
            assert(after[j].key@ == entries[j].key@);
        }
    } else {
        assert forall|i: int, j: int|
            0 <= i < after.len() && 0 <= j < after.len() && i != j implies (#[trigger] after[i]).key@
            != (#[trigger] after[j]).key@ by {
            if i < entries.len() && j < entries.len() {
                assert(after[i] == entries[i]);
                assert(after[j] == entries[j]);
            } else if i < entries.len() {
                assert(after[i] == entries[i]);
            } else {
                assert(after[j] == entries[j]);
            }
        }
    }
}

/// Configuration for a single Plex server.
#[derive(Debug, Clone)]
pub struct ServerConfig {
    /// Human-readable server name.
    pub name: String,
    /// Server URL (e.g., "http://192.168.1.100:32400").
    pub url: String,
    /// X-Plex-Token for authenticating with this server.
    pub token: String,
}

/// A favorite playlist assignment, mapping a hotkey (1-9) to a playlist.
#[derive(Debug, Clone)]
pub struct FavoritePlaylist {
    /// The Plex rating key identifying the playlist.
    pub rating_key: String,
    /// Human-readable playlist title (for display in UI).
    pub title: String,
}

impl FavoritePlaylist {
    /// A copy of this assignment.
    pub fn duplicate(&self) -> (r: Self)
        ensures
            r == *self,
    {
        FavoritePlaylist { rating_key: self.rating_key.clone(), title: self.title.clone() }
    }
}

impl ServerConfig {
    /// A copy of this server configuration.
    pub fn duplicate(&self) -> (r: Self)
        ensures
            r == *self,
    {
        ServerConfig { name: self.name.clone(), url: self.url.clone(), token: self.token.clone() }
    }
}

/// Top-level application configuration.
///
/// Contains a persistent client_id (UUID v4) used as X-Plex-Client-Identifier,
/// the last-used server identifier, the server configurations keyed by
/// machine identifier, and the favorite playlists keyed by number key
/// ("1" through "9").
#[derive(Debug, Clone)]
pub struct Config {
    /// Persistent UUID for the X-Plex-Client-Identifier header.
    pub client_id: String,
    /// Machine identifier of the last-used Plex server.
    pub last_server: Option<String>,
    /// Server configurations keyed by machine identifier.
    pub servers: Vec<Entry<ServerConfig>>,
    /// Favorite playlist assignments keyed by number key.
    pub favorites: Vec<Entry<FavoritePlaylist>>,
}

/// The hyphenated lowercase form of a version 4 UUID.
pub open spec fn is_v4_uuid_text(s: Seq<char>) -> bool {
    &&& s.len() == 36
    &&& s[8] == '-' && s[13] == '-' && s[18] == '-' && s[23] == '-'
    &&& s[14] == '4'
    &&& forall|i: int|
        0 <= i < 36 && i != 8 && i != 13 && i != 18 && i != 23 ==> ('0' <= #[trigger] s[i] <= '9'
            || 'a' <= s[i] <= 'f')
}

/// A fresh random client identifier (`uuid::Uuid::new_v4()` rendered with
/// `to_string()`).
///
/// Trusted: the contract claims the hyphenated lowercase layout that uuid's
/// `Display` writes and the version digit `4` that `new_v4` sets. Which
/// random digits come out is left open.
#[verifier::external_body]
fn new_client_id() -> (r: String)
    ensures
        is_v4_uuid_text(r@),
{
    uuid::Uuid::new_v4().to_string()
}

impl Config {
    /// The configuration of a first run: a fresh random client identifier,
    /// no server, no favorites.
    pub fn fresh() -> (r: Config)
        ensures
            is_v4_uuid_text(r.client_id@),
            r.last_server is None,
            r.servers@.len() == 0,
            r.favorites@.len() == 0,
    {
        Config { client_id: new_client_id(), last_server: None, servers: Vec::new(), favorites: Vec::new() }
    }

    /// Keys of both tables occur once.
    pub open spec fn wf(&self) -> bool {
        keys_distinct(self.servers@) && keys_distinct(self.favorites@)
    }

    /// The favorite playlist assigned to `key`, if any.
    pub fn favorite(&self, key: &str) -> (r: Option<FavoritePlaylist>)
        ensures
            r == lookup(self.favorites@, key@),
    {
        match find_key(&self.favorites, key) {
            Some(i) => Some(self.favorites[i].value.duplicate()),
            None => None,
        }
    }

    /// Assign a favorite playlist to `key`.
    pub fn set_favorite(&mut self, key: String, favorite: FavoritePlaylist)
        ensures
            final(self).favorites@ == inserted(old(self).favorites@, key, favorite),
            final(self).client_id == old(self).client_id,
            final(self).last_server == old(self).last_server,
            final(self).servers == old(self).servers,
    {
        insert_entry(&mut self.favorites, key, favorite);
    }

    /// The stored configuration of the server with machine identifier `id`.
    pub fn server(&self, id: &str) -> (r: Option<ServerConfig>)
        ensures
            r == lookup(self.servers@, id@),
    {
        match find_key(&self.servers, id) {
            Some(i) => Some(self.servers[i].value.duplicate()),
            None => None,
        }
    }

    /// The stored configuration of the last-used server, if both the
    /// identifier and its entry exist.
    pub fn last_server_config(&self) -> (r: Option<ServerConfig>)
        ensures
            r == (match self.last_server {
                Some(id) => lookup(self.servers@, id@),
                None => None,
            }),
    {
        match &self.last_server {
            Some(id) => self.server(id.as_str()),
            None => None,
        }
    }

    /// Record a newly authenticated server: store its name, address and
    /// token under its machine identifier and make it the last-used server.
    pub fn remember_server(&mut self, id: String, server: ServerConfig)
        ensures
            final(self).servers@ == inserted(old(self).servers@, id, server),
            final(self).last_server == Some(id),
            final(self).client_id == old(self).client_id,
            final(self).favorites == old(self).favorites,
    {
        let stored = id.clone();
        insert_entry(&mut self.servers, stored, server);
        self.last_server = Some(id);
    }
}

/// Session state for persistence across application restarts.
///
/// Volumes are kept in hundredths (100 is full volume).
#[derive(Debug, Clone)]
pub struct Session {
    /// Rating key of the last-played playlist.
    pub playlist_rating_key: Option<String>,
    /// Title of the last-played playlist (for display).
    pub playlist_title: Option<String>,
    /// Index of the last-played track in the playlist.
    pub track_index: Option<usize>,
    /// Volume level in hundredths.
    pub volume: i64,
    /// Whether shuffle was enabled.
    pub shuffle_enabled: bool,
    /// Repeat mode stored as string ("off", "all", "one").
    pub repeat_mode: String,
    /// Part key of the ambient track.
    pub ambient_part_key: Option<String>,
    /// Display name of the ambient track.
    pub ambient_track_name: Option<String>,
    /// Ambient volume level in hundredths; None means first use.
    pub ambient_volume: Option<i64>,
    /// Whether ambient was playing at save time.
    pub ambient_enabled: bool,
}

} // verus!
