use termtunes::config::{insert_entry, Config, Entry, FavoritePlaylist, ServerConfig};
use termtunes::plex::{
    pick_best_connection, servers_from_resources, track_part_key, Connection, Media, Part, PlexClient, Resource,
    Track,
};
use termtunes::shuffle::shuffled_order;

fn conn(uri: &str, local: bool, relay: bool) -> Connection {
    Connection { uri: uri.to_string(), local, relay }
}

#[test]
fn plex_client_trims_trailing_slashes() {
    let c = PlexClient::new("http://192.168.1.100:32400/", "tok", "cid");
    assert_eq!(c.server_url(), "http://192.168.1.100:32400");
    assert_eq!(c.token(), "tok");
    assert_eq!(c.client_id(), "cid");
}

#[test]
fn stream_url_appends_part_and_token() {
    let c = PlexClient::new("http://host:32400//", "secret", "cid");
    assert_eq!(
        c.stream_url("/library/parts/12345/file.flac"),
        "http://host:32400/library/parts/12345/file.flac?X-Plex-Token=secret"
    );
    assert_eq!(c.playlists_url(), "http://host:32400/playlists");
    assert_eq!(c.playlist_items_url("42"), "http://host:32400/playlists/42/items");
}

#[test]
fn best_connection_prefers_local_then_direct_then_relay() {
    let cs = vec![conn("relay", false, true), conn("remote", false, false), conn("lan", true, false)];
    assert_eq!(pick_best_connection(&cs), Some("lan".to_string()));
    let cs = vec![conn("relay", false, true), conn("remote", false, false), conn("remote2", false, false)];
    assert_eq!(pick_best_connection(&cs), Some("remote".to_string()));
    let cs = vec![conn("relay1", true, true), conn("relay2", false, true)];
    assert_eq!(pick_best_connection(&cs), Some("relay1".to_string()));
    assert_eq!(pick_best_connection(&Vec::new()), None);
}

#[test]
fn discovery_keeps_reachable_servers_in_order() {
    let resources = vec![
        Resource {
            name: "Home".to_string(),
            client_identifier: "m1".to_string(),
            provides: "server,client".to_string(),
            connections: vec![conn("https://remote", false, false), conn("http://lan", true, false)],
        },
        Resource {
            name: "Phone".to_string(),
            client_identifier: "m2".to_string(),
            provides: "client,player".to_string(),
            connections: vec![conn("http://phone", true, false)],
        },
        Resource {
            name: "Empty".to_string(),
            client_identifier: "m3".to_string(),
            provides: "server".to_string(),
            connections: Vec::new(),
        },
        Resource {
            name: "Cloud".to_string(),
            client_identifier: "m4".to_string(),
            provides: "server".to_string(),
            connections: vec![conn("https://relay", false, true)],
        },
    ];
    let servers = servers_from_resources(&resources);
    assert_eq!(servers.len(), 2);
    assert_eq!(servers[0].name, "Home");
    assert_eq!(servers[0].client_identifier, "m1");
    assert_eq!(servers[0].uri, "http://lan");
    assert_eq!(servers[1].name, "Cloud");
    assert_eq!(servers[1].uri, "https://relay");
}

#[test]
fn part_key_is_the_first_part_of_the_first_media() {
    let mut t = Track {
        rating_key: "1".to_string(),
        title: "Song".to_string(),
        artist: None,
        album: None,
        duration: None,
        media: vec![Media { parts: vec![Part { key: "/p/1".to_string() }, Part { key: "/p/2".to_string() }] }],
    };
    assert_eq!(track_part_key(&t), Some(&"/p/1".to_string()));
    t.media = vec![Media { parts: Vec::new() }];
    assert_eq!(track_part_key(&t), None);
}

#[test]
fn fresh_config_has_a_v4_client_id() {
    let c = Config::fresh();
    let id: Vec<char> = c.client_id.chars().collect();
    assert_eq!(id.len(), 36);
    for (i, ch) in id.iter().enumerate() {
        if i == 8 || i == 13 || i == 18 || i == 23 {
            assert_eq!(*ch, '-');
        } else {
            assert!(ch.is_ascii_hexdigit() && !ch.is_ascii_uppercase());
        }
    }
    assert_eq!(id[14], '4');
    assert!(c.last_server.is_none());
    assert!(c.servers.is_empty() && c.favorites.is_empty());
    assert_ne!(Config::fresh().client_id, c.client_id);
}

#[test]
fn favorites_replace_in_place_or_append() {
    let mut c = Config::fresh();
    c.set_favorite("1".to_string(), FavoritePlaylist { rating_key: "10".to_string(), title: "Focus".to_string() });
    c.set_favorite("2".to_string(), FavoritePlaylist { rating_key: "20".to_string(), title: "Run".to_string() });
    c.set_favorite("1".to_string(), FavoritePlaylist { rating_key: "30".to_string(), title: "Sleep".to_string() });
    assert_eq!(c.favorites.len(), 2);
    assert_eq!(c.favorites[0].key, "1");
    assert_eq!(c.favorite("1").unwrap().title, "Sleep");
    assert_eq!(c.favorite("2").unwrap().rating_key, "20");
    assert!(c.favorite("3").is_none());
}

#[test]
fn remembered_server_becomes_the_last_one() {
    let mut c = Config::fresh();
    assert!(c.last_server_config().is_none());
    c.remember_server(
        "machine-1".to_string(),
        ServerConfig { name: "Home".to_string(), url: "http://lan".to_string(), token: "t1".to_string() },
    );
    c.remember_server(
        "machine-1".to_string(),
        ServerConfig { name: "Home".to_string(), url: "http://lan2".to_string(), token: "t2".to_string() },
    );
    assert_eq!(c.servers.len(), 1);
    assert_eq!(c.last_server.as_deref(), Some("machine-1"));
    let s = c.last_server_config().unwrap();
    assert_eq!((s.url.as_str(), s.token.as_str()), ("http://lan2", "t2"));
    assert!(c.server("other").is_none());
}

#[test]
fn insert_entry_keeps_keys_distinct() {
    let mut v: Vec<Entry<u32>> = Vec::new();
    insert_entry(&mut v, "a".to_string(), 1);
    insert_entry(&mut v, "b".to_string(), 2);
    insert_entry(&mut v, "a".to_string(), 3);
    assert_eq!(v.len(), 2);
    assert_eq!((v[0].key.as_str(), v[0].value), ("a", 3));
    assert_eq!((v[1].key.as_str(), v[1].value), ("b", 2));
}

#[test]
fn shuffle_order_is_a_permutation_with_current_first() {
    for n in 0..12usize {
        for current in [None, Some(0), Some(n / 2), Some(n + 3)] {
            let order = shuffled_order(n, current);
            let mut sorted = order.clone();
            sorted.sort();
            assert_eq!(sorted, (0..n).collect::<Vec<usize>>());
            if let Some(c) = current {
                if c < n {
                    assert_eq!(order[0], c);
                }
            }
        }
    }
}

#[test]
fn shuffle_order_actually_shuffles() {
    let identity: Vec<usize> = (0..10).collect();
    let mut changed = false;
    for _ in 0..8 {
        if shuffled_order(10, None) != identity {
            changed = true;
        }
    }
    assert!(changed);
}
