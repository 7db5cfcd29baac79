use termtunes::app::{key_action, App, AppView, Key, KeyAction};
use termtunes::browser::{browser_items, browser_no_matches, browser_search_text, browser_title, Album, BrowserView};
use termtunes::config::Config;
use termtunes::plex::{Playlist, PlexClient, Track};

fn track(title: &str, artist: Option<&str>) -> Track {
    Track {
        rating_key: "k".to_string(),
        title: title.to_string(),
        artist: artist.map(|a| a.to_string()),
        album: None,
        duration: None,
        media: Vec::new(),
    }
}

fn new_app() -> App {
    App::new(
        Config { client_id: "c".to_string(), last_server: None, servers: Vec::new(), favorites: Vec::new() },
        PlexClient::new("http://s", "t", "c"),
        "S".to_string(),
        vec![Playlist { rating_key: "1".to_string(), title: "Rock".to_string(), leaf_count: None, duration: None }],
    )
}

#[test]
fn top_level_offers_playlists_and_artists() {
    let v = BrowserView::TopLevel;
    assert_eq!(browser_items(&v), vec!["Playlists", "Artists"]);
    assert_eq!(browser_title(&v), " Ambient Browser ");
    assert_eq!(browser_search_text(&v), None);
    assert!(!browser_no_matches(&v));
}

#[test]
fn track_lists_start_with_play_all() {
    let v = BrowserView::PlaylistTracks {
        playlist_title: "Rain".to_string(),
        tracks: vec![track("Storm", Some("Nature")), track("Drizzle", None)],
    };
    assert_eq!(browser_items(&v), vec![">> Play All (2 tracks)", "  Storm - Nature", "  Drizzle - Unknown"]);
    assert_eq!(browser_title(&v), " Rain ");
    let v = BrowserView::ArtistTracks { album_title: "Live".to_string(), artist_name: "Band".to_string(), tracks: Vec::new() };
    assert_eq!(browser_items(&v), vec![">> Play All (0 tracks)"]);
    assert_eq!(browser_title(&v), " Live - Band ");
}

#[test]
fn playlists_and_albums_show_counts_and_years() {
    let v = BrowserView::Playlists {
        playlists: vec![
            Playlist { rating_key: "1".to_string(), title: "Calm".to_string(), leaf_count: Some(12), duration: None },
            Playlist { rating_key: "2".to_string(), title: "Noise".to_string(), leaf_count: None, duration: None },
        ],
    };
    assert_eq!(browser_items(&v), vec!["Calm (12 tracks)", "Noise"]);
    assert_eq!(browser_title(&v), " Playlists ");
    let v = BrowserView::Albums {
        artist_name: "Band".to_string(),
        albums: vec![
            Album { title: "First".to_string(), year: Some(1999) },
            Album { title: "Demo".to_string(), year: None },
        ],
    };
    assert_eq!(browser_items(&v), vec!["First (1999)", "Demo"]);
    assert_eq!(browser_title(&v), " Band - Albums ");
}

#[test]
fn artist_search_filters_and_reports_matches() {
    let all: Vec<String> = vec!["Abba".to_string(), "Blur".to_string(), "Cream".to_string()];
    let v = BrowserView::Artists { all_artists: all.clone(), filtered_indices: vec![0, 1, 2], search_query: String::new() };
    assert_eq!(browser_items(&v), vec!["Abba", "Blur", "Cream"]);
    assert_eq!(browser_title(&v), " Artists ");
    assert_eq!(browser_search_text(&v), Some("Type to search...".to_string()));
    let v = BrowserView::Artists { all_artists: all.clone(), filtered_indices: vec![2, 7], search_query: "re".to_string() };
    assert_eq!(browser_items(&v), vec!["Cream"]);
    assert_eq!(browser_title(&v), " Artists - 2 matches ");
    assert_eq!(browser_search_text(&v), Some("Search: re_".to_string()));
    assert!(!browser_no_matches(&v));
    let v = BrowserView::Artists { all_artists: all, filtered_indices: Vec::new(), search_query: "zz".to_string() };
    assert!(browser_items(&v).is_empty());
    assert!(browser_no_matches(&v));
}

#[test]
fn b_opens_the_browser_and_esc_closes_it() {
    assert_eq!(key_action(Key::Char('b'), false), KeyAction::OpenBrowser);
    let mut app = new_app();
    assert!(app.browser().is_none());
    assert!(app.handle_key(Key::Char('b'), false).is_empty());
    assert!(matches!(app.browser(), Some(BrowserView::TopLevel)));
    app.handle_key(Key::Enter, false);
    assert_eq!(*app.view(), AppView::Playlists);
    app.playlist_tracks_loaded(vec![track("Song", None)]);
    assert_eq!(*app.view(), AppView::Tracks);
    // Esc closes the browser first; the track list stays.
    app.handle_key(Key::Esc, false);
    assert!(app.browser().is_none());
    assert_eq!(*app.view(), AppView::Tracks);
    app.handle_key(Key::Esc, false);
    assert_eq!(*app.view(), AppView::Playlists);
    // Ctrl+C quits with the browser open.
    app.handle_key(Key::Char('b'), false);
    app.handle_key(Key::Char('c'), true);
    assert!(!app.is_running());
}
