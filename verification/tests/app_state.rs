use termtunes::app::{key_action, App, AppView, Command, Key, KeyAction, RepeatMode, VolumeLevels};
use termtunes::config::{Config, Entry, FavoritePlaylist, Session};
use termtunes::plex::{Media, Part, Playlist, PlexClient, Track};

fn playlist(key: &str, title: &str, count: Option<u32>) -> Playlist {
    Playlist { rating_key: key.to_string(), title: title.to_string(), leaf_count: count, duration: None }
}

fn track(key: &str, title: &str, artist: Option<&str>, part: Option<&str>) -> Track {
    Track {
        rating_key: key.to_string(),
        title: title.to_string(),
        artist: artist.map(|a| a.to_string()),
        album: None,
        duration: Some(185_000),
        media: match part {
            Some(p) => vec![Media { parts: vec![Part { key: p.to_string() }] }],
            None => Vec::new(),
        },
    }
}

fn tracks(n: usize) -> Vec<Track> {
    (0..n).map(|i| track(&format!("t{}", i), &format!("Song {}", i), Some("Band"), Some(&format!("/p/{}", i)))).collect()
}

fn empty_config() -> Config {
    Config { client_id: "cid".to_string(), last_server: None, servers: Vec::new(), favorites: Vec::new() }
}

fn new_app() -> App {
    App::new(
        empty_config(),
        PlexClient::new("http://srv:32400/", "tok", "cid"),
        "Home".to_string(),
        vec![playlist("10", "Rock", Some(3)), playlist("20", "Jazz", None), playlist("30", "Ambient", Some(1))],
    )
}

/// An app showing the tracks of the first playlist.
fn app_with_tracks(n: usize) -> App {
    let mut app = new_app();
    let cmds = app.handle_key(Key::Enter, false);
    assert_eq!(cmds.len(), 1);
    app.playlist_tracks_loaded(tracks(n));
    app
}

/// Report that the downloaded track has started playing.
fn play(app: &mut App) {
    let name = match app.current_track_index() {
        Some(i) => app.tracks()[i].title.clone(),
        None => String::new(),
    };
    app.playback_started(name);
}

fn download_url(cmds: &[Command]) -> Option<(String, String)> {
    cmds.iter().find_map(|c| match c {
        Command::StartDownload { url, track_name } => Some((url.clone(), track_name.clone())),
        _ => None,
    })
}

#[test]
fn new_app_starts_on_the_playlists() {
    let app = new_app();
    assert_eq!(*app.view(), AppView::Playlists);
    assert_eq!(app.selected_playlist(), Some(0));
    assert_eq!(app.selected_track(), None);
    assert_eq!(app.saved_volume(), 100);
    assert_eq!(app.ambient_volume(), 70);
    assert!(!app.shuffle_enabled());
    assert_eq!(app.repeat_mode(), RepeatMode::Off);
    assert!(app.is_running());
    assert!(app.now_playing().is_none());
    assert_eq!(app.server_name(), "Home");
    assert_eq!(app.visualizer_num_bars(), 32);

    let empty = App::new(empty_config(), PlexClient::new("http://s", "t", "c"), "S".to_string(), Vec::new());
    assert_eq!(empty.selected_playlist(), None);
}

#[test]
fn keymap_matches_the_help_text() {
    assert_eq!(key_action(Key::Char('q'), false), KeyAction::Quit);
    assert_eq!(key_action(Key::Char('c'), true), KeyAction::Quit);
    assert_eq!(key_action(Key::Char('c'), false), KeyAction::Ignore);
    assert_eq!(key_action(Key::Char(' '), false), KeyAction::TogglePause);
    assert_eq!(key_action(Key::Char('='), false), KeyAction::VolumeUp);
    assert_eq!(key_action(Key::Char('_'), false), KeyAction::VolumeDown);
    assert_eq!(key_action(Key::Char('>'), false), KeyAction::NextTrack);
    assert_eq!(key_action(Key::Char('N'), false), KeyAction::PrevTrack);
    assert_eq!(key_action(Key::Down, false), KeyAction::SelectionDown);
    assert_eq!(key_action(Key::Char('k'), false), KeyAction::SelectionUp);
    assert_eq!(key_action(Key::Right, false), KeyAction::SeekForward);
    assert_eq!(key_action(Key::Char('h'), false), KeyAction::SeekBackward);
    assert_eq!(key_action(Key::Char('['), false), KeyAction::AmbientVolumeUp);
    assert_eq!(key_action(Key::Char(']'), false), KeyAction::AmbientVolumeDown);
    assert_eq!(key_action(Key::Char('7'), false), KeyAction::Favorite('7'));
    assert_eq!(key_action(Key::Char('0'), false), KeyAction::Ignore);
    assert_eq!(key_action(Key::Backspace, false), KeyAction::Back);
    assert_eq!(key_action(Key::Other, false), KeyAction::Ignore);
}

#[test]
fn quit_stops_the_loop() {
    let mut app = new_app();
    assert!(app.handle_key(Key::Char('q'), false).is_empty());
    assert!(!app.is_running());
}

#[test]
fn playlist_cursor_wraps_both_ways() {
    let mut app = new_app();
    app.handle_key(Key::Char('k'), false);
    assert_eq!(app.selected_playlist(), Some(2));
    app.handle_key(Key::Char('j'), false);
    assert_eq!(app.selected_playlist(), Some(0));
    app.handle_key(Key::Down, false);
    app.handle_key(Key::Down, false);
    app.handle_key(Key::Down, false);
    assert_eq!(app.selected_playlist(), Some(0));
}

#[test]
fn enter_on_a_playlist_fetches_its_tracks() {
    let mut app = new_app();
    app.handle_key(Key::Down, false);
    let cmds = app.handle_key(Key::Enter, false);
    assert_eq!(cmds.len(), 1);
    match &cmds[0] {
        Command::FetchPlaylistTracks { rating_key } => assert_eq!(rating_key, "20"),
        other => panic!("unexpected command {:?}", other),
    }
    assert_eq!(app.current_playlist_title(), "Jazz");
    app.playlist_tracks_loaded(tracks(4));
    assert_eq!(*app.view(), AppView::Tracks);
    assert_eq!(app.tracks().len(), 4);
    assert_eq!(app.selected_track(), Some(0));
}

#[test]
fn enter_on_a_track_downloads_it() {
    let mut app = app_with_tracks(3);
    app.handle_key(Key::Down, false);
    let cmds = app.handle_key(Key::Enter, false);
    assert_eq!(cmds.len(), 1);
    let (url, name) = download_url(&cmds).expect("a download");
    assert_eq!(url, "http://srv:32400/p/1?X-Plex-Token=tok");
    assert_eq!(name, "Song 1");
    assert_eq!(*app.view(), AppView::Downloading);
    assert!(app.download_pending());
    assert_eq!(app.current_track_index(), Some(1));
}

#[test]
fn a_track_without_media_is_not_downloaded() {
    let mut app = new_app();
    app.handle_key(Key::Enter, false);
    app.playlist_tracks_loaded(vec![track("x", "No Media", None, None)]);
    let cmds = app.handle_key(Key::Enter, false);
    assert!(cmds.is_empty());
    assert_eq!(*app.view(), AppView::Tracks);
}

#[test]
fn playback_start_records_now_playing() {
    let mut app = app_with_tracks(2);
    app.handle_key(Key::Enter, false);
    app.player_initialized();
    let cmds = app.playback_started("Song 0".to_string());
    assert_eq!(*app.view(), AppView::Playing);
    assert!(!app.download_pending());
    let np = app.now_playing().expect("now playing");
    assert_eq!(np.artist, "Band");
    assert_eq!(np.album, "Unknown Album");
    assert_eq!(np.duration_ms, 185_000);
    match &cmds[0] {
        Command::WriteNowPlaying(line) => assert_eq!(line, "Band - Song 0"),
        other => panic!("unexpected command {:?}", other),
    }
    match &cmds[1] {
        Command::SetVolumes(v) => assert_eq!(*v, VolumeLevels { main: 10_000, ambient: 7_000, scale: 17_000 }),
        other => panic!("unexpected command {:?}", other),
    }
    assert_eq!(app.now_playing_text(true), Some("|| Band - Song 0".to_string()));
    assert_eq!(app.now_playing_text(false), Some("Band - Song 0".to_string()));
}

#[test]
fn next_and_prev_in_sequential_order() {
    let mut app = app_with_tracks(3);
    app.handle_key(Key::Enter, false);
    // Skips are ignored while a download is shown.
    assert!(app.handle_key(Key::Char('n'), false).is_empty());
    play(&mut app);
    let cmds = app.handle_key(Key::Char('n'), false);
    assert!(matches!(cmds[0], Command::CancelDownload));
    assert_eq!(download_url(&cmds).unwrap().1, "Song 1");
    assert_eq!(app.current_track_index(), Some(1));
    assert_eq!(app.selected_track(), Some(1));
    play(&mut app);
    app.handle_key(Key::Char('N'), false);
    assert_eq!(app.current_track_index(), Some(0));
    play(&mut app);
    // Previous from the first track wraps to the last one.
    app.handle_key(Key::Char('N'), false);
    assert_eq!(app.current_track_index(), Some(2));
    play(&mut app);
    // Next at the end stays put without Repeat All.
    let cmds = app.handle_key(Key::Char('n'), false);
    assert!(cmds.is_empty());
    assert_eq!(app.current_track_index(), Some(2));
}

#[test]
fn repeat_all_wraps_to_the_first_track() {
    let mut app = app_with_tracks(2);
    app.handle_key(Key::Char('r'), false);
    assert_eq!(app.repeat_mode(), RepeatMode::All);
    app.handle_key(Key::Down, false);
    app.handle_key(Key::Enter, false);
    play(&mut app);
    let cmds = app.handle_key(Key::Char('n'), false);
    assert_eq!(download_url(&cmds).unwrap().1, "Song 0");
    assert_eq!(app.current_track_index(), Some(0));
}

#[test]
fn advance_follows_the_repeat_mode() {
    let mut app = app_with_tracks(2);
    app.handle_key(Key::Down, false);
    app.handle_key(Key::Enter, false);
    app.player_initialized();
    app.playback_started("Song 1".to_string());
    // Off: the end of the playlist stops playback.
    let (started, cmds) = app.advance_track();
    assert!(!started);
    assert!(cmds.is_empty());
    // One: the current track is replayed.
    app.handle_key(Key::Char('r'), false);
    app.handle_key(Key::Char('r'), false);
    assert_eq!(app.repeat_mode(), RepeatMode::One);
    let (started, cmds) = app.advance_track();
    assert!(started);
    assert!(matches!(cmds[0], Command::ReplayCurrent { volume: 100 }));
    assert_eq!(app.current_track_index(), Some(1));
    // All: wraps to the first track.
    app.handle_key(Key::Char('r'), false);
    app.handle_key(Key::Char('r'), false);
    assert_eq!(app.repeat_mode(), RepeatMode::All);
    let (started, cmds) = app.advance_track();
    assert!(started);
    assert_eq!(download_url(&cmds).unwrap().1, "Song 0");
}

#[test]
fn repeat_cycles_off_all_one() {
    assert_eq!(RepeatMode::Off.cycle(), RepeatMode::All);
    assert_eq!(RepeatMode::All.cycle(), RepeatMode::One);
    assert_eq!(RepeatMode::One.cycle(), RepeatMode::Off);
    assert_eq!(RepeatMode::Off.indicator(), "");
    assert_eq!(RepeatMode::All.indicator(), "[Repeat: All]");
    assert_eq!(RepeatMode::One.indicator(), "[Repeat: One]");
    for m in [RepeatMode::Off, RepeatMode::All, RepeatMode::One] {
        assert_eq!(RepeatMode::from_string_repr(m.to_string_repr()), m);
    }
    assert_eq!(RepeatMode::from_string_repr("bogus"), RepeatMode::Off);
}

#[test]
fn shuffle_plays_every_track_once_from_the_current_one() {
    let mut app = app_with_tracks(6);
    app.handle_key(Key::Down, false);
    app.handle_key(Key::Down, false);
    app.handle_key(Key::Enter, false);
    play(&mut app);
    app.handle_key(Key::Char('s'), false);
    assert!(app.shuffle_enabled());
    let mut seen = vec![app.current_track_index().unwrap()];
    assert_eq!(seen[0], 2);
    for _ in 0..5 {
        let cmds = app.handle_key(Key::Char('n'), false);
        assert!(!cmds.is_empty());
        seen.push(app.current_track_index().unwrap());
        play(&mut app);
    }
    let mut sorted = seen.clone();
    sorted.sort();
    assert_eq!(sorted, vec![0, 1, 2, 3, 4, 5]);
    // At the end of the order, without Repeat All, next does nothing.
    assert!(app.handle_key(Key::Char('n'), false).is_empty());
    app.handle_key(Key::Char('s'), false);
    assert!(!app.shuffle_enabled());
}

#[test]
fn volume_steps_by_five_and_is_clamped() {
    let mut app = new_app();
    app.player_initialized();
    let cmds = app.handle_key(Key::Char('+'), false);
    assert_eq!(app.saved_volume(), 100);
    assert!(matches!(cmds[0], Command::SetVolumes(_)));
    for _ in 0..25 {
        app.handle_key(Key::Char('-'), false);
    }
    assert_eq!(app.saved_volume(), 0);
    app.handle_key(Key::Char('='), false);
    assert_eq!(app.saved_volume(), 5);
    // Without a player no command is issued.
    let mut quiet = new_app();
    assert!(quiet.handle_key(Key::Char('-'), false).is_empty());
    assert_eq!(quiet.saved_volume(), 95);
}

#[test]
fn volume_budget_scales_down_when_over_full() {
    let mut app = new_app();
    let v = app.volume_levels();
    // 100 + 70 > 100: both scaled by 100/170.
    assert_eq!(v, VolumeLevels { main: 10_000, ambient: 7_000, scale: 17_000 });
    for _ in 0..6 {
        app.handle_key(Key::Char('-'), false);
    }
    app.handle_key(Key::Char(']'), false);
    // 70 + 65 still over; then down to 30 + 65 under budget.
    assert_eq!(app.volume_levels(), VolumeLevels { main: 7_000, ambient: 6_500, scale: 13_500 });
    for _ in 0..8 {
        app.handle_key(Key::Char('-'), false);
    }
    assert_eq!(app.saved_volume(), 30);
    assert_eq!(app.volume_levels(), VolumeLevels { main: 3_000, ambient: 6_500, scale: 10_000 });
}

#[test]
fn ambient_mute_remembers_the_volume() {
    let mut app = new_app();
    app.handle_key(Key::Char('['), false);
    assert_eq!(app.ambient_volume(), 75);
    app.handle_key(Key::Char('m'), false);
    assert_eq!(app.ambient_volume(), 0);
    app.handle_key(Key::Char('m'), false);
    assert_eq!(app.ambient_volume(), 75);
    for _ in 0..10 {
        app.handle_key(Key::Char('['), false);
    }
    assert_eq!(app.ambient_volume(), 100);
}

#[test]
fn ambient_from_the_selected_track() {
    let mut app = app_with_tracks(3);
    app.handle_key(Key::Down, false);
    let cmds = app.handle_key(Key::Char('a'), false);
    assert_eq!(cmds.len(), 1);
    match &cmds[0] {
        Command::StartAmbientDownload { url, track_name } => {
            assert_eq!(url, "http://srv:32400/p/1?X-Plex-Token=tok");
            assert_eq!(track_name, "Song 1");
        }
        other => panic!("unexpected command {:?}", other),
    }
    assert_eq!(*app.view(), AppView::Tracks);
    app.ambient_download_finished();
    app.ambient_loaded();
    assert!(app.error_message().is_none());
}

#[test]
fn favorites_are_assigned_and_played() {
    let mut app = new_app();
    app.handle_key(Key::Down, false);
    app.handle_key(Key::Char('f'), false);
    assert!(app.awaiting_favorite_key());
    let cmds = app.handle_key(Key::Char('3'), false);
    assert!(matches!(&cmds[..], [Command::SaveConfig]));
    assert!(!app.awaiting_favorite_key());
    let fav = app.config().favorite("3").expect("favorite stored");
    assert_eq!(fav.rating_key, "20");
    assert_eq!(fav.title, "Jazz");

    let cmds = app.handle_key(Key::Char('3'), false);
    let favorite = match &cmds[..] {
        [Command::FetchFavoriteTracks { favorite }] => favorite.clone(),
        other => panic!("unexpected commands {:?}", other),
    };
    assert!(app.handle_key(Key::Char('4'), false).is_empty());

    let cmds = app.favorite_tracks_loaded(favorite, tracks(2));
    assert_eq!(app.current_playlist_title(), "Jazz");
    assert_eq!(app.current_track_index(), Some(0));
    assert_eq!(download_url(&cmds).unwrap().1, "Song 0");
}

#[test]
fn favorite_assignment_only_from_the_playlists() {
    let mut app = app_with_tracks(2);
    app.handle_key(Key::Char('f'), false);
    assert!(!app.awaiting_favorite_key());
    let mut app = new_app();
    app.handle_key(Key::Char('f'), false);
    app.handle_key(Key::Esc, false);
    assert!(!app.awaiting_favorite_key());
    assert!(app.config().favorites.is_empty());
}

#[test]
fn missing_favorite_reports_an_error() {
    let mut app = new_app();
    app.favorite_fetch_failed("HTTP 404");
    assert_eq!(app.error_message(), Some("Favorite not found: HTTP 404"));
}

#[test]
fn back_returns_to_the_playlists() {
    let mut app = app_with_tracks(3);
    app.handle_key(Key::Esc, false);
    assert_eq!(*app.view(), AppView::Playlists);
    assert!(app.tracks().is_empty());
    assert_eq!(app.selected_playlist(), Some(0));
}

#[test]
fn failures_return_to_the_track_list() {
    let mut app = app_with_tracks(2);
    app.handle_key(Key::Enter, false);
    app.download_failed();
    assert_eq!(*app.view(), AppView::Tracks);
    assert!(!app.download_pending());
    app.handle_key(Key::Enter, false);
    app.playback_failed("bad format");
    assert_eq!(app.error_message(), Some("Playback error: bad format"));
    assert_eq!(*app.view(), AppView::Tracks);
    app.player_init_failed("no device".to_string());
    assert_eq!(app.error_message(), Some("no device"));
    app.player_initialized();
    assert!(app.error_message().is_none());
    let cmds = app.replay_failed();
    assert!(matches!(cmds[0], Command::CancelDownload));
}

#[test]
fn seek_keys_need_playback() {
    let mut app = app_with_tracks(2);
    assert!(app.handle_key(Key::Char('l'), false).is_empty());
    app.handle_key(Key::Enter, false);
    app.player_initialized();
    app.playback_started("Song 0".to_string());
    let cmds = app.handle_key(Key::Char('l'), false);
    assert!(matches!(&cmds[..], [Command::SeekForward { duration_ms: 185_000 }]));
    let cmds = app.handle_key(Key::Left, false);
    assert!(matches!(&cmds[..], [Command::SeekBackward]));
    assert!(matches!(&app.handle_key(Key::Char(' '), false)[..], [Command::TogglePause]));
}

#[test]
fn visualizer_toggle_and_bar_count() {
    let mut app = new_app();
    app.handle_key(Key::Char('v'), false);
    assert!(app.visualizer_enabled());
    app.set_visualizer_num_bars(48);
    assert_eq!(app.visualizer_num_bars(), 48);
}

#[test]
fn session_round_trip_restores_position_and_modes() {
    let mut app = app_with_tracks(5);
    app.handle_key(Key::Down, false);
    app.handle_key(Key::Down, false);
    app.handle_key(Key::Enter, false);
    app.handle_key(Key::Char('r'), false);
    app.handle_key(Key::Char('-'), false);
    let session = app.session_snapshot();
    assert_eq!(session.playlist_rating_key.as_deref(), Some("10"));
    assert_eq!(session.playlist_title.as_deref(), Some("Rock"));
    assert_eq!(session.track_index, Some(2));
    assert_eq!(session.volume, 95);
    assert_eq!(session.repeat_mode, "all");

    let mut fresh = new_app();
    let idx = fresh.restore_target(&session).expect("playlist found");
    assert_eq!(idx, 0);
    fresh.restore_with_tracks(&session, idx, tracks(5));
    assert_eq!(fresh.current_track_index(), Some(2));
    assert_eq!(fresh.selected_track(), Some(2));
    assert_eq!(fresh.saved_volume(), 95);
    assert_eq!(fresh.repeat_mode(), RepeatMode::All);
    assert_eq!(fresh.current_playlist_title(), "Rock");
    assert_eq!(*fresh.view(), AppView::Tracks);
}

#[test]
fn restore_clamps_track_and_volume() {
    let session = Session {
        playlist_rating_key: Some("30".to_string()),
        playlist_title: None,
        track_index: Some(9),
        volume: 250,
        shuffle_enabled: true,
        repeat_mode: "one".to_string(),
        ambient_part_key: None,
        ambient_track_name: None,
        ambient_volume: None,
        ambient_enabled: false,
    };
    let mut app = new_app();
    let idx = app.restore_target(&session).unwrap();
    assert_eq!(idx, 2);
    app.restore_with_tracks(&session, idx, tracks(3));
    assert_eq!(app.current_track_index(), Some(2));
    assert_eq!(app.saved_volume(), 100);
    assert!(app.shuffle_enabled());
    assert_eq!(app.repeat_mode(), RepeatMode::One);
    assert_eq!(app.current_playlist_title(), "Ambient");

    let missing = Session { playlist_rating_key: Some("99".to_string()), ..session.clone() };
    assert_eq!(app.restore_target(&missing), None);
    let blank = Session { playlist_rating_key: Some(String::new()), ..session };
    assert_eq!(app.restore_target(&blank), None);
}

#[test]
fn favorites_in_config_are_looked_up_by_key() {
    let mut config = empty_config();
    config.favorites.push(Entry {
        key: "1".to_string(),
        value: FavoritePlaylist { rating_key: "30".to_string(), title: "Ambient".to_string() },
    });
    let mut app = App::new(config, PlexClient::new("http://s", "t", "c"), "S".to_string(), vec![playlist("30", "Ambient", None)]);
    let cmds = app.handle_key(Key::Char('1'), false);
    assert!(matches!(&cmds[..], [Command::FetchFavoriteTracks { favorite }] if favorite.rating_key == "30"));
}

#[test]
fn finished_track_advances_only_while_playing() {
    let mut app = app_with_tracks(2);
    // Nothing happens outside the Playing view.
    assert!(app.track_finished().is_empty());
    app.handle_key(Key::Enter, false);
    assert!(app.track_finished().is_empty());
    play(&mut app);
    let cmds = app.track_finished();
    assert_eq!(download_url(&cmds).unwrap().1, "Song 1");
    play(&mut app);
    // At the end with repeat off playback stops and the now-playing file is cleared.
    let cmds = app.track_finished();
    assert!(matches!(&cmds[..], [Command::WriteNowPlaying(line)] if line.is_empty()));
    assert_eq!(app.current_track_index(), Some(1));
}
