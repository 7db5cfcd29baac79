use termtunes::app::RepeatMode;
use termtunes::config::{Entry, FavoritePlaylist};
use termtunes::player::{seek_backward_target, seek_forward_target, seek_sample_offset, visualizer_window};
use termtunes::ui::{
    ambient_panel_segments, favorite_key_for, list_text_width, player_status_segments, SegmentKind, playback_indicator, player_bar_message, playlist_label, screen_layout,
    status_bar_text, time_label, track_label, visualizer_bar_count, volume_label, PaneLayout, PlaybackIndicator,
    ScreenLayout,
};

const SEC: u64 = 1_000_000_000;

#[test]
fn forward_seek_stops_at_the_end_of_the_track() {
    assert_eq!(seek_forward_target(SEC, 185_000), 6 * SEC);
    assert_eq!(seek_forward_target(10 * SEC, 12_000), 12 * SEC);
    assert_eq!(seek_forward_target(0, 0), 0);
}

#[test]
fn backward_seek_stops_at_the_start() {
    assert_eq!(seek_backward_target(7 * SEC), 2 * SEC);
    assert_eq!(seek_backward_target(3 * SEC), 0);
    assert_eq!(seek_backward_target(5 * SEC), 0);
}

#[test]
fn seek_offset_is_frame_aligned_and_bounded() {
    assert_eq!(seek_sample_offset(1_500_000_000, 44_100, 2, 1_000_000), 132_300);
    assert_eq!(seek_sample_offset(1_010_000, 44_100, 2, 1_000_000), 88);
    assert_eq!(seek_sample_offset(60 * SEC, 44_100, 2, 1_001), 1_000);
    assert_eq!(seek_sample_offset(60 * SEC, 48_000, 3, 1_000), 999);
    assert_eq!(seek_sample_offset(0, 44_100, 1, 10), 0);
}

#[test]
fn visualizer_window_reads_the_first_channel() {
    let samples: Vec<i32> = (0..10).collect();
    assert_eq!(visualizer_window(&samples, 2, 4, 0, 3, -1), Some(vec![0, 2, 4]));
    assert_eq!(visualizer_window(&samples, 2, 4, SEC, 4, -1), Some(vec![8, -1, -1, -1]));
    assert_eq!(visualizer_window(&samples, 2, 4, 3 * SEC, 4, -1), None);
    assert_eq!(visualizer_window(&samples, 1, 4, SEC, 2, -1), Some(vec![4, 5]));
}

#[test]
fn layout_follows_the_terminal_size() {
    assert_eq!(screen_layout(19, 30, true, true, true), ScreenLayout::TooSmall);
    assert_eq!(screen_layout(80, 4, false, false, false), ScreenLayout::TooSmall);
    assert_eq!(
        screen_layout(30, 30, true, true, false),
        ScreenLayout::Panes(PaneLayout {
            narrow: true,
            ambient_panel: false,
            visualizer: false,
            player_bar: true,
            bar_height: 3
        })
    );
    assert_eq!(
        screen_layout(80, 20, true, true, true),
        ScreenLayout::Panes(PaneLayout {
            narrow: false,
            ambient_panel: true,
            visualizer: true,
            player_bar: true,
            bar_height: 3
        })
    );
    assert_eq!(
        screen_layout(80, 19, false, true, false),
        ScreenLayout::Panes(PaneLayout {
            narrow: false,
            ambient_panel: false,
            visualizer: false,
            player_bar: false,
            bar_height: 1
        })
    );
}

#[test]
fn bar_count_and_text_width() {
    assert_eq!(visualizer_bar_count(3), 4);
    assert_eq!(visualizer_bar_count(40), 38);
    assert_eq!(visualizer_bar_count(200), 64);
    assert_eq!(list_text_width(2), 0);
    assert_eq!(list_text_width(30), 26);
}

#[test]
fn indicator_prefers_paused() {
    assert_eq!(playback_indicator(true, true), PlaybackIndicator::Paused);
    assert_eq!(playback_indicator(false, true), PlaybackIndicator::Playing);
    assert_eq!(playback_indicator(false, false), PlaybackIndicator::Stopped);
    assert_eq!(PlaybackIndicator::Paused.icon(), " || ");
    assert_eq!(PlaybackIndicator::Playing.label(), " Playing ");
    assert_eq!(PlaybackIndicator::Stopped.icon(), " -- ");
}

#[test]
fn favorite_key_is_the_first_match() {
    let favs = vec![
        Entry { key: "2".to_string(), value: FavoritePlaylist { rating_key: "9".to_string(), title: "A".to_string() } },
        Entry { key: "5".to_string(), value: FavoritePlaylist { rating_key: "7".to_string(), title: "B".to_string() } },
        Entry { key: "6".to_string(), value: FavoritePlaylist { rating_key: "7".to_string(), title: "B".to_string() } },
    ];
    assert_eq!(favorite_key_for(&favs, "7"), Some("5".to_string()));
    assert_eq!(favorite_key_for(&favs, "1"), None);
}

#[test]
fn playlist_label_drops_the_count_first() {
    assert_eq!(playlist_label(Some("1"), "Rock", Some(12), 100), "[1] Rock (12 tracks)");
    assert_eq!(playlist_label(None, "Rock", Some(12), 100), "Rock (12 tracks)");
    assert_eq!(playlist_label(None, "Rock", None, 100), "Rock");
    assert_eq!(playlist_label(Some("1"), "Rock", Some(12), 10), "[1] Rock");
    assert_eq!(playlist_label(Some("1"), "Rock", Some(12), 6), "[1]...");
}

#[test]
fn track_label_marks_the_playing_track() {
    assert_eq!(track_label("Song", None, true, 100), ">> Song - Unknown Artist");
    assert_eq!(track_label("Song", Some("Band"), false, 100), "  Song - Band");
    assert_eq!(track_label("Song", Some("Band"), false, 8), "  Son...");
}

#[test]
fn time_and_volume_labels() {
    assert_eq!(time_label(65, 185), "01:05 / 03:05");
    assert_eq!(volume_label(75), "Vol: 75%");
    assert_eq!(volume_label(0), "Vol: 0%");
}

#[test]
fn status_bar_priorities() {
    assert_eq!(status_bar_text(true, Some("boom"), false), " Press 1-9 to assign favorite, Esc to cancel");
    assert_eq!(status_bar_text(false, Some("boom"), true), " ERROR: boom ");
    assert_eq!(status_bar_text(false, None, true), " q:quit j/k:nav Enter:sel Space:pause m:amb");
    assert!(status_bar_text(false, None, false).starts_with(" TermTunes | q:quit"));
    assert_eq!(player_bar_message(true, None), Some(" Press 1-9 to assign favorite, Esc to cancel ".to_string()));
    assert_eq!(player_bar_message(false, Some("x")), Some(" ERROR: x ".to_string()));
    assert_eq!(player_bar_message(false, None), None);
}

fn texts(v: &[termtunes::ui::Segment]) -> Vec<&str> {
    v.iter().map(|g| g.text.as_str()).collect()
}

#[test]
fn player_status_line_pieces() {
    let wide = player_status_segments(PlaybackIndicator::Playing, 75, 65, 185, true, RepeatMode::One, false);
    assert_eq!(texts(&wide), vec![" Playing ", " | ", "Vol: 75%", " | ", "01:05 / 03:05", " | ", "[Shuffle]", " | ", "[Repeat: One]"]);
    assert_eq!(wide[0].kind, SegmentKind::State(PlaybackIndicator::Playing));
    assert_eq!(wide[8].kind, SegmentKind::Repeat);
    let plain = player_status_segments(PlaybackIndicator::Paused, 100, 0, 0, false, RepeatMode::Off, false);
    assert_eq!(texts(&plain), vec![" Paused ", " | ", "Vol: 100%", " | ", "00:00 / 00:00"]);
    let narrow = player_status_segments(PlaybackIndicator::Stopped, 50, 5, 10, true, RepeatMode::All, true);
    assert_eq!(texts(&narrow), vec![" Stopped ", " | ", "00:05 / 00:10"]);
}

#[test]
fn ambient_panel_pieces() {
    let wide = ambient_panel_segments(Some("Rain"), 70, false);
    assert_eq!(texts(&wide), vec![" AMB >> ", "Rain", " | ", "Vol: 70%"]);
    assert_eq!(wide[3].kind, SegmentKind::AmbientVolume { active: true });
    let muted = ambient_panel_segments(None, 0, true);
    assert_eq!(texts(&muted), vec![" AMB || ", "No ambient"]);
    assert_eq!(muted[0].kind, SegmentKind::AmbientIcon { active: false });
}
