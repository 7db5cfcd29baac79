//! The player's state machine: views, navigation, track order (sequential
//! and shuffled), repeat modes, volumes, favorites and session restore.
//!
//! Every operation maps the current state and an input to the next state
//! and a list of [`Command`]s that the caller carries out (network
//! requests, audio device calls, file writes). Outcomes of that work come
//! back through the event methods (`playlist_tracks_loaded`,
//! `playback_started`, ...).

use vstd::prelude::*;

use crate::browser::BrowserView;
use crate::config::{inserted, lookup, Config, FavoritePlaylist, Session};
use crate::plex::{first_part_key, stream_url_text, track_part_key, Playlist, PlexClient, Track};
use crate::shuffle::{is_shuffle_of, lemma_shuffle_facts, shuffled_order};
use crate::text::{push_char, str_equal};

verus! {

// ---------------------------------------------------------------------------
// Views and repeat mode
// ---------------------------------------------------------------------------

/// The current view / mode of the application.
#[derive(Debug, Clone, Copy, PartialEq, Eq, Structural)]
pub enum AppView {
    /// Displaying the list of audio playlists.
    Playlists,
    /// Displaying the tracks within a selected playlist.
    Tracks,
    /// A track is being downloaded (shown while fetching audio bytes).
    Downloading,
    /// Tracks view with active playback (user can select another track).
    Playing,
}

/// Repeat mode for playlist playback.
///
/// Cycles: Off -> All -> One -> Off via the 'r' keybinding.
#[derive(Debug, Clone, Copy, PartialEq, Eq, Structural)]
pub enum RepeatMode {
    Off,
    All,
    One,
}

/// The mode that follows `m` in the cycle Off -> All -> One -> Off.
pub open spec fn next_repeat_mode(m: RepeatMode) -> RepeatMode {
    match m {
        RepeatMode::Off => RepeatMode::All,
        RepeatMode::All => RepeatMode::One,
        RepeatMode::One => RepeatMode::Off,
    }
}

/// The status-bar indicator of a repeat mode.
pub open spec fn repeat_indicator(m: RepeatMode) -> Seq<char> {
    match m {
        RepeatMode::Off => ""@,
        RepeatMode::All => "[Repeat: All]"@,
        RepeatMode::One => "[Repeat: One]"@,
    }
}

/// The session-file text of a repeat mode.
pub open spec fn repeat_repr(m: RepeatMode) -> Seq<char> {
    match m {
        RepeatMode::Off => "off"@,
        RepeatMode::All => "all"@,
        RepeatMode::One => "one"@,
    }
}

/// The repeat mode a session-file text stands for; anything unrecognized
/// is Off.
pub open spec fn repeat_from_repr(s: Seq<char>) -> RepeatMode {
    if s == "all"@ {
        RepeatMode::All
    } else if s == "one"@ {
        RepeatMode::One
    } else {
        RepeatMode::Off
    }
}

impl RepeatMode {
    pub fn cycle(self) -> (r: Self)
        ensures
            r == next_repeat_mode(self),
    {
        match self {
            RepeatMode::Off => RepeatMode::All,
            RepeatMode::All => RepeatMode::One,
            RepeatMode::One => RepeatMode::Off,
        }
    }

    pub fn indicator(&self) -> (r: &'static str)
        ensures
            r@ == repeat_indicator(*self),
    {
        match self {
            RepeatMode::Off => "",
            RepeatMode::All => "[Repeat: All]",
            RepeatMode::One => "[Repeat: One]",
        }
    }

    /// Convert to a string representation for session persistence.
    pub fn to_string_repr(self) -> (r: &'static str)
        ensures
            r@ == repeat_repr(self),
    {
        match self {
            RepeatMode::Off => "off",
            RepeatMode::All => "all",
            RepeatMode::One => "one",
        }
    }

    /// Create a RepeatMode from a string representation (session restore).
    /// Returns Off for any unrecognized string.
    pub fn from_string_repr(s: &str) -> (r: Self)
        ensures
            r == repeat_from_repr(s@),
    {
        if str_equal(s, "all") {
            RepeatMode::All
        } else if str_equal(s, "one") {
            RepeatMode::One
        } else {
            RepeatMode::Off
        }
    }
}

/// Cycling three times returns to the starting mode.
pub proof fn lemma_repeat_cycle_period(m: RepeatMode)
    ensures
        next_repeat_mode(next_repeat_mode(next_repeat_mode(m))) == m,
        next_repeat_mode(m) != m,
{
}

/// Reading back the session text of a mode gives the mode.
pub proof fn lemma_repeat_repr_round_trip(m: RepeatMode)
    ensures
        repeat_from_repr(repeat_repr(m)) == m,
{
    reveal_strlit("off");
    reveal_strlit("all");
    reveal_strlit("one");
    assert("off"@[0] != "all"@[0]);
    assert("off"@[1] != "one"@[1]);
    assert("one"@[0] != "all"@[0]);
}

// ---------------------------------------------------------------------------
// Now playing, keys, commands
// ---------------------------------------------------------------------------

/// Metadata for the currently playing track, stored for UI display.
#[derive(Debug, Clone)]
pub struct NowPlaying {
    pub track_name: String,
    pub artist: String,
    pub album: String,
    pub duration_ms: u64,
}

/// A key press, as far as the player distinguishes keys.
#[derive(Debug, Clone, Copy, PartialEq, Eq, Structural)]
pub enum Key {
    Char(char),
    Enter,
    Esc,
    Backspace,
    Up,
    Down,
    Left,
    Right,
    Other,
}

/// What a key press asks for.
#[derive(Debug, Clone, Copy, PartialEq, Eq, Structural)]
pub enum KeyAction {
    Quit,
    TogglePause,
    VolumeUp,
    VolumeDown,
    NextTrack,
    PrevTrack,
    SelectionDown,
    SelectionUp,
    Select,
    ToggleShuffle,
    CycleRepeat,
    SeekForward,
    SeekBackward,
    AmbientFromSelected,
    ToggleAmbientMute,
    AmbientVolumeUp,
    AmbientVolumeDown,
    ToggleVisualizer,
    OpenBrowser,
    BeginFavoriteAssignment,
    Favorite(char),
    Back,
    Ignore,
}

/// The keymap.
pub open spec fn key_action_of(key: Key, ctrl: bool) -> KeyAction {
    match key {
        Key::Char(c) => {
            if c == 'q' {
                KeyAction::Quit
            } else if c == 'c' && ctrl {
                KeyAction::Quit
            } else if c == ' ' {
                KeyAction::TogglePause
            } else if c == '+' || c == '=' {
                KeyAction::VolumeUp
            } else if c == '-' || c == '_' {
                KeyAction::VolumeDown
            } else if c == 'n' || c == '>' {
                KeyAction::NextTrack
            } else if c == 'N' || c == '<' {
                KeyAction::PrevTrack
            } else if c == 'j' {
                KeyAction::SelectionDown
            } else if c == 'k' {
                KeyAction::SelectionUp
            } else if c == 's' {
                KeyAction::ToggleShuffle
            } else if c == 'r' {
                KeyAction::CycleRepeat
            } else if c == 'l' {
                KeyAction::SeekForward
            } else if c == 'h' {
                KeyAction::SeekBackward
            } else if c == 'a' {
                KeyAction::AmbientFromSelected
            } else if c == 'm' {
                KeyAction::ToggleAmbientMute
            } else if c == '[' {
                KeyAction::AmbientVolumeUp
            } else if c == ']' {
                KeyAction::AmbientVolumeDown
            } else if c == 'v' {
                KeyAction::ToggleVisualizer
            } else if c == 'b' {
                KeyAction::OpenBrowser
            } else if c == 'f' {
                KeyAction::BeginFavoriteAssignment
            } else if '1' <= c && c <= '9' {
                KeyAction::Favorite(c)
            } else {
                KeyAction::Ignore
            }
        },
        Key::Down => KeyAction::SelectionDown,
        Key::Up => KeyAction::SelectionUp,
        Key::Enter => KeyAction::Select,
        Key::Right => KeyAction::SeekForward,
        Key::Left => KeyAction::SeekBackward,
        Key::Esc => KeyAction::Back,
        Key::Backspace => KeyAction::Back,
        Key::Other => KeyAction::Ignore,
    }
}

/// Classifies a key press (`ctrl` tells whether Control was held).
pub fn key_action(key: Key, ctrl: bool) -> (r: KeyAction)
    ensures
        r == key_action_of(key, ctrl),
{
    match key {
        Key::Char(c) => {
            if c == 'q' {
                KeyAction::Quit
            } else if c == 'c' && ctrl {
                KeyAction::Quit
            } else if c == ' ' {
                KeyAction::TogglePause
            } else if c == '+' || c == '=' {
                KeyAction::VolumeUp
            } else if c == '-' || c == '_' {
                KeyAction::VolumeDown
            } else if c == 'n' || c == '>' {
                KeyAction::NextTrack
            } else if c == 'N' || c == '<' {
                KeyAction::PrevTrack
            } else if c == 'j' {
                KeyAction::SelectionDown
            } else if c == 'k' {
                KeyAction::SelectionUp
            } else if c == 's' {
                KeyAction::ToggleShuffle
            } else if c == 'r' {
                KeyAction::CycleRepeat
            } else if c == 'l' {
                KeyAction::SeekForward
            } else if c == 'h' {
                KeyAction::SeekBackward
            } else if c == 'a' {
                KeyAction::AmbientFromSelected
            } else if c == 'm' {
                KeyAction::ToggleAmbientMute
            } else if c == '[' {
                KeyAction::AmbientVolumeUp
            } else if c == ']' {
                KeyAction::AmbientVolumeDown
            } else if c == 'v' {
                KeyAction::ToggleVisualizer
            } else if c == 'b' {
                KeyAction::OpenBrowser
            } else if c == 'f' {
                KeyAction::BeginFavoriteAssignment
            } else if '1' <= c && c <= '9' {
                KeyAction::Favorite(c)
            } else {
                KeyAction::Ignore
            }
        },
        Key::Down => KeyAction::SelectionDown,
        Key::Up => KeyAction::SelectionUp,
        Key::Enter => KeyAction::Select,
        Key::Right => KeyAction::SeekForward,
        Key::Left => KeyAction::SeekBackward,
        Key::Esc => KeyAction::Back,
        Key::Backspace => KeyAction::Back,
        Key::Other => KeyAction::Ignore,
    }
}

/// The volumes to put on the two audio channels, as fractions of full
/// volume: `main / scale` for the main channel, `ambient / scale` for the
/// ambient channel.
#[derive(Debug, Clone, Copy, PartialEq, Eq, Structural)]
pub struct VolumeLevels {
    pub main: u64,
    pub ambient: u64,
    pub scale: u64,
}

/// Volume budget: when main and ambient (hundredths) add up to more than
/// full volume, both are scaled down proportionally so that they add up to
/// exactly full volume; master (hundredths) then scales the result.
pub open spec fn volume_levels(main: nat, ambient: nat, master: nat) -> VolumeLevels {
    let total = main + ambient;
    VolumeLevels {
        main: (main * master) as u64,
        ambient: (ambient * master) as u64,
        scale: (100 * if total > 100 { total } else { 100 }) as u64,
    }
}

/// Work for the caller to carry out.
#[derive(Debug, Clone)]
pub enum Command {
    /// Toggle pause on the main channel, then rewrite the now-playing file
    /// with `now_playing_text`.
    TogglePause,
    /// Put these volumes on the audio channels.
    SetVolumes(VolumeLevels),
    /// Drop the download in progress, if any.
    CancelDownload,
    /// Download a track in the background (replacing any other download).
    StartDownload { url: String, track_name: String },
    /// Fetch the tracks of a playlist, then call `playlist_tracks_loaded`.
    FetchPlaylistTracks { rating_key: String },
    /// Fetch the tracks of a favorite, then call `favorite_tracks_loaded`
    /// (or `favorite_fetch_failed`).
    FetchFavoriteTracks { favorite: FavoritePlaylist },
    /// Write the configuration to disk.
    SaveConfig,
    /// Seek the main channel 5 seconds forward, not past the track length.
    SeekForward { duration_ms: u64 },
    /// Seek the main channel 5 seconds back.
    SeekBackward,
    /// Download a track for the ambient channel in the background.
    StartAmbientDownload { url: String, track_name: String },
    /// Replay the current track from its decoded audio at this volume
    /// (hundredths); on failure call `replay_failed`.
    ReplayCurrent { volume: u32 },
    /// Write this text to the now-playing file.
    WriteNowPlaying(String),
}

// ---------------------------------------------------------------------------
// The model of the application state
// ---------------------------------------------------------------------------

/// The state of the application as contracts speak of it.
#[verifier::ext_equal]
pub struct AppModel {
    pub running: bool,
    pub config: Config,
    pub plex: PlexClient,
    pub server_name: String,
    pub playlists: Seq<Playlist>,
    pub tracks: Seq<Track>,
    pub view: AppView,
    pub playlist_selected: Option<usize>,
    pub track_selected: Option<usize>,
    pub current_playlist_title: String,
    pub current_playlist_rating_key: Option<String>,
    pub error_message: Option<String>,
    pub current_track_index: Option<usize>,
    pub now_playing: Option<NowPlaying>,
    /// Main volume in hundredths.
    pub saved_volume: u32,
    pub shuffle_enabled: bool,
    pub shuffle_order: Seq<usize>,
    pub shuffle_position: usize,
    pub repeat_mode: RepeatMode,
    pub awaiting_favorite_key: bool,
    pub visualizer_enabled: bool,
    pub visualizer_num_bars: usize,
    /// Ambient volume in hundredths.
    pub ambient_volume: u32,
    /// The ambient volume that unmuting restores (hundredths).
    pub ambient_volume_before_mute: u32,
    /// Master volume in hundredths.
    pub master_volume: u32,
    pub download_pending: bool,
    pub ambient_download_pending: bool,
    pub player_ready: bool,
    /// The ambient track browser, when its overlay is open.
    pub browser: Option<BrowserView>,
}

/// Whether `i` is the first position of `s` in `order`.
pub open spec fn is_first_position(order: Seq<usize>, s: usize, i: int) -> bool {
    &&& 0 <= i < order.len()
    &&& order[i] == s
    &&& forall|j: int| 0 <= j < i ==> order[j] != s
}

/// The first position of `s` in `order`, if it occurs.
pub open spec fn first_position(order: Seq<usize>, s: usize) -> Option<usize> {
    if exists|i: int| is_first_position(order, s, i) {
        Some((choose|i: int| is_first_position(order, s, i)) as usize)
    } else {
        None
    }
}

/// The shuffle order regenerated for `m`: empty when there are no tracks,
/// otherwise every track position once, the current track first.
pub open spec fn is_regenerated_order(m: AppModel, order: Seq<usize>) -> bool {
    if m.tracks.len() == 0 {
        order.len() == 0
    } else {
        &&& is_shuffle_of(order, m.tracks.len())
        &&& m.current_track_index matches Some(c) ==> (c < m.tracks.len() ==> order[0] == c)
    }
}

/// The command list that puts the budgeted volumes on the player, when
/// there is one.
pub open spec fn volume_commands_of(m: AppModel) -> Seq<Command> {
    if m.player_ready {
        seq![Command::SetVolumes(volume_levels(m.saved_volume as nat, m.ambient_volume as nat, m.master_volume as nat))]
    } else {
        seq![]
    }
}

/// Whether `cmds` is exactly one download (or ambient download, when
/// `ambient`) of part `key` of a track titled `title` on the model's server.
pub open spec fn is_download_of(m: AppModel, cmds: Seq<Command>, key: String, title: String, ambient: bool) -> bool {
    &&& cmds.len() == 1
    &&& if ambient {
        cmds[0] matches Command::StartAmbientDownload { url, track_name } && url@ == stream_url_text(
            m.plex.spec_server_url(),
            key@,
            m.plex.spec_token(),
        ) && track_name == title
    } else {
        cmds[0] matches Command::StartDownload { url, track_name } && url@ == stream_url_text(
            m.plex.spec_server_url(),
            key@,
            m.plex.spec_token(),
        ) && track_name == title
    }
}

impl AppModel {
    /// The state invariant.
    pub open spec fn wf(self) -> bool {
        &&& self.saved_volume <= 100
        &&& self.ambient_volume <= 100
        &&& self.ambient_volume_before_mute <= 100
        &&& self.master_volume <= 100
        &&& 4 <= self.visualizer_num_bars <= 64
        &&& self.shuffle_enabled && self.tracks.len() > 0 ==> {
            &&& is_shuffle_of(self.shuffle_order, self.tracks.len())
            &&& self.shuffle_position < self.shuffle_order.len()
        }
    }

    /// The track that comes after the current one, or None at the end of
    /// the playlist / shuffle order.
    pub open spec fn next_index(self) -> Option<usize> {
        if self.tracks.len() == 0 {
            None
        } else if self.shuffle_enabled {
            if self.shuffle_position + 1 < self.shuffle_order.len() {
                Some(self.shuffle_order[self.shuffle_position + 1])
            } else {
                None
            }
        } else {
            match self.current_track_index {
                Some(i) => if i + 1 < self.tracks.len() {
                    Some((i + 1) as usize)
                } else {
                    None
                },
                None => None,
            }
        }
    }

    /// The track that comes before the current one. Sequential order wraps
    /// from the first track (or no track) to the last; the shuffle order
    /// gives None at its start.
    pub open spec fn prev_index(self) -> Option<usize> {
        if self.tracks.len() == 0 {
            None
        } else if self.shuffle_enabled {
            if self.shuffle_position > 0 {
                Some(self.shuffle_order[self.shuffle_position - 1])
            } else {
                None
            }
        } else {
            match self.current_track_index {
                Some(i) => if i == 0 {
                    Some((self.tracks.len() - 1) as usize)
                } else {
                    Some((i - 1) as usize)
                },
                None => Some((self.tracks.len() - 1) as usize),
            }
        }
    }
}

// ---------------------------------------------------------------------------
// Transition relations
// ---------------------------------------------------------------------------

/// Starting the download of the selected track.
pub open spec fn start_download_post(old: AppModel, new: AppModel, cmds: Seq<Command>) -> bool {
    match old.track_selected {
        Some(i) => if i < old.tracks.len() && first_part_key(old.tracks[i as int]) is Some {
            &&& new == AppModel { view: AppView::Downloading, download_pending: true, ..old }
            &&& is_download_of(old, cmds, first_part_key(old.tracks[i as int])->0, old.tracks[i as int].title, false)
        } else {
            new == old && cmds.len() == 0
        },
        None => new == old && cmds.len() == 0,
    }
}

/// Playing the track at `index`: the download in progress is dropped, the
/// index becomes current and selected, and its download starts.
pub open spec fn play_at_post(old: AppModel, index: usize, new: AppModel, cmds: Seq<Command>) -> bool {
    if index >= old.tracks.len() {
        new == old && cmds.len() == 0
    } else {
        let mid = AppModel {
            download_pending: false,
            current_track_index: Some(index),
            track_selected: Some(index),
            ..old
        };
        &&& cmds.len() >= 1
        &&& cmds[0] == Command::CancelDownload
        &&& start_download_post(mid, new, cmds.drop_first())
    }
}

/// `m` with its shuffle position moved by one step forward, in shuffle mode.
pub open spec fn stepped_forward(m: AppModel) -> AppModel {
    if m.shuffle_enabled {
        AppModel { shuffle_position: (m.shuffle_position + 1) as usize, ..m }
    } else {
        m
    }
}

/// Wrapping to the start of a new shuffle order (Repeat All in shuffle
/// mode). Returns whether a track was started.
pub open spec fn reshuffle_wrap_post(old: AppModel, new: AppModel, cmds: Seq<Command>) -> bool {
    let order = new.shuffle_order;
    &&& is_regenerated_order(old, order)
    &&& if order.len() > 0 {
        play_at_post(AppModel { shuffle_order: order, shuffle_position: 0, ..old }, order[0], new, cmds)
    } else {
        new == AppModel { shuffle_order: order, shuffle_position: 0, ..old } && cmds.len() == 0
    }
}

/// User skip to the next track. Repeat One is not consulted: a skip always
/// moves on; at the end, Repeat All wraps (with a new shuffle order in
/// shuffle mode) and the other modes stay.
pub open spec fn next_track_post(old: AppModel, new: AppModel, cmds: Seq<Command>) -> bool {
    if old.tracks.len() == 0 {
        new == old && cmds.len() == 0
    } else {
        match old.next_index() {
            Some(idx) => play_at_post(stepped_forward(old), idx, new, cmds),
            None => if old.repeat_mode == RepeatMode::All {
                if old.shuffle_enabled {
                    reshuffle_wrap_post(old, new, cmds)
                } else {
                    play_at_post(old, 0, new, cmds)
                }
            } else {
                new == old && cmds.len() == 0
            },
        }
    }
}

/// User skip to the previous track. At the start of the shuffle order,
/// Repeat All goes to the last entry of the shuffle order; every other case
/// goes to the last track of the playlist.
pub open spec fn prev_track_post(old: AppModel, new: AppModel, cmds: Seq<Command>) -> bool {
    if old.tracks.len() == 0 {
        new == old && cmds.len() == 0
    } else {
        match old.prev_index() {
            Some(idx) => {
                let stepped = if old.shuffle_enabled {
                    AppModel {
                        shuffle_position: if old.shuffle_position > 0 {
                            (old.shuffle_position - 1) as usize
                        } else {
                            0
                        },
                        ..old
                    }
                } else {
                    old
                };
                play_at_post(stepped, idx, new, cmds)
            },
            None => if old.repeat_mode == RepeatMode::All && old.shuffle_enabled {
                if old.shuffle_order.len() > 0 {
                    play_at_post(
                        AppModel { shuffle_position: (old.shuffle_order.len() - 1) as usize, ..old },
                        old.shuffle_order.last(),
                        new,
                        cmds,
                    )
                } else {
                    new == old && cmds.len() == 0
                }
            } else {
                play_at_post(old, (old.tracks.len() - 1) as usize, new, cmds)
            },
        }
    }
}

/// Automatic advance when the current track has finished; `started` tells
/// whether playback goes on. Repeat One replays the current track, Repeat
/// All wraps at the end, Off stops at the end.
pub open spec fn advance_post(old: AppModel, new: AppModel, cmds: Seq<Command>, started: bool) -> bool {
    match old.repeat_mode {
        RepeatMode::One => {
            &&& started
            &&& new == old
            &&& cmds == (if old.player_ready {
                seq![Command::ReplayCurrent { volume: old.saved_volume }]
            } else {
                seq![]
            }) + volume_commands_of(old)
        },
        RepeatMode::All => match old.next_index() {
            Some(idx) => started && play_at_post(stepped_forward(old), idx, new, cmds),
            None => if old.shuffle_enabled {
                &&& reshuffle_wrap_post(old, new, cmds)
                &&& started == (new.shuffle_order.len() > 0)
            } else {
                started && play_at_post(old, 0, new, cmds)
            },
        },
        RepeatMode::Off => match old.next_index() {
            Some(idx) => started && play_at_post(stepped_forward(old), idx, new, cmds),
            None => !started && new == old && cmds.len() == 0,
        },
    }
}

/// Whether automatic advance keeps playing: always under Repeat One;
/// under Repeat All unless a shuffled playlist has no tracks to reshuffle;
/// under Off only while a next track exists.
pub open spec fn advance_continues(m: AppModel) -> bool {
    match m.repeat_mode {
        RepeatMode::One => true,
        RepeatMode::All => m.next_index() is Some || !m.shuffle_enabled || m.tracks.len() > 0,
        RepeatMode::Off => m.next_index() is Some,
    }
}

/// The flag of an automatic advance is determined by the state before it.
proof fn lemma_advance_flag(old: AppModel, new: AppModel, cmds: Seq<Command>, started: bool)
    requires
        advance_post(old, new, cmds, started),
        old.tracks.len() <= usize::MAX,
    ensures
        started == advance_continues(old),
{
    if old.repeat_mode == RepeatMode::All && old.next_index() is None && old.shuffle_enabled
        && old.tracks.len() > 0 {
        lemma_shuffle_facts(new.shuffle_order, old.tracks.len());
    }
}

/// The current track has ended. In the Playing view with no download in
/// progress, playback advances as `advance_post` says, and when it stops
/// the now-playing file is cleared; otherwise nothing happens.
pub open spec fn track_finished_post(old: AppModel, new: AppModel, cmds: Seq<Command>) -> bool {
    if old.view == AppView::Playing && !old.download_pending {
        if advance_continues(old) {
            advance_post(old, new, cmds, true)
        } else {
            &&& cmds.len() > 0
            &&& advance_post(old, new, cmds.drop_last(), false)
            &&& cmds.last() matches Command::WriteNowPlaying(line) && line@.len() == 0
        }
    } else {
        new == old && cmds.len() == 0
    }
}

/// Shuffle on/off. Turning it on with tracks loaded builds a new shuffle
/// order with the current track first.
pub open spec fn toggle_shuffle_post(old: AppModel, new: AppModel) -> bool {
    if !old.shuffle_enabled && old.tracks.len() > 0 {
        &&& is_regenerated_order(old, new.shuffle_order)
        &&& new == AppModel { shuffle_enabled: true, shuffle_order: new.shuffle_order, shuffle_position: 0, ..old }
    } else {
        new == AppModel { shuffle_enabled: !old.shuffle_enabled, ..old }
    }
}

/// The shuffle order after a new track list: regenerated in shuffle mode,
/// as it was otherwise.
pub open spec fn reshuffled_if_enabled(m: AppModel, new: AppModel) -> bool {
    if m.shuffle_enabled {
        is_regenerated_order(m, new.shuffle_order) && new.shuffle_position == 0
    } else {
        new.shuffle_order == m.shuffle_order && new.shuffle_position == m.shuffle_position
    }
}

/// Moving the list cursor one step down (wrapping to the top).
pub open spec fn selection_down(sel: Option<usize>, len: nat) -> Option<usize> {
    if len == 0 {
        sel
    } else {
        let cur = match sel {
            Some(i) => i as int,
            None => 0,
        };
        if cur >= len - 1 {
            Some(0)
        } else {
            Some((cur + 1) as usize)
        }
    }
}

/// Moving the list cursor one step up (wrapping to the bottom).
pub open spec fn selection_up(sel: Option<usize>, len: nat) -> Option<usize> {
    if len == 0 {
        sel
    } else {
        let cur = match sel {
            Some(i) => i as int,
            None => 0,
        };
        if cur == 0 {
            Some((len - 1) as usize)
        } else {
            Some((cur - 1) as usize)
        }
    }
}

/// Cursor movement in the list of the current view.
pub open spec fn move_selection_post(old: AppModel, new: AppModel, down: bool) -> bool {
    match old.view {
        AppView::Playlists => new == AppModel {
            playlist_selected: if down {
                selection_down(old.playlist_selected, old.playlists.len())
            } else {
                selection_up(old.playlist_selected, old.playlists.len())
            },
            ..old
        },
        AppView::Tracks | AppView::Playing => new == AppModel {
            track_selected: if down {
                selection_down(old.track_selected, old.tracks.len())
            } else {
                selection_up(old.track_selected, old.tracks.len())
            },
            ..old
        },
        AppView::Downloading => new == old,
    }
}

/// Enter: open the selected playlist (fetching its tracks), or play the
/// selected track.
pub open spec fn select_post(old: AppModel, new: AppModel, cmds: Seq<Command>) -> bool {
    match old.view {
        AppView::Playlists => match old.playlist_selected {
            Some(i) => if i < old.playlists.len() {
                let p = old.playlists[i as int];
                &&& new == AppModel {
                    current_playlist_title: p.title,
                    current_playlist_rating_key: Some(p.rating_key),
                    ..old
                }
                &&& cmds.len() == 1
                &&& cmds[0] == Command::FetchPlaylistTracks { rating_key: p.rating_key }
            } else {
                new == old && cmds.len() == 0
            },
            None => new == old && cmds.len() == 0,
        },
        AppView::Tracks | AppView::Playing => {
            let pos = match old.track_selected {
                Some(s) => if old.shuffle_enabled && first_position(old.shuffle_order, s) is Some {
                    first_position(old.shuffle_order, s)->0
                } else {
                    old.shuffle_position
                },
                None => old.shuffle_position,
            };
            let mid = AppModel { current_track_index: old.track_selected, shuffle_position: pos, ..old };
            start_download_post(mid, new, cmds)
        },
        AppView::Downloading => new == old && cmds.len() == 0,
    }
}

/// Back from the track list to the playlists: the track list and shuffle
/// order are cleared; what the session needs (playlist, track, now
/// playing) stays.
pub open spec fn go_back_post(old: AppModel, new: AppModel) -> bool {
    if old.view == AppView::Tracks || old.view == AppView::Playing {
        new == AppModel {
            view: AppView::Playlists,
            tracks: Seq::empty(),
            shuffle_order: Seq::empty(),
            shuffle_position: 0,
            ..old
        }
    } else {
        new == old
    }
}

/// The favorite assigned to the number key `c`.
pub open spec fn favorite_for_key(m: AppModel, c: char) -> Option<FavoritePlaylist> {
    lookup(m.config.favorites@, seq![c])
}

/// A number key while a favorite assignment is pending: the selected
/// playlist is stored under that key and the configuration saved.
pub open spec fn assign_favorite_post(old: AppModel, new: AppModel, cmds: Seq<Command>, c: char) -> bool {
    let done = AppModel { awaiting_favorite_key: false, ..old };
    match old.playlist_selected {
        Some(i) => if i < old.playlists.len() {
            let p = old.playlists[i as int];
            let fav = FavoritePlaylist { rating_key: p.rating_key, title: p.title };
            &&& exists|k: String|
                #![trigger inserted(old.config.favorites@, k, fav)]
                k@ == seq![c] && new == AppModel {
                    config: Config { favorites: new.config.favorites, ..old.config },
                    ..done
                } && new.config.favorites@ == inserted(old.config.favorites@, k, fav)
            &&& cmds == seq![Command::SaveConfig]
        } else {
            new == done && cmds.len() == 0
        },
        None => new == done && cmds.len() == 0,
    }
}

/// A number key otherwise: fetch the tracks of the favorite assigned to it.
pub open spec fn start_favorite_post(old: AppModel, new: AppModel, cmds: Seq<Command>, c: char) -> bool {
    &&& new == old
    &&& match favorite_for_key(old, c) {
        Some(f) => cmds == seq![Command::FetchFavoriteTracks { favorite: f }],
        None => cmds.len() == 0,
    }
}

/// The selected track started on the ambient channel.
pub open spec fn ambient_post(old: AppModel, new: AppModel, cmds: Seq<Command>) -> bool {
    match old.track_selected {
        Some(i) => if i < old.tracks.len() && first_part_key(old.tracks[i as int]) is Some {
            &&& new == AppModel { ambient_download_pending: true, ..old }
            &&& is_download_of(old, cmds, first_part_key(old.tracks[i as int])->0, old.tracks[i as int].title, true)
        } else {
            new == old && cmds.len() == 0
        },
        None => new == old && cmds.len() == 0,
    }
}

/// What a key action does.
pub open spec fn action_post(old: AppModel, new: AppModel, cmds: Seq<Command>, a: KeyAction) -> bool {
    let track_view = old.view == AppView::Playing || old.view == AppView::Tracks;
    match a {
        KeyAction::Quit => new == AppModel { running: false, ..old } && cmds.len() == 0,
        KeyAction::TogglePause => new == old && cmds == (if old.player_ready {
            seq![Command::TogglePause]
        } else {
            seq![]
        }),
        KeyAction::VolumeUp => {
            let m = AppModel {
                saved_volume: if old.saved_volume + 5 > 100 {
                    100
                } else {
                    (old.saved_volume + 5) as u32
                },
                ..old
            };
            new == m && cmds == volume_commands_of(m)
        },
        KeyAction::VolumeDown => {
            let m = AppModel {
                saved_volume: if old.saved_volume < 5 {
                    0
                } else {
                    (old.saved_volume - 5) as u32
                },
                ..old
            };
            new == m && cmds == volume_commands_of(m)
        },
        KeyAction::NextTrack => if track_view {
            next_track_post(old, new, cmds)
        } else {
            new == old && cmds.len() == 0
        },
        KeyAction::PrevTrack => if track_view {
            prev_track_post(old, new, cmds)
        } else {
            new == old && cmds.len() == 0
        },
        KeyAction::SelectionDown => move_selection_post(old, new, true) && cmds.len() == 0,
        KeyAction::SelectionUp => move_selection_post(old, new, false) && cmds.len() == 0,
        KeyAction::Select => select_post(old, new, cmds),
        KeyAction::ToggleShuffle => toggle_shuffle_post(old, new) && cmds.len() == 0,
        KeyAction::CycleRepeat => new == AppModel { repeat_mode: next_repeat_mode(old.repeat_mode), ..old }
            && cmds.len() == 0,
        KeyAction::SeekForward => new == old && cmds == (if old.view == AppView::Playing && old.player_ready
            && old.now_playing is Some {
            seq![Command::SeekForward { duration_ms: old.now_playing->0.duration_ms }]
        } else {
            seq![]
        }),
        KeyAction::SeekBackward => new == old && cmds == (if old.view == AppView::Playing
            && old.player_ready {
            seq![Command::SeekBackward]
        } else {
            seq![]
        }),
        KeyAction::AmbientFromSelected => if track_view {
            ambient_post(old, new, cmds)
        } else {
            new == old && cmds.len() == 0
        },
        KeyAction::ToggleAmbientMute => {
            let m = if old.ambient_volume > 0 {
                AppModel { ambient_volume: 0, ambient_volume_before_mute: old.ambient_volume, ..old }
            } else {
                AppModel { ambient_volume: old.ambient_volume_before_mute, ..old }
            };
            new == m && cmds == volume_commands_of(m)
        },
        KeyAction::AmbientVolumeUp => {
            let m = AppModel {
                ambient_volume: if old.ambient_volume + 5 > 100 {
                    100
                } else {
                    (old.ambient_volume + 5) as u32
                },
                ..old
            };
            new == m && cmds == volume_commands_of(m)
        },
        KeyAction::AmbientVolumeDown => {
            let m = AppModel {
                ambient_volume: if old.ambient_volume < 5 {
                    0
                } else {
                    (old.ambient_volume - 5) as u32
                },
                ..old
            };
            new == m && cmds == volume_commands_of(m)
        },
        KeyAction::ToggleVisualizer => new == AppModel {
            visualizer_enabled: !old.visualizer_enabled,
            ..old
        } && cmds.len() == 0,
        KeyAction::BeginFavoriteAssignment => new == AppModel {
            awaiting_favorite_key: old.awaiting_favorite_key || old.view == AppView::Playlists,
            ..old
        } && cmds.len() == 0,
        KeyAction::Favorite(c) => if old.awaiting_favorite_key {
            assign_favorite_post(old, new, cmds, c)
        } else {
            start_favorite_post(old, new, cmds, c)
        },
        KeyAction::OpenBrowser => new == AppModel {
            browser: if old.browser is None {
                Some(BrowserView::TopLevel)
            } else {
                old.browser
            },
            ..old
        } && cmds.len() == 0,
        KeyAction::Back => cmds.len() == 0 && if old.browser is Some {
            new == AppModel { awaiting_favorite_key: false, browser: None, ..old }
        } else {
            go_back_post(AppModel { awaiting_favorite_key: false, ..old }, new)
        },
        KeyAction::Ignore => new == old && cmds.len() == 0,
    }
}


// ---------------------------------------------------------------------------
// Helpers
// ---------------------------------------------------------------------------

proof fn lemma_first_position_unique(order: Seq<usize>, s: usize, i: int, k: int)
    requires
        is_first_position(order, s, i),
        is_first_position(order, s, k),
    ensures
        i == k,
{
    if i < k {
        assert(order[i] != s);
    } else if k < i {
        assert(order[k] != s);
    }
}

/// The first position of `s` in `order`.
fn find_position(order: &Vec<usize>, s: usize) -> (r: Option<usize>)
    ensures
        r == first_position(order@, s),
{
    let n = order.len();
    let mut i: usize = 0;
    while i < n
        invariant
            n == order@.len(),
            i <= n,
            forall|j: int| 0 <= j < i ==> order@[j] != s,
        decreases n - i,
    {
        if order[i] == s {
            proof {
                assert(is_first_position(order@, s, i as int));
                let k = choose|k: int| is_first_position(order@, s, k);
                lemma_first_position_unique(order@, s, i as int, k);
            }
            return Some(i);
        }
        i = i + 1;
    }
    proof {
        assert forall|k: int| !is_first_position(order@, s, k) by {
            if 0 <= k < n {
                assert(order@[k] != s);
            }
        }
    }
    None
}

fn clone_opt_string(o: &Option<String>) -> (r: Option<String>)
    ensures
        r == *o,
{
    match o {
        Some(s) => Some(s.clone()),
        None => None,
    }
}

/// A string holding one character.
fn char_string(c: char) -> (r: String)
    ensures
        r@ == seq![c],
{
    let mut k = String::new();
    push_char(&mut k, c);
    k
}

/// The now-playing file line of a track: `Artist - Track`, prefixed by
/// `|| ` while paused.
pub open spec fn now_playing_line(np: NowPlaying, paused: bool) -> Seq<char> {
    (if paused {
        "|| "@
    } else {
        ""@
    }) + np.artist@ + " - "@ + np.track_name@
}

// ---------------------------------------------------------------------------
// The application state
// ---------------------------------------------------------------------------

/// Main application state: the loaded playlists and tracks, navigation
/// state, playback order and modes, volumes and favorites.
pub struct App {
    config: Config,
    running: bool,
    plex: PlexClient,
    server_name: String,
    playlists: Vec<Playlist>,
    tracks: Vec<Track>,
    view: AppView,
    playlist_selected: Option<usize>,
    track_selected: Option<usize>,
    current_playlist_title: String,
    current_playlist_rating_key: Option<String>,
    error_message: Option<String>,
    current_track_index: Option<usize>,
    now_playing: Option<NowPlaying>,
    saved_volume: u32,
    shuffle_enabled: bool,
    shuffle_order: Vec<usize>,
    shuffle_position: usize,
    repeat_mode: RepeatMode,
    awaiting_favorite_key: bool,
    visualizer_enabled: bool,
    visualizer_num_bars: usize,
    ambient_volume: u32,
    ambient_volume_before_mute: u32,
    master_volume: u32,
    download_pending: bool,
    ambient_download_pending: bool,
    player_ready: bool,
    browser: Option<BrowserView>,
}

/// Default number of visualizer bands.
pub const NUM_BARS: usize = 32;

impl App {
    /// The state as contracts speak of it.
    pub closed spec fn model(&self) -> AppModel {
        AppModel {
            running: self.running,
            config: self.config,
            plex: self.plex,
            server_name: self.server_name,
            playlists: self.playlists@,
            tracks: self.tracks@,
            view: self.view,
            playlist_selected: self.playlist_selected,
            track_selected: self.track_selected,
            current_playlist_title: self.current_playlist_title,
            current_playlist_rating_key: self.current_playlist_rating_key,
            error_message: self.error_message,
            current_track_index: self.current_track_index,
            now_playing: self.now_playing,
            saved_volume: self.saved_volume,
            shuffle_enabled: self.shuffle_enabled,
            shuffle_order: self.shuffle_order@,
            shuffle_position: self.shuffle_position,
            repeat_mode: self.repeat_mode,
            awaiting_favorite_key: self.awaiting_favorite_key,
            visualizer_enabled: self.visualizer_enabled,
            visualizer_num_bars: self.visualizer_num_bars,
            ambient_volume: self.ambient_volume,
            ambient_volume_before_mute: self.ambient_volume_before_mute,
            master_volume: self.master_volume,
            download_pending: self.download_pending,
            ambient_download_pending: self.ambient_download_pending,
            player_ready: self.player_ready,
            browser: self.browser,
        }
    }

    /// Create a new App for a connected server: the playlists view, the
    /// first playlist selected, full main volume, ambient at 70%, shuffle
    /// and repeat off.
    pub fn new(config: Config, plex_client: PlexClient, server_name: String, playlists: Vec<Playlist>) -> (r: App)
        ensures
            r.model() == (AppModel {
                running: true,
                config,
                plex: plex_client,
                server_name,
                playlists: playlists@,
                tracks: Seq::empty(),
                view: AppView::Playlists,
                playlist_selected: if playlists@.len() > 0 { Some(0) } else { None },
                track_selected: None,
                current_playlist_title: r.model().current_playlist_title,
                current_playlist_rating_key: None,
                error_message: None,
                current_track_index: None,
                now_playing: None,
                saved_volume: 100,
                shuffle_enabled: false,
                shuffle_order: Seq::empty(),
                shuffle_position: 0,
                repeat_mode: RepeatMode::Off,
                awaiting_favorite_key: false,
                visualizer_enabled: false,
                visualizer_num_bars: NUM_BARS,
                ambient_volume: 70,
                ambient_volume_before_mute: 70,
                master_volume: 100,
                download_pending: false,
                ambient_download_pending: false,
                player_ready: false,
                browser: None,
            }),
            r.model().current_playlist_title@ == Seq::<char>::empty(),
            r.model().wf(),
    {
        let playlist_selected = if playlists.len() > 0 {
            Some(0)
        } else {
            None
        };
        App {
            config,
            running: true,
            plex: plex_client,
            server_name,
            playlists,
            tracks: Vec::new(),
            view: AppView::Playlists,
            playlist_selected,
            track_selected: None,
            current_playlist_title: String::new(),
            current_playlist_rating_key: None,
            error_message: None,
            current_track_index: None,
            now_playing: None,
            saved_volume: 100,
            shuffle_enabled: false,
            shuffle_order: Vec::new(),
            shuffle_position: 0,
            repeat_mode: RepeatMode::Off,
            awaiting_favorite_key: false,
            visualizer_enabled: false,
            visualizer_num_bars: NUM_BARS,
            ambient_volume: 70,
            ambient_volume_before_mute: 70,
            master_volume: 100,
            download_pending: false,
            ambient_download_pending: false,
            player_ready: false,
            browser: None,
        }
    }

    // -----------------------------------------------------------------------
    // Accessors
    // -----------------------------------------------------------------------

    /// Get the current view.
    pub fn view(&self) -> (r: &AppView)
        ensures
            *r == self.model().view,
    {
        &self.view
    }

    /// Get a reference to the playlists.
    pub fn playlists(&self) -> (r: &[Playlist])
        ensures
            r@ == self.model().playlists,
    {
        self.playlists.as_slice()
    }

    /// Get a reference to the tracks.
    pub fn tracks(&self) -> (r: &[Track])
        ensures
            r@ == self.model().tracks,
    {
        self.tracks.as_slice()
    }

    /// Get the current playlist title.
    pub fn current_playlist_title(&self) -> (r: &str)
        ensures
            r@ == self.model().current_playlist_title@,
    {
        self.current_playlist_title.as_str()
    }

    /// The selected entry of the playlist list.
    pub fn selected_playlist(&self) -> (r: Option<usize>)
        ensures
            r == self.model().playlist_selected,
    {
        self.playlist_selected
    }

    /// The selected entry of the track list.
    pub fn selected_track(&self) -> (r: Option<usize>)
        ensures
            r == self.model().track_selected,
    {
        self.track_selected
    }

    /// Get the current error message (if any), for display in the status bar.
    pub fn error_message(&self) -> (r: Option<&str>)
        ensures
            r is Some <==> self.model().error_message is Some,
            r matches Some(m) ==> m@ == self.model().error_message->0@,
    {
        match &self.error_message {
            Some(m) => Some(m.as_str()),
            None => None,
        }
    }

    /// Get a reference to the NowPlaying metadata (if a track is playing).
    pub fn now_playing(&self) -> (r: Option<&NowPlaying>)
        ensures
            r is Some <==> self.model().now_playing is Some,
            r matches Some(np) ==> *np == self.model().now_playing->0,
    {
        self.now_playing.as_ref()
    }

    /// Get the index of the currently playing track in the tracks list.
    pub fn current_track_index(&self) -> (r: Option<usize>)
        ensures
            r == self.model().current_track_index,
    {
        self.current_track_index
    }

    /// Get the saved main volume (hundredths).
    pub fn saved_volume(&self) -> (r: u32)
        ensures
            r == self.model().saved_volume,
    {
        self.saved_volume
    }

    /// Whether shuffle mode is currently active.
    pub fn shuffle_enabled(&self) -> (r: bool)
        ensures
            r == self.model().shuffle_enabled,
    {
        self.shuffle_enabled
    }

    /// Get the current repeat mode.
    pub fn repeat_mode(&self) -> (r: RepeatMode)
        ensures
            r == self.model().repeat_mode,
    {
        self.repeat_mode
    }

    /// Whether the app is waiting for a number key (1-9) to assign a favorite.
    pub fn awaiting_favorite_key(&self) -> (r: bool)
        ensures
            r == self.model().awaiting_favorite_key,
    {
        self.awaiting_favorite_key
    }

    /// The configuration (favorites, servers).
    pub fn config(&self) -> (r: &Config)
        ensures
            *r == self.model().config,
    {
        &self.config
    }

    /// The connected server.
    pub fn plex_client(&self) -> (r: &PlexClient)
        ensures
            *r == self.model().plex,
    {
        &self.plex
    }

    /// The name of the connected server.
    pub fn server_name(&self) -> (r: &str)
        ensures
            r@ == self.model().server_name@,
    {
        self.server_name.as_str()
    }

    /// Whether the audio visualizer is enabled (toggled with 'v').
    pub fn visualizer_enabled(&self) -> (r: bool)
        ensures
            r == self.model().visualizer_enabled,
    {
        self.visualizer_enabled
    }

    /// The ambient track browser, when its overlay is open.
    pub fn browser(&self) -> (r: Option<&BrowserView>)
        ensures
            r is Some <==> self.model().browser is Some,
            r matches Some(b) ==> *b == self.model().browser->0,
    {
        self.browser.as_ref()
    }

    /// Whether the visualizer has work to do: enabled and a track playing.
    pub fn visualizer_active(&self) -> (r: bool)
        ensures
            r == (self.model().visualizer_enabled && self.model().now_playing is Some),
    {
        self.visualizer_enabled && self.now_playing.is_some()
    }

    /// The number of visualizer bars to compute.
    pub fn visualizer_num_bars(&self) -> (r: usize)
        ensures
            r == self.model().visualizer_num_bars,
    {
        self.visualizer_num_bars
    }

    /// Set the dynamic number of visualizer bars, clamped to 4..=64.
    pub fn set_visualizer_num_bars(&mut self, n: usize)
        ensures
            final(self).model() == (AppModel {
                visualizer_num_bars: if n < 4 {
                    4
                } else if n > 64 {
                    64
                } else {
                    n
                },
                ..old(self).model()
            }),
            old(self).model().wf() ==> final(self).model().wf(),
    {
        self.visualizer_num_bars = if n < 4 {
            4
        } else if n > 64 {
            64
        } else {
            n
        };
    }

    /// Get the ambient volume (hundredths).
    pub fn ambient_volume(&self) -> (r: u32)
        ensures
            r == self.model().ambient_volume,
    {
        self.ambient_volume
    }

    /// Get the master volume (hundredths).
    pub fn master_volume(&self) -> (r: u32)
        ensures
            r == self.model().master_volume,
    {
        self.master_volume
    }

    /// Whether the event loop should keep running.
    pub fn is_running(&self) -> (r: bool)
        ensures
            r == self.model().running,
    {
        self.running
    }

    /// Whether a main-channel download is in progress.
    pub fn download_pending(&self) -> (r: bool)
        ensures
            r == self.model().download_pending,
    {
        self.download_pending
    }

    /// Stop the event loop (signal-based shutdown).
    pub fn quit(&mut self)
        ensures
            final(self).model() == (AppModel { running: false, ..old(self).model() }),
    {
        self.running = false;
    }

    // -----------------------------------------------------------------------
    // Volume
    // -----------------------------------------------------------------------

    /// The budgeted volumes of the two channels.
    pub fn volume_levels(&self) -> (r: VolumeLevels)
        requires
            self.model().wf(),
        ensures
            r == volume_levels(
                self.model().saved_volume as nat,
                self.model().ambient_volume as nat,
                self.model().master_volume as nat,
            ),
    {
        let main = self.saved_volume as u64;
        let ambient = self.ambient_volume as u64;
        let master = self.master_volume as u64;
        let total = main + ambient;
        let scale = if total > 100 {
            100 * total
        } else {
            10000
        };
        assert(main * master <= 10000 && ambient * master <= 10000) by (nonlinear_arith)
            requires
                main <= 100,
                ambient <= 100,
                master <= 100,
        ;
        VolumeLevels { main: main * master, ambient: ambient * master, scale }
    }

    fn volume_commands(&self) -> (r: Vec<Command>)
        requires
            self.model().wf(),
        ensures
            r@ == volume_commands_of(self.model()),
    {
        let mut cmds: Vec<Command> = Vec::new();
        if self.player_ready {
            cmds.push(Command::SetVolumes(self.volume_levels()));
        }
        cmds
    }

    // -----------------------------------------------------------------------
    // Downloads and track navigation
    // -----------------------------------------------------------------------

    fn start_track_download(&mut self) -> (r: Vec<Command>)
        ensures
            start_download_post(old(self).model(), final(self).model(), r@),
    {
        let mut cmds: Vec<Command> = Vec::new();
        if let Some(i) = self.track_selected {
            if i < self.tracks.len() {
                let part = track_part_key(&self.tracks[i]);
                if let Some(key) = part {
                    let url = self.plex.stream_url(key.as_str());
                    let name = self.tracks[i].title.clone();
                    self.view = AppView::Downloading;
                    self.download_pending = true;
                    cmds.push(Command::StartDownload { url, track_name: name });
                }
            }
        }
        cmds
    }

    fn start_ambient_from_selected(&mut self) -> (r: Vec<Command>)
        ensures
            ambient_post(old(self).model(), final(self).model(), r@),
    {
        let mut cmds: Vec<Command> = Vec::new();
        if let Some(i) = self.track_selected {
            if i < self.tracks.len() {
                let part = track_part_key(&self.tracks[i]);
                if let Some(key) = part {
                    let url = self.plex.stream_url(key.as_str());
                    let name = self.tracks[i].title.clone();
                    self.ambient_download_pending = true;
                    cmds.push(Command::StartAmbientDownload { url, track_name: name });
                }
            }
        }
        cmds
    }

    fn play_track_at_index(&mut self, index: usize) -> (r: Vec<Command>)
        ensures
            play_at_post(old(self).model(), index, final(self).model(), r@),
    {
        if index >= self.tracks.len() {
            return Vec::new();
        }
        self.download_pending = false;
        self.current_track_index = Some(index);
        self.track_selected = Some(index);
        let mut cmds: Vec<Command> = Vec::new();
        cmds.push(Command::CancelDownload);
        let mut rest = self.start_track_download();
        let ghost rest_view = rest@;
        cmds.append(&mut rest);
        assert(cmds@.drop_first() =~= rest_view);
        cmds
    }

    fn regenerate_shuffle_order(&mut self)
        ensures
            final(self).model() == (AppModel {
                shuffle_order: final(self).model().shuffle_order,
                shuffle_position: 0,
                ..old(self).model()
            }),
            is_regenerated_order(old(self).model(), final(self).model().shuffle_order),
    {
        if self.tracks.len() == 0 {
            self.shuffle_order = Vec::new();
            self.shuffle_position = 0;
            return;
        }
        let order = shuffled_order(self.tracks.len(), self.current_track_index);
        self.shuffle_order = order;
        self.shuffle_position = 0;
    }

    fn next_track_index(&self) -> (r: Option<usize>)
        requires
            self.model().wf(),
        ensures
            r == self.model().next_index(),
    {
        if self.tracks.len() == 0 {
            return None;
        }
        if self.shuffle_enabled {
            let n = self.shuffle_order.len();
            let next_pos = self.shuffle_position + 1;
            if next_pos < n {
                Some(self.shuffle_order[next_pos])
            } else {
                None
            }
        } else {
            match self.current_track_index {
                Some(idx) => if idx < self.tracks.len() - 1 {
                    Some(idx + 1)
                } else {
                    None
                },
                None => None,
            }
        }
    }

    fn prev_track_index(&self) -> (r: Option<usize>)
        requires
            self.model().wf(),
        ensures
            r == self.model().prev_index(),
    {
        if self.tracks.len() == 0 {
            return None;
        }
        if self.shuffle_enabled {
            if self.shuffle_position > 0 {
                Some(self.shuffle_order[self.shuffle_position - 1])
            } else {
                None
            }
        } else {
            match self.current_track_index {
                Some(idx) => if idx == 0 {
                    Some(self.tracks.len() - 1)
                } else {
                    Some(idx - 1)
                },
                None => Some(self.tracks.len() - 1),
            }
        }
    }

    fn wrap_to_new_shuffle_order(&mut self) -> (r: Vec<Command>)
        requires
            old(self).model().wf(),
        ensures
            reshuffle_wrap_post(old(self).model(), final(self).model(), r@),
            final(self).model().wf(),
    {
        self.regenerate_shuffle_order();
        if self.shuffle_order.len() > 0 {
            let first = self.shuffle_order[0];
            self.shuffle_position = 0;
            let n = self.tracks.len();
            proof {
                lemma_shuffle_facts(self.shuffle_order@, n as nat);
            }
            self.play_track_at_index(first)
        } else {
            let n = self.tracks.len();
            proof {
                if n > 0 {
                    lemma_shuffle_facts(self.shuffle_order@, n as nat);
                }
            }
            Vec::new()
        }
    }

    fn next_track(&mut self) -> (r: Vec<Command>)
        requires
            old(self).model().wf(),
        ensures
            next_track_post(old(self).model(), final(self).model(), r@),
            final(self).model().wf(),
    {
        if self.tracks.len() == 0 {
            return Vec::new();
        }
        match self.next_track_index() {
            Some(idx) => {
                if self.shuffle_enabled {
                    let _n = self.shuffle_order.len();
                    self.shuffle_position = self.shuffle_position + 1;
                }
                self.play_track_at_index(idx)
            },
            None => {
                match self.repeat_mode {
                    RepeatMode::All => {
                        if self.shuffle_enabled {
                            self.wrap_to_new_shuffle_order()
                        } else {
                            self.play_track_at_index(0)
                        }
                    },
                    _ => Vec::new(),
                }
            },
        }
    }

    fn prev_track(&mut self) -> (r: Vec<Command>)
        requires
            old(self).model().wf(),
        ensures
            prev_track_post(old(self).model(), final(self).model(), r@),
            final(self).model().wf(),
    {
        if self.tracks.len() == 0 {
            return Vec::new();
        }
        match self.prev_track_index() {
            Some(idx) => {
                if self.shuffle_enabled {
                    self.shuffle_position = if self.shuffle_position > 0 {
                        self.shuffle_position - 1
                    } else {
                        0
                    };
                }
                self.play_track_at_index(idx)
            },
            None => {
                match self.repeat_mode {
                    RepeatMode::All => {
                        if self.shuffle_enabled {
                            if self.shuffle_order.len() > 0 {
                                let last_pos = self.shuffle_order.len() - 1;
                                let last = self.shuffle_order[last_pos];
                                self.shuffle_position = last_pos;
                                self.play_track_at_index(last)
                            } else {
                                Vec::new()
                            }
                        } else {
                            let last = self.tracks.len() - 1;
                            self.play_track_at_index(last)
                        }
                    },
                    _ => {
                        let last = self.tracks.len() - 1;
                        self.play_track_at_index(last)
                    },
                }
            },
        }
    }

    /// Auto-advance when the current track has finished. Unlike a user
    /// skip, this honours Repeat One by replaying the current track. The
    /// flag tells whether playback goes on (false: the end of the playlist
    /// was reached with repeat off, or nothing could be started).
    pub fn advance_track(&mut self) -> (r: (bool, Vec<Command>))
        requires
            old(self).model().wf(),
        ensures
            advance_post(old(self).model(), final(self).model(), r.1@, r.0),
            final(self).model().wf(),
    {
        match self.repeat_mode {
            RepeatMode::One => {
                let mut cmds: Vec<Command> = Vec::new();
                if self.player_ready {
                    cmds.push(Command::ReplayCurrent { volume: self.saved_volume });
                }
                let mut vols = self.volume_commands();
                cmds.append(&mut vols);
                (true, cmds)
            },
            RepeatMode::All => {
                match self.next_track_index() {
                    Some(idx) => {
                        if self.shuffle_enabled {
                            let _n = self.shuffle_order.len();
                            self.shuffle_position = self.shuffle_position + 1;
                        }
                        (true, self.play_track_at_index(idx))
                    },
                    None => {
                        if self.shuffle_enabled {
                            let cmds = self.wrap_to_new_shuffle_order();
                            (self.shuffle_order.len() > 0, cmds)
                        } else {
                            (true, self.play_track_at_index(0))
                        }
                    },
                }
            },
            RepeatMode::Off => {
                match self.next_track_index() {
                    Some(idx) => {
                        if self.shuffle_enabled {
                            let _n = self.shuffle_order.len();
                            self.shuffle_position = self.shuffle_position + 1;
                        }
                        (true, self.play_track_at_index(idx))
                    },
                    None => (false, Vec::new()),
                }
            },
        }
    }

    /// The player reports that the current track has ended.
    pub fn track_finished(&mut self) -> (r: Vec<Command>)
        requires
            old(self).model().wf(),
        ensures
            track_finished_post(old(self).model(), final(self).model(), r@),
            final(self).model().wf(),
    {
        if self.view != AppView::Playing || self.download_pending {
            return Vec::new();
        }
        let n = self.tracks.len();
        let ghost before = self.model();
        assert(before.tracks.len() == n);
        let (started, mut cmds) = self.advance_track();
        proof {
            lemma_advance_flag(before, self.model(), cmds@, started);
        }
        if !started {
            let ghost body = cmds@;
            cmds.push(Command::WriteNowPlaying(String::new()));
            assert(cmds@.drop_last() =~= body);
        }
        cmds
    }

    fn toggle_shuffle(&mut self)
        requires
            old(self).model().wf(),
        ensures
            toggle_shuffle_post(old(self).model(), final(self).model()),
            final(self).model().wf(),
    {
        self.shuffle_enabled = !self.shuffle_enabled;
        if self.shuffle_enabled && self.tracks.len() > 0 {
            let order = shuffled_order(self.tracks.len(), self.current_track_index);
            self.shuffle_position = 0;
            self.shuffle_order = order;
        }
    }

    fn move_selection(&mut self, down: bool)
        ensures
            move_selection_post(old(self).model(), final(self).model(), down),
    {
        match self.view {
            AppView::Playlists => {
                let len = self.playlists.len();
                if len == 0 {
                    return;
                }
                let cur = match self.playlist_selected {
                    Some(i) => i,
                    None => 0,
                };
                self.playlist_selected = Some(if down {
                    if cur >= len - 1 {
                        0
                    } else {
                        cur + 1
                    }
                } else {
                    if cur == 0 {
                        len - 1
                    } else {
                        cur - 1
                    }
                });
            },
            AppView::Tracks | AppView::Playing => {
                let len = self.tracks.len();
                if len == 0 {
                    return;
                }
                let cur = match self.track_selected {
                    Some(i) => i,
                    None => 0,
                };
                self.track_selected = Some(if down {
                    if cur >= len - 1 {
                        0
                    } else {
                        cur + 1
                    }
                } else {
                    if cur == 0 {
                        len - 1
                    } else {
                        cur - 1
                    }
                });
            },
            AppView::Downloading => {},
        }
    }

    fn select_item(&mut self) -> (r: Vec<Command>)
        requires
            old(self).model().wf(),
        ensures
            select_post(old(self).model(), final(self).model(), r@),
            final(self).model().wf(),
    {
        match self.view {
            AppView::Playlists => {
                let mut cmds: Vec<Command> = Vec::new();
                if let Some(idx) = self.playlist_selected {
                    if idx < self.playlists.len() {
                        let rating_key = self.playlists[idx].rating_key.clone();
                        let title = self.playlists[idx].title.clone();
                        self.current_playlist_title = title;
                        self.current_playlist_rating_key = Some(rating_key.clone());
                        cmds.push(Command::FetchPlaylistTracks { rating_key });
                    }
                }
                cmds
            },
            AppView::Tracks | AppView::Playing => {
                self.current_track_index = self.track_selected;
                if self.shuffle_enabled {
                    if let Some(selected) = self.current_track_index {
                        if let Some(pos) = find_position(&self.shuffle_order, selected) {
                            self.shuffle_position = pos;
                        }
                    }
                }
                self.start_track_download()
            },
            AppView::Downloading => Vec::new(),
        }
    }

    fn go_back(&mut self)
        ensures
            go_back_post(old(self).model(), final(self).model()),
    {
        match self.view {
            AppView::Tracks | AppView::Playing => {
                self.view = AppView::Playlists;
                self.tracks = Vec::new();
                self.shuffle_order = Vec::new();
                self.shuffle_position = 0;
            },
            _ => {},
        }
    }

    fn assign_favorite(&mut self, c: char) -> (r: Vec<Command>)
        requires
            old(self).model().awaiting_favorite_key,
        ensures
            assign_favorite_post(old(self).model(), final(self).model(), r@, c),
    {
        let mut cmds: Vec<Command> = Vec::new();
        if let Some(idx) = self.playlist_selected {
            if idx < self.playlists.len() {
                let fav = FavoritePlaylist {
                    rating_key: self.playlists[idx].rating_key.clone(),
                    title: self.playlists[idx].title.clone(),
                };
                let key = char_string(c);
                let ghost k = key;
                let ghost before = self.config.favorites@;
                self.config.set_favorite(key, fav);
                assert(k@ == seq![c] && self.config.favorites@ == inserted(before, k, fav));
                cmds.push(Command::SaveConfig);
            }
        }
        self.awaiting_favorite_key = false;
        cmds
    }

    fn start_favorite(&mut self, c: char) -> (r: Vec<Command>)
        ensures
            start_favorite_post(old(self).model(), final(self).model(), r@, c),
    {
        let key = char_string(c);
        let mut cmds: Vec<Command> = Vec::new();
        if let Some(f) = self.config.favorite(key.as_str()) {
            cmds.push(Command::FetchFavoriteTracks { favorite: f });
        }
        cmds
    }

    /// Handle a key press: the state moves as the key's action says, and the
    /// returned commands are for the caller to carry out in order.
    #[verifier::spinoff_prover]
    #[verifier::rlimit(40)]
    pub fn handle_key(&mut self, key: Key, ctrl: bool) -> (r: Vec<Command>)
        requires
            old(self).model().wf(),
        ensures
            action_post(old(self).model(), final(self).model(), r@, key_action_of(key, ctrl)),
            final(self).model().wf(),
    {
        let action = key_action(key, ctrl);
        match action {
            KeyAction::Quit => {
                self.running = false;
                Vec::new()
            },
            KeyAction::TogglePause => {
                let mut cmds: Vec<Command> = Vec::new();
                if self.player_ready {
                    cmds.push(Command::TogglePause);
                }
                cmds
            },
            KeyAction::VolumeUp => {
                self.saved_volume = if self.saved_volume + 5 > 100 {
                    100
                } else {
                    self.saved_volume + 5
                };
                self.volume_commands()
            },
            KeyAction::VolumeDown => {
                self.saved_volume = if self.saved_volume < 5 {
                    0
                } else {
                    self.saved_volume - 5
                };
                self.volume_commands()
            },
            KeyAction::NextTrack => {
                if self.view == AppView::Playing || self.view == AppView::Tracks {
                    self.next_track()
                } else {
                    Vec::new()
                }
            },
            KeyAction::PrevTrack => {
                if self.view == AppView::Playing || self.view == AppView::Tracks {
                    self.prev_track()
                } else {
                    Vec::new()
                }
            },
            KeyAction::SelectionDown => {
                self.move_selection(true);
                Vec::new()
            },
            KeyAction::SelectionUp => {
                self.move_selection(false);
                Vec::new()
            },
            KeyAction::Select => self.select_item(),
            KeyAction::ToggleShuffle => {
                self.toggle_shuffle();
                Vec::new()
            },
            KeyAction::CycleRepeat => {
                self.repeat_mode = self.repeat_mode.cycle();
                Vec::new()
            },
            KeyAction::SeekForward => {
                let mut cmds: Vec<Command> = Vec::new();
                if self.view == AppView::Playing && self.player_ready {
                    if let Some(np) = &self.now_playing {
                        cmds.push(Command::SeekForward { duration_ms: np.duration_ms });
                    }
                }
                cmds
            },
            KeyAction::SeekBackward => {
                let mut cmds: Vec<Command> = Vec::new();
                if self.view == AppView::Playing && self.player_ready {
                    cmds.push(Command::SeekBackward);
                }
                cmds
            },
            KeyAction::AmbientFromSelected => {
                if self.view == AppView::Playing || self.view == AppView::Tracks {
                    self.start_ambient_from_selected()
                } else {
                    Vec::new()
                }
            },
            KeyAction::ToggleAmbientMute => {
                if self.ambient_volume > 0 {
                    self.ambient_volume_before_mute = self.ambient_volume;
                    self.ambient_volume = 0;
                } else {
                    self.ambient_volume = self.ambient_volume_before_mute;
                }
                self.volume_commands()
            },
            KeyAction::AmbientVolumeUp => {
                self.ambient_volume = if self.ambient_volume + 5 > 100 {
                    100
                } else {
                    self.ambient_volume + 5
                };
                self.volume_commands()
            },
            KeyAction::AmbientVolumeDown => {
                self.ambient_volume = if self.ambient_volume < 5 {
                    0
                } else {
                    self.ambient_volume - 5
                };
                self.volume_commands()
            },
            KeyAction::ToggleVisualizer => {
                self.visualizer_enabled = !self.visualizer_enabled;
                Vec::new()
            },
            KeyAction::BeginFavoriteAssignment => {
                if self.view == AppView::Playlists {
                    self.awaiting_favorite_key = true;
                }
                Vec::new()
            },
            KeyAction::Favorite(c) => {
                if self.awaiting_favorite_key {
                    self.assign_favorite(c)
                } else {
                    self.start_favorite(c)
                }
            },
            KeyAction::OpenBrowser => {
                if self.browser.is_none() {
                    self.browser = Some(BrowserView::TopLevel);
                }
                Vec::new()
            },
            KeyAction::Back => {
                self.awaiting_favorite_key = false;
                if self.browser.is_some() {
                    self.browser = None;
                } else {
                    self.go_back();
                }
                Vec::new()
            },
            KeyAction::Ignore => Vec::new(),
        }
    }
}


/// The artist shown for a track.
pub open spec fn artist_text(t: Track) -> Seq<char> {
    match t.artist {
        Some(a) => a@,
        None => "Unknown Artist"@,
    }
}

/// The album shown for a track.
pub open spec fn album_text(t: Track) -> Seq<char> {
    match t.album {
        Some(a) => a@,
        None => "Unknown Album"@,
    }
}

/// A volume read from a session, limited to 0..=100 hundredths.
pub open spec fn clamp_volume(v: i64) -> u32 {
    if v < 0 {
        0
    } else if v > 100 {
        100
    } else {
        v as u32
    }
}

/// Playback of the downloaded track has started.
pub open spec fn playback_started_post(old: AppModel, new: AppModel, cmds: Seq<Command>, name: String) -> bool {
    let base = AppModel { view: AppView::Playing, error_message: None, download_pending: false, ..old };
    match old.current_track_index {
        Some(i) => if i < old.tracks.len() {
            let t = old.tracks[i as int];
            &&& new.now_playing matches Some(np) && {
                &&& np.track_name == name
                &&& np.artist@ == artist_text(t)
                &&& np.album@ == album_text(t)
                &&& np.duration_ms == match t.duration {
                    Some(d) => d,
                    None => 0,
                }
                &&& cmds.len() >= 1
                &&& cmds[0] matches Command::WriteNowPlaying(line) && line@ == now_playing_line(np, false)
            }
            &&& new == AppModel { now_playing: new.now_playing, ..base }
            &&& cmds.drop_first() == volume_commands_of(base)
        } else {
            new == base && cmds == volume_commands_of(base)
        },
        None => new == base && cmds == volume_commands_of(base),
    }
}

/// `s` records the playlist, track, volume, shuffle and repeat settings of
/// `m`, with no ambient track.
pub open spec fn is_snapshot_of(s: Session, m: AppModel) -> bool {
    &&& s.playlist_rating_key == m.current_playlist_rating_key
    &&& s.playlist_title == Some(m.current_playlist_title)
    &&& s.track_index == m.current_track_index
    &&& s.volume == m.saved_volume as i64
    &&& s.shuffle_enabled == m.shuffle_enabled
    &&& s.repeat_mode@ == repeat_repr(m.repeat_mode)
    &&& s.ambient_part_key is None
    &&& s.ambient_track_name is None
    &&& s.ambient_volume is None
    &&& !s.ambient_enabled
}

/// The track position a session restores within a list of `len` tracks:
/// the saved one, moved to the last track when it is past the end.
pub open spec fn restored_track_index(session: Session, len: nat) -> usize {
    let saved = match session.track_index {
        Some(t) => t,
        None => 0,
    };
    if saved < len - 1 {
        saved
    } else {
        (len - 1) as usize
    }
}

/// Restoring `session` with the fetched `tracks` of the playlist at
/// `playlist_index`.
pub open spec fn restore_post(old_m: AppModel, session: Session, playlist_index: usize, tracks: Seq<Track>, new_m: AppModel) -> bool {
    if tracks.len() == 0 {
        new_m == old_m
    } else {
        let ti = restored_track_index(session, tracks.len());
        let m = AppModel {
            current_playlist_title: match session.playlist_title {
                Some(t) => t,
                None => old_m.playlists[playlist_index as int].title,
            },
            current_playlist_rating_key: session.playlist_rating_key,
            tracks,
            track_selected: Some(ti),
            current_track_index: Some(ti),
            saved_volume: clamp_volume(session.volume),
            shuffle_enabled: session.shuffle_enabled,
            repeat_mode: repeat_from_repr(session.repeat_mode@),
            view: AppView::Tracks,
            playlist_selected: Some(playlist_index),
            ..old_m
        };
        &&& new_m == AppModel {
            shuffle_order: new_m.shuffle_order,
            shuffle_position: new_m.shuffle_position,
            ..m
        }
        &&& reshuffled_if_enabled(m, new_m)
    }
}

/// The position of the first playlist with rating key `key`.
pub open spec fn is_first_playlist(ps: Seq<Playlist>, key: Seq<char>, i: int) -> bool {
    &&& 0 <= i < ps.len()
    &&& ps[i].rating_key@ == key
    &&& forall|j: int| 0 <= j < i ==> (#[trigger] ps[j]).rating_key@ != key
}

impl App {
    /// The tracks of the playlist opened with Enter have arrived: show them
    /// with the first one selected (a new shuffle order in shuffle mode).
    pub fn playlist_tracks_loaded(&mut self, tracks: Vec<Track>)
        requires
            old(self).model().wf(),
        ensures
            final(self).model() == (AppModel {
                tracks: tracks@,
                track_selected: if tracks@.len() > 0 { Some(0) } else { None },
                view: AppView::Tracks,
                shuffle_order: final(self).model().shuffle_order,
                shuffle_position: final(self).model().shuffle_position,
                ..old(self).model()
            }),
            reshuffled_if_enabled(AppModel { tracks: tracks@, ..old(self).model() }, final(self).model()),
            final(self).model().wf(),
    {
        self.tracks = tracks;
        self.track_selected = if self.tracks.len() > 0 {
            Some(0)
        } else {
            None
        };
        if self.shuffle_enabled {
            self.regenerate_shuffle_order();
            let n = self.tracks.len();
            proof {
                if n > 0 {
                    lemma_shuffle_facts(self.shuffle_order@, n as nat);
                }
            }
        }
        self.view = AppView::Tracks;
    }

    /// The tracks of a favorite have arrived: they become the current list
    /// and the first one starts playing.
    pub fn favorite_tracks_loaded(&mut self, favorite: FavoritePlaylist, tracks: Vec<Track>) -> (r: Vec<Command>)
        requires
            old(self).model().wf(),
        ensures
            ({
                let m = AppModel {
                    tracks: tracks@,
                    current_playlist_title: favorite.title,
                    current_playlist_rating_key: Some(favorite.rating_key),
                    track_selected: if tracks@.len() > 0 { Some(0) } else { None },
                    shuffle_order: final(self).model().shuffle_order,
                    shuffle_position: final(self).model().shuffle_position,
                    ..old(self).model()
                };
                &&& reshuffled_if_enabled(AppModel { tracks: tracks@, ..old(self).model() }, final(self).model())
                &&& if tracks@.len() > 0 {
                    play_at_post(m, 0, final(self).model(), r@)
                } else {
                    final(self).model() == m && r@.len() == 0
                }
            }),
            final(self).model().wf(),
    {
        self.tracks = tracks;
        self.current_playlist_title = favorite.title;
        self.current_playlist_rating_key = Some(favorite.rating_key);
        self.track_selected = if self.tracks.len() > 0 {
            Some(0)
        } else {
            None
        };
        if self.shuffle_enabled {
            self.regenerate_shuffle_order();
            let n = self.tracks.len();
            proof {
                if n > 0 {
                    lemma_shuffle_facts(self.shuffle_order@, n as nat);
                }
            }
        }
        if self.tracks.len() > 0 {
            self.play_track_at_index(0)
        } else {
            Vec::new()
        }
    }

    /// Fetching a favorite's tracks failed: show why.
    pub fn favorite_fetch_failed(&mut self, message: &str)
        ensures
            final(self).model() == (AppModel { error_message: final(self).model().error_message, ..old(self).model() }),
            final(self).model().error_message matches Some(e) && e@ == "Favorite not found: "@ + message@,
    {
        let mut e = String::from_str("Favorite not found: ");
        e.append(message);
        self.error_message = Some(e);
    }

    /// The audio device was opened.
    pub fn player_initialized(&mut self)
        ensures
            final(self).model() == (AppModel { player_ready: true, error_message: None, ..old(self).model() }),
    {
        self.player_ready = true;
        self.error_message = None;
    }

    /// The audio device could not be opened: show the error and go back to
    /// the track list.
    pub fn player_init_failed(&mut self, message: String)
        ensures
            final(self).model() == (AppModel {
                error_message: Some(message),
                view: AppView::Tracks,
                download_pending: false,
                ..old(self).model()
            }),
    {
        self.error_message = Some(message);
        self.view = AppView::Tracks;
        self.download_pending = false;
    }

    /// The download failed or its worker vanished: back to the track list.
    pub fn download_failed(&mut self)
        ensures
            final(self).model() == (AppModel { view: AppView::Tracks, download_pending: false, ..old(self).model() }),
    {
        self.view = AppView::Tracks;
        self.download_pending = false;
    }

    /// The downloaded track started playing: record what is playing and
    /// write it to the now-playing file, then set the budgeted volumes.
    pub fn playback_started(&mut self, track_name: String) -> (r: Vec<Command>)
        requires
            old(self).model().wf(),
        ensures
            playback_started_post(old(self).model(), final(self).model(), r@, track_name),
            final(self).model().wf(),
    {
        self.view = AppView::Playing;
        self.error_message = None;
        self.download_pending = false;
        let mut cmds: Vec<Command> = Vec::new();
        if let Some(idx) = self.current_track_index {
            if idx < self.tracks.len() {
                let artist = match &self.tracks[idx].artist {
                    Some(a) => a.clone(),
                    None => String::from_str("Unknown Artist"),
                };
                let album = match &self.tracks[idx].album {
                    Some(a) => a.clone(),
                    None => String::from_str("Unknown Album"),
                };
                let duration_ms = match self.tracks[idx].duration {
                    Some(d) => d,
                    None => 0,
                };
                let mut line = artist.clone();
                line.append(" - ");
                line.append(track_name.as_str());
                let np = NowPlaying { track_name, artist, album, duration_ms };
                proof {
                    reveal_strlit("");
                    assert(line@ =~= now_playing_line(np, false));
                }
                cmds.push(Command::WriteNowPlaying(line));
                self.now_playing = Some(np);
            }
        }
        let mut vols = self.volume_commands();
        let ghost vols_view = vols@;
        let ghost before = cmds@;
        cmds.append(&mut vols);
        assert(cmds@ =~= before + vols_view);
        proof {
            if before.len() == 1 {
                assert(cmds@.drop_first() =~= vols_view);
            }
        }
        cmds
    }

    /// Starting playback failed: show the error, back to the track list.
    pub fn playback_failed(&mut self, message: &str) -> (r: Vec<Command>)
        requires
            old(self).model().wf(),
        ensures
            ({
                let m = AppModel {
                    error_message: final(self).model().error_message,
                    view: AppView::Tracks,
                    download_pending: false,
                    ..old(self).model()
                };
                &&& final(self).model() == m
                &&& final(self).model().error_message matches Some(e) && e@ == "Playback error: "@ + message@
                &&& r@ == volume_commands_of(m)
            }),
            final(self).model().wf(),
    {
        let mut e = String::from_str("Playback error: ");
        e.append(message);
        self.error_message = Some(e);
        self.view = AppView::Tracks;
        self.download_pending = false;
        self.volume_commands()
    }

    /// Replaying the current track from memory failed (Repeat One): download
    /// it again.
    pub fn replay_failed(&mut self) -> (r: Vec<Command>)
        ensures
            match old(self).model().current_track_index {
                Some(i) => play_at_post(old(self).model(), i, final(self).model(), r@),
                None => final(self).model() == old(self).model() && r@.len() == 0,
            },
            old(self).model().wf() ==> final(self).model().wf(),
    {
        match self.current_track_index {
            Some(idx) => self.play_track_at_index(idx),
            None => Vec::new(),
        }
    }

    /// The now-playing file text after a pause toggle: `|| Artist - Track`
    /// when paused, `Artist - Track` when playing; None when nothing plays.
    pub fn now_playing_text(&self, paused: bool) -> (r: Option<String>)
        ensures
            match self.model().now_playing {
                Some(np) => r matches Some(t) && t@ == now_playing_line(np, paused),
                None => r is None,
            },
    {
        match &self.now_playing {
            Some(np) => {
                let mut t = if paused {
                    String::from_str("|| ")
                } else {
                    String::new()
                };
                t.append(np.artist.as_str());
                t.append(" - ");
                t.append(np.track_name.as_str());
                proof {
                    reveal_strlit("");
                }
                Some(t)
            },
            None => None,
        }
    }

    /// The ambient download finished (successfully or not).
    pub fn ambient_download_finished(&mut self)
        ensures
            final(self).model() == (AppModel { ambient_download_pending: false, ..old(self).model() }),
    {
        self.ambient_download_pending = false;
    }

    /// An ambient track was loaded on the player.
    pub fn ambient_loaded(&mut self)
        ensures
            final(self).model() == (AppModel { error_message: None, ..old(self).model() }),
    {
        self.error_message = None;
    }

    // -----------------------------------------------------------------------
    // Session persistence
    // -----------------------------------------------------------------------

    /// The session to save on exit: playlist, track, volume, shuffle and
    /// repeat settings.
    pub fn session_snapshot(&self) -> (r: Session)
        ensures
            is_snapshot_of(r, self.model()),
    {
        Session {
            playlist_rating_key: clone_opt_string(&self.current_playlist_rating_key),
            playlist_title: Some(self.current_playlist_title.clone()),
            track_index: self.current_track_index,
            volume: self.saved_volume as i64,
            shuffle_enabled: self.shuffle_enabled,
            repeat_mode: String::from_str(self.repeat_mode.to_string_repr()),
            ambient_part_key: None,
            ambient_track_name: None,
            ambient_volume: None,
            ambient_enabled: false,
        }
    }

    /// Where a saved session can be restored: the position of the first
    /// loaded playlist whose rating key is the session's (which must be
    /// present and non-empty).
    pub fn restore_target(&self, session: &Session) -> (r: Option<usize>)
        ensures
            match session.playlist_rating_key {
                Some(k) => if k@.len() > 0 {
                    match r {
                        Some(i) => is_first_playlist(self.model().playlists, k@, i as int),
                        None => forall|j: int|
                            0 <= j < self.model().playlists.len() ==> (#[trigger] self.model().playlists[j]).rating_key@
                                != k@,
                    }
                } else {
                    r is None
                },
                None => r is None,
            },
    {
        let key = match clone_opt_string(&session.playlist_rating_key) {
            Some(k) => k,
            None => return None,
        };
        if key.as_str().unicode_len() == 0 {
            return None;
        }
        let n = self.playlists.len();
        let mut i: usize = 0;
        while i < n
            invariant
                n == self.playlists@.len(),
                i <= n,
                session.playlist_rating_key == Some(key),
                key@.len() > 0,
                forall|j: int| 0 <= j < i ==> (#[trigger] self.playlists@[j]).rating_key@ != key@,
            decreases n - i,
        {
            if str_equal(self.playlists[i].rating_key.as_str(), key.as_str()) {
                assert(is_first_playlist(self.playlists@, key@, i as int));
                return Some(i);
            }
            i = i + 1;
        }
        None
    }

    /// Restore a saved session once the tracks of its playlist have been
    /// fetched: the playlist and the saved track (clamped to the list) are
    /// selected in the track list, without playing; volume, shuffle and
    /// repeat are restored. An empty track list restores nothing.
    pub fn restore_with_tracks(&mut self, session: &Session, playlist_index: usize, tracks: Vec<Track>)
        requires
            old(self).model().wf(),
            playlist_index < old(self).model().playlists.len(),
            session.playlist_rating_key is Some,
        ensures
            restore_post(old(self).model(), *session, playlist_index, tracks@, final(self).model()),
            final(self).model().wf(),
    {
        if tracks.len() == 0 {
            return;
        }
        let title = match &session.playlist_title {
            Some(t) => t.clone(),
            None => self.playlists[playlist_index].title.clone(),
        };
        self.current_playlist_title = title;
        self.current_playlist_rating_key = clone_opt_string(&session.playlist_rating_key);
        self.tracks = tracks;
        let saved = match session.track_index {
            Some(t) => t,
            None => 0,
        };
        let last = self.tracks.len() - 1;
        let track_idx = if saved < last {
            saved
        } else {
            last
        };
        self.track_selected = Some(track_idx);
        self.current_track_index = Some(track_idx);
        self.saved_volume = if session.volume < 0 {
            0
        } else if session.volume > 100 {
            100
        } else {
            session.volume as u32
        };
        self.shuffle_enabled = session.shuffle_enabled;
        self.repeat_mode = RepeatMode::from_string_repr(session.repeat_mode.as_str());
        self.view = AppView::Tracks;
        self.playlist_selected = Some(playlist_index);
        if self.shuffle_enabled {
            self.regenerate_shuffle_order();
            let n = self.tracks.len();
            proof {
                lemma_shuffle_facts(self.shuffle_order@, n as nat);
            }
        }
    }
}

} // verus!
