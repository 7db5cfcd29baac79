//! What the screen shows: the layout for a terminal size, list entry
//! labels, the player bar texts and the status bar.

use vstd::prelude::*;

use crate::app::{repeat_indicator, RepeatMode};
use crate::config::{Entry, FavoritePlaylist};
use crate::text::{decimal, duration_text, format_duration, push_decimal, truncate_for_display, truncated};

verus! {

/// Minimum terminal width below which a "too small" message is shown.
pub const MIN_WIDTH: u16 = 20;

/// Minimum terminal height below which a "too small" message is shown.
pub const MIN_HEIGHT: u16 = 5;

/// Width below which the narrow, simplified layout is used.
pub const NARROW_WIDTH: u16 = 40;

/// Minimum terminal height to show the visualizer.
pub const MIN_VIZ_HEIGHT: u16 = 20;

/// The panes of a frame, top to bottom: the main list, then the ambient
/// panel (1 line), the visualizer (8 lines), and the player bar (3 lines)
/// or status bar (1 line) when present.
#[derive(Debug, Clone, Copy, PartialEq, Eq, Structural)]
pub struct PaneLayout {
    pub narrow: bool,
    pub ambient_panel: bool,
    pub visualizer: bool,
    /// A player bar (track playing) rather than a status bar.
    pub player_bar: bool,
    pub bar_height: u16,
}

/// The screen arrangement for a terminal size.
#[derive(Debug, Clone, Copy, PartialEq, Eq, Structural)]
pub enum ScreenLayout {
    /// Only a "Terminal too small" message.
    TooSmall,
    Panes(PaneLayout),
}

/// Choose the layout: too small below 20x5; narrow under 40 columns; the
/// player bar when a track is playing; the visualizer when enabled, a track
/// is playing, the terminal is not narrow and at least 20 lines high; the
/// ambient panel when an ambient track is loaded.
pub fn screen_layout(width: u16, height: u16, now_playing: bool, visualizer_enabled: bool, has_ambient: bool) -> (r:
    ScreenLayout)
    ensures
        if width < MIN_WIDTH || height < MIN_HEIGHT {
            r == ScreenLayout::TooSmall
        } else {
            r == ScreenLayout::Panes(
                PaneLayout {
                    narrow: width < NARROW_WIDTH,
                    ambient_panel: has_ambient,
                    visualizer: visualizer_enabled && now_playing && width >= NARROW_WIDTH && height
                        >= MIN_VIZ_HEIGHT,
                    player_bar: now_playing,
                    bar_height: if now_playing {
                        3
                    } else {
                        1
                    },
                },
            )
        },
{
    if width < MIN_WIDTH || height < MIN_HEIGHT {
        return ScreenLayout::TooSmall;
    }
    let narrow = width < NARROW_WIDTH;
    ScreenLayout::Panes(
        PaneLayout {
            narrow,
            ambient_panel: has_ambient,
            visualizer: visualizer_enabled && now_playing && !narrow && height >= MIN_VIZ_HEIGHT,
            player_bar: now_playing,
            bar_height: if now_playing {
                3
            } else {
                1
            },
        },
    )
}

/// The number of visualizer bars for a pane width: the width inside the
/// borders, limited to 4..=64.
pub fn visualizer_bar_count(area_width: u16) -> (r: usize)
    ensures
        r == if area_width < 6 {
            4
        } else if area_width > 66 {
            64
        } else {
            (area_width - 2) as usize
        },
        4 <= r <= 64,
{
    let inner: usize = if area_width >= 2 {
        (area_width - 2) as usize
    } else {
        0
    };
    if inner < 4 {
        4
    } else if inner > 64 {
        64
    } else {
        inner
    }
}

/// The characters available for list entries in a pane of `width`: the
/// width minus the borders and the highlight symbol.
pub fn list_text_width(width: u16) -> (r: usize)
    ensures
        r == if width >= 4 {
            (width - 4) as usize
        } else {
            0
        },
{
    if width >= 4 {
        (width - 4) as usize
    } else {
        0
    }
}

/// Playback state shown in the player bar.
#[derive(Debug, Clone, Copy, PartialEq, Eq, Structural)]
pub enum PlaybackIndicator {
    Paused,
    Playing,
    Stopped,
}

/// Paused wins over playing; neither is stopped.
pub fn playback_indicator(is_paused: bool, is_playing: bool) -> (r: PlaybackIndicator)
    ensures
        r == if is_paused {
            PlaybackIndicator::Paused
        } else if is_playing {
            PlaybackIndicator::Playing
        } else {
            PlaybackIndicator::Stopped
        },
{
    if is_paused {
        PlaybackIndicator::Paused
    } else if is_playing {
        PlaybackIndicator::Playing
    } else {
        PlaybackIndicator::Stopped
    }
}

impl PlaybackIndicator {
    /// The icon in front of the track name.
    pub fn icon(&self) -> (r: &'static str)
        ensures
            r@ == match *self {
                PlaybackIndicator::Paused => " || "@,
                PlaybackIndicator::Playing => " >> "@,
                PlaybackIndicator::Stopped => " -- "@,
            },
    {
        match self {
            PlaybackIndicator::Paused => " || ",
            PlaybackIndicator::Playing => " >> ",
            PlaybackIndicator::Stopped => " -- ",
        }
    }

    /// The state word of the status line.
    pub fn label(&self) -> (r: &'static str)
        ensures
            r@ == match *self {
                PlaybackIndicator::Paused => " Paused "@,
                PlaybackIndicator::Playing => " Playing "@,
                PlaybackIndicator::Stopped => " Stopped "@,
            },
    {
        match self {
            PlaybackIndicator::Paused => " Paused ",
            PlaybackIndicator::Playing => " Playing ",
            PlaybackIndicator::Stopped => " Stopped ",
        }
    }
}

/// Whether `i` is the first favorite entry for the playlist `rating_key`.
pub open spec fn is_first_favorite_of(favs: Seq<Entry<FavoritePlaylist>>, rating_key: Seq<char>, i: int) -> bool {
    &&& 0 <= i < favs.len()
    &&& favs[i].value.rating_key@ == rating_key
    &&& forall|j: int| 0 <= j < i ==> (#[trigger] favs[j]).value.rating_key@ != rating_key
}

/// The number key of the first favorite that points at the playlist
/// `rating_key`, if any.
pub fn favorite_key_for(favorites: &Vec<Entry<FavoritePlaylist>>, rating_key: &str) -> (r: Option<String>)
    ensures
        match r {
            Some(k) => exists|i: int|
                is_first_favorite_of(favorites@, rating_key@, i) && k == #[trigger] favorites@[i].key,
            None => forall|i: int|
                0 <= i < favorites@.len() ==> (#[trigger] favorites@[i]).value.rating_key@ != rating_key@,
        },
{
    let n = favorites.len();
    let mut i: usize = 0;
    while i < n
        invariant
            n == favorites@.len(),
            i <= n,
            forall|j: int| 0 <= j < i ==> (#[trigger] favorites@[j]).value.rating_key@ != rating_key@,
        decreases n - i,
    {
        if crate::text::str_equal(favorites[i].value.rating_key.as_str(), rating_key) {
            assert(is_first_favorite_of(favorites@, rating_key@, i as int));
            return Some(favorites[i].key.clone());
        }
        i = i + 1;
    }
    None
}

/// The label of a playlist entry before fitting: favorite prefix, title,
/// track count.
pub open spec fn playlist_label_parts(fav_key: Option<Seq<char>>, title: Seq<char>) -> Seq<char> {
    (match fav_key {
        Some(k) => "["@ + k + "] "@,
        None => ""@,
    }) + title
}

/// The track-count suffix of a playlist entry.
pub open spec fn track_count_suffix(leaf_count: Option<u32>) -> Seq<char> {
    match leaf_count {
        Some(c) => " ("@ + decimal(c as nat) + " tracks)"@,
        None => ""@,
    }
}

/// A playlist entry fitted to `available` characters: the full label when
/// it fits; otherwise without the track count; otherwise truncated.
pub open spec fn playlist_label_spec(fav_key: Option<Seq<char>>, title: Seq<char>, leaf_count: Option<u32>, available: nat) -> Seq<char> {
    let without_count = playlist_label_parts(fav_key, title);
    let full = without_count + track_count_suffix(leaf_count);
    if full.len() <= available {
        full
    } else if without_count.len() <= available {
        without_count
    } else {
        truncated(without_count, available)
    }
}

/// The text of a playlist entry: `[k] ` when it is the favorite of key k,
/// the title, and ` (N tracks)` when the count is known, fitted to the
/// available width (the count is dropped first, then the title truncated).
pub fn playlist_label(fav_key: Option<&str>, title: &str, leaf_count: Option<u32>, available: usize) -> (r: String)
    ensures
        r@ == playlist_label_spec(
            match fav_key {
                Some(k) => Some(k@),
                None => None,
            },
            title@,
            leaf_count,
            available as nat,
        ),
{
    let mut without_count = String::new();
    if let Some(k) = fav_key {
        without_count.append("[");
        without_count.append(k);
        without_count.append("] ");
    }
    without_count.append(title);
    proof {
        reveal_strlit("");
    }
    let mut full = without_count.clone();
    if let Some(c) = leaf_count {
        full.append(" (");
        push_decimal(&mut full, c as u64);
        full.append(" tracks)");
    }
    assert(without_count@ =~= playlist_label_parts(
        match fav_key {
            Some(k) => Some(k@),
            None => None,
        },
        title@,
    ));
    assert(full@ =~= without_count@ + track_count_suffix(leaf_count));
    if full.as_str().unicode_len() <= available {
        full
    } else if without_count.as_str().unicode_len() <= available {
        without_count
    } else {
        truncate_for_display(without_count.as_str(), available)
    }
}

/// A track entry: `>> ` for the playing track (two spaces otherwise),
/// the title, ` - ` and the artist (`Unknown Artist` when unknown).
pub open spec fn track_label_text(title: Seq<char>, artist: Option<Seq<char>>, is_playing: bool) -> Seq<char> {
    (if is_playing {
        ">> "@
    } else {
        "  "@
    }) + title + " - "@ + match artist {
        Some(a) => a,
        None => "Unknown Artist"@,
    }
}

/// The text of a track entry, truncated to the available width.
pub fn track_label(title: &str, artist: Option<&str>, is_playing: bool, available: usize) -> (r: String)
    ensures
        r@ == truncated(
            track_label_text(
                title@,
                match artist {
                    Some(a) => Some(a@),
                    None => None,
                },
                is_playing,
            ),
            available as nat,
        ),
{
    let mut full = if is_playing {
        String::from_str(">> ")
    } else {
        String::from_str("  ")
    };
    full.append(title);
    full.append(" - ");
    match artist {
        Some(a) => full.append(a),
        None => full.append("Unknown Artist"),
    }
    truncate_for_display(full.as_str(), available)
}

/// `elapsed / total` as `MM:SS / MM:SS`.
pub fn time_label(elapsed_secs: u64, total_secs: u64) -> (r: String)
    ensures
        r@ == duration_text(elapsed_secs as nat) + " / "@ + duration_text(total_secs as nat),
{
    let mut s = format_duration(elapsed_secs);
    s.append(" / ");
    let t = format_duration(total_secs);
    s.append(t.as_str());
    s
}

/// `Vol: N%`.
pub fn volume_label(percent: u32) -> (r: String)
    ensures
        r@ == "Vol: "@ + decimal(percent as nat) + "%"@,
{
    let mut s = String::from_str("Vol: ");
    push_decimal(&mut s, percent as u64);
    s.append("%");
    s
}

/// What a piece of a status line shows, which decides its colour.
#[derive(Debug, Clone, Copy, PartialEq, Eq, Structural)]
pub enum SegmentKind {
    /// The playback state word.
    State(PlaybackIndicator),
    /// The ` | ` between pieces.
    Separator,
    Volume,
    Time,
    Shuffle,
    Repeat,
    /// The ambient state icon; `active` when the ambient level is above 0.
    AmbientIcon { active: bool },
    AmbientName { active: bool },
    AmbientVolume { active: bool },
}

/// A piece of a status line.
#[derive(Debug, Clone)]
pub struct Segment {
    pub text: String,
    pub kind: SegmentKind,
}

/// The texts and kinds of a list of segments.
pub open spec fn segment_views(v: Seq<Segment>) -> Seq<(Seq<char>, SegmentKind)> {
    v.map_values(|g: Segment| (g.text@, g.kind))
}

/// The state word of a playback indicator.
pub open spec fn indicator_label(i: PlaybackIndicator) -> Seq<char> {
    match i {
        PlaybackIndicator::Paused => " Paused "@,
        PlaybackIndicator::Playing => " Playing "@,
        PlaybackIndicator::Stopped => " Stopped "@,
    }
}

/// The separator piece.
pub open spec fn separator_view() -> (Seq<char>, SegmentKind) {
    (" | "@, SegmentKind::Separator)
}

/// The third line of the player bar when it shows the playback status:
/// state, volume (omitted when narrow), elapsed / total time, then
/// `[Shuffle]` and the repeat tag when they apply (both omitted when
/// narrow), separated by ` | `.
pub open spec fn player_status_spec(
    indicator: PlaybackIndicator,
    volume: u32,
    elapsed_secs: u64,
    total_secs: u64,
    shuffle: bool,
    repeat: RepeatMode,
    narrow: bool,
) -> Seq<(Seq<char>, SegmentKind)> {
    let state = (indicator_label(indicator), SegmentKind::State(indicator));
    let time = (duration_text(elapsed_secs as nat) + " / "@ + duration_text(total_secs as nat), SegmentKind::Time);
    if narrow {
        seq![state, separator_view(), time]
    } else {
        seq![state, separator_view(), ("Vol: "@ + decimal(volume as nat) + "%"@, SegmentKind::Volume), separator_view(), time]
            + (if shuffle {
            seq![separator_view(), ("[Shuffle]"@, SegmentKind::Shuffle)]
        } else {
            seq![]
        }) + (if repeat != RepeatMode::Off {
            seq![separator_view(), (repeat_indicator(repeat), SegmentKind::Repeat)]
        } else {
            seq![]
        })
    }
}

fn push_segment(v: &mut Vec<Segment>, text: String, kind: SegmentKind)
    ensures
        segment_views(final(v)@) == segment_views(old(v)@).push((text@, kind)),
{
    let ghost before = v@;
    v.push(Segment { text, kind });
    assert(segment_views(v@) =~= segment_views(before).push((text@, kind)));
}

/// The pieces of the player bar's status line.
pub fn player_status_segments(
    indicator: PlaybackIndicator,
    volume: u32,
    elapsed_secs: u64,
    total_secs: u64,
    shuffle: bool,
    repeat: RepeatMode,
    narrow: bool,
) -> (r: Vec<Segment>)
    ensures
        segment_views(r@) == player_status_spec(indicator, volume, elapsed_secs, total_secs, shuffle, repeat, narrow),
{
    let mut v: Vec<Segment> = Vec::new();
    assert(segment_views(v@) =~= seq![]);
    push_segment(&mut v, String::from_str(indicator.label()), SegmentKind::State(indicator));
    push_segment(&mut v, String::from_str(" | "), SegmentKind::Separator);
    if !narrow {
        push_segment(&mut v, volume_label(volume), SegmentKind::Volume);
        push_segment(&mut v, String::from_str(" | "), SegmentKind::Separator);
    }
    push_segment(&mut v, time_label(elapsed_secs, total_secs), SegmentKind::Time);
    if !narrow {
        if shuffle {
            push_segment(&mut v, String::from_str(" | "), SegmentKind::Separator);
            push_segment(&mut v, String::from_str("[Shuffle]"), SegmentKind::Shuffle);
        }
        if repeat != RepeatMode::Off {
            push_segment(&mut v, String::from_str(" | "), SegmentKind::Separator);
            push_segment(&mut v, String::from_str(repeat.indicator()), SegmentKind::Repeat);
        }
    }
    assert(segment_views(v@) =~= player_status_spec(indicator, volume, elapsed_secs, total_secs, shuffle, repeat, narrow));
    v
}

/// The ambient panel line: ` AMB >> ` (active: level above 0) or
/// ` AMB || `, the track name (`No ambient` when none), then ` | ` and the
/// ambient volume unless narrow.
pub open spec fn ambient_panel_spec(name: Option<Seq<char>>, volume: u32, narrow: bool) -> Seq<(Seq<char>, SegmentKind)> {
    let active = volume > 0;
    let head = seq![
        (if active { " AMB >> "@ } else { " AMB || "@ }, SegmentKind::AmbientIcon { active }),
        (match name {
            Some(n) => n,
            None => "No ambient"@,
        }, SegmentKind::AmbientName { active }),
    ];
    if narrow {
        head
    } else {
        head + seq![separator_view(), ("Vol: "@ + decimal(volume as nat) + "%"@, SegmentKind::AmbientVolume { active })]
    }
}

/// The pieces of the ambient panel line.
pub fn ambient_panel_segments(name: Option<&str>, volume: u32, narrow: bool) -> (r: Vec<Segment>)
    ensures
        segment_views(r@) == ambient_panel_spec(
            match name {
                Some(n) => Some(n@),
                None => None,
            },
            volume,
            narrow,
        ),
{
    let active = volume > 0;
    let mut v: Vec<Segment> = Vec::new();
    assert(segment_views(v@) =~= seq![]);
    let icon = if active {
        String::from_str(" AMB >> ")
    } else {
        String::from_str(" AMB || ")
    };
    push_segment(&mut v, icon, SegmentKind::AmbientIcon { active });
    let shown = match name {
        Some(n) => String::from_str(n),
        None => String::from_str("No ambient"),
    };
    push_segment(&mut v, shown, SegmentKind::AmbientName { active });
    if !narrow {
        push_segment(&mut v, String::from_str(" | "), SegmentKind::Separator);
        push_segment(&mut v, volume_label(volume), SegmentKind::AmbientVolume { active });
    }
    assert(segment_views(v@) =~= ambient_panel_spec(
        match name {
            Some(n) => Some(n@),
            None => None,
        },
        volume,
        narrow,
    ));
    v
}

/// The prompt shown while a favorite assignment waits for its key.
pub open spec fn favorite_prompt() -> Seq<char> {
    " Press 1-9 to assign favorite, Esc to cancel"@
}

/// The status bar (no track playing): the favorite prompt, else the error,
/// else the key help (abbreviated when narrow).
pub open spec fn status_bar_spec(awaiting_favorite: bool, error: Option<Seq<char>>, narrow: bool) -> Seq<char> {
    if awaiting_favorite {
        favorite_prompt()
    } else if error is Some {
        " ERROR: "@ + error->0 + " "@
    } else if narrow {
        " q:quit j/k:nav Enter:sel Space:pause m:amb"@
    } else {
        " TermTunes | q:quit  j/k:nav  Enter:select  Space:pause  n/N:next/prev  +/-:vol  s:shuffle  r:repeat  h/l:seek  v:viz  f:fav  1-9:play fav  b:browse  m:amb  [/]:amb vol"@
    }
}

/// The text of the one-line status bar.
pub fn status_bar_text(awaiting_favorite: bool, error: Option<&str>, narrow: bool) -> (r: String)
    ensures
        r@ == status_bar_spec(
            awaiting_favorite,
            match error {
                Some(e) => Some(e@),
                None => None,
            },
            narrow,
        ),
{
    if awaiting_favorite {
        String::from_str(" Press 1-9 to assign favorite, Esc to cancel")
    } else if let Some(e) = error {
        let mut s = String::from_str(" ERROR: ");
        s.append(e);
        s.append(" ");
        s
    } else if narrow {
        String::from_str(" q:quit j/k:nav Enter:sel Space:pause m:amb")
    } else {
        String::from_str(
            " TermTunes | q:quit  j/k:nav  Enter:select  Space:pause  n/N:next/prev  +/-:vol  s:shuffle  r:repeat  h/l:seek  v:viz  f:fav  1-9:play fav  b:browse  m:amb  [/]:amb vol",
        )
    }
}

/// The third line of the player bar, when it is a message rather than the
/// playback status: the favorite prompt, else the error.
pub fn player_bar_message(awaiting_favorite: bool, error: Option<&str>) -> (r: Option<String>)
    ensures
        if awaiting_favorite {
            r matches Some(t) && t@ == favorite_prompt() + " "@
        } else {
            match error {
                Some(e) => r matches Some(t) && t@ == " ERROR: "@ + e@ + " "@,
                None => r is None,
            }
        },
{
    if awaiting_favorite {
        let s = String::from_str(" Press 1-9 to assign favorite, Esc to cancel ");
        proof {
            reveal_strlit(" Press 1-9 to assign favorite, Esc to cancel ");
            reveal_strlit(" Press 1-9 to assign favorite, Esc to cancel");
            reveal_strlit(" ");
            assert(s@ =~= favorite_prompt() + " "@);
        }
        Some(s)
    } else if let Some(e) = error {
        let mut s = String::from_str(" ERROR: ");
        s.append(e);
        s.append(" ");
        Some(s)
    } else {
        None
    }
}

/// Fitting never makes a text longer than the room given, and a text that
/// fits is shown whole.
pub proof fn lemma_truncated_fits(s: Seq<char>, max_chars: nat)
    ensures
        truncated(s, max_chars).len() <= max_chars,
        s.len() <= max_chars ==> truncated(s, max_chars) == s,
        s.len() > max_chars && max_chars > 3 ==> truncated(s, max_chars).len() == max_chars,
{
}

} // verus!
