//! Properties of the player that span several operations.

use vstd::prelude::*;

use crate::app::{
    action_post, advance_post, favorite_for_key, key_action_of, repeat_indicator, Key, is_snapshot_of, lemma_repeat_repr_round_trip, next_track_post,
    restore_post, selection_down, selection_up, volume_levels, AppModel, AppView, Command, KeyAction, RepeatMode,
};
use crate::config::{lemma_lookup_inserted, FavoritePlaylist, Session};
use crate::plex::Track;
use crate::shuffle::lemma_shuffle_facts;
use crate::ui::{player_status_spec, PlaybackIndicator, SegmentKind};

verus! {

/// Moving the cursor stays inside a non-empty list, and one step down
/// followed by one step up (or up then down) returns to where it was.
pub proof fn lemma_selection_round_trip(sel: usize, len: nat)
    requires
        sel < len,
        len <= usize::MAX,
    ensures
        selection_down(Some(sel), len) matches Some(d) && d < len,
        selection_up(Some(sel), len) matches Some(u) && u < len,
        selection_up(selection_down(Some(sel), len), len) == Some(sel),
        selection_down(selection_up(Some(sel), len), len) == Some(sel),
{
}

/// Volume budget: the two channels together never exceed the master level
/// (so never exceed full volume); within the budget the levels pass
/// unchanged; beyond it they fill it exactly; and the ratio between main
/// and ambient is kept.
pub proof fn lemma_volume_budget(main: nat, ambient: nat, master: nat)
    requires
        main <= 100,
        ambient <= 100,
        master <= 100,
    ensures
        ({
            let l = volume_levels(main, ambient, master);
            &&& 100 * (l.main + l.ambient) <= master * l.scale
            &&& l.main + l.ambient <= l.scale
            &&& main + ambient <= 100 ==> l.scale == 10000 && l.main == main * master && l.ambient == ambient * master
            &&& main + ambient > 100 ==> 100 * (l.main + l.ambient) == master * l.scale
            &&& l.main * ambient == l.ambient * main
        }),
{
    let l = volume_levels(main, ambient, master);
    let total = main + ambient;
    assert(main * master <= 10000 && ambient * master <= 10000) by (nonlinear_arith)
        requires
            main <= 100,
            ambient <= 100,
            master <= 100,
    ;
    assert(l.main == main * master && l.ambient == ambient * master);
    assert(main * master + ambient * master == total * master) by (nonlinear_arith)
        requires
            total == main + ambient,
    ;
    if total > 100 {
        assert(l.scale == 100 * total);
        assert(100 * (total * master) == master * (100 * total)) by (nonlinear_arith);
        assert(total * master <= total * 100) by (nonlinear_arith)
            requires
                master <= 100,
        ;
    } else {
        assert(l.scale == 10000);
        assert(100 * (total * master) <= master * 10000) by (nonlinear_arith)
            requires
                total <= 100,
        ;
        assert(total * master <= 10000) by (nonlinear_arith)
            requires
                total <= 100,
                master <= 100,
        ;
    }
    assert((main * master) * ambient == (ambient * master) * main) by (nonlinear_arith);
}

/// "Previous" right after "next" goes back: after a skip forward, the
/// previous track is the one that was current (in shuffle mode, the entry
/// of the shuffle order the player was at).
pub proof fn lemma_prev_undoes_next(old: AppModel, new: AppModel, cmds: Seq<Command>)
    requires
        old.wf(),
        old.tracks.len() <= usize::MAX,
        old.next_index() is Some,
        next_track_post(old, new, cmds),
    ensures
        new.prev_index() == if old.shuffle_enabled {
            Some(old.shuffle_order[old.shuffle_position as int])
        } else {
            old.current_track_index
        },
{
    let j = old.next_index()->0;
    if old.shuffle_enabled {
        lemma_shuffle_facts(old.shuffle_order, old.tracks.len());
        assert(j < old.tracks.len());
    }
}

/// Every track of the playlist appears exactly once in the shuffle order,
/// and nothing else does.
pub proof fn lemma_shuffle_covers_tracks(m: AppModel)
    requires
        m.wf(),
        m.shuffle_enabled,
        m.tracks.len() > 0,
        m.tracks.len() <= usize::MAX,
    ensures
        m.shuffle_order.len() == m.tracks.len(),
        m.shuffle_order.no_duplicates(),
        forall|i: int| 0 <= i < m.shuffle_order.len() ==> (#[trigger] m.shuffle_order[i]) < m.tracks.len(),
        forall|t: usize| t < m.tracks.len() ==> #[trigger] m.shuffle_order.contains(t),
{
    lemma_shuffle_facts(m.shuffle_order, m.tracks.len());
}

/// With Repeat All or Repeat One, playback never stops at the end of a
/// track while the playlist has tracks; with repeat off it stops exactly
/// when no next track exists.
pub proof fn lemma_repeat_keeps_playing(old: AppModel, new: AppModel, cmds: Seq<Command>, started: bool)
    requires
        advance_post(old, new, cmds, started),
        old.tracks.len() <= usize::MAX,
    ensures
        old.repeat_mode != RepeatMode::Off && old.tracks.len() > 0 ==> started,
        old.repeat_mode == RepeatMode::Off ==> (started <==> old.next_index() is Some),
{
    if old.repeat_mode == RepeatMode::All && old.next_index() is None && old.shuffle_enabled
        && old.tracks.len() > 0 {
        lemma_shuffle_facts(new.shuffle_order, old.tracks.len());
    }
}

/// Opening the ambient browser and closing it with Back leaves the player
/// as it was (only a pending favorite assignment is cancelled).
pub proof fn lemma_browser_open_close(
    old: AppModel,
    mid: AppModel,
    new: AppModel,
    c1: Seq<Command>,
    c2: Seq<Command>,
)
    requires
        old.browser is None,
        action_post(old, mid, c1, KeyAction::OpenBrowser),
        action_post(mid, new, c2, KeyAction::Back),
    ensures
        mid.browser is Some,
        new == (AppModel { awaiting_favorite_key: false, ..old }),
        c1.len() == 0 && c2.len() == 0,
{
}

/// Muting the ambient channel and unmuting it again restores the level it
/// had.
pub proof fn lemma_mute_unmute_restores(
    old: AppModel,
    mid: AppModel,
    new: AppModel,
    c1: Seq<Command>,
    c2: Seq<Command>,
)
    requires
        old.ambient_volume > 0,
        action_post(old, mid, c1, KeyAction::ToggleAmbientMute),
        action_post(mid, new, c2, KeyAction::ToggleAmbientMute),
    ensures
        mid.ambient_volume == 0,
        new.ambient_volume == old.ambient_volume,
{
}

/// A favorite assigned to a number key is what that key starts afterwards.
pub proof fn lemma_assigned_favorite_is_found(old: AppModel, new: AppModel, cmds: Seq<Command>, c: char)
    requires
        action_post(old, new, cmds, KeyAction::Favorite(c)),
        old.awaiting_favorite_key,
        old.playlist_selected matches Some(i) && i < old.playlists.len(),
    ensures
        favorite_for_key(new, c) == Some(
            FavoritePlaylist {
                rating_key: old.playlists[old.playlist_selected->0 as int].rating_key,
                title: old.playlists[old.playlist_selected->0 as int].title,
            },
        ),
        !new.awaiting_favorite_key,
{
    let p = old.playlists[old.playlist_selected->0 as int];
    let fav = FavoritePlaylist { rating_key: p.rating_key, title: p.title };
    let k = choose|k: String|
        #![trigger crate::config::inserted(old.config.favorites@, k, fav)]
        k@ == seq![c] && new == AppModel {
            config: crate::config::Config { favorites: new.config.favorites, ..old.config },
            ..AppModel { awaiting_favorite_key: false, ..old }
        } && new.config.favorites@ == crate::config::inserted(old.config.favorites@, k, fav);
    lemma_lookup_inserted(old.config.favorites@, k, fav, seq![c]);
}

/// Saving a session and restoring it brings back the playlist, the track
/// (when it is still in the list), the volume, shuffle and repeat settings.
pub proof fn lemma_session_round_trip(
    m: AppModel,
    s: Session,
    before: AppModel,
    playlist_index: usize,
    tracks: Seq<Track>,
    after: AppModel,
)
    requires
        m.wf(),
        is_snapshot_of(s, m),
        restore_post(before, s, playlist_index, tracks, after),
        tracks.len() > 0,
    ensures
        after.current_playlist_rating_key == m.current_playlist_rating_key,
        after.current_playlist_title == m.current_playlist_title,
        after.saved_volume == m.saved_volume,
        after.shuffle_enabled == m.shuffle_enabled,
        after.repeat_mode == m.repeat_mode,
        after.view == AppView::Tracks,
        m.current_track_index matches Some(t) ==> (t < tracks.len() ==> after.current_track_index == Some(t)),
        after.current_track_index matches Some(t) && t < tracks.len(),
{
    lemma_repeat_repr_round_trip(m.repeat_mode);
}

/// In shuffle mode, when a track ends and a next entry of the shuffle
/// order exists (repeat Off or All), playback moves one step along the
/// order: the position goes up by one, the order is kept, the track at the
/// new position becomes current, and the download in progress is dropped
/// for its own. Together with `lemma_shuffle_covers_tracks`, a shuffled
/// playlist with repeat off plays each track once and then stops.
pub proof fn lemma_auto_advance_steps_shuffle(old: AppModel, new: AppModel, cmds: Seq<Command>, started: bool)
    requires
        old.wf(),
        old.tracks.len() <= usize::MAX,
        old.tracks.len() > 0,
        old.shuffle_enabled,
        old.repeat_mode != RepeatMode::One,
        old.shuffle_position + 1 < old.shuffle_order.len(),
        advance_post(old, new, cmds, started),
    ensures
        started,
        new.shuffle_position == old.shuffle_position + 1,
        new.shuffle_order == old.shuffle_order,
        new.current_track_index == Some(new.shuffle_order[new.shuffle_position as int]),
        new.track_selected == new.current_track_index,
        cmds.len() >= 1 && cmds[0] == Command::CancelDownload,
{
    lemma_shuffle_facts(old.shuffle_order, old.tracks.len());
    assert(old.shuffle_order[old.shuffle_position + 1] < old.tracks.len());
}

/// With Repeat All and a non-empty track list, skipping to the next track
/// from the track list always starts a track of the list, also at the end
/// of the playlist or of the shuffle order.
pub proof fn lemma_repeat_all_skip_always_plays(old: AppModel, new: AppModel, cmds: Seq<Command>)
    requires
        old.wf(),
        old.tracks.len() <= usize::MAX,
        old.tracks.len() > 0,
        old.repeat_mode == RepeatMode::All,
        old.view == AppView::Playing || old.view == AppView::Tracks,
        action_post(old, new, cmds, KeyAction::NextTrack),
    ensures
        cmds.len() >= 1 && cmds[0] == Command::CancelDownload,
        new.current_track_index matches Some(i) && i < old.tracks.len(),
        new.track_selected == new.current_track_index,
        new.tracks == old.tracks,
{
    if old.shuffle_enabled {
        lemma_shuffle_facts(old.shuffle_order, old.tracks.len());
        if old.next_index() is None {
            lemma_shuffle_facts(new.shuffle_order, old.tracks.len());
            assert(new.shuffle_order[0] < old.tracks.len());
        } else {
            assert(old.shuffle_order[old.shuffle_position + 1] < old.tracks.len());
        }
    }
}

/// In shuffle mode, skipping back from position p > 0 plays the entry at
/// p - 1 of the same shuffle order and leaves the position at p - 1; so
/// "next" afterwards returns to the entry at p.
pub proof fn lemma_shuffle_skip_back(old: AppModel, new: AppModel, cmds: Seq<Command>)
    requires
        old.wf(),
        old.tracks.len() <= usize::MAX,
        old.tracks.len() > 0,
        old.shuffle_enabled,
        old.shuffle_position > 0,
        old.view == AppView::Playing || old.view == AppView::Tracks,
        action_post(old, new, cmds, KeyAction::PrevTrack),
    ensures
        new.shuffle_position == old.shuffle_position - 1,
        new.shuffle_order == old.shuffle_order,
        new.current_track_index == Some(old.shuffle_order[old.shuffle_position - 1]),
        new.next_index() == Some(old.shuffle_order[old.shuffle_position as int]),
        cmds.len() >= 1 && cmds[0] == Command::CancelDownload,
{
    lemma_shuffle_facts(old.shuffle_order, old.tracks.len());
    assert(old.shuffle_order[old.shuffle_position - 1] < old.tracks.len());
}

/// The arrow keys act as their vim keys: Up as `k`, Down as `j`, Left as
/// `h`, Right as `l`; Esc and Backspace both go back; and `k`/`j` move the
/// cursor up and down.
pub proof fn lemma_arrow_keys_match_vim_keys(ctrl: bool)
    ensures
        key_action_of(Key::Up, ctrl) == key_action_of(Key::Char('k'), ctrl),
        key_action_of(Key::Down, ctrl) == key_action_of(Key::Char('j'), ctrl),
        key_action_of(Key::Left, ctrl) == key_action_of(Key::Char('h'), ctrl),
        key_action_of(Key::Right, ctrl) == key_action_of(Key::Char('l'), ctrl),
        key_action_of(Key::Esc, ctrl) == key_action_of(Key::Backspace, ctrl),
        key_action_of(Key::Char('k'), ctrl) == KeyAction::SelectionUp,
        key_action_of(Key::Char('j'), ctrl) == KeyAction::SelectionDown,
{
}

/// The wide player status line shows `[Shuffle]` exactly when shuffle is
/// on, and ends with the repeat tag exactly when that tag is not empty,
/// which is for every repeat mode but Off.
pub proof fn lemma_status_line_tags(
    indicator: PlaybackIndicator,
    volume: u32,
    elapsed_secs: u64,
    total_secs: u64,
    shuffle: bool,
    repeat: RepeatMode,
)
    ensures
        ({
            let s = player_status_spec(indicator, volume, elapsed_secs, total_secs, shuffle, repeat, false);
            &&& (repeat_indicator(repeat).len() > 0 <==> repeat != RepeatMode::Off)
            &&& (repeat_indicator(repeat).len() > 0 <==> s.last() == (repeat_indicator(repeat), SegmentKind::Repeat))
            &&& (shuffle <==> exists|i: int| 0 <= i < s.len() && #[trigger] s[i] == ("[Shuffle]"@, SegmentKind::Shuffle))
        }),
{
    reveal_strlit("");
    reveal_strlit("[Repeat: All]");
    reveal_strlit("[Repeat: One]");
    let s = player_status_spec(indicator, volume, elapsed_secs, total_secs, shuffle, repeat, false);
    if shuffle {
        assert(s[6] == ("[Shuffle]"@, SegmentKind::Shuffle));
    } else {
        assert forall|i: int| 0 <= i < s.len() implies s[i] != ("[Shuffle]"@, SegmentKind::Shuffle) by {
            assert(s[i].1 != SegmentKind::Shuffle);
        }
    }
}

/// In shuffle mode, a user skip forward while a next entry exists moves
/// one step along the same shuffle order and plays the entry there.
pub proof fn lemma_shuffle_skip_forward(old: AppModel, new: AppModel, cmds: Seq<Command>)
    requires
        old.wf(),
        old.tracks.len() <= usize::MAX,
        old.tracks.len() > 0,
        old.shuffle_enabled,
        old.shuffle_position + 1 < old.shuffle_order.len(),
        old.view == AppView::Playing || old.view == AppView::Tracks,
        action_post(old, new, cmds, KeyAction::NextTrack),
    ensures
        new.shuffle_position == old.shuffle_position + 1,
        new.shuffle_order == old.shuffle_order,
        new.current_track_index == Some(old.shuffle_order[old.shuffle_position + 1]),
        cmds.len() >= 1 && cmds[0] == Command::CancelDownload,
{
    lemma_shuffle_facts(old.shuffle_order, old.tracks.len());
    assert(old.shuffle_order[old.shuffle_position + 1] < old.tracks.len());
}

} // verus!
