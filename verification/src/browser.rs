//! The ambient track browser: its levels and the texts of its overlay
//! (list entries, title, search line).

use vstd::prelude::*;

use crate::plex::{Playlist, Track};
use crate::text::{decimal, push_decimal};
use crate::ui::track_count_suffix;

verus! {

/// An album of an artist, as the browser lists it.
#[derive(Debug, Clone)]
pub struct Album {
    pub title: String,
    pub year: Option<u32>,
}

/// The level the ambient track browser shows.
#[derive(Debug, Clone)]
pub enum BrowserView {
    /// The choice between playlists and artists.
    TopLevel,
    /// All artist names, the positions of those matching the search, and
    /// the search text typed so far.
    Artists { all_artists: Vec<String>, filtered_indices: Vec<usize>, search_query: String },
    /// The albums of an artist.
    Albums { artist_name: String, albums: Vec<Album> },
    /// The tracks of an album.
    ArtistTracks { album_title: String, artist_name: String, tracks: Vec<Track> },
    /// The playlists.
    Playlists { playlists: Vec<Playlist> },
    /// The tracks of a playlist.
    PlaylistTracks { playlist_title: String, tracks: Vec<Track> },
}

/// The first entry of a track list: play every track.
pub open spec fn play_all_item(n: nat) -> Seq<char> {
    ">> Play All ("@ + decimal(n) + " tracks)"@
}

/// A track entry of the browser: `  title - artist` (`Unknown` when the
/// artist is not known).
pub open spec fn browser_track_item(t: Track) -> Seq<char> {
    "  "@ + t.title@ + " - "@ + match t.artist {
        Some(a) => a@,
        None => "Unknown"@,
    }
}

/// The entries of a track list: "Play All", then each track.
pub open spec fn track_items(ts: Seq<Track>) -> Seq<Seq<char>> {
    seq![play_all_item(ts.len())] + ts.map_values(|t: Track| browser_track_item(t))
}

/// A playlist entry: the title, with ` (N tracks)` when the count is known.
pub open spec fn browser_playlist_item(p: Playlist) -> Seq<char> {
    p.title@ + track_count_suffix(p.leaf_count)
}

/// An album entry: the title, with ` (year)` when the year is known.
pub open spec fn album_item(a: Album) -> Seq<char> {
    a.title@ + match a.year {
        Some(y) => " ("@ + decimal(y as nat) + ")"@,
        None => ""@,
    }
}

/// The names at the matching positions, skipping positions past the list.
pub open spec fn artist_names(all: Seq<String>, indices: Seq<usize>) -> Seq<Seq<char>>
    decreases indices.len(),
{
    if indices.len() == 0 {
        Seq::empty()
    } else {
        artist_names(all, indices.drop_last()) + if indices.last() < all.len() {
            seq![all[indices.last() as int]@]
        } else {
            Seq::<Seq<char>>::empty()
        }
    }
}

/// The entries the browser lists at a level.
pub open spec fn browser_items_spec(v: BrowserView) -> Seq<Seq<char>> {
    match v {
        BrowserView::TopLevel => seq!["Playlists"@, "Artists"@],
        BrowserView::Artists { all_artists, filtered_indices, .. } => artist_names(all_artists@, filtered_indices@),
        BrowserView::Albums { albums, .. } => albums@.map_values(|a: Album| album_item(a)),
        BrowserView::ArtistTracks { tracks, .. } => track_items(tracks@),
        BrowserView::Playlists { playlists } => playlists@.map_values(|p: Playlist| browser_playlist_item(p)),
        BrowserView::PlaylistTracks { tracks, .. } => track_items(tracks@),
    }
}

/// The title of the browser overlay at a level.
pub open spec fn browser_title_spec(v: BrowserView) -> Seq<char> {
    match v {
        BrowserView::TopLevel => " Ambient Browser "@,
        BrowserView::Artists { filtered_indices, search_query, .. } => if search_query@.len() == 0 {
            " Artists "@
        } else {
            " Artists - "@ + decimal(filtered_indices@.len()) + " matches "@
        },
        BrowserView::Albums { artist_name, .. } => " "@ + artist_name@ + " - Albums "@,
        BrowserView::ArtistTracks { album_title, artist_name, .. } => " "@ + album_title@ + " - "@
            + artist_name@ + " "@,
        BrowserView::Playlists { .. } => " Playlists "@,
        BrowserView::PlaylistTracks { playlist_title, .. } => " "@ + playlist_title@ + " "@,
    }
}

/// The search line above the artist list: the prompt while nothing is
/// typed, else `Search: ` and the text with a `_` cursor. Other levels
/// have no search line.
pub open spec fn browser_search_spec(v: BrowserView) -> Option<Seq<char>> {
    match v {
        BrowserView::Artists { search_query, .. } => Some(
            if search_query@.len() == 0 {
                "Type to search..."@
            } else {
                "Search: "@ + search_query@ + "_"@
            },
        ),
        _ => None,
    }
}

/// Whether the artist list is replaced by "No matches": a search is typed
/// and no artist matches it.
pub open spec fn browser_no_matches_spec(v: BrowserView) -> bool {
    match v {
        BrowserView::Artists { filtered_indices, search_query, .. } => filtered_indices@.len() == 0
            && search_query@.len() > 0,
        _ => false,
    }
}

/// The views of a list of strings.
pub open spec fn string_views(v: Seq<String>) -> Seq<Seq<char>> {
    v.map_values(|s: String| s@)
}

fn track_entries(tracks: &Vec<Track>) -> (r: Vec<String>)
    ensures
        string_views(r@) == track_items(tracks@),
{
    let n = tracks.len();
    let mut first = String::from_str(">> Play All (");
    push_decimal(&mut first, n as u64);
    first.append(" tracks)");
    let mut out: Vec<String> = Vec::new();
    out.push(first);
    let mut i: usize = 0;
    while i < n
        invariant
            n == tracks@.len(),
            i <= n,
            out@.len() == i + 1,
            out@[0]@ == play_all_item(n as nat),
            forall|k: int| 0 <= k < i ==> (#[trigger] out@[k + 1])@ == browser_track_item(tracks@[k]),
        decreases n - i,
    {
        let t = &tracks[i];
        let mut s = String::from_str("  ");
        s.append(t.title.as_str());
        s.append(" - ");
        match &t.artist {
            Some(a) => s.append(a.as_str()),
            None => s.append("Unknown"),
        }
        out.push(s);
        i = i + 1;
    }
    assert(string_views(out@) =~= track_items(tracks@)) by {
        assert forall|k: int| 0 < k < out@.len() implies string_views(out@)[k] == track_items(tracks@)[k] by {
            assert(out@[(k - 1) + 1] == out@[k]);
        }
    }
    out
}

fn playlist_entries(playlists: &Vec<Playlist>) -> (r: Vec<String>)
    ensures
        string_views(r@) == playlists@.map_values(|p: Playlist| browser_playlist_item(p)),
{
    let n = playlists.len();
    let mut out: Vec<String> = Vec::new();
    let mut i: usize = 0;
    while i < n
        invariant
            n == playlists@.len(),
            i <= n,
            out@.len() == i,
            forall|k: int| 0 <= k < i ==> (#[trigger] out@[k])@ == browser_playlist_item(playlists@[k]),
        decreases n - i,
    {
        let p = &playlists[i];
        let mut s = String::from_str(p.title.as_str());
        if let Some(c) = p.leaf_count {
            s.append(" (");
            push_decimal(&mut s, c as u64);
            s.append(" tracks)");
        }
        proof {
            reveal_strlit("");
        }
        assert(s@ =~= browser_playlist_item(playlists@[i as int]));
        out.push(s);
        i = i + 1;
    }
    assert(string_views(out@) =~= playlists@.map_values(|p: Playlist| browser_playlist_item(p)));
    out
}

fn album_entries(albums: &Vec<Album>) -> (r: Vec<String>)
    ensures
        string_views(r@) == albums@.map_values(|a: Album| album_item(a)),
{
    let n = albums.len();
    let mut out: Vec<String> = Vec::new();
    let mut i: usize = 0;
    while i < n
        invariant
            n == albums@.len(),
            i <= n,
            out@.len() == i,
            forall|k: int| 0 <= k < i ==> (#[trigger] out@[k])@ == album_item(albums@[k]),
        decreases n - i,
    {
        let a = &albums[i];
        let mut s = String::from_str(a.title.as_str());
        if let Some(y) = a.year {
            s.append(" (");
            push_decimal(&mut s, y as u64);
            s.append(")");
        }
        proof {
            reveal_strlit("");
        }
        assert(s@ =~= album_item(albums@[i as int]));
        out.push(s);
        i = i + 1;
    }
    assert(string_views(out@) =~= albums@.map_values(|a: Album| album_item(a)));
    out
}

fn artist_entries(all: &Vec<String>, indices: &Vec<usize>) -> (r: Vec<String>)
    ensures
        string_views(r@) == artist_names(all@, indices@),
{
    let n = indices.len();
    let mut out: Vec<String> = Vec::new();
    let mut i: usize = 0;
    assert(indices@.take(0) =~= Seq::<usize>::empty());
    while i < n
        invariant
            n == indices@.len(),
            i <= n,
            string_views(out@) == artist_names(all@, indices@.take(i as int)),
        decreases n - i,
    {
        let ghost before = out@;
        assert(indices@.take(i + 1).drop_last() =~= indices@.take(i as int));
        assert(indices@.take(i + 1).last() == indices@[i as int]);
        let j = indices[i];
        if j < all.len() {
            out.push(all[j].clone());
            assert(string_views(out@) =~= string_views(before).push(all@[j as int]@));
        } else {
            assert(artist_names(all@, indices@.take(i + 1)) =~= artist_names(all@, indices@.take(i as int)));
        }
        i = i + 1;
    }
    assert(indices@.take(n as int) =~= indices@);
    out
}

/// The entries listed at the browser's level.
pub fn browser_items(v: &BrowserView) -> (r: Vec<String>)
    ensures
        string_views(r@) == browser_items_spec(*v),
{
    match v {
        BrowserView::TopLevel => {
            let mut out: Vec<String> = Vec::new();
            out.push(String::from_str("Playlists"));
            out.push(String::from_str("Artists"));
            assert(string_views(out@) =~= browser_items_spec(*v));
            out
        },
        BrowserView::Artists { all_artists, filtered_indices, .. } => artist_entries(all_artists, filtered_indices),
        BrowserView::Albums { albums, .. } => album_entries(albums),
        BrowserView::ArtistTracks { tracks, .. } => track_entries(tracks),
        BrowserView::Playlists { playlists } => playlist_entries(playlists),
        BrowserView::PlaylistTracks { tracks, .. } => track_entries(tracks),
    }
}

/// The title of the browser overlay.
pub fn browser_title(v: &BrowserView) -> (r: String)
    ensures
        r@ == browser_title_spec(*v),
{
    match v {
        BrowserView::TopLevel => String::from_str(" Ambient Browser "),
        BrowserView::Artists { filtered_indices, search_query, .. } => {
            if search_query.as_str().unicode_len() == 0 {
                String::from_str(" Artists ")
            } else {
                let mut s = String::from_str(" Artists - ");
                push_decimal(&mut s, filtered_indices.len() as u64);
                s.append(" matches ");
                s
            }
        },
        BrowserView::Albums { artist_name, .. } => {
            let mut s = String::from_str(" ");
            s.append(artist_name.as_str());
            s.append(" - Albums ");
            s
        },
        BrowserView::ArtistTracks { album_title, artist_name, .. } => {
            let mut s = String::from_str(" ");
            s.append(album_title.as_str());
            s.append(" - ");
            s.append(artist_name.as_str());
            s.append(" ");
            s
        },
        BrowserView::Playlists { .. } => String::from_str(" Playlists "),
        BrowserView::PlaylistTracks { playlist_title, .. } => {
            let mut s = String::from_str(" ");
            s.append(playlist_title.as_str());
            s.append(" ");
            s
        },
    }
}

/// The search line of the artist level (None at other levels).
pub fn browser_search_text(v: &BrowserView) -> (r: Option<String>)
    ensures
        match browser_search_spec(*v) {
            Some(t) => r matches Some(s) && s@ == t,
            None => r is None,
        },
{
    match v {
        BrowserView::Artists { search_query, .. } => {
            if search_query.as_str().unicode_len() == 0 {
                Some(String::from_str("Type to search..."))
            } else {
                let mut s = String::from_str("Search: ");
                s.append(search_query.as_str());
                s.append("_");
                Some(s)
            }
        },
        _ => None,
    }
}

/// Whether "No matches" replaces the artist list.
pub fn browser_no_matches(v: &BrowserView) -> (r: bool)
    ensures
        r == browser_no_matches_spec(*v),
{
    match v {
        BrowserView::Artists { filtered_indices, search_query, .. } => filtered_indices.len() == 0
            && search_query.as_str().unicode_len() > 0,
        _ => false,
    }
}

} // verus!
