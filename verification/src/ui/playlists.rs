//! The playlists tab and the add-to-playlist popup.
use vstd::prelude::*;
use crate::app::{visual_range, App, Focus};
use crate::client::models::{artist_text, duration_text, opt_view};
use crate::text::push_all;
use crate::ui::library::{range_size, secs_of, visual_title};
use crate::ui::{
    counted, counted_text, in_range, is_playing_track, mark_of, number_label, number_text, or_empty,
    playing_track, row_mark, within, RowMark,
};

verus! {

/// The row of playlist `i`: its name, and whether it is the open playlist (by id).
pub fn playlist_row(app: &App, i: usize) -> (r: (String, bool))
    requires
        i < app.playlists@.len(),
    ensures
        r.0@ == app.playlists@[i as int].name@,
        r.1 == (app.selected_playlist_id matches Some(id) && id@ == app.playlists@[i as int].id@),
{
    let pl = &app.playlists[i];
    let open = match &app.selected_playlist_id {
        Some(id) => *id == pl.id,
        None => false,
    };
    (pl.name.clone(), open)
}

/// The playlist list's title: the name being typed for a new playlist, else the number of
/// playlists.
pub open spec fn playlists_title_text(a: App) -> Seq<char> {
    if a.playlist_create_mode {
        " New Playlist: "@ + a.playlist_create_name@ + "_ "@
    } else {
        counted(" Playlists ("@, a.playlists@.len(), ") "@)
    }
}

/// The playlist list's title (see [`playlists_title_text`]).
pub fn playlists_title(app: &App) -> (s: String)
    ensures
        s@ == playlists_title_text(*app),
{
    if app.playlist_create_mode {
        let mut s = String::new();
        push_all(&mut s, " New Playlist: ");
        push_all(&mut s, app.playlist_create_name.as_str());
        push_all(&mut s, "_ ");
        proof {
            reveal_strlit(" New Playlist: ");
            reveal_strlit("_ ");
        }
        s
    } else {
        counted_text(" Playlists (", app.playlists.len(), ") ")
    }
}

/// A row of a playlist's track list.
#[derive(Debug)]
pub struct PlaylistTrackRow {
    pub mark: RowMark,
    /// The number column (see [`number_label`]); tracks are numbered from one.
    pub number: String,
    pub name: String,
    /// ` - ` and the artist.
    pub artist: String,
    /// Two spaces and the album.
    pub album: String,
    /// Two spaces and the duration.
    pub duration: String,
}

/// The visual selection of a playlist's tracks, while they have the focus.
pub open spec fn playlist_visual(a: App) -> Option<(usize, usize)> {
    if a.focus == Focus::PlaylistTracks { visual_range(a) } else { None }
}

/// The row of track `i` of the open playlist.
pub fn playlist_track_row(app: &App, i: usize) -> (r: PlaylistTrackRow)
    requires
        i < app.playlist_tracks@.len(),
    ensures
        ({
            let t = app.playlist_tracks@[i as int];
            let playing = is_playing_track(*app, t);
            &&& r.mark == row_mark(playing, in_range(playlist_visual(*app), i as int))
            &&& r.number@ == number_label(playing, (i + 1) as nat)
            &&& r.name@ == t.name@
            &&& r.artist@ == " - "@ + artist_text(t@)
            &&& r.album@ == "  "@ + or_empty(opt_view(t.album))
            &&& r.duration@ == "  "@ + duration_text(secs_of(t))
        }),
{
    let t = &app.playlist_tracks[i];
    let len = app.playlist_tracks.len();
    assert(i + 1 <= len);
    let range = if app.focus == Focus::PlaylistTracks { app.visual_selection_range() } else { None };
    let playing = playing_track(app, t);
    let mut artist = String::new();
    push_all(&mut artist, " - ");
    let a = t.artist_display();
    push_all(&mut artist, a.as_str());
    let mut album = String::new();
    push_all(&mut album, "  ");
    match &t.album {
        Some(x) => push_all(&mut album, x.as_str()),
        None => {},
    }
    let mut duration = String::new();
    push_all(&mut duration, "  ");
    let d = t.duration_display();
    push_all(&mut duration, d.as_str());
    proof {
        reveal_strlit(" - ");
        reveal_strlit("  ");
        assert(album@ =~= "  "@ + or_empty(opt_view(t.album)));
    }
    PlaylistTrackRow {
        mark: mark_of(playing, within(range, i)),
        number: number_text(playing, (i + 1) as u64),
        name: t.name.clone(),
        artist,
        album,
        duration,
    }
}

/// The title of a playlist's track list: the size of a visual selection, else the
/// playlist's name and number of tracks.
pub open spec fn playlist_tracks_title_text(a: App) -> Seq<char> {
    match playlist_visual(a) {
        Some((lo, hi)) => visual_title(lo, hi),
        None => match a.selected_playlist_name {
            Some(name) => " "@ + name@ + counted(" ("@, a.playlist_tracks@.len(), ") "@),
            None => " Tracks "@,
        },
    }
}

/// The title of a playlist's track list (see [`playlist_tracks_title_text`]).
pub fn playlist_tracks_title(app: &App) -> (s: String)
    ensures
        s@ == playlist_tracks_title_text(*app),
{
    let range = if app.focus == Focus::PlaylistTracks { app.visual_selection_range() } else { None };
    if let Some((lo, hi)) = range {
        return counted_text(" Tracks -- VISUAL ", range_size(lo, hi), " selected ");
    }
    proof {
        reveal_strlit(" ");
        reveal_strlit(" Tracks ");
    }
    let mut s = String::new();
    match &app.selected_playlist_name {
        Some(name) => {
            push_all(&mut s, " ");
            push_all(&mut s, name.as_str());
            let tail = counted_text(" (", app.playlist_tracks.len(), ") ");
            push_all(&mut s, tail.as_str());
        },
        None => push_all(&mut s, " Tracks "),
    }
    s
}

/// The add-to-playlist popup's title: the number of tracks when there are several.
pub open spec fn popup_title_text(count: nat) -> Seq<char> {
    if count > 1 {
        counted(" Add "@, count, " tracks to Playlist "@)
    } else {
        " Add to Playlist "@
    }
}

/// The add-to-playlist popup's title (see [`popup_title_text`]).
pub fn popup_title(app: &App) -> (s: String)
    ensures
        s@ == popup_title_text(app.add_to_playlist_items@.len()),
{
    let count = app.add_to_playlist_items.len();
    if count > 1 {
        counted_text(" Add ", count, " tracks to Playlist ")
    } else {
        let mut s = String::new();
        push_all(&mut s, " Add to Playlist ");
        proof {
            reveal_strlit(" Add to Playlist ");
        }
        s
    }
}

/// The popup's text when there is no playlist to add to.
pub fn no_playlists_text() -> (s: &'static str)
    ensures
        s@ == " No playlists. Press C on Playlists tab to create one."@,
{
    proof {
        reveal_strlit(" No playlists. Press C on Playlists tab to create one.");
    }
    " No playlists. Press C on Playlists tab to create one."
}

/// A playlist's row in the popup: its name indented by two spaces.
pub fn popup_row(app: &App, i: usize) -> (s: String)
    requires
        i < app.playlists@.len(),
    ensures
        s@ == "  "@ + app.playlists@[i as int].name@,
{
    let mut s = String::new();
    push_all(&mut s, "  ");
    push_all(&mut s, app.playlists[i].name.as_str());
    proof {
        reveal_strlit("  ");
    }
    s
}

} // verus!
