//! The library tab: the artist, album and track lists and the queue panel.
use vstd::prelude::*;
use crate::app::{selected_artist, visible_artists, visual_range, App, Focus};
use crate::client::models::{duration_text, opt_view, Item};
use crate::player::queue::mode_label;
use crate::text::{decimal, push_all, push_decimal};
use crate::ui::{
    counted, in_range, is_playing_track, mark_of, number_label, number_text, or_empty, playing_track,
    row_mark, text_or_empty, within, RowMark,
};

verus! {

/// The artist list's title: the filter being typed, else the number of artists.
pub open spec fn artists_title_text(a: App) -> Seq<char> {
    if a.filter_active && a.focus == Focus::Artists {
        " Artists [/"@ + a.filter_text@ + "] "@
    } else {
        counted(" Artists ("@, a.artists@.len(), ") "@)
    }
}

/// The artist list's title (see [`artists_title_text`]).
pub fn artists_title(app: &App) -> (s: String)
    ensures
        s@ == artists_title_text(*app),
{
    proof {
        reveal_strlit(" Artists [/");
        reveal_strlit("] ");
    }
    if app.filter_active && app.focus == Focus::Artists {
        let mut s = String::new();
        push_all(&mut s, " Artists [/");
        push_all(&mut s, app.filter_text.as_str());
        push_all(&mut s, "] ");
        s
    } else {
        crate::ui::counted_text(" Artists (", app.artists.len(), ") ")
    }
}

/// The shown artists' names, each with whether it is the selected artist (by id).
pub fn artist_rows(app: &App) -> (r: Vec<(String, bool)>)
    ensures
        r@.len() == visible_artists(*app).len(),
        forall|i: int| 0 <= i < r@.len() ==> {
            &&& (#[trigger] r@[i]).0@ == visible_artists(*app)[i].name@
            &&& r@[i].1 == (selected_artist(*app) matches Some(s) && s.id@ == visible_artists(*app)[i].id@)
        },
{
    let shown = app.filtered_artists();
    let selected = app.selected_artist_id();
    let mut r: Vec<(String, bool)> = Vec::new();
    let mut i: usize = 0;
    while i < shown.len()
        invariant
            i <= shown@.len(),
            shown@.len() == visible_artists(*app).len(),
            forall|j: int| 0 <= j < shown@.len() ==> *shown@[j] == visible_artists(*app)[j],
            selected is Some == selected_artist(*app) is Some,
            selected is Some ==> selected->0@ == selected_artist(*app)->0.id@,
            r@.len() == i,
            forall|j: int| 0 <= j < i ==> {
                &&& (#[trigger] r@[j]).0@ == visible_artists(*app)[j].name@
                &&& r@[j].1 == (selected_artist(*app) matches Some(s) && s.id@ == visible_artists(*app)[j].id@)
            },
        decreases shown@.len() - i,
    {
        let a = shown[i];
        let hit = match &selected {
            Some(id) => *id == a.id,
            None => false,
        };
        r.push((a.name.clone(), hit));
        i = i + 1;
    }
    r
}

/// The album list's title: the selected artist and its number of albums.
pub open spec fn albums_title_text(a: App) -> Seq<char> {
    match a.selected_artist_name {
        Some(n) => " Albums - "@ + n@ + counted(" ("@, a.albums@.len(), ") "@),
        None => " Albums "@,
    }
}

/// The album list's title (see [`albums_title_text`]).
pub fn albums_title(app: &App) -> (s: String)
    ensures
        s@ == albums_title_text(*app),
{
    proof {
        reveal_strlit(" Albums - ");
        reveal_strlit(" Albums ");
    }
    match &app.selected_artist_name {
        Some(n) => {
            let mut s = String::new();
            push_all(&mut s, " Albums - ");
            push_all(&mut s, n.as_str());
            let tail = crate::ui::counted_text(" (", app.albums.len(), ") ");
            push_all(&mut s, tail.as_str());
            s
        },
        None => {
            let mut s = String::new();
            push_all(&mut s, " Albums ");
            s
        },
    }
}

/// The album list shows its "All Tracks" row first once an artist is open.
pub fn shows_all_tracks_row(app: &App) -> (b: bool)
    ensures
        b == app.selected_artist_name is Some,
{
    app.selected_artist_name.is_some()
}

/// A row of the album list.
#[derive(Debug)]
pub struct AlbumRow {
    pub name: String,
    /// ` (year)` when the year is known, else empty.
    pub year: String,
    /// The album is the one whose tracks are shown (by name).
    pub highlighted: bool,
}

/// ` (year)` for a known year, else nothing.
pub open spec fn year_text(y: Option<u32>) -> Seq<char> {
    match y {
        Some(v) => " ("@ + decimal(v as nat) + ")"@,
        None => Seq::empty(),
    }
}

/// ` (year)` for a known year, else nothing.
pub fn year_label(y: Option<u32>) -> (s: String)
    ensures
        s@ == year_text(y),
{
    let mut s = String::new();
    if let Some(v) = y {
        push_all(&mut s, " (");
        push_decimal(&mut s, v as u64);
        push_all(&mut s, ")");
        proof {
            reveal_strlit(" (");
            reveal_strlit(")");
        }
    }
    s
}

/// The row of album `i`.
pub fn album_row(app: &App, i: usize) -> (r: AlbumRow)
    requires
        i < app.albums@.len(),
    ensures
        r.name@ == app.albums@[i as int].name@,
        r.year@ == year_text(app.albums@[i as int].production_year),
        r.highlighted == (app.selected_album_name matches Some(n) && n@ == app.albums@[i as int].name@),
{
    let album = &app.albums[i];
    let highlighted = match &app.selected_album_name {
        Some(n) => *n == album.name,
        None => false,
    };
    AlbumRow { name: album.name.clone(), year: year_label(album.production_year), highlighted }
}

/// A row of a track list.
#[derive(Debug)]
pub struct TrackRow {
    pub mark: RowMark,
    /// The number column (see [`number_label`]).
    pub number: String,
    pub name: String,
    pub album: String,
    pub duration: String,
}

/// The visual selection of the track list, while it has the focus.
pub open spec fn tracks_visual(a: App) -> Option<(usize, usize)> {
    if a.focus == Focus::Tracks { visual_range(a) } else { None }
}

/// The duration of an item in whole seconds, zero when unknown.
pub open spec fn secs_of(t: Item) -> nat {
    match t.duration_seconds {
        Some(d) => d as nat,
        None => 0,
    }
}

/// The row of track `i` of the library: its number is the track number, else its position
/// counted from one.
pub fn track_row(app: &App, i: usize) -> (r: TrackRow)
    requires
        i < app.tracks@.len(),
    ensures
        ({
            let t = app.tracks@[i as int];
            let playing = is_playing_track(*app, t);
            &&& r.mark == row_mark(playing, in_range(tracks_visual(*app), i as int))
            &&& r.number@ == number_label(
                playing,
                match t.index_number {
                    Some(n) => n as nat,
                    None => (i + 1) as nat,
                },
            )
            &&& r.name@ == t.name@
            &&& r.album@ == or_empty(opt_view(t.album))
            &&& r.duration@ == duration_text(secs_of(t))
        }),
{
    let t = &app.tracks[i];
    let len = app.tracks.len();
    assert(i + 1 <= len);
    let range = if app.focus == Focus::Tracks { app.visual_selection_range() } else { None };
    let playing = playing_track(app, t);
    let n: u64 = match t.index_number {
        Some(n) => n as u64,
        None => (i + 1) as u64,
    };
    TrackRow {
        mark: mark_of(playing, within(range, i)),
        number: number_text(playing, n),
        name: t.name.clone(),
        album: text_or_empty(&t.album),
        duration: t.duration_display(),
    }
}

/// How many rows a visual range covers (at most `usize::MAX`).
pub open spec fn range_count(lo: usize, hi: usize) -> nat {
    if hi - lo < usize::MAX { (hi - lo + 1) as nat } else { usize::MAX as nat }
}

/// How many rows a visual range covers (see [`range_count`]).
pub fn range_size(lo: usize, hi: usize) -> (n: usize)
    requires
        lo <= hi,
    ensures
        n == range_count(lo, hi),
{
    let d = hi - lo;
    if d < usize::MAX { d + 1 } else { usize::MAX }
}

/// The title of a list in visual mode.
pub open spec fn visual_title(lo: usize, hi: usize) -> Seq<char> {
    counted(" Tracks -- VISUAL "@, range_count(lo, hi), " selected "@)
}

/// The track list's title: the size of a visual selection, else what is shown (an artist's
/// "All Tracks" or an album) with the number of tracks.
pub open spec fn tracks_title_text(a: App) -> Seq<char> {
    let n = a.tracks@.len();
    match tracks_visual(a) {
        Some((lo, hi)) => visual_title(lo, hi),
        None => match a.selected_album_name {
            Some(album) => if album@ == "All Tracks"@ {
                match a.selected_artist_name {
                    Some(artist) => " "@ + artist@ + counted(" - All Tracks ("@, n, ") "@),
                    None => counted(" All Tracks ("@, n, ") "@),
                }
            } else {
                " "@ + album@ + counted(" ("@, n, ") "@)
            },
            None => " Tracks "@,
        },
    }
}

/// The track list's title (see [`tracks_title_text`]).
pub fn tracks_title(app: &App) -> (s: String)
    ensures
        s@ == tracks_title_text(*app),
{
    let range = if app.focus == Focus::Tracks { app.visual_selection_range() } else { None };
    let n = app.tracks.len();
    if let Some((lo, hi)) = range {
        return crate::ui::counted_text(" Tracks -- VISUAL ", range_size(lo, hi), " selected ");
    }
    proof {
        reveal_strlit(" ");
        reveal_strlit(" Tracks ");
    }
    match &app.selected_album_name {
        Some(album) => {
            if crate::config::str_eq(album.as_str(), "All Tracks") {
                match &app.selected_artist_name {
                    Some(artist) => {
                        let mut s = String::new();
                        push_all(&mut s, " ");
                        push_all(&mut s, artist.as_str());
                        let tail = crate::ui::counted_text(" - All Tracks (", n, ") ");
                        push_all(&mut s, tail.as_str());
                        s
                    },
                    None => crate::ui::counted_text(" All Tracks (", n, ") "),
                }
            } else {
                let mut s = String::new();
                push_all(&mut s, " ");
                push_all(&mut s, album.as_str());
                let tail = crate::ui::counted_text(" (", n, ") ");
                push_all(&mut s, tail.as_str());
                s
            }
        },
        None => {
            let mut s = String::new();
            push_all(&mut s, " Tracks ");
            s
        },
    }
}

/// A row of the queue list.
#[derive(Debug)]
pub struct QueueRow {
    /// The row is the queue's current position.
    pub current: bool,
    /// `▶ ` for the current position, else two spaces; then the position counted from one,
    /// a dot and a space.
    pub number: String,
    pub name: String,
    pub duration: String,
}

/// The row of queue item `i`.
pub fn queue_row(app: &App, i: usize) -> (r: QueueRow)
    requires
        i < app.queue.items@.len(),
    ensures
        r.current == (app.queue.current == Some(i)),
        r.number@ == (if r.current { "▶ "@ } else { "  "@ }) + decimal((i + 1) as nat) + ". "@,
        r.name@ == app.queue.items@[i as int].name@,
        r.duration@ == duration_text(secs_of(app.queue.items@[i as int])),
{
    let t = &app.queue.items[i];
    let len = app.queue.items.len();
    assert(i + 1 <= len);
    let current = match app.queue.current {
        Some(c) => c == i,
        None => false,
    };
    let mut number = String::new();
    if current {
        push_all(&mut number, "▶ ");
    } else {
        push_all(&mut number, "  ");
    }
    push_decimal(&mut number, (i + 1) as u64);
    proof {
        reveal_strlit("▶ ");
        reveal_strlit("  ");
        reveal_strlit(". ");
    }
    push_all(&mut number, ". ");
    QueueRow { current, number, name: t.name.clone(), duration: t.duration_display() }
}

/// The queue's title: its length, repeat mode and whether shuffle is on.
pub open spec fn queue_title_text(a: App) -> Seq<char> {
    counted(" Queue ("@, a.queue.items@.len(), ") | Repeat: "@) + mode_label(a.queue.repeat)
        + " | Shuffle: "@ + (if a.queue.shuffle { "On"@ } else { "Off"@ }) + " "@
}

/// The queue's title (see [`queue_title_text`]).
pub fn queue_title(app: &App) -> (s: String)
    ensures
        s@ == queue_title_text(*app),
{
    let mut s = crate::ui::counted_text(" Queue (", app.queue.items.len(), ") | Repeat: ");
    push_all(&mut s, app.queue.repeat.label());
    push_all(&mut s, " | Shuffle: ");
    if app.queue.shuffle {
        push_all(&mut s, "On");
    } else {
        push_all(&mut s, "Off");
    }
    push_all(&mut s, " ");
    s
}

} // verus!
