//! The recently added tracks.
use vstd::prelude::*;
use vstd::utf8::{encode_utf8, is_char_boundary};
use crate::app::{visual_range, App};
use crate::client::models::{duration_text, opt_view, strings_view, Item};
use crate::text::push_all;
use crate::ui::library::{range_count, range_size, secs_of};
use crate::ui::{counted, counted_text, in_range, is_playing_track, mark_of, or_empty, playing_track, row_mark, within, RowMark};

verus! {

/// The parts joined with `sep` between them.
pub open spec fn joined(parts: Seq<Seq<char>>, sep: Seq<char>) -> Seq<char>
    decreases parts.len(),
{
    if parts.len() == 0 {
        Seq::empty()
    } else if parts.len() == 1 {
        parts[0]
    } else {
        joined(parts.drop_last(), sep) + sep + parts.last()
    }
}

/// The strings joined with `sep` between them, as `join` does.
pub fn join(parts: &Vec<String>, sep: &str) -> (s: String)
    ensures
        s@ == joined(strings_view(*parts), sep@),
{
    let mut s = String::new();
    let mut i: usize = 0;
    while i < parts.len()
        invariant
            i <= parts@.len(),
            s@ == joined(strings_view(*parts).take(i as int), sep@),
        decreases parts@.len() - i,
    {
        let ghost before = strings_view(*parts).take(i as int);
        assert(strings_view(*parts).take(i + 1).drop_last() =~= before);
        if i > 0 {
            push_all(&mut s, sep);
        }
        push_all(&mut s, parts[i].as_str());
        i = i + 1;
        proof {
            let now = strings_view(*parts).take(i as int);
            if i == 1 {
                assert(now =~= seq![parts@[0]@]);
                assert(s@ =~= joined(now, sep@));
            } else {
                assert(s@ =~= joined(now, sep@));
            }
        }
    }
    assert(strings_view(*parts).take(i as int) =~= strings_view(*parts));
    s
}

/// Calls `str::get(..10)`: the first ten bytes of the text, when it has at least ten bytes
/// and the tenth byte ends a character; `None` otherwise.
#[verifier::external_body]
fn first_ten_bytes(s: &str) -> (r: Option<&str>)
    ensures
        r is Some == (encode_utf8(s@).len() >= 10 && is_char_boundary(encode_utf8(s@), 10)),
        r matches Some(p) ==> encode_utf8(p@) == encode_utf8(s@).subrange(0, 10),
{
    s.get(..10)
}

/// What the artist column shows: every listed artist, else the album artist, else nothing.
pub open spec fn recent_artists_text(t: Item) -> Seq<char> {
    match t.artists {
        Some(a) => joined(strings_view(a), ", "@),
        None => or_empty(opt_view(t.album_artist)),
    }
}

/// A row of the recent tracks.
#[derive(Debug)]
pub struct RecentRow {
    pub mark: RowMark,
    /// A note for the playing track, else two spaces.
    pub prefix: String,
    pub name: String,
    /// ` - ` and the artists.
    pub artists: String,
    /// Two spaces and the album.
    pub album: String,
    /// Two spaces and the genres in brackets, when there are genres to show.
    pub genres: Option<String>,
    /// Two spaces and the duration.
    pub duration: String,
    /// Two spaces and the date the track was added (its first ten bytes), when known.
    pub added: Option<String>,
}

/// The row of recent track `i`.
pub fn recent_row(app: &App, i: usize) -> (r: RecentRow)
    requires
        i < app.recent_tracks@.len(),
    ensures
        ({
            let t = app.recent_tracks@[i as int];
            let playing = is_playing_track(*app, t);
            let genres = match t.genres {
                Some(g) => joined(strings_view(g), ", "@),
                None => Seq::empty(),
            };
            &&& r.mark == row_mark(playing, in_range(visual_range(*app), i as int))
            &&& r.prefix@ == (if playing { "♪ "@ } else { "  "@ })
            &&& r.name@ == t.name@
            &&& r.artists@ == " - "@ + recent_artists_text(t)
            &&& r.album@ == "  "@ + or_empty(opt_view(t.album))
            &&& r.genres is Some == (genres.len() > 0)
            &&& (r.genres matches Some(g) ==> g@ == "  ["@ + genres + "]"@)
            &&& r.duration@ == "  "@ + duration_text(secs_of(t))
            &&& (r.added is Some == (t.date_created matches Some(d) && encode_utf8(d@).len() >= 10
                && is_char_boundary(encode_utf8(d@), 10)))
            &&& (r.added matches Some(a) ==> t.date_created matches Some(d)
                && exists|p: Seq<char>| a@ == "  "@ + p && encode_utf8(p) == encode_utf8(d@).subrange(0, 10))
        }),
{
    let t = &app.recent_tracks[i];
    let range = app.visual_selection_range();
    let playing = playing_track(app, t);
    proof {
        reveal_strlit("♪ ");
        reveal_strlit("  ");
        reveal_strlit(" - ");
        reveal_strlit(", ");
        reveal_strlit("  [");
        reveal_strlit("]");
    }
    let mut prefix = String::new();
    if playing {
        push_all(&mut prefix, "♪ ");
    } else {
        push_all(&mut prefix, "  ");
    }
    let mut artists = String::new();
    push_all(&mut artists, " - ");
    match &t.artists {
        Some(a) => {
            let j = join(a, ", ");
            push_all(&mut artists, j.as_str());
        },
        None => match &t.album_artist {
            Some(x) => push_all(&mut artists, x.as_str()),
            None => {},
        },
    }
    let mut album = String::new();
    push_all(&mut album, "  ");
    match &t.album {
        Some(x) => push_all(&mut album, x.as_str()),
        None => {},
    }
    let genre_text = match &t.genres {
        Some(g) => join(g, ", "),
        None => String::new(),
    };
    let genres = if genre_text.as_str().is_empty() {
        None
    } else {
        let mut g = String::new();
        push_all(&mut g, "  [");
        push_all(&mut g, genre_text.as_str());
        push_all(&mut g, "]");
        Some(g)
    };
    let mut duration = String::new();
    push_all(&mut duration, "  ");
    let d = t.duration_display();
    push_all(&mut duration, d.as_str());
    let added = match &t.date_created {
        Some(dc) => match first_ten_bytes(dc.as_str()) {
            Some(p) => {
                let mut a = String::new();
                push_all(&mut a, "  ");
                push_all(&mut a, p);
                Some(a)
            },
            None => None,
        },
        None => None,
    };
    proof {
        assert(artists@ =~= " - "@ + recent_artists_text(*t));
        assert(album@ =~= "  "@ + or_empty(opt_view(t.album)));
    }
    RecentRow {
        mark: mark_of(playing, within(range, i)),
        prefix,
        name: t.name.clone(),
        artists,
        album,
        genres,
        duration,
        added,
    }
}

/// The title of the recent tracks: their number, and the size of a visual selection.
pub open spec fn recent_title_text(a: App) -> Seq<char> {
    let n = a.recent_tracks@.len();
    match visual_range(a) {
        Some((lo, hi)) => counted(" Recent ("@, n, ") -- VISUAL "@) + counted(Seq::empty(), range_count(lo, hi), " selected "@),
        None => counted(" Recent ("@, n, ") "@),
    }
}

/// The title of the recent tracks (see [`recent_title_text`]).
pub fn recent_title(app: &App) -> (s: String)
    ensures
        s@ == recent_title_text(*app),
{
    let n = app.recent_tracks.len();
    match app.visual_selection_range() {
        Some((lo, hi)) => {
            let mut s = counted_text(" Recent (", n, ") -- VISUAL ");
            let tail = counted_text("", range_size(lo, hi), " selected ");
            push_all(&mut s, tail.as_str());
            proof {
                reveal_strlit("");
            }
            s
        },
        None => counted_text(" Recent (", n, ") "),
    }
}

} // verus!
