//! The search tab: the search line and the results.
use vstd::prelude::*;
use crate::app::{type_is, App};
use crate::client::models::{artist_text, duration_text, opt_view, Item};
use crate::config::str_eq;
use crate::text::push_all;
use crate::ui::library::{secs_of, year_label, year_text};
use crate::ui::{counted, counted_text, or_empty};

verus! {

/// The search line: the query after a space, with a cursor while it has the focus.
pub open spec fn search_line_text(a: App) -> Seq<char> {
    " "@ + a.search_query@ + (if a.search_focused { "_"@ } else { Seq::empty() })
}

/// The search line (see [`search_line_text`]).
pub fn search_line(app: &App) -> (s: String)
    ensures
        s@ == search_line_text(*app),
{
    let mut s = String::new();
    push_all(&mut s, " ");
    push_all(&mut s, app.search_query.as_str());
    if app.search_focused {
        push_all(&mut s, "_");
    }
    proof {
        reveal_strlit(" ");
        reveal_strlit("_");
        assert(s@ =~= search_line_text(*app));
    }
    s
}

/// The label of a result's kind, padded to eight columns.
pub open spec fn kind_label(t: Item) -> Seq<char> {
    if type_is(t, "MusicArtist"@) {
        "[Artist]"@
    } else if type_is(t, "MusicAlbum"@) {
        "[Album] "@
    } else if type_is(t, "Audio"@) {
        "[Track] "@
    } else {
        "[?]     "@
    }
}

/// What follows a result's name: a track's artist and duration, an album's artist and year.
pub open spec fn result_extra(t: Item) -> Seq<char> {
    if type_is(t, "Audio"@) {
        " - "@ + artist_text(t@) + "  "@ + duration_text(secs_of(t))
    } else if type_is(t, "MusicAlbum"@) {
        " - "@ + or_empty(opt_view(t.album_artist)) + year_text(t.production_year)
    } else {
        Seq::empty()
    }
}

/// The type is exactly `lit`.
fn type_equals(t: &Item, lit: &str) -> (b: bool)
    ensures
        b == (t.item_type is Some && t.item_type->0@ == lit@),
{
    match &t.item_type {
        Some(s) => str_eq(s.as_str(), lit),
        None => false,
    }
}

/// The row of result `i`: its kind label, its name and what follows it.
pub fn result_row(app: &App, i: usize) -> (r: (&'static str, String, String))
    requires
        i < app.search_results@.len(),
    ensures
        r.0@ == kind_label(app.search_results@[i as int]),
        r.1@ == app.search_results@[i as int].name@,
        r.2@ == result_extra(app.search_results@[i as int]),
{
    let t = &app.search_results[i];
    proof {
        reveal_strlit("MusicArtist");
        reveal_strlit("MusicAlbum");
        reveal_strlit("Audio");
        reveal_strlit("[Artist]");
        reveal_strlit("[Album] ");
        reveal_strlit("[Track] ");
        reveal_strlit("[?]     ");
        reveal_strlit(" - ");
        reveal_strlit("  ");
    }
    let label: &'static str = if type_equals(t, "MusicArtist") {
        "[Artist]"
    } else if type_equals(t, "MusicAlbum") {
        "[Album] "
    } else if type_equals(t, "Audio") {
        "[Track] "
    } else {
        "[?]     "
    };
    let mut extra = String::new();
    if type_equals(t, "Audio") {
        push_all(&mut extra, " - ");
        let a = t.artist_display();
        push_all(&mut extra, a.as_str());
        push_all(&mut extra, "  ");
        let d = t.duration_display();
        push_all(&mut extra, d.as_str());
    } else if type_equals(t, "MusicAlbum") {
        push_all(&mut extra, " - ");
        match &t.album_artist {
            Some(x) => push_all(&mut extra, x.as_str()),
            None => {},
        }
        let y = year_label(t.production_year);
        push_all(&mut extra, y.as_str());
        assert(extra@ =~= result_extra(*t));
    }
    (label, t.name.clone(), extra)
}

/// The results' title: their number once something was searched for.
pub open spec fn results_title_text(a: App) -> Seq<char> {
    if a.search_query@.len() == 0 {
        " Results "@
    } else {
        counted(" Results ("@, a.search_results@.len(), ") "@)
    }
}

/// The results' title (see [`results_title_text`]).
pub fn results_title(app: &App) -> (s: String)
    ensures
        s@ == results_title_text(*app),
{
    if app.search_query.as_str().is_empty() {
        let mut s = String::new();
        push_all(&mut s, " Results ");
        proof {
            reveal_strlit(" Results ");
        }
        s
    } else {
        counted_text(" Results (", app.search_results.len(), ") ")
    }
}

} // verus!
