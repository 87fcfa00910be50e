//! What the screens show, computed apart from drawing them: titles, row texts and which rows
//! stand out. Drawing them with colours and borders is left to the terminal front end.
pub mod help;
pub mod library;
pub mod now_playing;
pub mod playlists;
pub mod recent;
pub mod scroll;
pub mod search;

use vstd::prelude::*;
use crate::app::{App, Tab};
use crate::client::models::Item;
use crate::player::queue::item_at;
use crate::text::{decimal, push_all, push_decimal};

verus! {

/// How a track row stands out: it is playing, it is in the visual selection, or neither.
#[derive(Debug, Clone, Copy, PartialEq, Eq, Structural)]
pub enum RowMark {
    Playing,
    Visual,
    Plain,
}

/// The playing track wins over the visual selection.
pub open spec fn row_mark(playing: bool, visual: bool) -> RowMark {
    if playing {
        RowMark::Playing
    } else if visual {
        RowMark::Visual
    } else {
        RowMark::Plain
    }
}

/// The track has the id of the queue's current item.
pub open spec fn is_playing_track(a: App, t: Item) -> bool {
    match item_at(a.queue.items@, a.queue.current) {
        Some(c) => c.id@ == t.id@,
        None => false,
    }
}

/// Row `i` lies in the inclusive range.
pub open spec fn in_range(range: Option<(usize, usize)>, i: int) -> bool {
    match range {
        Some((lo, hi)) => lo <= i && i <= hi,
        None => false,
    }
}

/// `n` right-aligned in two columns.
pub open spec fn right2(n: nat) -> Seq<char> {
    if n < 10 { seq![' '] + decimal(n) } else { decimal(n) }
}

/// The number column of a track row: a note for the playing track, the number right-aligned
/// in two columns, a dot and a space.
pub open spec fn number_label(playing: bool, n: nat) -> Seq<char> {
    (if playing { "♪ "@ } else { "  "@ }) + right2(n) + ". "@
}

/// The text of an optional field, empty when absent.
pub open spec fn or_empty(o: Option<Seq<char>>) -> Seq<char> {
    match o {
        Some(s) => s,
        None => Seq::empty(),
    }
}

/// `prefix`, the number `n`, then `suffix`.
pub open spec fn counted(prefix: Seq<char>, n: nat, suffix: Seq<char>) -> Seq<char> {
    prefix + decimal(n) + suffix
}

/// A title `prefix`, then `n`, then `suffix`.
pub fn counted_text(prefix: &str, n: usize, suffix: &str) -> (s: String)
    ensures
        s@ == counted(prefix@, n as nat, suffix@),
{
    let mut s = String::new();
    push_all(&mut s, prefix);
    push_decimal(&mut s, n as u64);
    push_all(&mut s, suffix);
    s
}

/// The track has the id of the queue's current item (see [`is_playing_track`]).
pub fn playing_track(app: &App, t: &Item) -> (b: bool)
    ensures
        b == is_playing_track(*app, *t),
{
    match app.queue.current_item() {
        Some(c) => c.id == t.id,
        None => false,
    }
}

/// Row `i` lies in the inclusive range.
pub fn within(range: Option<(usize, usize)>, i: usize) -> (b: bool)
    ensures
        b == in_range(range, i as int),
{
    match range {
        Some((lo, hi)) => lo <= i && i <= hi,
        None => false,
    }
}

/// How a row stands out (see [`row_mark`]).
pub fn mark_of(playing: bool, visual: bool) -> (m: RowMark)
    ensures
        m == row_mark(playing, visual),
{
    if playing {
        RowMark::Playing
    } else if visual {
        RowMark::Visual
    } else {
        RowMark::Plain
    }
}

/// The number column of a track row (see [`number_label`]).
pub fn number_text(playing: bool, n: u64) -> (s: String)
    ensures
        s@ == number_label(playing, n as nat),
{
    let mut s = String::new();
    if playing {
        push_all(&mut s, "♪ ");
    } else {
        push_all(&mut s, "  ");
    }
    if n < 10 {
        s.push(' ');
    }
    push_decimal(&mut s, n);
    push_all(&mut s, ". ");
    proof {
        reveal_strlit("♪ ");
        reveal_strlit("  ");
        reveal_strlit(". ");
        assert(s@ =~= number_label(playing, n as nat));
    }
    s
}

/// A copy of an optional field's text, empty when absent.
pub fn text_or_empty(o: &Option<String>) -> (s: String)
    ensures
        s@ == or_empty(crate::client::models::opt_view(*o)),
{
    match o {
        Some(t) => t.clone(),
        None => String::new(),
    }
}

/// The label of a tab in the tab bar.
pub open spec fn tab_label(t: Tab) -> Seq<char> {
    match t {
        Tab::Library => "[1:Library]"@,
        Tab::Search => "[2:Search]"@,
        Tab::Queue => "[3:Queue]"@,
        Tab::Recent => "[4:Recent]"@,
        Tab::Playlists => "[5:Playlists]"@,
    }
}

/// The tabs in the order the tab bar shows them.
pub open spec fn tab_order() -> Seq<Tab> {
    seq![Tab::Library, Tab::Search, Tab::Queue, Tab::Recent, Tab::Playlists]
}

/// The tab bar: each tab's label and whether it is the active tab, in order.
pub fn tab_bar(app: &App) -> (r: Vec<(&'static str, bool)>)
    ensures
        r@.len() == 5,
        forall|i: int| 0 <= i < 5 ==> (#[trigger] r@[i]).0@ == tab_label(tab_order()[i])
            && r@[i].1 == (tab_order()[i] == app.active_tab),
{
    let mut r: Vec<(&'static str, bool)> = Vec::new();
    r.push(("[1:Library]", app.active_tab == Tab::Library));
    r.push(("[2:Search]", app.active_tab == Tab::Search));
    r.push(("[3:Queue]", app.active_tab == Tab::Queue));
    r.push(("[4:Recent]", app.active_tab == Tab::Recent));
    r.push(("[5:Playlists]", app.active_tab == Tab::Playlists));
    proof {
        reveal_strlit("[1:Library]");
        reveal_strlit("[2:Search]");
        reveal_strlit("[3:Queue]");
        reveal_strlit("[4:Recent]");
        reveal_strlit("[5:Playlists]");
    }
    r
}

} // verus!
