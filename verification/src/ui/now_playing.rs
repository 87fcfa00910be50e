//! The now-playing bar.
use vstd::prelude::*;
use crate::app::App;
use crate::client::models::{artist_text, duration_text};
use crate::player::queue::{item_at, mode_label};
use crate::text::{push_all, push_signed_decimal, signed_decimal};

verus! {

/// The first line of the bar: the playing track's name and artist, or that nothing plays.
pub open spec fn now_playing_text(a: App) -> Seq<char> {
    match item_at(a.queue.items@, a.queue.current) {
        Some(t) => if artist_text(t@).len() == 0 {
            "  Now Playing: "@ + t.name@
        } else {
            "  Now Playing: "@ + t.name@ + " - "@ + artist_text(t@)
        },
        None => "  No track playing"@,
    }
}

/// The first line of the bar (see [`now_playing_text`]).
pub fn now_playing_line(app: &App) -> (s: String)
    ensures
        s@ == now_playing_text(*app),
{
    proof {
        reveal_strlit("  Now Playing: ");
        reveal_strlit(" - ");
        reveal_strlit("  No track playing");
    }
    let mut s = String::new();
    match app.queue.current_item() {
        Some(t) => {
            let artist = t.artist_display();
            push_all(&mut s, "  Now Playing: ");
            push_all(&mut s, t.name.as_str());
            if !artist.as_str().is_empty() {
                push_all(&mut s, " - ");
                push_all(&mut s, artist.as_str());
            }
        },
        None => push_all(&mut s, "  No track playing"),
    }
    s
}

/// The time shown while a track is current: position and duration in whole seconds, and
/// whether playback is paused; nothing without a current track.
pub open spec fn time_text(a: App, position: u64, duration: u64) -> Seq<char> {
    match item_at(a.queue.items@, a.queue.current) {
        Some(t) => "["@ + duration_text(position as nat) + "/"@ + duration_text(duration as nat) + "]"@
            + (if a.player_state.paused { " [PAUSED]"@ } else { Seq::empty() }),
        None => Seq::empty(),
    }
}

/// The time shown in the bar (see [`time_text`]).
pub fn time_line(app: &App, position: u64, duration: u64) -> (s: String)
    ensures
        s@ == time_text(*app, position, duration),
{
    let mut s = String::new();
    if app.queue.current_item().is_some() {
        push_all(&mut s, "[");
        let p = crate::client::models::format_duration(position);
        push_all(&mut s, p.as_str());
        push_all(&mut s, "/");
        let d = crate::client::models::format_duration(duration);
        push_all(&mut s, d.as_str());
        push_all(&mut s, "]");
        if app.player_state.paused {
            push_all(&mut s, " [PAUSED]");
        }
        proof {
            reveal_strlit("[");
            reveal_strlit("/");
            reveal_strlit("]");
            reveal_strlit(" [PAUSED]");
            assert(s@ =~= time_text(*app, position, duration));
        }
    }
    s
}

/// The volume shown in the bar.
pub open spec fn volume_text(a: App) -> Seq<char> {
    "Vol: "@ + signed_decimal(a.player_state.volume as int) + "%"@
}

/// The volume shown in the bar (see [`volume_text`]).
pub fn volume_line(app: &App) -> (s: String)
    ensures
        s@ == volume_text(*app),
{
    let mut s = String::new();
    push_all(&mut s, "Vol: ");
    push_signed_decimal(&mut s, app.player_state.volume);
    push_all(&mut s, "%");
    s
}

/// The modes shown beside the progress bar: the repeat mode, and `Shuf` when shuffling.
pub open spec fn modes_text(a: App) -> Seq<char> {
    " "@ + mode_label(a.queue.repeat) + " "@ + (if a.queue.shuffle { "Shuf"@ } else { Seq::empty() })
}

/// The modes shown beside the progress bar (see [`modes_text`]).
pub fn modes_line(app: &App) -> (s: String)
    ensures
        s@ == modes_text(*app),
{
    let mut s = String::new();
    push_all(&mut s, " ");
    push_all(&mut s, app.queue.repeat.label());
    push_all(&mut s, " ");
    if app.queue.shuffle {
        push_all(&mut s, "Shuf");
    }
    proof {
        reveal_strlit(" ");
        reveal_strlit("Shuf");
        assert(s@ =~= modes_text(*app));
    }
    s
}

} // verus!
