//! The application's state and its decisions: what a key press, a server reply, a player
//! report or a media key does to the state, and which outside work it asks for next.
//!
//! The event loop around it performs each [`Action`] (talking to the server, the player and
//! the media controls) and hands the outcome back to [`App::complete`].
use vstd::prelude::*;
use crate::client::models::{clone_items, items_view, Item, ItemView};
use crate::config::str_eq;
use crate::player::mpv::{PlayerCommand, PlayerState};
use crate::player::media_controls::MediaEvent;
use crate::player::queue::{next_mode, next_position, prev_position, item_at, Queue, RepeatMode};
use crate::text::{contains_seq, contains_str, decimal, lowercase, push_all, push_decimal, to_lowercase};

verus! {

/// The top-level tabs.
#[derive(Debug, Clone, Copy, PartialEq, Eq, Structural)]
pub enum Tab {
    Library,
    Search,
    Queue,
    Recent,
    Playlists,
}

/// Which panel receives the navigation keys.
#[derive(Debug, Clone, Copy, PartialEq, Eq, Structural)]
pub enum Focus {
    Artists,
    Albums,
    Tracks,
    QueuePanel,
    Playlists,
    PlaylistTracks,
}

/// A key as the application reads it.
#[derive(Debug, Clone, Copy, PartialEq, Eq, Structural)]
pub enum KeyCode {
    Char(char),
    Enter,
    Esc,
    Backspace,
    Tab,
    BackTab,
    /// Any other key.
    Other,
}

/// A key press: the key and whether Control was held.
#[derive(Debug, Clone, Copy, PartialEq, Eq, Structural)]
pub struct Key {
    pub code: KeyCode,
    pub ctrl: bool,
}

/// A question for the server. The reply goes back to [`App::complete`] together with the
/// request.
#[derive(Debug)]
pub enum Request {
    /// All artists.
    Artists,
    /// The albums of the artist picked in the artist list.
    ArtistAlbums { artist_id: String },
    /// The albums of an artist picked among the search results.
    SearchArtistAlbums { artist_id: String, artist_name: String },
    /// Every track of an artist ("All Tracks").
    ArtistTracks { artist_id: String },
    /// The tracks of the album picked in the album list.
    AlbumTracks { album_id: String },
    /// The tracks of an album picked among the search results.
    SearchAlbumTracks { album_id: String, artist_name: String, album_name: String },
    /// A search.
    Search { query: String },
    /// The most recently added tracks, at most `limit` of them.
    Recent { limit: u32 },
    /// The playlists; `for_popup` when the add-to-playlist popup waits for them.
    Playlists { for_popup: bool },
    /// The tracks of a playlist.
    PlaylistTracks { playlist_id: String },
    /// Create a playlist.
    CreatePlaylist { name: String },
    /// Delete the playlist shown at `index` in the playlist list.
    DeletePlaylist { index: usize, playlist_id: String, playlist_name: String },
    /// Remove an entry from a playlist; the track is shown at `index`.
    RemoveFromPlaylist { playlist_id: String, entry_id: String, index: usize, track_name: String },
    /// Add tracks to a playlist; `first_name` is the name of the first of them.
    AddToPlaylist { playlist_id: String, playlist_name: String, ids: Vec<String>, first_name: String },
    /// Check that the server still answers and accepts the credentials.
    Ping,
    /// Mark a track as a favorite (`starred`), or take the mark away.
    SetStarred { item_id: String, starred: bool },
    /// Rate a track from 1 to 5, or clear its rating with 0.
    SetRating { item_id: String, rating: u8 },
}

/// Outside work the application asks for.
#[derive(Debug)]
pub enum Action {
    /// Send this command to the player.
    Player(PlayerCommand),
    /// Play this item: send its stream to the player and publish it to the media controls as
    /// playing.
    Play(Item),
    /// Ask the server, then hand the request and its reply to [`App::complete`].
    Fetch(Request),
    /// Report the playback state to the media controls.
    ReportPlayback { playing: bool, paused: bool },
}

/// The application state.
pub struct App {
    pub running: bool,
    pub active_tab: Tab,
    pub focus: Focus,
    pub artists: Vec<Item>,
    pub tracks: Vec<Item>,
    pub search_results: Vec<Item>,
    /// The selected row of each list.
    pub artist_state: Option<usize>,
    pub track_state: Option<usize>,
    pub queue_state: Option<usize>,
    pub search_state: Option<usize>,
    pub albums: Vec<Item>,
    /// Row 0 of the album list is "All Tracks"; row `i + 1` is `albums[i]`.
    pub album_state: Option<usize>,
    pub selected_album_name: Option<String>,
    pub selected_artist_name: Option<String>,
    pub filter_active: bool,
    pub filter_text: String,
    /// The positions in `artists` that the filter lets through.
    pub filtered_artist_indices: Vec<usize>,
    pub search_query: String,
    pub search_focused: bool,
    pub recent_tracks: Vec<Item>,
    pub recent_state: Option<usize>,
    pub recent_loaded: bool,
    pub playlists: Vec<Item>,
    pub playlist_state: Option<usize>,
    pub playlists_loaded: bool,
    pub playlist_tracks: Vec<Item>,
    pub playlist_track_state: Option<usize>,
    pub selected_playlist_id: Option<String>,
    pub selected_playlist_name: Option<String>,
    pub playlist_create_mode: bool,
    pub playlist_create_name: String,
    pub visual_mode: bool,
    pub visual_anchor: Option<usize>,
    pub add_to_playlist_popup: bool,
    pub add_to_playlist_items: Vec<Item>,
    pub add_to_playlist_state: Option<usize>,
    pub queue: Queue,
    pub player_state: PlayerState,
    pub status_message: Option<String>,
    pub show_help: bool,
    /// Ticks of the event loop since the server was last checked.
    pub ticks_since_ping: u32,
}

// ---------------------------------------------------------------------------------------------
// Moving a selection within a list
// ---------------------------------------------------------------------------------------------

/// The selected row, or row 0 when nothing is selected.
pub open spec fn row(sel: Option<usize>) -> int {
    match sel {
        Some(i) => i as int,
        None => 0,
    }
}

/// `j`: one row down, stopping at the last row; nothing changes in an empty list.
pub open spec fn sel_down(sel: Option<usize>, len: nat) -> Option<usize> {
    if len == 0 {
        sel
    } else if row(sel) + 1 < len {
        Some((row(sel) + 1) as usize)
    } else {
        Some((len - 1) as usize)
    }
}

/// `k`: one row up, stopping at the first row.
pub open spec fn sel_up(sel: Option<usize>) -> Option<usize> {
    Some((if row(sel) > 0 { row(sel) - 1 } else { 0 }) as usize)
}

/// `g`: the first row; nothing changes in an empty list.
pub open spec fn sel_first(sel: Option<usize>, len: nat) -> Option<usize> {
    if len == 0 { sel } else { Some(0usize) }
}

/// `G`: the last row; nothing changes in an empty list.
pub open spec fn sel_last(sel: Option<usize>, len: nat) -> Option<usize> {
    if len == 0 { sel } else { Some((len - 1) as usize) }
}

/// The first row of a freshly loaded list, or no selection when it is empty.
pub open spec fn first_row(len: nat) -> Option<usize> {
    if len == 0 { None } else { Some(0usize) }
}

/// Moves by `delta` rows, clamped to the list; nothing changes in an empty list.
pub open spec fn sel_moved(sel: Option<usize>, len: nat, delta: int) -> Option<usize> {
    if len == 0 {
        sel
    } else {
        let t = row(sel) + delta;
        Some((if t < 0 { 0 } else if t > len - 1 { len - 1 } else { t }) as usize)
    }
}

/// Half a page for a list of `len` rows: half the rows, at least one.
pub open spec fn half_page(len: nat) -> nat {
    if len / 2 >= 1 { len / 2 } else { 1 }
}

fn row_of(sel: Option<usize>) -> (r: usize)
    ensures
        r == row(sel),
{
    match sel {
        Some(i) => i,
        None => 0,
    }
}

/// `j` on a list of `len` rows.
pub fn step_down(sel: Option<usize>, len: usize) -> (r: Option<usize>)
    ensures
        r == sel_down(sel, len as nat),
{
    if len == 0 {
        return sel;
    }
    let i = row_of(sel);
    if i < len - 1 { Some(i + 1) } else { Some(len - 1) }
}

/// `k`.
pub fn step_up(sel: Option<usize>) -> (r: Option<usize>)
    ensures
        r == sel_up(sel),
{
    let i = row_of(sel);
    Some(if i > 0 { i - 1 } else { 0 })
}

/// `g` on a list of `len` rows.
pub fn jump_first(sel: Option<usize>, len: usize) -> (r: Option<usize>)
    ensures
        r == sel_first(sel, len as nat),
{
    if len == 0 { sel } else { Some(0) }
}

/// `G` on a list of `len` rows.
pub fn jump_last(sel: Option<usize>, len: usize) -> (r: Option<usize>)
    ensures
        r == sel_last(sel, len as nat),
{
    if len == 0 { sel } else { Some(len - 1) }
}

/// The selection of a freshly loaded list of `len` rows.
pub fn first_of(len: usize) -> (r: Option<usize>)
    ensures
        r == first_row(len as nat),
{
    if len == 0 { None } else { Some(0) }
}

/// Moves by `step` rows, down or up, clamped to a list of `len` rows.
pub fn move_by(sel: Option<usize>, len: usize, down: bool, step: usize) -> (r: Option<usize>)
    ensures
        r == sel_moved(sel, len as nat, if down { step as int } else { -(step as int) }),
{
    if len == 0 {
        return sel;
    }
    move_within(sel, len - 1, down, step)
}

/// Moves by `step` rows, down or up, clamped to the rows `0..=last`.
pub fn move_within(sel: Option<usize>, last: usize, down: bool, step: usize) -> (r: Option<usize>)
    ensures
        r == sel_moved(sel, (last + 1) as nat, if down { step as int } else { -(step as int) }),
{
    let i = row_of(sel);
    if down {
        if i <= last && step <= last - i { Some(i + step) } else { Some(last) }
    } else {
        let t = if step <= i { i - step } else { 0 };
        if t <= last { Some(t) } else { Some(last) }
    }
}

/// Half a page for a list of `len` rows.
pub fn half_of(len: usize) -> (r: usize)
    ensures
        r == half_page(len as nat),
{
    if len / 2 >= 1 { len / 2 } else { 1 }
}

/// Half a page for a list of `n + 1` rows.
pub fn half_of_succ(n: usize) -> (r: usize)
    ensures
        r == half_page((n + 1) as nat),
{
    let h = n / 2 + n % 2;
    if h >= 1 { h } else { 1 }
}

// ---------------------------------------------------------------------------------------------
// The artist filter
// ---------------------------------------------------------------------------------------------

/// The positions `0..n`.
pub open spec fn all_positions(n: nat) -> Seq<usize> {
    Seq::new(n, |i: int| i as usize)
}

/// The positions of the artists whose lowercased name contains `query`, in order.
pub open spec fn matching_positions(artists: Seq<Item>, query: Seq<char>) -> Seq<usize>
    decreases artists.len(),
{
    if artists.len() == 0 {
        Seq::empty()
    } else {
        let before = matching_positions(artists.drop_last(), query);
        if contains_seq(lowercase(artists.last().name@), query) {
            before.push((artists.len() - 1) as usize)
        } else {
            before
        }
    }
}

/// The positions the filter lets through: every artist for an empty filter, else those whose
/// lowercased name contains the lowercased filter text.
pub open spec fn filter_positions(artists: Seq<Item>, text: Seq<char>) -> Seq<usize> {
    if text.len() == 0 {
        all_positions(artists.len())
    } else {
        matching_positions(artists, lowercase(text))
    }
}

/// The artist selection after the filter changed: kept while it is within the filtered list,
/// else the first row; no selection when nothing passes.
pub open spec fn filter_selection(sel: Option<usize>, n: nat) -> Option<usize> {
    if n > 0 {
        if row(sel) >= n { Some(0usize) } else { sel }
    } else {
        None
    }
}

/// The items at the given positions, skipping positions past the end.
pub open spec fn present_items(positions: Seq<usize>, items: Seq<Item>) -> Seq<Item>
    decreases positions.len(),
{
    if positions.len() == 0 {
        Seq::empty()
    } else {
        let before = present_items(positions.drop_last(), items);
        let p = positions.last();
        if p < items.len() { before.push(items[p as int]) } else { before }
    }
}

/// The artists the artist list shows: all of them without filter text, else those at the
/// filtered positions.
pub open spec fn visible_artists(a: App) -> Seq<Item> {
    if a.filter_text@.len() == 0 {
        a.artists@
    } else {
        present_items(a.filtered_artist_indices@, a.artists@)
    }
}

/// The artist at the selected row of the artist list, if there is one.
pub open spec fn selected_artist(a: App) -> Option<Item> {
    match a.artist_state {
        Some(i) => if i < visible_artists(a).len() { Some(visible_artists(a)[i as int]) } else { None },
        None => None,
    }
}

/// The first item of `s` with the given id.
pub open spec fn first_with_id(s: Seq<Item>, id: Seq<char>) -> Option<Item>
    decreases s.len(),
{
    if s.len() == 0 {
        None
    } else if s[0].id@ == id {
        Some(s[0])
    } else {
        first_with_id(s.drop_first(), id)
    }
}

impl App {
    /// The application is consistent: its queue is.
    pub open spec fn wf(&self) -> bool {
        self.queue.wf()
    }

    /// The state at start-up: running, on the library tab with the artist list focused and
    /// its first row selected; every list empty and nothing else selected; no filter, search,
    /// popup or mode active; an empty queue; the default player state; no status.
    pub fn new() -> (a: Self)
        ensures
            a.wf(),
            a.running,
            a.active_tab == Tab::Library,
            a.focus == Focus::Artists,
            a.artists@.len() == 0,
            a.tracks@.len() == 0,
            a.search_results@.len() == 0,
            a.artist_state == Some(0usize),
            a.track_state is None,
            a.queue_state is None,
            a.search_state is None,
            a.albums@.len() == 0,
            a.album_state is None,
            a.selected_album_name is None,
            a.selected_artist_name is None,
            !a.filter_active,
            a.filter_text@.len() == 0,
            a.filtered_artist_indices@.len() == 0,
            a.search_query@.len() == 0,
            !a.search_focused,
            a.recent_tracks@.len() == 0,
            a.recent_state is None,
            !a.recent_loaded,
            a.playlists@.len() == 0,
            a.playlist_state is None,
            !a.playlists_loaded,
            a.playlist_tracks@.len() == 0,
            a.playlist_track_state is None,
            a.selected_playlist_id is None,
            a.selected_playlist_name is None,
            !a.playlist_create_mode,
            a.playlist_create_name@.len() == 0,
            !a.visual_mode,
            a.visual_anchor is None,
            !a.add_to_playlist_popup,
            a.add_to_playlist_items@.len() == 0,
            a.add_to_playlist_state is None,
            a.queue.items@.len() == 0,
            a.queue.current is None,
            a.queue.repeat == RepeatMode::Off,
            !a.queue.shuffle,
            a.player_state == (PlayerState { playing: false, paused: false, volume: 80, finished: false }),
            a.status_message is None,
            !a.show_help,
            a.ticks_since_ping == 0,
    {
        App {
            running: true,
            active_tab: Tab::Library,
            focus: Focus::Artists,
            artists: Vec::new(),
            tracks: Vec::new(),
            search_results: Vec::new(),
            artist_state: Some(0),
            track_state: None,
            queue_state: None,
            search_state: None,
            albums: Vec::new(),
            album_state: None,
            selected_album_name: None,
            selected_artist_name: None,
            filter_active: false,
            filter_text: String::new(),
            filtered_artist_indices: Vec::new(),
            search_query: String::new(),
            search_focused: false,
            recent_tracks: Vec::new(),
            recent_state: None,
            recent_loaded: false,
            playlists: Vec::new(),
            playlist_state: None,
            playlists_loaded: false,
            playlist_tracks: Vec::new(),
            playlist_track_state: None,
            selected_playlist_id: None,
            selected_playlist_name: None,
            playlist_create_mode: false,
            playlist_create_name: String::new(),
            visual_mode: false,
            visual_anchor: None,
            add_to_playlist_popup: false,
            add_to_playlist_items: Vec::new(),
            add_to_playlist_state: None,
            queue: Queue::new(),
            player_state: PlayerState { playing: false, paused: false, volume: 80, finished: false },
            status_message: None,
            show_help: false,
            ticks_since_ping: 0,
        }
    }

    /// The artists the artist list shows (see [`visible_artists`]).
    pub fn filtered_artists(&self) -> (r: Vec<&Item>)
        ensures
            r@.len() == visible_artists(*self).len(),
            forall|i: int| 0 <= i < r@.len() ==> *r@[i] == visible_artists(*self)[i],
    {
        let mut r: Vec<&Item> = Vec::new();
        if self.filter_text.as_str().is_empty() {
            let mut i: usize = 0;
            while i < self.artists.len()
                invariant
                    i <= self.artists@.len(),
                    self.filter_text@.len() == 0,
                    r@.len() == i,
                    forall|k: int| 0 <= k < i ==> *r@[k] == self.artists@[k],
                decreases self.artists@.len() - i,
            {
                r.push(&self.artists[i]);
                i = i + 1;
            }
        } else {
            let mut k: usize = 0;
            while k < self.filtered_artist_indices.len()
                invariant
                    k <= self.filtered_artist_indices@.len(),
                    self.filter_text@.len() != 0,
                    r@.len() == present_items(self.filtered_artist_indices@.take(k as int), self.artists@).len(),
                    forall|j: int| 0 <= j < r@.len() ==>
                        *r@[j] == present_items(self.filtered_artist_indices@.take(k as int), self.artists@)[j],
                decreases self.filtered_artist_indices@.len() - k,
            {
                let p = self.filtered_artist_indices[k];
                assert(self.filtered_artist_indices@.take(k + 1).drop_last()
                    =~= self.filtered_artist_indices@.take(k as int));
                if p < self.artists.len() {
                    r.push(&self.artists[p]);
                }
                k = k + 1;
            }
            assert(self.filtered_artist_indices@.take(k as int) =~= self.filtered_artist_indices@);
        }
        r
    }

    /// Recomputes the filtered positions from the filter text and keeps the artist selection
    /// within them (see [`filter_positions`], [`filter_selection`]).
    pub fn rebuild_filter(&mut self)
        ensures
            final(self).filtered_artist_indices@ == filter_positions(old(self).artists@, old(self).filter_text@),
            final(self).artist_state == filter_selection(
                old(self).artist_state,
                filter_positions(old(self).artists@, old(self).filter_text@).len(),
            ),
            *final(self) == (App {
                filtered_artist_indices: final(self).filtered_artist_indices,
                artist_state: final(self).artist_state,
                ..*old(self)
            }),
    {
        let mut positions: Vec<usize> = Vec::new();
        if self.filter_text.as_str().is_empty() {
            let mut i: usize = 0;
            while i < self.artists.len()
                invariant
                    i <= self.artists@.len(),
                    *self == *old(self),
                    self.filter_text@.len() == 0,
                    positions@ == all_positions(i as nat),
                decreases self.artists@.len() - i,
            {
                positions.push(i);
                i = i + 1;
                assert(positions@ =~= all_positions(i as nat));
            }
        } else {
            let query = to_lowercase(self.filter_text.as_str());
            let mut i: usize = 0;
            while i < self.artists.len()
                invariant
                    i <= self.artists@.len(),
                    *self == *old(self),
                    self.filter_text@.len() != 0,
                    query@ == lowercase(self.filter_text@),
                    positions@ == matching_positions(self.artists@.take(i as int), query@),
                decreases self.artists@.len() - i,
            {
                let name = to_lowercase(self.artists[i].name.as_str());
                let hit = contains_str(name.as_str(), query.as_str());
                assert(self.artists@.take(i + 1).drop_last() =~= self.artists@.take(i as int));
                if hit {
                    positions.push(i);
                }
                i = i + 1;
            }
            assert(self.artists@.take(i as int) =~= self.artists@);
        }
        let n = positions.len();
        self.filtered_artist_indices = positions;
        if n > 0 {
            if row_of(self.artist_state) >= n {
                self.artist_state = Some(0);
            }
        } else {
            self.artist_state = None;
        }
    }

    /// The id of the artist at the selected row of the artist list, if there is one.
    pub fn selected_artist_id(&self) -> (r: Option<String>)
        ensures
            r is Some == selected_artist(*self) is Some,
            r is Some ==> r->0@ == selected_artist(*self)->0.id@,
    {
        let idx = match self.artist_state {
            Some(i) => i,
            None => return None,
        };
        let artists = self.filtered_artists();
        if idx < artists.len() {
            Some(artists[idx].id.clone())
        } else {
            None
        }
    }
}

// ---------------------------------------------------------------------------------------------
// Keys while an overlay or an input line is active
// ---------------------------------------------------------------------------------------------

/// The text after Backspace: the last character removed, if there is one.
pub open spec fn backspaced(t: Seq<char>) -> Seq<char> {
    if t.len() > 0 { t.drop_last() } else { t }
}

/// While the help overlay is shown: `?`, Esc and `q` close it; every other key is ignored.
pub open spec fn help_post(o: App, k: Key, n: App, r: Option<Action>) -> bool {
    let closes = k.code == KeyCode::Char('?') || k.code == KeyCode::Esc || k.code == KeyCode::Char('q');
    &&& r is None
    &&& n == (App { show_help: !closes, ..o })
}

/// `n` is `o` with the filter text replaced by `text` and the filter rebuilt for it (see
/// [`App::rebuild_filter`]), the filter line `active` or not.
pub open spec fn refiltered(o: App, text: Seq<char>, active: bool, n: App) -> bool {
    &&& n.filter_text@ == text
    &&& n.filtered_artist_indices@ == filter_positions(o.artists@, text)
    &&& n.artist_state == filter_selection(o.artist_state, filter_positions(o.artists@, text).len())
    &&& n == (App {
        filter_active: active,
        filter_text: n.filter_text,
        filtered_artist_indices: n.filtered_artist_indices,
        artist_state: n.artist_state,
        ..o
    })
}

/// While the filter line is active: Esc empties it and closes it, Enter closes it and keeps
/// the text, Backspace and characters edit it; every edit rebuilds the filter.
pub open spec fn filter_post(o: App, k: Key, n: App, r: Option<Action>) -> bool {
    &&& r is None
    &&& match k.code {
        KeyCode::Esc => refiltered(o, Seq::empty(), false, n),
        KeyCode::Enter => n == (App { filter_active: false, ..o }),
        KeyCode::Backspace => refiltered(o, backspaced(o.filter_text@), true, n),
        KeyCode::Char(c) => refiltered(o, o.filter_text@.push(c), true, n),
        _ => n == o,
    }
}

/// `n` is `o` with the search query replaced by `q`.
pub open spec fn query_edited(o: App, q: Seq<char>, n: App) -> bool {
    &&& n.search_query@ == q
    &&& n == (App { search_query: n.search_query, ..o })
}

/// While the search line has focus: Esc leaves it; Enter leaves it and searches for a
/// non-empty query; Backspace and characters edit the query.
pub open spec fn search_input_post(o: App, k: Key, n: App, r: Option<Action>) -> bool {
    match k.code {
        KeyCode::Esc => r is None && n == (App { search_focused: false, ..o }),
        KeyCode::Enter => {
            &&& n == (App { search_focused: false, ..o })
            &&& r == (if o.search_query@.len() > 0 {
                Some(Action::Fetch(Request::Search { query: o.search_query }))
            } else {
                None
            })
        },
        KeyCode::Backspace => r is None && query_edited(o, backspaced(o.search_query@), n),
        KeyCode::Char(c) => r is None && query_edited(o, o.search_query@.push(c), n),
        _ => r is None && n == o,
    }
}

/// `n` is `o` with the playlist-name line closed and emptied.
pub open spec fn create_closed(o: App, n: App) -> bool {
    &&& n.playlist_create_name@.len() == 0
    &&& n == (App { playlist_create_mode: false, playlist_create_name: n.playlist_create_name, ..o })
}

/// `n` is `o` with the new playlist's name replaced by `t`.
pub open spec fn create_edited(o: App, t: Seq<char>, n: App) -> bool {
    &&& n.playlist_create_name@ == t
    &&& n == (App { playlist_create_name: n.playlist_create_name, ..o })
}

/// While a new playlist's name is typed: Esc cancels; Enter creates the playlist when the
/// name is not empty, and closes the line either way; Backspace and characters edit the name.
pub open spec fn create_post(o: App, k: Key, n: App, r: Option<Action>) -> bool {
    match k.code {
        KeyCode::Esc => r is None && create_closed(o, n),
        KeyCode::Enter => {
            &&& create_closed(o, n)
            &&& r == (if o.playlist_create_name@.len() > 0 {
                Some(Action::Fetch(Request::CreatePlaylist { name: o.playlist_create_name }))
            } else {
                None
            })
        },
        KeyCode::Backspace => r is None && create_edited(o, backspaced(o.playlist_create_name@), n),
        KeyCode::Char(c) => r is None && create_edited(o, o.playlist_create_name@.push(c), n),
        _ => r is None && n == o,
    }
}

/// The ids of the items, in order.
pub open spec fn item_ids(s: Seq<Item>) -> Seq<Seq<char>> {
    s.map_values(|i: Item| i.id@)
}

/// The request that Enter in the add-to-playlist popup makes: adding the pending items to the
/// selected playlist, when a playlist is selected and something is pending.
pub open spec fn add_request_made(o: App, r: Option<Action>) -> bool {
    match o.add_to_playlist_state {
        Some(idx) => if idx < o.playlists@.len() && o.add_to_playlist_items@.len() > 0 {
            &&& r matches Some(Action::Fetch(Request::AddToPlaylist { playlist_id, playlist_name, ids, first_name }))
            &&& playlist_id == o.playlists@[idx as int].id
            &&& playlist_name == o.playlists@[idx as int].name
            &&& ids@.map_values(|s: String| s@) == item_ids(o.add_to_playlist_items@)
            &&& first_name == o.add_to_playlist_items@[0].name
        } else {
            r is None
        },
        None => r is None,
    }
}

/// `n` is `o` with the add-to-playlist popup closed and its pending items dropped.
pub open spec fn popup_closed(o: App, n: App) -> bool {
    &&& n.add_to_playlist_items@.len() == 0
    &&& n == (App { add_to_playlist_popup: false, add_to_playlist_items: n.add_to_playlist_items, ..o })
}

/// While the add-to-playlist popup is open: Esc closes it; `j` and `k` move in the playlist
/// list; Enter adds the pending items to the selected playlist (see [`add_request_made`]) and
/// closes the popup; every other key is ignored.
pub open spec fn popup_post(o: App, k: Key, n: App, r: Option<Action>) -> bool {
    match k.code {
        KeyCode::Esc => r is None && popup_closed(o, n),
        KeyCode::Char('j') => r is None && n == (App {
            add_to_playlist_state: sel_down(o.add_to_playlist_state, o.playlists@.len()),
            ..o
        }),
        KeyCode::Char('k') => r is None && n == (App { add_to_playlist_state: sel_up(o.add_to_playlist_state), ..o }),
        KeyCode::Enter => popup_closed(o, n) && add_request_made(o, r),
        _ => r is None && n == o,
    }
}

impl App {
    fn help_key(&mut self, key: Key) -> (r: Option<Action>)
        requires
            old(self).show_help,
        ensures
            help_post(*old(self), key, *final(self), r),
    {
        match key.code {
            KeyCode::Char('?') | KeyCode::Esc | KeyCode::Char('q') => {
                self.show_help = false;
            },
            _ => {},
        }
        None
    }

    fn filter_key(&mut self, key: Key) -> (r: Option<Action>)
        requires
            old(self).filter_active,
        ensures
            filter_post(*old(self), key, *final(self), r),
    {
        match key.code {
            KeyCode::Esc => {
                self.filter_active = false;
                self.filter_text = String::new();
                self.rebuild_filter();
            },
            KeyCode::Enter => {
                self.filter_active = false;
            },
            KeyCode::Backspace => {
                self.filter_text.pop();
                self.rebuild_filter();
            },
            KeyCode::Char(c) => {
                self.filter_text.push(c);
                self.rebuild_filter();
            },
            _ => {},
        }
        None
    }

    fn search_input_key(&mut self, key: Key) -> (r: Option<Action>)
        ensures
            search_input_post(*old(self), key, *final(self), r),
    {
        match key.code {
            KeyCode::Esc => {
                self.search_focused = false;
                None
            },
            KeyCode::Enter => {
                self.search_focused = false;
                if self.search_query.as_str().is_empty() {
                    None
                } else {
                    Some(Action::Fetch(Request::Search { query: self.search_query.clone() }))
                }
            },
            KeyCode::Backspace => {
                self.search_query.pop();
                None
            },
            KeyCode::Char(c) => {
                self.search_query.push(c);
                None
            },
            _ => None,
        }
    }

    fn create_key(&mut self, key: Key) -> (r: Option<Action>)
        ensures
            create_post(*old(self), key, *final(self), r),
    {
        match key.code {
            KeyCode::Esc => {
                self.playlist_create_mode = false;
                self.playlist_create_name = String::new();
                None
            },
            KeyCode::Enter => {
                let r = if self.playlist_create_name.as_str().is_empty() {
                    None
                } else {
                    Some(Action::Fetch(Request::CreatePlaylist { name: self.playlist_create_name.clone() }))
                };
                self.playlist_create_mode = false;
                self.playlist_create_name = String::new();
                r
            },
            KeyCode::Backspace => {
                self.playlist_create_name.pop();
                None
            },
            KeyCode::Char(c) => {
                self.playlist_create_name.push(c);
                None
            },
            _ => None,
        }
    }

    fn popup_key(&mut self, key: Key) -> (r: Option<Action>)
        ensures
            popup_post(*old(self), key, *final(self), r),
    {
        match key.code {
            KeyCode::Esc => {
                self.add_to_playlist_popup = false;
                self.add_to_playlist_items = Vec::new();
                None
            },
            KeyCode::Char('j') => {
                self.add_to_playlist_state = step_down(self.add_to_playlist_state, self.playlists.len());
                None
            },
            KeyCode::Char('k') => {
                self.add_to_playlist_state = step_up(self.add_to_playlist_state);
                None
            },
            KeyCode::Enter => {
                let mut r: Option<Action> = None;
                if let Some(idx) = self.add_to_playlist_state {
                    if idx < self.playlists.len() && self.add_to_playlist_items.len() > 0 {
                        let mut ids: Vec<String> = Vec::new();
                        let mut i: usize = 0;
                        while i < self.add_to_playlist_items.len()
                            invariant
                                i <= self.add_to_playlist_items@.len(),
                                ids@.len() == i,
                                forall|j: int| 0 <= j < i ==> #[trigger] ids@[j]@ == self.add_to_playlist_items@[j].id@,
                            decreases self.add_to_playlist_items@.len() - i,
                        {
                            ids.push(self.add_to_playlist_items[i].id.clone());
                            i = i + 1;
                        }
                        assert(ids@.map_values(|s: String| s@) =~= item_ids(self.add_to_playlist_items@));
                        r = Some(Action::Fetch(Request::AddToPlaylist {
                            playlist_id: self.playlists[idx].id.clone(),
                            playlist_name: self.playlists[idx].name.clone(),
                            ids,
                            first_name: self.add_to_playlist_items[0].name.clone(),
                        }));
                    }
                }
                self.add_to_playlist_popup = false;
                self.add_to_playlist_items = Vec::new();
                r
            },
            _ => None,
        }
    }
}

// ---------------------------------------------------------------------------------------------
// Cursor, visual selection and the item under the cursor
// ---------------------------------------------------------------------------------------------

/// The item is a track.
pub open spec fn is_audio(i: Item) -> bool {
    i.item_type is Some && i.item_type->0@ == "Audio"@
}

/// The item at the selected row, if the row is within the list.
pub open spec fn at_row(s: Seq<Item>, sel: Option<usize>) -> Option<Item> {
    match sel {
        Some(i) => if i < s.len() { Some(s[i as int]) } else { None },
        None => None,
    }
}

/// The tracks of `s`, in order.
pub open spec fn audio_only(s: Seq<Item>) -> Seq<Item>
    decreases s.len(),
{
    if s.len() == 0 {
        Seq::empty()
    } else if is_audio(s.last()) {
        audio_only(s.drop_last()).push(s.last())
    } else {
        audio_only(s.drop_last())
    }
}

/// The cursor of the list that visual selection works on: the track list of the library,
/// the search results, the queue, the recent tracks, or a playlist's tracks.
pub open spec fn current_cursor(a: App) -> Option<usize> {
    match a.active_tab {
        Tab::Library => if a.focus == Focus::Tracks { a.track_state } else { None },
        Tab::Search => a.search_state,
        Tab::Queue => a.queue_state,
        Tab::Recent => a.recent_state,
        Tab::Playlists => if a.focus == Focus::PlaylistTracks { a.playlist_track_state } else { None },
    }
}

/// The inclusive range between the visual anchor and the cursor, in visual mode.
pub open spec fn visual_range(a: App) -> Option<(usize, usize)> {
    if !a.visual_mode {
        None
    } else {
        match (a.visual_anchor, current_cursor(a)) {
            (Some(x), Some(y)) => Some((if x <= y { x } else { y }, if x <= y { y } else { x })),
            _ => None,
        }
    }
}

/// The list that the cursor of [`current_cursor`] moves in, if any.
pub open spec fn cursor_list(a: App) -> Option<Seq<Item>> {
    match a.active_tab {
        Tab::Library => if a.focus == Focus::Tracks { Some(a.tracks@) } else { None },
        Tab::Search => Some(a.search_results@),
        Tab::Queue => Some(a.queue.items@),
        Tab::Recent => Some(a.recent_tracks@),
        Tab::Playlists => if a.focus == Focus::PlaylistTracks { Some(a.playlist_tracks@) } else { None },
    }
}

/// The items in the visual range (only the tracks among search results); nothing when the
/// range reaches past the end of the list.
pub open spec fn visual_items(a: App) -> Seq<Item> {
    match (visual_range(a), cursor_list(a)) {
        (Some((lo, hi)), Some(list)) => if hi < list.len() {
            let picked = list.subrange(lo as int, hi + 1);
            if a.active_tab == Tab::Search { audio_only(picked) } else { picked }
        } else {
            Seq::empty()
        },
        _ => Seq::empty(),
    }
}

/// The track under the cursor: in the track lists of the library, the queue, the recent
/// tracks and a playlist, and among the search results when the result is a track.
pub open spec fn selected_audio_item(a: App) -> Option<Item> {
    match a.active_tab {
        Tab::Library => if a.focus == Focus::Tracks { at_row(a.tracks@, a.track_state) } else { None },
        Tab::Search => match at_row(a.search_results@, a.search_state) {
            Some(it) => if is_audio(it) { Some(it) } else { None },
            None => None,
        },
        Tab::Queue => at_row(a.queue.items@, a.queue_state),
        Tab::Recent => at_row(a.recent_tracks@, a.recent_state),
        Tab::Playlists => if a.focus == Focus::PlaylistTracks {
            at_row(a.playlist_tracks@, a.playlist_track_state)
        } else {
            None
        },
    }
}

/// The item is a track.
pub fn is_audio_item(item: &Item) -> (b: bool)
    ensures
        b == is_audio(*item),
{
    match &item.item_type {
        Some(t) => {
            let r = str_eq(t.as_str(), "Audio");
            proof {
                reveal_strlit("Audio");
            }
            r
        },
        None => false,
    }
}

/// A copy of the item at the selected row, if the row is within the list.
fn copy_at(s: &Vec<Item>, sel: Option<usize>) -> (r: Option<Item>)
    ensures
        r is Some == at_row(s@, sel) is Some,
        r is Some ==> r->0@ == at_row(s@, sel)->0@,
{
    match sel {
        Some(i) => if i < s.len() { Some(s[i].clone()) } else { None },
        None => None,
    }
}

impl App {
    /// The cursor of the list that visual selection works on (see [`current_cursor`]).
    pub fn current_cursor_index(&self) -> (r: Option<usize>)
        ensures
            r == current_cursor(*self),
    {
        match self.active_tab {
            Tab::Library => if self.focus == Focus::Tracks { self.track_state } else { None },
            Tab::Search => self.search_state,
            Tab::Queue => self.queue_state,
            Tab::Recent => self.recent_state,
            Tab::Playlists => if self.focus == Focus::PlaylistTracks { self.playlist_track_state } else { None },
        }
    }

    /// The inclusive range `(start, end)` of the visual selection; `None` outside visual mode
    /// or without an anchor or a cursor.
    pub fn visual_selection_range(&self) -> (r: Option<(usize, usize)>)
        ensures
            r == visual_range(*self),
    {
        if !self.visual_mode {
            return None;
        }
        match (self.visual_anchor, self.current_cursor_index()) {
            (Some(x), Some(y)) => Some((if x <= y { x } else { y }, if x <= y { y } else { x })),
            _ => None,
        }
    }

    /// Copies of the items in the visual selection (see [`visual_items`]).
    pub fn get_visual_selection_items(&self) -> (r: Vec<Item>)
        ensures
            items_view(r@) == items_view(visual_items(*self)),
    {
        let (lo, hi) = match self.visual_selection_range() {
            Some(range) => range,
            None => return Vec::new(),
        };
        let list: &Vec<Item> = match self.active_tab {
            Tab::Library => if self.focus == Focus::Tracks { &self.tracks } else { return Vec::new() },
            Tab::Search => &self.search_results,
            Tab::Queue => &self.queue.items,
            Tab::Recent => &self.recent_tracks,
            Tab::Playlists => if self.focus == Focus::PlaylistTracks {
                &self.playlist_tracks
            } else {
                return Vec::new()
            },
        };
        assert(cursor_list(*self) == Some(list@));
        if hi >= list.len() {
            return Vec::new();
        }
        let only_audio = self.active_tab == Tab::Search;
        let ghost picked = list@.subrange(lo as int, hi + 1);
        let mut r: Vec<Item> = Vec::new();
        let mut i: usize = lo;
        while i <= hi
            invariant
                lo <= hi < list@.len(),
                list@.len() <= usize::MAX,
                lo <= i <= hi + 1,
                picked == list@.subrange(lo as int, hi + 1),
                items_view(r@) == items_view(if only_audio {
                    audio_only(picked.take(i - lo))
                } else {
                    picked.take(i - lo)
                }),
            decreases hi + 1 - i,
        {
            assert(picked.take(i + 1 - lo).drop_last() =~= picked.take(i - lo));
            assert(picked.take(i + 1 - lo).last() == list@[i as int]);
            let keep = !only_audio || is_audio_item(&list[i]);
            let ghost before = r@;
            if keep {
                r.push(list[i].clone());
                assert(items_view(r@) =~= items_view(before).push(list@[i as int]@));
            }
            i = i + 1;
            proof {
                if only_audio {
                    assert(items_view(r@) =~= items_view(audio_only(picked.take(i - lo))));
                } else {
                    assert(items_view(r@) =~= items_view(picked.take(i - lo)));
                }
            }
        }
        assert(picked.take(i - lo) =~= picked);
        r
    }

    /// A copy of the track under the cursor (see [`selected_audio_item`]).
    pub fn get_selected_audio_item(&self) -> (r: Option<Item>)
        ensures
            r is Some == selected_audio_item(*self) is Some,
            r is Some ==> r->0@ == selected_audio_item(*self)->0@,
    {
        match self.active_tab {
            Tab::Library => if self.focus == Focus::Tracks { copy_at(&self.tracks, self.track_state) } else { None },
            Tab::Search => {
                match copy_at(&self.search_results, self.search_state) {
                    Some(it) => if is_audio_item(&it) { Some(it) } else { None },
                    None => None,
                }
            },
            Tab::Queue => copy_at(&self.queue.items, self.queue_state),
            Tab::Recent => copy_at(&self.recent_tracks, self.recent_state),
            Tab::Playlists => if self.focus == Focus::PlaylistTracks {
                copy_at(&self.playlist_tracks, self.playlist_track_state)
            } else {
                None
            },
        }
    }
}

// ---------------------------------------------------------------------------------------------
// Global keys
// ---------------------------------------------------------------------------------------------

/// The keys that act the same on every tab.
pub open spec fn is_global_key(k: Key) -> bool {
    match k.code {
        KeyCode::Char(c) => c == 'q' || c == '?' || c == '1' || c == '2' || c == '3' || c == '4' || c == '5'
            || c == 'a' || c == 'v' || c == ' ' || c == 'n' || c == 'N' || c == '+' || c == '='
            || c == '-' || c == '>' || c == '<' || c == 'r' || c == 's',
        KeyCode::Tab => true,
        KeyCode::BackTab => true,
        _ => false,
    }
}

/// Five points louder, at most 100.
pub open spec fn volume_up(v: i64) -> i64 {
    if v < 95 { (v + 5) as i64 } else { 100 }
}

/// Five points quieter, at least 0.
pub open spec fn volume_down(v: i64) -> i64 {
    if v > 5 { (v - 5) as i64 } else { 0 }
}

/// The panel that Tab (`forward`) or Shift-Tab moves the focus to: the library cycles
/// through artists, albums, tracks and queue; the playlists tab through the playlist list and
/// its tracks; elsewhere the focus stays.
pub open spec fn cycled(tab: Tab, f: Focus, forward: bool) -> Focus {
    match tab {
        Tab::Library => match f {
            Focus::Artists => if forward { Focus::Albums } else { Focus::QueuePanel },
            Focus::Albums => if forward { Focus::Tracks } else { Focus::Artists },
            Focus::Tracks => if forward { Focus::QueuePanel } else { Focus::Albums },
            Focus::QueuePanel => if forward { Focus::Artists } else { Focus::Tracks },
            _ => f,
        },
        Tab::Playlists => match f {
            Focus::Playlists => Focus::PlaylistTracks,
            Focus::PlaylistTracks => Focus::Playlists,
            _ => f,
        },
        _ => f,
    }
}

/// A panel of the library tab.
pub open spec fn is_library_focus(f: Focus) -> bool {
    f == Focus::Artists || f == Focus::Albums || f == Focus::Tracks || f == Focus::QueuePanel
}

/// `r` asks to play an item equal to `it`.
pub open spec fn plays(r: Option<Action>, it: Item) -> bool {
    r matches Some(Action::Play(x)) && x@ == it@
}

/// The queue moved to position `c`: only its position changed; the queue list follows it
/// and the item there is played, or nothing else happens when there is no item there.
pub open spec fn moved_to(o: App, c: Option<usize>, n: App, r: Option<Action>) -> bool {
    &&& n.queue == (Queue { current: c, ..o.queue })
    &&& match item_at(o.queue.items@, c) {
        Some(it) => plays(r, *it) && n == (App { queue: n.queue, queue_state: c, ..o }),
        None => r is None && n == (App { queue: n.queue, ..o }),
    }
}

/// `n`: the next track (see [`next_position`]).
pub open spec fn next_post(o: App, n: App, r: Option<Action>) -> bool {
    moved_to(
        o,
        next_position(o.queue.items@.len(), o.queue.current, o.queue.repeat, o.queue.shuffle, o.queue.order()),
        n,
        r,
    )
}

/// `N`: the previous track (see [`prev_position`]).
pub open spec fn prev_post(o: App, n: App, r: Option<Action>) -> bool {
    moved_to(o, prev_position(o.queue.items@.len(), o.queue.current, o.queue.repeat), n, r)
}

/// What `a` picks for adding to a playlist: the visual selection in visual mode, else the
/// track under the cursor.
pub open spec fn picked_for_playlist(o: App) -> Seq<Item> {
    if o.visual_mode {
        visual_items(o)
    } else {
        match selected_audio_item(o) {
            Some(it) => seq![it],
            None => Seq::empty(),
        }
    }
}

/// `a`: with something picked (see [`picked_for_playlist`]), opens the add-to-playlist popup
/// for it and leaves visual mode; loads the playlists when they were never loaded, else
/// selects the first playlist when none is selected. With nothing picked nothing happens.
pub open spec fn add_key_post(o: App, n: App, r: Option<Action>) -> bool {
    let picked = picked_for_playlist(o);
    if picked.len() == 0 {
        r is None && n == o
    } else {
        &&& items_view(n.add_to_playlist_items@) == items_view(picked)
        &&& r == (if !o.playlists_loaded {
            Some(Action::Fetch(Request::Playlists { for_popup: true }))
        } else {
            None
        })
        &&& n == (App {
            add_to_playlist_items: n.add_to_playlist_items,
            add_to_playlist_popup: true,
            visual_mode: false,
            visual_anchor: None,
            add_to_playlist_state: if o.playlists_loaded && o.add_to_playlist_state is None
                && o.playlists@.len() > 0 {
                Some(0usize)
            } else {
                o.add_to_playlist_state
            },
            ..o
        })
    }
}

/// What the global keys do: `q` quits; `?` shows help; `1` to `5` switch tabs (leaving visual
/// mode; `2` focuses the search line, `4` and `5` load the recent tracks and the playlists
/// when never loaded, `1` and `5` focus a panel of their tab); `a` adds to a playlist; `v`
/// toggles visual mode anchored at the cursor; space toggles pause; `n` and `N` play the next
/// and previous track; `+`/`=` and `-` change the volume by five; `>` and `<` seek ten
/// seconds; `r` cycles the repeat mode; `s` toggles shuffle; Tab and Shift-Tab cycle the
/// focus.
pub open spec fn global_post(o: App, k: Key, n: App, r: Option<Action>) -> bool {
    match k.code {
        KeyCode::Char('q') => r is None && n == (App { running: false, ..o }),
        KeyCode::Char('?') => r is None && n == (App { show_help: true, ..o }),
        KeyCode::Char('1') => r is None && n == (App {
            active_tab: Tab::Library,
            visual_mode: false,
            visual_anchor: None,
            focus: if is_library_focus(o.focus) { o.focus } else { Focus::Artists },
            ..o
        }),
        KeyCode::Char('2') => r is None && n == (App {
            active_tab: Tab::Search,
            visual_mode: false,
            visual_anchor: None,
            search_focused: true,
            ..o
        }),
        KeyCode::Char('3') => r is None && n == (App {
            active_tab: Tab::Queue,
            visual_mode: false,
            visual_anchor: None,
            ..o
        }),
        KeyCode::Char('4') => {
            &&& n == (App { active_tab: Tab::Recent, visual_mode: false, visual_anchor: None, ..o })
            &&& r == (if !o.recent_loaded { Some(Action::Fetch(Request::Recent { limit: 100 })) } else { None })
        },
        KeyCode::Char('5') => {
            &&& n == (App {
                active_tab: Tab::Playlists,
                visual_mode: false,
                visual_anchor: None,
                focus: if o.focus == Focus::Playlists || o.focus == Focus::PlaylistTracks {
                    o.focus
                } else {
                    Focus::Playlists
                },
                ..o
            })
            &&& r == (if !o.playlists_loaded {
                Some(Action::Fetch(Request::Playlists { for_popup: false }))
            } else {
                None
            })
        },
        KeyCode::Char('a') => add_key_post(o, n, r),
        KeyCode::Char('v') => r is None && n == (if o.visual_mode {
            App { visual_mode: false, visual_anchor: None, ..o }
        } else {
            App { visual_mode: true, visual_anchor: current_cursor(o), ..o }
        }),
        KeyCode::Char(' ') => n == o && r == Some(Action::Player(PlayerCommand::TogglePause)),
        KeyCode::Char('n') => next_post(o, n, r),
        KeyCode::Char('N') => prev_post(o, n, r),
        KeyCode::Char('+') => n == o && r == Some(
            Action::Player(PlayerCommand::SetVolume(volume_up(o.player_state.volume))),
        ),
        KeyCode::Char('=') => n == o && r == Some(
            Action::Player(PlayerCommand::SetVolume(volume_up(o.player_state.volume))),
        ),
        KeyCode::Char('-') => n == o && r == Some(
            Action::Player(PlayerCommand::SetVolume(volume_down(o.player_state.volume))),
        ),
        KeyCode::Char('>') => n == o && r == Some(Action::Player(PlayerCommand::SeekForward(10))),
        KeyCode::Char('<') => n == o && r == Some(Action::Player(PlayerCommand::SeekBackward(10))),
        KeyCode::Char('r') => r is None && n == (App {
            queue: Queue { repeat: next_mode(o.queue.repeat), ..o.queue },
            ..o
        }),
        KeyCode::Char('s') => {
            &&& r is None
            &&& n == (App { queue: n.queue, ..o })
            &&& o.queue.wf() ==> n.queue.wf()
            &&& n.queue.shuffle == !o.queue.shuffle
            &&& n.queue.items == o.queue.items
            &&& n.queue.current == o.queue.current
            &&& n.queue.repeat == o.queue.repeat
            &&& (!n.queue.shuffle ==> n.queue.order() == o.queue.order())
        },
        KeyCode::Tab => r is None && n == (App { focus: cycled(o.active_tab, o.focus, true), ..o }),
        KeyCode::BackTab => r is None && n == (App { focus: cycled(o.active_tab, o.focus, false), ..o }),
        _ => false,
    }
}

impl App {
    /// Moves the queue to its next item and plays it (see [`next_post`]).
    pub fn play_next(&mut self) -> (r: Option<Action>)
        ensures
            old(self).wf() ==> final(self).wf(),
            next_post(*old(self), *final(self), r),
    {
        let item = match self.queue.next() {
            Some(it) => it.clone(),
            None => return None,
        };
        self.queue_state = self.queue.current;
        Some(Action::Play(item))
    }

    /// Moves the queue to its previous item and plays it (see [`prev_post`]).
    pub fn play_prev(&mut self) -> (r: Option<Action>)
        ensures
            old(self).wf() ==> final(self).wf(),
            prev_post(*old(self), *final(self), r),
    {
        let item = match self.queue.prev() {
            Some(it) => it.clone(),
            None => return None,
        };
        self.queue_state = self.queue.current;
        Some(Action::Play(item))
    }

    fn cycle_focus(&mut self, forward: bool)
        ensures
            *final(self) == (App { focus: cycled(old(self).active_tab, old(self).focus, forward), ..*old(self) }),
    {
        self.focus = match self.active_tab {
            Tab::Library => match self.focus {
                Focus::Artists => if forward { Focus::Albums } else { Focus::QueuePanel },
                Focus::Albums => if forward { Focus::Tracks } else { Focus::Artists },
                Focus::Tracks => if forward { Focus::QueuePanel } else { Focus::Albums },
                Focus::QueuePanel => if forward { Focus::Artists } else { Focus::Tracks },
                f => f,
            },
            Tab::Playlists => match self.focus {
                Focus::Playlists => Focus::PlaylistTracks,
                Focus::PlaylistTracks => Focus::Playlists,
                f => f,
            },
            _ => self.focus,
        };
    }

    fn add_key(&mut self) -> (r: Option<Action>)
        ensures
            old(self).wf() ==> final(self).wf(),
            add_key_post(*old(self), *final(self), r),
    {
        let items: Vec<Item> = if self.visual_mode {
            self.get_visual_selection_items()
        } else {
            match self.get_selected_audio_item() {
                Some(it) => {
                    let mut v: Vec<Item> = Vec::new();
                    v.push(it);
                    v
                },
                None => Vec::new(),
            }
        };
        proof {
            let picked = picked_for_playlist(*self);
            if !self.visual_mode {
                assert(items_view(items@) =~= items_view(picked));
            }
            assert(items_view(items@).len() == items@.len());
            assert(items_view(picked).len() == picked.len());
        }
        if items.len() == 0 {
            return None;
        }
        self.add_to_playlist_items = items;
        self.add_to_playlist_popup = true;
        self.visual_mode = false;
        self.visual_anchor = None;
        if !self.playlists_loaded {
            return Some(Action::Fetch(Request::Playlists { for_popup: true }));
        }
        if self.add_to_playlist_state.is_none() && self.playlists.len() > 0 {
            self.add_to_playlist_state = Some(0);
        }
        None
    }

    fn tab_key(&mut self, key: Key) -> (r: Option<Action>)
        requires
            key.code == KeyCode::Char('1') || key.code == KeyCode::Char('2') || key.code == KeyCode::Char('3')
                || key.code == KeyCode::Char('4') || key.code == KeyCode::Char('5'),
        ensures
            global_post(*old(self), key, *final(self), r),
    {
        match key.code {
            KeyCode::Char('1') => {
                self.active_tab = Tab::Library;
                self.visual_mode = false;
                self.visual_anchor = None;
                match self.focus {
                    Focus::Artists | Focus::Albums | Focus::Tracks | Focus::QueuePanel => {},
                    _ => {
                        self.focus = Focus::Artists;
                    },
                }
                None
            },
            KeyCode::Char('2') => {
                self.active_tab = Tab::Search;
                self.visual_mode = false;
                self.visual_anchor = None;
                self.search_focused = true;
                None
            },
            KeyCode::Char('3') => {
                self.active_tab = Tab::Queue;
                self.visual_mode = false;
                self.visual_anchor = None;
                None
            },
            KeyCode::Char('4') => {
                self.active_tab = Tab::Recent;
                self.visual_mode = false;
                self.visual_anchor = None;
                if !self.recent_loaded {
                    Some(Action::Fetch(Request::Recent { limit: 100 }))
                } else {
                    None
                }
            },
            KeyCode::Char('5') => {
                self.active_tab = Tab::Playlists;
                self.visual_mode = false;
                self.visual_anchor = None;
                match self.focus {
                    Focus::Playlists | Focus::PlaylistTracks => {},
                    _ => {
                        self.focus = Focus::Playlists;
                    },
                }
                if !self.playlists_loaded {
                    Some(Action::Fetch(Request::Playlists { for_popup: false }))
                } else {
                    None
                }
            },
            _ => None,
        }
    }

    fn player_key(&self, key: Key) -> (r: Option<Action>)
        requires
            key.code == KeyCode::Char(' ') || key.code == KeyCode::Char('+') || key.code == KeyCode::Char('=')
                || key.code == KeyCode::Char('-') || key.code == KeyCode::Char('>') || key.code == KeyCode::Char('<'),
        ensures
            global_post(*self, key, *self, r),
    {
        match key.code {
            KeyCode::Char(' ') => Some(Action::Player(PlayerCommand::TogglePause)),
            KeyCode::Char('+') | KeyCode::Char('=') => {
                let v = self.player_state.volume;
                let vol = if v < 95 { v + 5 } else { 100 };
                Some(Action::Player(PlayerCommand::SetVolume(vol)))
            },
            KeyCode::Char('-') => {
                let v = self.player_state.volume;
                let vol = if v > 5 { v - 5 } else { 0 };
                Some(Action::Player(PlayerCommand::SetVolume(vol)))
            },
            KeyCode::Char('>') => Some(Action::Player(PlayerCommand::SeekForward(10))),
            KeyCode::Char('<') => Some(Action::Player(PlayerCommand::SeekBackward(10))),
            _ => None,
        }
    }

    #[verifier::spinoff_prover]
    #[verifier::rlimit(40)]
    fn global_key(&mut self, key: Key) -> (r: Option<Action>)
        requires
            is_global_key(key),
        ensures
            old(self).wf() ==> final(self).wf(),
            global_post(*old(self), key, *final(self), r),
    {
        match key.code {
            KeyCode::Char('q') => {
                self.running = false;
                None
            },
            KeyCode::Char('?') => {
                self.show_help = true;
                None
            },
            KeyCode::Char('1') | KeyCode::Char('2') | KeyCode::Char('3') | KeyCode::Char('4')
            | KeyCode::Char('5') => self.tab_key(key),
            KeyCode::Char('a') => self.add_key(),
            KeyCode::Char('v') => {
                if self.visual_mode {
                    self.visual_mode = false;
                    self.visual_anchor = None;
                } else {
                    self.visual_mode = true;
                    self.visual_anchor = self.current_cursor_index();
                }
                None
            },
            KeyCode::Char('n') => self.play_next(),
            KeyCode::Char('N') => self.play_prev(),
            KeyCode::Char(' ') | KeyCode::Char('+') | KeyCode::Char('=') | KeyCode::Char('-')
            | KeyCode::Char('>') | KeyCode::Char('<') => self.player_key(key),
            KeyCode::Char('r') => {
                self.queue.repeat = self.queue.repeat.next();
                None
            },
            KeyCode::Char('s') => {
                self.queue.toggle_shuffle();
                None
            },
            KeyCode::Tab => {
                self.cycle_focus(true);
                None
            },
            _ => {
                self.cycle_focus(false);
                None
            },
        }
    }
}

// ---------------------------------------------------------------------------------------------
// Keys of the tabs
// ---------------------------------------------------------------------------------------------

/// The selection after a navigation key in a list of `len` rows: `j` down, `k` up, `g` to the
/// first row, `G` to the last; `None` for other keys.
pub open spec fn nav(c: KeyCode, sel: Option<usize>, len: nat) -> Option<Option<usize>> {
    match c {
        KeyCode::Char('j') => Some(sel_down(sel, len)),
        KeyCode::Char('k') => Some(sel_up(sel)),
        KeyCode::Char('g') => Some(sel_first(sel, len)),
        KeyCode::Char('G') => Some(sel_last(sel, len)),
        _ => None,
    }
}

/// The selection after `j`, `k`, `g` or `G` (see [`nav`]).
pub fn nav_key(c: KeyCode, sel: Option<usize>, len: usize) -> (r: Option<Option<usize>>)
    ensures
        r == nav(c, sel, len as nat),
{
    match c {
        KeyCode::Char('j') => Some(step_down(sel, len)),
        KeyCode::Char('k') => Some(step_up(sel)),
        KeyCode::Char('g') => Some(jump_first(sel, len)),
        KeyCode::Char('G') => Some(jump_last(sel, len)),
        _ => None,
    }
}

/// The message is `text`.
pub open spec fn says(m: Option<String>, text: Seq<char>) -> bool {
    m matches Some(s) && s@ == text
}

/// `nq` is `oq` replaced by a list equal to `list`, positioned at `idx`.
pub open spec fn queue_replaced(oq: Queue, list: Seq<Item>, idx: usize, nq: Queue) -> bool {
    &&& nq.wf()
    &&& items_view(nq.items@) == items_view(list)
    &&& nq.current == Some(idx)
    &&& nq.repeat == oq.repeat
    &&& nq.shuffle == oq.shuffle
}

/// `nq` is `oq` with an item equal to `it` added at the end (see [`Queue::enqueue`]).
pub open spec fn queue_enqueued(oq: Queue, it: Item, nq: Queue) -> bool {
    &&& oq.wf() ==> nq.wf()
    &&& items_view(nq.items@) == items_view(oq.items@.push(it))
    &&& nq.current == (if oq.current is None { Some(0usize) } else { oq.current })
    &&& nq.repeat == oq.repeat
    &&& nq.shuffle == oq.shuffle
}

/// Enter on a track list: the queue becomes the whole list positioned at the selected track,
/// the queue list follows, and that track plays; nothing happens without a selected track.
pub open spec fn play_list_post(o: App, list: Seq<Item>, sel: Option<usize>, n: App, r: Option<Action>) -> bool {
    match sel {
        Some(idx) => if idx < list.len() {
            &&& n == (App { queue: n.queue, queue_state: Some(idx), ..o })
            &&& queue_replaced(o.queue, list, idx, n.queue)
            &&& plays(r, list[idx as int])
        } else {
            r is None && n == o
        },
        None => r is None && n == o,
    }
}

/// `e` on a list: the item is added to the queue with a message saying so; nothing happens
/// without an item.
pub open spec fn enqueue_post(o: App, it: Option<Item>, n: App, r: Option<Action>) -> bool {
    &&& r is None
    &&& match it {
        Some(t) => {
            &&& n == (App { queue: n.queue, status_message: n.status_message, ..o })
            &&& queue_enqueued(o.queue, t, n.queue)
            &&& says(n.status_message, "Enqueued: "@ + t.name@)
        },
        None => n == o,
    }
}

/// `l` or Enter on the artist list: the selected artist's name is remembered (that of the
/// first shown artist with its id) and its albums are loaded; the albums get the focus.
pub open spec fn select_artist_post(o: App, n: App, r: Option<Action>) -> bool {
    match selected_artist(o) {
        Some(a) => {
            &&& n == (App { selected_artist_name: n.selected_artist_name, focus: Focus::Albums, ..o })
            &&& first_with_id(visible_artists(o), a.id@) matches Some(f)
            &&& n.selected_artist_name matches Some(name) && name@ == f.name@
            &&& r matches Some(Action::Fetch(Request::ArtistAlbums { artist_id })) && artist_id@ == a.id@
        },
        None => r is None && n == (App { focus: Focus::Albums, ..o }),
    }
}

/// `l` or Enter on the album list: row 0 ("All Tracks") loads every track of the selected
/// artist, another row the tracks of its album, and the album name shown is set accordingly;
/// the tracks get the focus.
pub open spec fn select_album_post(o: App, n: App, r: Option<Action>) -> bool {
    match o.album_state {
        Some(0usize) => match selected_artist(o) {
            Some(a) => {
                &&& n == (App { selected_album_name: n.selected_album_name, focus: Focus::Tracks, ..o })
                &&& says(n.selected_album_name, "All Tracks"@)
                &&& r matches Some(Action::Fetch(Request::ArtistTracks { artist_id })) && artist_id@ == a.id@
            },
            None => r is None && n == (App { focus: Focus::Tracks, ..o }),
        },
        Some(i) => if i - 1 < o.albums@.len() {
            &&& n == (App { selected_album_name: n.selected_album_name, focus: Focus::Tracks, ..o })
            &&& says(n.selected_album_name, o.albums@[i - 1].name@)
            &&& r matches Some(Action::Fetch(Request::AlbumTracks { album_id })) && album_id@ == o.albums@[i - 1].id@
        } else {
            r is None && n == (App { focus: Focus::Tracks, ..o })
        },
        None => r is None && n == (App { focus: Focus::Tracks, ..o }),
    }
}

/// Keys on the artist list: `j`/`k`/`g`/`G` and Ctrl-`d`/Ctrl-`u` (half a page) move in the
/// shown artists; `l` or Enter opens the artist; `/` opens an empty filter line; Esc clears
/// a filter.
pub open spec fn artists_key_post(o: App, k: Key, n: App, r: Option<Action>) -> bool {
    let len = visible_artists(o).len();
    match k.code {
        KeyCode::Char('j') => r is None && n == (App { artist_state: sel_moved(o.artist_state, len, 1), ..o }),
        KeyCode::Char('k') => r is None && n == (App { artist_state: sel_moved(o.artist_state, len, -1), ..o }),
        KeyCode::Char('g') => r is None && n == (App { artist_state: sel_first(o.artist_state, len), ..o }),
        KeyCode::Char('G') => r is None && n == (App { artist_state: sel_last(o.artist_state, len), ..o }),
        KeyCode::Char('d') => r is None && n == (if k.ctrl {
            App { artist_state: sel_moved(o.artist_state, len, half_page(len) as int), ..o }
        } else {
            o
        }),
        KeyCode::Char('u') => r is None && n == (if k.ctrl {
            App { artist_state: sel_moved(o.artist_state, len, -(half_page(len) as int)), ..o }
        } else {
            o
        }),
        KeyCode::Char('l') => select_artist_post(o, n, r),
        KeyCode::Enter => select_artist_post(o, n, r),
        KeyCode::Char('/') => {
            &&& r is None
            &&& n.filter_text@.len() == 0
            &&& n == (App { filter_active: true, filter_text: n.filter_text, ..o })
        },
        KeyCode::Esc => r is None && (if o.filter_text@.len() > 0 {
            refiltered(o, Seq::empty(), o.filter_active, n)
        } else {
            n == o
        }),
        _ => r is None && n == o,
    }
}

/// Keys on the album list (row 0 is "All Tracks"): `j`/`k` and Ctrl-`d`/Ctrl-`u` move;
/// `g` goes to row 0 when there are albums or an artist; `G` to the last album; `h` back to
/// the artists; `l` or Enter opens the row.
pub open spec fn albums_key_post(o: App, k: Key, n: App, r: Option<Action>) -> bool {
    let rows = o.albums@.len() + 1;
    match k.code {
        KeyCode::Char('j') => r is None && n == (App { album_state: sel_moved(o.album_state, rows, 1), ..o }),
        KeyCode::Char('k') => r is None && n == (App { album_state: sel_moved(o.album_state, rows, -1), ..o }),
        KeyCode::Char('g') => r is None && n == (if o.albums@.len() > 0 || o.selected_artist_name is Some {
            App { album_state: Some(0usize), ..o }
        } else {
            o
        }),
        KeyCode::Char('G') => r is None && n == (if o.albums@.len() > 0 {
            App { album_state: Some(o.albums@.len() as usize), ..o }
        } else {
            o
        }),
        KeyCode::Char('d') => r is None && n == (if k.ctrl {
            App { album_state: sel_moved(o.album_state, rows, half_page(rows) as int), ..o }
        } else {
            o
        }),
        KeyCode::Char('u') => r is None && n == (if k.ctrl {
            App { album_state: sel_moved(o.album_state, rows, -(half_page(rows) as int)), ..o }
        } else {
            o
        }),
        KeyCode::Char('h') => r is None && n == (App { focus: Focus::Artists, ..o }),
        KeyCode::Char('l') => select_album_post(o, n, r),
        KeyCode::Enter => select_album_post(o, n, r),
        _ => r is None && n == o,
    }
}

/// Keys on the track list: `j`/`k` and Ctrl-`d`/Ctrl-`u` move; `g`/`G` go to the first and
/// last track; `h` back to the albums; Enter plays the list from the selected track; `e`
/// adds the selected track to the queue.
pub open spec fn tracks_key_post(o: App, k: Key, n: App, r: Option<Action>) -> bool {
    let len = o.tracks@.len();
    match k.code {
        KeyCode::Char('j') => r is None && n == (App { track_state: sel_moved(o.track_state, len, 1), ..o }),
        KeyCode::Char('k') => r is None && n == (App { track_state: sel_moved(o.track_state, len, -1), ..o }),
        KeyCode::Char('g') => r is None && n == (App { track_state: sel_first(o.track_state, len), ..o }),
        KeyCode::Char('G') => r is None && n == (App { track_state: sel_last(o.track_state, len), ..o }),
        KeyCode::Char('d') => r is None && n == (if k.ctrl {
            App { track_state: sel_moved(o.track_state, len, half_page(len) as int), ..o }
        } else {
            o
        }),
        KeyCode::Char('u') => r is None && n == (if k.ctrl {
            App { track_state: sel_moved(o.track_state, len, -(half_page(len) as int)), ..o }
        } else {
            o
        }),
        KeyCode::Char('h') => r is None && n == (App { focus: Focus::Albums, ..o }),
        KeyCode::Enter => play_list_post(o, o.tracks@, o.track_state, n, r),
        KeyCode::Char('e') => enqueue_post(o, at_row(o.tracks@, o.track_state), n, r),
        _ => r is None && n == o,
    }
}

impl App {
    /// Replaces the queue by a copy of `list`, positioned at the selected row, and plays that
    /// item (see [`play_list_post`]).
    fn play_from(&mut self, which: Tab, sel: Option<usize>) -> (r: Option<Action>)
        requires
            which == Tab::Library || which == Tab::Recent || which == Tab::Playlists,
        ensures
            old(self).wf() ==> final(self).wf(),
            play_list_post(*old(self), list_for(*old(self), which), sel, *final(self), r),
    {
        let idx = match sel {
            Some(i) => i,
            None => return None,
        };
        let list = match which {
            Tab::Library => &self.tracks,
            Tab::Recent => &self.recent_tracks,
            _ => &self.playlist_tracks,
        };
        if idx >= list.len() {
            return None;
        }
        let copy = clone_items(list);
        let item = list[idx].clone();
        assert(copy@.len() == items_view(copy@).len());
        self.queue.replace(copy, idx);
        self.queue_state = Some(idx);
        Some(Action::Play(item))
    }

    /// Adds a copy of the item at the selected row of `list` to the queue (see
    /// [`enqueue_post`]).
    fn enqueue_from(&mut self, which: Tab, sel: Option<usize>) -> (r: Option<Action>)
        requires
            which == Tab::Library || which == Tab::Recent || which == Tab::Playlists,
        ensures
            old(self).wf() ==> final(self).wf(),
            enqueue_post(*old(self), at_row(list_for(*old(self), which), sel), *final(self), r),
    {
        let list = match which {
            Tab::Library => &self.tracks,
            Tab::Recent => &self.recent_tracks,
            _ => &self.playlist_tracks,
        };
        let item = match copy_at(list, sel) {
            Some(it) => it,
            None => return None,
        };
        let mut msg = String::new();
        push_all(&mut msg, "Enqueued: ");
        push_all(&mut msg, item.name.as_str());
        proof {
            reveal_strlit("Enqueued: ");
        }
        let ghost t = at_row(list_for(*old(self), which), sel)->0;
        self.queue.enqueue(item);
        assert(items_view(self.queue.items@) =~= items_view(old(self).queue.items@.push(t)));
        self.status_message = Some(msg);
        None
    }

    fn select_artist(&mut self) -> (r: Option<Action>)
        ensures
            select_artist_post(*old(self), *final(self), r),
    {
        let r = match self.selected_artist_id() {
            Some(artist_id) => {
                let shown = self.filtered_artists();
                let name = first_name_with_id(&shown, &artist_id, Ghost(visible_artists(*self)));
                proof {
                    let idx = self.artist_state->0;
                    lemma_first_with_id_found(visible_artists(*self), idx as int, artist_id@);
                }
                self.selected_artist_name = name;
                Some(Action::Fetch(Request::ArtistAlbums { artist_id }))
            },
            None => None,
        };
        self.focus = Focus::Albums;
        r
    }

    fn select_album(&mut self) -> (r: Option<Action>)
        ensures
            select_album_post(*old(self), *final(self), r),
    {
        let r = match self.album_state {
            Some(0) => match self.selected_artist_id() {
                Some(artist_id) => {
                    let mut name = String::new();
                    push_all(&mut name, "All Tracks");
                    proof {
                        reveal_strlit("All Tracks");
                    }
                    self.selected_album_name = Some(name);
                    Some(Action::Fetch(Request::ArtistTracks { artist_id }))
                },
                None => None,
            },
            Some(i) => {
                if i - 1 < self.albums.len() {
                    self.selected_album_name = Some(self.albums[i - 1].name.clone());
                    Some(Action::Fetch(Request::AlbumTracks { album_id: self.albums[i - 1].id.clone() }))
                } else {
                    None
                }
            },
            None => None,
        };
        self.focus = Focus::Tracks;
        r
    }

    fn artists_key(&mut self, key: Key) -> (r: Option<Action>)
        ensures
            artists_key_post(*old(self), key, *final(self), r),
    {
        match key.code {
            KeyCode::Char('j') | KeyCode::Char('k') | KeyCode::Char('g') | KeyCode::Char('G') => {
                let len = self.filtered_artists().len();
                self.artist_state = match key.code {
                    KeyCode::Char('j') => move_by(self.artist_state, len, true, 1),
                    KeyCode::Char('k') => move_by(self.artist_state, len, false, 1),
                    KeyCode::Char('g') => jump_first(self.artist_state, len),
                    _ => jump_last(self.artist_state, len),
                };
                None
            },
            KeyCode::Char('d') | KeyCode::Char('u') => {
                if key.ctrl {
                    let len = self.filtered_artists().len();
                    let half = half_of(len);
                    let down = key.code == KeyCode::Char('d');
                    self.artist_state = move_by(self.artist_state, len, down, half);
                }
                None
            },
            KeyCode::Char('l') | KeyCode::Enter => self.select_artist(),
            KeyCode::Char('/') => {
                self.filter_active = true;
                self.filter_text = String::new();
                None
            },
            KeyCode::Esc => {
                if !self.filter_text.as_str().is_empty() {
                    self.filter_text = String::new();
                    self.rebuild_filter();
                }
                None
            },
            _ => None,
        }
    }

    fn albums_key(&mut self, key: Key) -> (r: Option<Action>)
        ensures
            albums_key_post(*old(self), key, *final(self), r),
    {
        match key.code {
            KeyCode::Char('j') => {
                self.album_state = move_within(self.album_state, self.albums.len(), true, 1);
                None
            },
            KeyCode::Char('k') => {
                self.album_state = move_within(self.album_state, self.albums.len(), false, 1);
                None
            },
            KeyCode::Char('g') => {
                if self.albums.len() > 0 || self.selected_artist_name.is_some() {
                    self.album_state = Some(0);
                }
                None
            },
            KeyCode::Char('G') => {
                if self.albums.len() > 0 {
                    self.album_state = Some(self.albums.len());
                }
                None
            },
            KeyCode::Char('d') | KeyCode::Char('u') => {
                if key.ctrl {
                    let half = half_of_succ(self.albums.len());
                    let down = key.code == KeyCode::Char('d');
                    self.album_state = move_within(self.album_state, self.albums.len(), down, half);
                }
                None
            },
            KeyCode::Char('h') => {
                self.focus = Focus::Artists;
                None
            },
            KeyCode::Char('l') | KeyCode::Enter => self.select_album(),
            _ => None,
        }
    }

    fn tracks_key(&mut self, key: Key) -> (r: Option<Action>)
        ensures
            old(self).wf() ==> final(self).wf(),
            tracks_key_post(*old(self), key, *final(self), r),
    {
        match key.code {
            KeyCode::Char('j') => {
                self.track_state = move_by(self.track_state, self.tracks.len(), true, 1);
                None
            },
            KeyCode::Char('k') => {
                self.track_state = move_by(self.track_state, self.tracks.len(), false, 1);
                None
            },
            KeyCode::Char('g') => {
                self.track_state = jump_first(self.track_state, self.tracks.len());
                None
            },
            KeyCode::Char('G') => {
                self.track_state = jump_last(self.track_state, self.tracks.len());
                None
            },
            KeyCode::Char('d') | KeyCode::Char('u') => {
                if key.ctrl {
                    let len = self.tracks.len();
                    let half = half_of(len);
                    let down = key.code == KeyCode::Char('d');
                    self.track_state = move_by(self.track_state, len, down, half);
                }
                None
            },
            KeyCode::Char('h') => {
                self.focus = Focus::Albums;
                None
            },
            KeyCode::Enter => self.play_from(Tab::Library, self.track_state),
            KeyCode::Char('e') => self.enqueue_from(Tab::Library, self.track_state),
            _ => None,
        }
    }
}

/// The track list a tab plays from: the library's tracks, the recent tracks, or the
/// selected playlist's tracks.
pub open spec fn list_for(a: App, which: Tab) -> Seq<Item> {
    match which {
        Tab::Library => a.tracks@,
        Tab::Recent => a.recent_tracks@,
        _ => a.playlist_tracks@,
    }
}

/// The name of the first item of `list` with the given id.
fn first_name_with_id(list: &Vec<&Item>, id: &String, Ghost(s): Ghost<Seq<Item>>) -> (r: Option<String>)
    requires
        list@.len() == s.len(),
        forall|j: int| 0 <= j < s.len() ==> *list@[j] == s[j],
    ensures
        r is Some == first_with_id(s, id@) is Some,
        r is Some ==> r->0@ == first_with_id(s, id@)->0.name@,
{
    let mut i: usize = 0;
    assert(s.subrange(0, s.len() as int) =~= s);
    while i < list.len()
        invariant
            i <= s.len(),
            list@.len() == s.len(),
            forall|j: int| 0 <= j < s.len() ==> *list@[j] == s[j],
            first_with_id(s, id@) == first_with_id(s.subrange(i as int, s.len() as int), id@),
        decreases s.len() - i,
    {
        let ghost rest = s.subrange(i as int, s.len() as int);
        assert(rest[0] == s[i as int]);
        if list[i].id == *id {
            return Some(list[i].name.clone());
        }
        assert(rest.drop_first() =~= s.subrange(i + 1, s.len() as int));
        i = i + 1;
    }
    assert(s.subrange(i as int, s.len() as int).len() == 0);
    None
}

/// An item with the id at position `idx` of `s` makes [`first_with_id`] find one.
proof fn lemma_first_with_id_found(s: Seq<Item>, idx: int, id: Seq<char>)
    requires
        0 <= idx < s.len(),
        s[idx].id@ == id,
    ensures
        first_with_id(s, id) is Some,
        first_with_id(s, id)->0.id@ == id,
    decreases idx,
{
    if s[0].id@ != id {
        lemma_first_with_id_found(s.drop_first(), idx - 1, id);
    }
}

/// The item's type is `t`.
pub open spec fn type_is(i: Item, t: Seq<char>) -> bool {
    i.item_type is Some && i.item_type->0@ == t
}

/// Enter on a search result: a track is added to the queue and played; an artist's albums
/// or an album's tracks are loaded; anything else is ignored.
pub open spec fn activate_post(o: App, n: App, r: Option<Action>) -> bool {
    match at_row(o.search_results@, o.search_state) {
        Some(it) => if type_is(it, "Audio"@) {
            &&& n == (App { queue: n.queue, ..o })
            &&& o.queue.wf() ==> n.queue.wf()
            &&& items_view(n.queue.items@) == items_view(o.queue.items@.push(it))
            &&& n.queue.current == Some(o.queue.items@.len() as usize)
            &&& n.queue.repeat == o.queue.repeat
            &&& n.queue.shuffle == o.queue.shuffle
            &&& plays(r, it)
        } else if type_is(it, "MusicArtist"@) {
            &&& n == o
            &&& r matches Some(Action::Fetch(Request::SearchArtistAlbums { artist_id, artist_name }))
            &&& artist_id@ == it.id@
            &&& artist_name@ == it.name@
        } else if type_is(it, "MusicAlbum"@) {
            &&& n == o
            &&& r matches Some(Action::Fetch(Request::SearchAlbumTracks { album_id, artist_name, album_name }))
            &&& album_id@ == it.id@
            &&& artist_name@ == (if it.album_artist is Some { it.album_artist->0@ } else { it.name@ })
            &&& album_name@ == it.name@
        } else {
            r is None && n == o
        },
        None => r is None && n == o,
    }
}

/// Keys on the search tab: `/` and `i` focus the search line; `j`/`k`/`g`/`G` move in the
/// results; Enter opens the result; `e` adds a track result to the queue.
pub open spec fn search_tab_post(o: App, k: Key, n: App, r: Option<Action>) -> bool {
    match k.code {
        KeyCode::Char('/') => r is None && n == (App { search_focused: true, ..o }),
        KeyCode::Char('i') => r is None && n == (App { search_focused: true, ..o }),
        KeyCode::Enter => activate_post(o, n, r),
        KeyCode::Char('e') => enqueue_post(
            o,
            match at_row(o.search_results@, o.search_state) {
                Some(it) => if is_audio(it) { Some(it) } else { None },
                None => None,
            },
            n,
            r,
        ),
        _ => r is None && match nav(k.code, o.search_state, o.search_results@.len()) {
            Some(sel) => n == (App { search_state: sel, ..o }),
            None => n == o,
        },
    }
}

/// `nq` is `oq` after removing the item at `i` (see [`Queue::remove`]).
pub open spec fn queue_removed(oq: Queue, i: usize, nq: Queue) -> bool {
    &&& oq.wf() ==> nq.wf()
    &&& (i >= oq.items@.len() ==> nq == oq)
    &&& (i < oq.items@.len() ==> {
        &&& nq.items@ == oq.items@.remove(i as int)
        &&& nq.current == crate::player::queue::position_after_remove(oq.items@.len(), oq.current, i)
    })
    &&& nq.repeat == oq.repeat
    &&& nq.shuffle == oq.shuffle
}

/// Keys on the queue: `j`/`k`/`g`/`G` move; Enter plays the selected item; `d` (without
/// Control) removes it, keeping the selection within the queue; `c` empties the queue,
/// stops playback and clears the selection.
pub open spec fn queue_key_post(o: App, k: Key, n: App, r: Option<Action>) -> bool {
    let len = o.queue.items@.len();
    match k.code {
        KeyCode::Enter => match o.queue_state {
            Some(i) => if i < len {
                &&& n == (App { queue: Queue { current: Some(i), ..o.queue }, ..o })
                &&& plays(r, o.queue.items@[i as int])
            } else {
                r is None && n == o
            },
            None => r is None && n == o,
        },
        KeyCode::Char('d') => r is None && if k.ctrl {
            n == o
        } else {
            match o.queue_state {
                Some(i) => {
                    &&& queue_removed(o.queue, i, n.queue)
                    &&& n == (App {
                        queue: n.queue,
                        queue_state: if i >= n.queue.items@.len() && n.queue.items@.len() > 0 {
                            Some((n.queue.items@.len() - 1) as usize)
                        } else {
                            o.queue_state
                        },
                        ..o
                    })
                },
                None => n == o,
            }
        },
        KeyCode::Char('c') => {
            &&& r == Some(Action::Player(PlayerCommand::Stop))
            &&& n == (App { queue: n.queue, queue_state: None, ..o })
            &&& n.queue.wf()
            &&& n.queue.items@.len() == 0
            &&& n.queue.current is None
            &&& n.queue.repeat == o.queue.repeat
            &&& n.queue.shuffle == o.queue.shuffle
        },
        _ => r is None && match nav(k.code, o.queue_state, len) {
            Some(sel) => n == (App { queue_state: sel, ..o }),
            None => n == o,
        },
    }
}

/// Keys on the recent tracks: `j`/`k`/`g`/`G` move; Enter plays the list from the selected
/// track; `e` adds the selected track to the queue.
pub open spec fn recent_key_post(o: App, k: Key, n: App, r: Option<Action>) -> bool {
    match k.code {
        KeyCode::Enter => play_list_post(o, o.recent_tracks@, o.recent_state, n, r),
        KeyCode::Char('e') => enqueue_post(o, at_row(o.recent_tracks@, o.recent_state), n, r),
        _ => r is None && match nav(k.code, o.recent_state, o.recent_tracks@.len()) {
            Some(sel) => n == (App { recent_state: sel, ..o }),
            None => n == o,
        },
    }
}

/// Enter or `l` on the playlist list: the selected playlist becomes the open one, its tracks
/// are loaded and get the focus.
pub open spec fn open_playlist_post(o: App, n: App, r: Option<Action>) -> bool {
    match at_row(o.playlists@, o.playlist_state) {
        Some(pl) => {
            &&& n == (App {
                selected_playlist_id: n.selected_playlist_id,
                selected_playlist_name: n.selected_playlist_name,
                focus: Focus::PlaylistTracks,
                ..o
            })
            &&& says(n.selected_playlist_id, pl.id@)
            &&& says(n.selected_playlist_name, pl.name@)
            &&& r matches Some(Action::Fetch(Request::PlaylistTracks { playlist_id })) && playlist_id@ == pl.id@
        },
        None => r is None && n == o,
    }
}

/// Keys on the playlist list: `j`/`k`/`g`/`G` move; Enter or `l` opens the playlist; `C`
/// starts typing a new playlist's name; `D` deletes the selected playlist.
pub open spec fn playlists_list_post(o: App, k: Key, n: App, r: Option<Action>) -> bool {
    match k.code {
        KeyCode::Enter => open_playlist_post(o, n, r),
        KeyCode::Char('l') => open_playlist_post(o, n, r),
        KeyCode::Char('C') => {
            &&& r is None
            &&& n.playlist_create_name@.len() == 0
            &&& n == (App { playlist_create_mode: true, playlist_create_name: n.playlist_create_name, ..o })
        },
        KeyCode::Char('D') => n == o && match at_row(o.playlists@, o.playlist_state) {
            Some(pl) => {
                &&& r matches Some(Action::Fetch(Request::DeletePlaylist { index, playlist_id, playlist_name }))
                &&& Some(index) == o.playlist_state
                &&& playlist_id@ == pl.id@
                &&& playlist_name@ == pl.name@
            },
            None => r is None,
        },
        _ => r is None && match nav(k.code, o.playlist_state, o.playlists@.len()) {
            Some(sel) => n == (App { playlist_state: sel, ..o }),
            None => n == o,
        },
    }
}

/// `d` on a playlist's tracks: asks to remove the selected track's entry from the open
/// playlist, when there is an open playlist and the track has an entry id.
pub open spec fn remove_request_made(o: App, r: Option<Action>) -> bool {
    match (o.playlist_track_state, o.selected_playlist_id) {
        (Some(idx), Some(pid)) => match at_row(o.playlist_tracks@, Some(idx)) {
            Some(t) => match t.playlist_item_id {
                Some(e) => {
                    &&& r matches Some(Action::Fetch(Request::RemoveFromPlaylist { playlist_id, entry_id, index, track_name }))
                    &&& playlist_id@ == pid@
                    &&& entry_id@ == e@
                    &&& index == idx
                    &&& track_name@ == t.name@
                },
                None => r is None,
            },
            None => r is None,
        },
        _ => r is None,
    }
}

/// Keys on a playlist's tracks: `j`/`k`/`g`/`G` move; `h` back to the playlist list; Enter
/// plays the playlist from the selected track; `e` adds the selected track to the queue;
/// `d` (without Control) removes it from the playlist.
pub open spec fn playlist_tracks_post(o: App, k: Key, n: App, r: Option<Action>) -> bool {
    match k.code {
        KeyCode::Char('h') => r is None && n == (App { focus: Focus::Playlists, ..o }),
        KeyCode::Enter => play_list_post(o, o.playlist_tracks@, o.playlist_track_state, n, r),
        KeyCode::Char('e') => enqueue_post(o, at_row(o.playlist_tracks@, o.playlist_track_state), n, r),
        KeyCode::Char('d') => n == o && (if k.ctrl { r is None } else { remove_request_made(o, r) }),
        _ => r is None && match nav(k.code, o.playlist_track_state, o.playlist_tracks@.len()) {
            Some(sel) => n == (App { playlist_track_state: sel, ..o }),
            None => n == o,
        },
    }
}

/// What a key does on the active tab, by tab and focused panel.
pub open spec fn tab_post(o: App, k: Key, n: App, r: Option<Action>) -> bool {
    match o.active_tab {
        Tab::Library => match o.focus {
            Focus::Artists => artists_key_post(o, k, n, r),
            Focus::Albums => albums_key_post(o, k, n, r),
            Focus::Tracks => tracks_key_post(o, k, n, r),
            Focus::QueuePanel => queue_key_post(o, k, n, r),
            _ => r is None && n == o,
        },
        Tab::Search => search_tab_post(o, k, n, r),
        Tab::Queue => queue_key_post(o, k, n, r),
        Tab::Recent => recent_key_post(o, k, n, r),
        Tab::Playlists => match o.focus {
            Focus::Playlists => playlists_list_post(o, k, n, r),
            Focus::PlaylistTracks => playlist_tracks_post(o, k, n, r),
            _ => r is None && n == o,
        },
    }
}

/// The text is exactly `lit`.
fn str_is(t: &Option<String>, lit: &str) -> (b: bool)
    ensures
        b == (t is Some && t->0@ == lit@),
{
    match t {
        Some(s) => str_eq(s.as_str(), lit),
        None => false,
    }
}

impl App {
    fn activate_search_result(&mut self) -> (r: Option<Action>)
        ensures
            old(self).wf() ==> final(self).wf(),
            activate_post(*old(self), *final(self), r),
    {
        let item = match copy_at(&self.search_results, self.search_state) {
            Some(it) => it,
            None => return None,
        };
        proof {
            reveal_strlit("Audio");
            reveal_strlit("MusicArtist");
            reveal_strlit("MusicAlbum");
        }
        let ghost it = at_row(self.search_results@, self.search_state)->0;
        if str_is(&item.item_type, "Audio") {
            let copy = item.clone();
            self.queue.enqueue(copy);
            assert(items_view(self.queue.items@) =~= items_view(old(self).queue.items@.push(it)));
            let last = self.queue.items.len() - 1;
            self.queue.current = Some(last);
            Some(Action::Play(item))
        } else if str_is(&item.item_type, "MusicArtist") {
            Some(Action::Fetch(Request::SearchArtistAlbums { artist_id: item.id, artist_name: item.name }))
        } else if str_is(&item.item_type, "MusicAlbum") {
            let artist_name = match &item.album_artist {
                Some(a) => a.clone(),
                None => item.name.clone(),
            };
            Some(Action::Fetch(Request::SearchAlbumTracks {
                album_id: item.id,
                artist_name,
                album_name: item.name,
            }))
        } else {
            None
        }
    }

    fn search_tab_key(&mut self, key: Key) -> (r: Option<Action>)
        ensures
            old(self).wf() ==> final(self).wf(),
            search_tab_post(*old(self), key, *final(self), r),
    {
        match key.code {
            KeyCode::Char('/') | KeyCode::Char('i') => {
                self.search_focused = true;
                None
            },
            KeyCode::Enter => self.activate_search_result(),
            KeyCode::Char('e') => {
                let item = match copy_at(&self.search_results, self.search_state) {
                    Some(it) => it,
                    None => return None,
                };
                if !is_audio_item(&item) {
                    return None;
                }
                let ghost t = at_row(self.search_results@, self.search_state)->0;
                let mut msg = String::new();
                push_all(&mut msg, "Enqueued: ");
                push_all(&mut msg, item.name.as_str());
                proof {
                    reveal_strlit("Enqueued: ");
                }
                self.queue.enqueue(item);
                assert(items_view(self.queue.items@) =~= items_view(old(self).queue.items@.push(t)));
                self.status_message = Some(msg);
                None
            },
            _ => {
                if let Some(sel) = nav_key(key.code, self.search_state, self.search_results.len()) {
                    self.search_state = sel;
                }
                None
            },
        }
    }

    fn remove_selected_from_queue(&mut self)
        ensures
            old(self).wf() ==> final(self).wf(),
            queue_key_post(*old(self), Key { code: KeyCode::Char('d'), ctrl: false }, *final(self), None),
    {
        if let Some(i) = self.queue_state {
            self.queue.remove(i);
            let len = self.queue.items.len();
            if i >= len && len > 0 {
                self.queue_state = Some(len - 1);
            }
        }
    }

    #[verifier::spinoff_prover]
    fn queue_key(&mut self, key: Key) -> (r: Option<Action>)
        ensures
            old(self).wf() ==> final(self).wf(),
            queue_key_post(*old(self), key, *final(self), r),
    {
        match key.code {
            KeyCode::Enter => {
                if let Some(i) = self.queue_state {
                    if i < self.queue.items.len() {
                        self.queue.current = Some(i);
                        return Some(Action::Play(self.queue.items[i].clone()));
                    }
                }
                None
            },
            KeyCode::Char('d') => {
                if !key.ctrl {
                    self.remove_selected_from_queue();
                }
                None
            },
            KeyCode::Char('c') => {
                self.queue.clear();
                self.queue_state = None;
                Some(Action::Player(PlayerCommand::Stop))
            },
            _ => {
                if let Some(sel) = nav_key(key.code, self.queue_state, self.queue.items.len()) {
                    self.queue_state = sel;
                }
                None
            },
        }
    }

    fn recent_key(&mut self, key: Key) -> (r: Option<Action>)
        ensures
            old(self).wf() ==> final(self).wf(),
            recent_key_post(*old(self), key, *final(self), r),
    {
        match key.code {
            KeyCode::Enter => self.play_from(Tab::Recent, self.recent_state),
            KeyCode::Char('e') => self.enqueue_from(Tab::Recent, self.recent_state),
            _ => {
                if let Some(sel) = nav_key(key.code, self.recent_state, self.recent_tracks.len()) {
                    self.recent_state = sel;
                }
                None
            },
        }
    }

    fn playlists_list_key(&mut self, key: Key) -> (r: Option<Action>)
        ensures
            playlists_list_post(*old(self), key, *final(self), r),
    {
        match key.code {
            KeyCode::Enter | KeyCode::Char('l') => {
                let pl = match copy_at(&self.playlists, self.playlist_state) {
                    Some(pl) => pl,
                    None => return None,
                };
                self.selected_playlist_id = Some(pl.id.clone());
                self.selected_playlist_name = Some(pl.name);
                self.focus = Focus::PlaylistTracks;
                Some(Action::Fetch(Request::PlaylistTracks { playlist_id: pl.id }))
            },
            KeyCode::Char('C') => {
                self.playlist_create_mode = true;
                self.playlist_create_name = String::new();
                None
            },
            KeyCode::Char('D') => {
                let index = match self.playlist_state {
                    Some(i) => i,
                    None => return None,
                };
                if index >= self.playlists.len() {
                    return None;
                }
                Some(Action::Fetch(Request::DeletePlaylist {
                    index,
                    playlist_id: self.playlists[index].id.clone(),
                    playlist_name: self.playlists[index].name.clone(),
                }))
            },
            _ => {
                if let Some(sel) = nav_key(key.code, self.playlist_state, self.playlists.len()) {
                    self.playlist_state = sel;
                }
                None
            },
        }
    }

    fn playlist_tracks_key(&mut self, key: Key) -> (r: Option<Action>)
        ensures
            old(self).wf() ==> final(self).wf(),
            playlist_tracks_post(*old(self), key, *final(self), r),
    {
        match key.code {
            KeyCode::Char('h') => {
                self.focus = Focus::Playlists;
                None
            },
            KeyCode::Enter => self.play_from(Tab::Playlists, self.playlist_track_state),
            KeyCode::Char('e') => self.enqueue_from(Tab::Playlists, self.playlist_track_state),
            KeyCode::Char('d') => {
                if key.ctrl {
                    return None;
                }
                let idx = match self.playlist_track_state {
                    Some(i) => i,
                    None => return None,
                };
                let pid = match &self.selected_playlist_id {
                    Some(p) => p.clone(),
                    None => return None,
                };
                if idx >= self.playlist_tracks.len() {
                    return None;
                }
                match &self.playlist_tracks[idx].playlist_item_id {
                    Some(e) => Some(Action::Fetch(Request::RemoveFromPlaylist {
                        playlist_id: pid,
                        entry_id: e.clone(),
                        index: idx,
                        track_name: self.playlist_tracks[idx].name.clone(),
                    })),
                    None => None,
                }
            },
            _ => {
                if let Some(sel) = nav_key(key.code, self.playlist_track_state, self.playlist_tracks.len()) {
                    self.playlist_track_state = sel;
                }
                None
            },
        }
    }

    fn tab_specific_key(&mut self, key: Key) -> (r: Option<Action>)
        ensures
            old(self).wf() ==> final(self).wf(),
            tab_post(*old(self), key, *final(self), r),
    {
        match self.active_tab {
            Tab::Library => match self.focus {
                Focus::Artists => self.artists_key(key),
                Focus::Albums => self.albums_key(key),
                Focus::Tracks => self.tracks_key(key),
                Focus::QueuePanel => self.queue_key(key),
                _ => None,
            },
            Tab::Search => self.search_tab_key(key),
            Tab::Queue => self.queue_key(key),
            Tab::Recent => self.recent_key(key),
            Tab::Playlists => match self.focus {
                Focus::Playlists => self.playlists_list_key(key),
                Focus::PlaylistTracks => self.playlist_tracks_key(key),
                _ => None,
            },
        }
    }
}

// ---------------------------------------------------------------------------------------------
// Favorites and ratings
// ---------------------------------------------------------------------------------------------

/// A mark the user puts on a track.
#[derive(Debug, Clone, Copy, PartialEq, Eq, Structural)]
pub enum Mark {
    /// Favorite or not.
    Favorite(bool),
    /// A rating from 1 to 5, or 0 for none.
    Rating(u8),
}

/// `v` with the mark `m`.
pub open spec fn with_mark(v: ItemView, m: Mark) -> ItemView {
    match m {
        Mark::Favorite(b) => ItemView { starred: b, ..v },
        Mark::Rating(x) => ItemView { user_rating: x, ..v },
    }
}

/// `s` with the mark `m` on every item whose id is `id`.
pub open spec fn marked_views(s: Seq<ItemView>, id: Seq<char>, m: Mark) -> Seq<ItemView> {
    s.map_values(|v: ItemView| if v.id == id { with_mark(v, m) } else { v })
}

/// Puts the mark `m` on every item of `v` whose id is `id`.
pub fn mark_in(v: &mut Vec<Item>, id: &String, m: Mark)
    ensures
        final(v)@.len() == old(v)@.len(),
        items_view(final(v)@) == marked_views(items_view(old(v)@), id@, m),
{
    let ghost before = v@;
    let mut i: usize = 0;
    while i < v.len()
        invariant
            v@.len() == before.len(),
            i <= v@.len(),
            forall|k: int| 0 <= k < i ==> (#[trigger] v@[k])@ == (if before[k]@.id == id@ {
                with_mark(before[k]@, m)
            } else {
                before[k]@
            }),
            forall|k: int| i <= k < v@.len() ==> #[trigger] v@[k] == before[k],
        decreases v@.len() - i,
    {
        if str_eq(v[i].id.as_str(), id.as_str()) {
            let mut it = v[i].clone();
            match m {
                Mark::Favorite(b) => it.starred = b,
                Mark::Rating(x) => it.user_rating = x,
            }
            v.set(i, it);
        }
        i = i + 1;
    }
    assert(items_view(v@) =~= marked_views(items_view(before), id@, m));
}

/// The track a favorite or rating key acts on: the track under the cursor (see
/// [`selected_audio_item`]), else the one the queue is at.
pub open spec fn mark_target(a: App) -> Option<Item> {
    match selected_audio_item(a) {
        Some(it) => Some(it),
        None => match item_at(a.queue.items@, a.queue.current) {
            Some(it) => Some(*it),
            None => None,
        },
    }
}

/// The rating that Control and a digit from 1 to 5 give.
pub open spec fn rating_digit(c: KeyCode) -> Option<u8> {
    match c {
        KeyCode::Char('1') => Some(1u8),
        KeyCode::Char('2') => Some(2u8),
        KeyCode::Char('3') => Some(3u8),
        KeyCode::Char('4') => Some(4u8),
        KeyCode::Char('5') => Some(5u8),
        _ => None,
    }
}

/// The keys that mark a track: `f` toggles its favorite, Control with 1 to 5 rates it, and
/// the backquote clears its rating.
pub open spec fn is_mark_key(k: Key) -> bool {
    k.code == KeyCode::Char('f') || k.code == KeyCode::Char('`') || (k.ctrl && rating_digit(k.code) is Some)
}

/// `r` asks the server for what the mark key `k` means on the track `t`: `f` for the
/// opposite of its favorite mark, the backquote for rating 0, Control with a digit for that
/// rating.
pub open spec fn mark_request_made(k: Key, t: Item, r: Option<Action>) -> bool {
    if k.code == KeyCode::Char('f') {
        r matches Some(Action::Fetch(Request::SetStarred { item_id, starred })) && item_id@ == t.id@
            && starred == !t.starred
    } else {
        r matches Some(Action::Fetch(Request::SetRating { item_id, rating })) && item_id@ == t.id@
            && rating == (if k.code == KeyCode::Char('`') { 0u8 } else { rating_digit(k.code)->0 })
    }
}

/// A mark key changes nothing at once: it asks the server to mark the track it acts on (see
/// [`mark_target`]); with no such track it does nothing. The tracks shown change when the
/// server agrees (see [`marks_applied`]).
pub open spec fn mark_post(o: App, k: Key, n: App, r: Option<Action>) -> bool {
    &&& n == o
    &&& match mark_target(o) {
        Some(t) => mark_request_made(k, t, r),
        None => r is None,
    }
}

/// Every track list shows the mark `m` on the tracks whose id is `id`; nothing else changed.
pub open spec fn marks_applied(o: App, id: Seq<char>, m: Mark, n: App) -> bool {
    &&& items_view(n.tracks@) == marked_views(items_view(o.tracks@), id, m)
    &&& items_view(n.search_results@) == marked_views(items_view(o.search_results@), id, m)
    &&& items_view(n.queue.items@) == marked_views(items_view(o.queue.items@), id, m)
    &&& items_view(n.recent_tracks@) == marked_views(items_view(o.recent_tracks@), id, m)
    &&& items_view(n.playlist_tracks@) == marked_views(items_view(o.playlist_tracks@), id, m)
    &&& n.queue == (Queue { items: n.queue.items, ..o.queue })
    &&& n == (App {
        tracks: n.tracks,
        search_results: n.search_results,
        queue: n.queue,
        recent_tracks: n.recent_tracks,
        playlist_tracks: n.playlist_tracks,
        ..o
    })
}

impl App {
    /// A mark key (see [`mark_post`]).
    fn mark_key(&mut self, key: Key) -> (r: Option<Action>)
        requires
            is_mark_key(key),
        ensures
            mark_post(*old(self), key, *final(self), r),
    {
        let target = match self.get_selected_audio_item() {
            Some(it) => Some(it),
            None => match self.queue.current_item() {
                Some(it) => Some(it.clone()),
                None => None,
            },
        };
        let t = match target {
            Some(t) => t,
            None => return None,
        };
        let rating: u8 = match key.code {
            KeyCode::Char('1') => 1,
            KeyCode::Char('2') => 2,
            KeyCode::Char('3') => 3,
            KeyCode::Char('4') => 4,
            KeyCode::Char('5') => 5,
            _ => 0,
        };
        match key.code {
            KeyCode::Char('f') => Some(Action::Fetch(Request::SetStarred { item_id: t.id, starred: !t.starred })),
            _ => Some(Action::Fetch(Request::SetRating { item_id: t.id, rating })),
        }
    }

    /// Puts the mark `m` on the tracks whose id is `id` in every track list (see
    /// [`marks_applied`]).
    fn apply_mark(&mut self, id: &String, m: Mark)
        ensures
            old(self).wf() ==> final(self).wf(),
            marks_applied(*old(self), id@, m, *final(self)),
    {
        mark_in(&mut self.tracks, id, m);
        mark_in(&mut self.search_results, id, m);
        mark_in(&mut self.queue.items, id, m);
        mark_in(&mut self.recent_tracks, id, m);
        mark_in(&mut self.playlist_tracks, id, m);
    }

    /// The server's reply to a mark request: on success the tracks show the new mark, on
    /// failure the status line gives the error.
    fn complete_mark(&mut self, request: Request, reply: Result<Vec<Item>, String>) -> (r: Option<Action>)
        requires
            request is SetStarred || request is SetRating,
        ensures
            old(self).wf() ==> final(self).wf(),
            complete_post(*old(self), request, reply, *final(self), r),
    {
        match request {
            Request::SetStarred { item_id, starred } => match reply {
                Ok(v) => self.apply_mark(&item_id, Mark::Favorite(starred)),
                Err(e) => self.fail("Failed to update favorite: ", e),
            },
            Request::SetRating { item_id, rating } => match reply {
                Ok(v) => self.apply_mark(&item_id, Mark::Rating(rating)),
                Err(e) => self.fail("Failed to set rating: ", e),
            },
            _ => {},
        }
        None
    }
}

// ---------------------------------------------------------------------------------------------
// A key press
// ---------------------------------------------------------------------------------------------

/// What a key press does. The first that applies decides: the help overlay, the
/// add-to-playlist popup, the playlist-name line, Esc in visual mode (which leaves it), the
/// filter line, the search line, the keys that mark a track, the global keys, and last the
/// keys of the active tab.
pub open spec fn key_post(o: App, k: Key, n: App, r: Option<Action>) -> bool {
    if o.show_help {
        help_post(o, k, n, r)
    } else if o.add_to_playlist_popup {
        popup_post(o, k, n, r)
    } else if o.playlist_create_mode {
        create_post(o, k, n, r)
    } else if o.visual_mode && k.code == KeyCode::Esc {
        r is None && n == (App { visual_mode: false, visual_anchor: None, ..o })
    } else if o.filter_active {
        filter_post(o, k, n, r)
    } else if o.search_focused {
        search_input_post(o, k, n, r)
    } else if is_mark_key(k) {
        mark_post(o, k, n, r)
    } else if is_global_key(k) {
        global_post(o, k, n, r)
    } else {
        tab_post(o, k, n, r)
    }
}

impl App {
    /// Handles a key press (see [`key_post`]) and returns the outside work it asks for.
    pub fn handle_key(&mut self, key: Key) -> (r: Option<Action>)
        ensures
            old(self).wf() ==> final(self).wf(),
            key_post(*old(self), key, *final(self), r),
    {
        if self.show_help {
            return self.help_key(key);
        }
        if self.add_to_playlist_popup {
            return self.popup_key(key);
        }
        if self.playlist_create_mode {
            return self.create_key(key);
        }
        if self.visual_mode && key.code == KeyCode::Esc {
            self.visual_mode = false;
            self.visual_anchor = None;
            return None;
        }
        if self.filter_active {
            return self.filter_key(key);
        }
        if self.search_focused {
            return self.search_input_key(key);
        }
        let mark = match key.code {
            KeyCode::Char(c) => c == 'f' || c == '`'
                || (key.ctrl && (c == '1' || c == '2' || c == '3' || c == '4' || c == '5')),
            _ => false,
        };
        if mark {
            return self.mark_key(key);
        }
        let global = match key.code {
            KeyCode::Char(c) => c == 'q' || c == '?' || c == '1' || c == '2' || c == '3' || c == '4'
                || c == '5' || c == 'a' || c == 'v' || c == ' ' || c == 'n' || c == 'N' || c == '+'
                || c == '=' || c == '-' || c == '>' || c == '<' || c == 'r' || c == 's',
            KeyCode::Tab | KeyCode::BackTab => true,
            _ => false,
        };
        if global {
            self.global_key(key)
        } else {
            self.tab_specific_key(key)
        }
    }
}

// ---------------------------------------------------------------------------------------------
// Server replies
// ---------------------------------------------------------------------------------------------

/// `n` is `o` with the status message set to `prefix` followed by the error text.
pub open spec fn failed(o: App, prefix: Seq<char>, e: String, n: App) -> bool {
    &&& says(n.status_message, prefix + e@)
    &&& n == (App { status_message: n.status_message, ..o })
}

/// The selection of a list after removing row `index` from it, `m` rows remaining: past the
/// end it moves to the new last row; an empty list has no selection.
pub open spec fn sel_after_remove(sel: Option<usize>, index: usize, m: nat) -> Option<usize> {
    if index >= m && m > 0 {
        Some((m - 1) as usize)
    } else if m == 0 {
        None
    } else {
        sel
    }
}

/// `s` without the element at `index`, when there is one.
pub open spec fn without(s: Seq<Item>, index: usize) -> Seq<Item> {
    if index < s.len() { s.remove(index as int) } else { s }
}

/// The message after adding tracks to a playlist: the track's name for one track, else the
/// number of tracks.
pub open spec fn added_text(count: nat, first: Seq<char>, playlist: Seq<char>) -> Seq<char> {
    if count == 1 {
        "Added \""@ + first + "\" to "@ + playlist
    } else {
        "Added "@ + decimal(count) + " tracks to "@ + playlist
    }
}

/// A playlist was deleted: a message says so, it leaves the list (the selection staying
/// within it), and if it was the open playlist, nothing is open any more.
pub open spec fn deleted_post(o: App, index: usize, playlist_id: String, playlist_name: String, n: App) -> bool {
    let m = without(o.playlists@, index).len();
    let open = o.selected_playlist_id matches Some(id) && id@ == playlist_id@;
    &&& says(n.status_message, "Deleted playlist: "@ + playlist_name@)
    &&& n.playlists@ == without(o.playlists@, index)
    &&& (open ==> n.playlist_tracks@.len() == 0)
    &&& n == (App {
        status_message: n.status_message,
        playlists: n.playlists,
        playlist_state: sel_after_remove(o.playlist_state, index, m),
        selected_playlist_id: if open { None } else { o.selected_playlist_id },
        selected_playlist_name: if open { None } else { o.selected_playlist_name },
        playlist_tracks: if open { n.playlist_tracks } else { o.playlist_tracks },
        ..o
    })
}

/// What a reply to a list request does on success: the list is replaced, its selection goes
/// to the first row (none for an empty list).
pub open spec fn complete_post(o: App, q: Request, reply: Result<Vec<Item>, String>, n: App, r: Option<Action>) -> bool {
    match q {
        Request::Artists => r is None && match reply {
            Ok(v) => {
                let mid = if v@.len() > 0 { Some(0usize) } else { o.artist_state };
                &&& n.artists == v
                &&& n.filtered_artist_indices@ == filter_positions(v@, o.filter_text@)
                &&& n.artist_state == filter_selection(mid, filter_positions(v@, o.filter_text@).len())
                &&& n == (App {
                    artists: n.artists,
                    filtered_artist_indices: n.filtered_artist_indices,
                    artist_state: n.artist_state,
                    ..o
                })
            },
            Err(e) => failed(o, "Failed to load artists: "@, e, n),
        },
        Request::ArtistAlbums { artist_id } => r is None && match reply {
            Ok(v) => {
                &&& n.tracks@.len() == 0
                &&& n == (App {
                    albums: v,
                    album_state: Some(0usize),
                    selected_album_name: None,
                    tracks: n.tracks,
                    track_state: None,
                    ..o
                })
            },
            Err(e) => failed(o, "Failed to load albums: "@, e, n),
        },
        Request::SearchArtistAlbums { artist_id, artist_name } => r is None && match reply {
            Ok(v) => {
                &&& n.tracks@.len() == 0
                &&& n == (App {
                    albums: v,
                    album_state: Some(0usize),
                    selected_artist_name: Some(artist_name),
                    selected_album_name: None,
                    tracks: n.tracks,
                    track_state: None,
                    active_tab: Tab::Library,
                    focus: Focus::Albums,
                    ..o
                })
            },
            Err(e) => failed(o, "Failed to load artist: "@, e, n),
        },
        Request::ArtistTracks { artist_id } => r is None && match reply {
            Ok(v) => n == (App { track_state: first_row(v@.len()), tracks: v, ..o }),
            Err(e) => failed(o, "Failed to load tracks: "@, e, n),
        },
        Request::AlbumTracks { album_id } => r is None && match reply {
            Ok(v) => n == (App { track_state: first_row(v@.len()), tracks: v, ..o }),
            Err(e) => failed(o, "Failed to load tracks: "@, e, n),
        },
        Request::SearchAlbumTracks { album_id, artist_name, album_name } => r is None && match reply {
            Ok(v) => n == (App {
                track_state: first_row(v@.len()),
                tracks: v,
                selected_artist_name: Some(artist_name),
                selected_album_name: Some(album_name),
                active_tab: Tab::Library,
                focus: Focus::Tracks,
                ..o
            }),
            Err(e) => failed(o, "Failed to load album: "@, e, n),
        },
        Request::Search { query } => r is None && match reply {
            Ok(v) => n == (App { search_state: first_row(v@.len()), search_results: v, ..o }),
            Err(e) => failed(o, "Search failed: "@, e, n),
        },
        Request::Recent { limit } => r is None && match reply {
            Ok(v) => n == (App { recent_state: first_row(v@.len()), recent_tracks: v, recent_loaded: true, ..o }),
            Err(e) => failed(o, "Failed to load recent: "@, e, n),
        },
        Request::Playlists { for_popup } => r is None && {
            let loaded = match reply {
                Ok(v) => App { playlist_state: first_row(v@.len()), playlists: v, playlists_loaded: true, ..o },
                Err(e) => App { status_message: n.status_message, ..o },
            };
            &&& (reply matches Err(e) ==> says(n.status_message, "Failed to load playlists: "@ + e@))
            &&& n == (if for_popup && loaded.add_to_playlist_state is None && loaded.playlists@.len() > 0 {
                App { add_to_playlist_state: Some(0usize), ..loaded }
            } else {
                loaded
            })
        },
        Request::PlaylistTracks { playlist_id } => r is None && match reply {
            Ok(v) => n == (App { playlist_track_state: first_row(v@.len()), playlist_tracks: v, ..o }),
            Err(e) => failed(o, "Failed to load playlist tracks: "@, e, n),
        },
        Request::CreatePlaylist { name } => match reply {
            Ok(v) => {
                &&& says(n.status_message, "Created playlist: "@ + name@)
                &&& n == (App { status_message: n.status_message, ..o })
                &&& r == Some(Action::Fetch(Request::Playlists { for_popup: false }))
            },
            Err(e) => r is None && failed(o, "Failed to create playlist: "@, e, n),
        },
        Request::DeletePlaylist { index, playlist_id, playlist_name } => r is None && match reply {
            Ok(v) => deleted_post(o, index, playlist_id, playlist_name, n),
            Err(e) => failed(o, "Failed to delete playlist: "@, e, n),
        },
        Request::RemoveFromPlaylist { playlist_id, entry_id, index, track_name } => r is None && match reply {
            Ok(v) => {
                let m = without(o.playlist_tracks@, index).len();
                &&& says(n.status_message, "Removed: "@ + track_name@)
                &&& n.playlist_tracks@ == without(o.playlist_tracks@, index)
                &&& n == (App {
                    status_message: n.status_message,
                    playlist_tracks: n.playlist_tracks,
                    playlist_track_state: sel_after_remove(o.playlist_track_state, index, m),
                    ..o
                })
            },
            Err(e) => failed(o, "Failed to remove track: "@, e, n),
        },
        Request::AddToPlaylist { playlist_id, playlist_name, ids, first_name } => match reply {
            Ok(v) => {
                &&& says(n.status_message, added_text(ids@.len(), first_name@, playlist_name@))
                &&& n == (App { status_message: n.status_message, ..o })
                &&& r == (match o.selected_playlist_id {
                    Some(id) => if id@ == playlist_id@ {
                        Some(Action::Fetch(Request::PlaylistTracks { playlist_id: id }))
                    } else {
                        None
                    },
                    None => None,
                })
            },
            Err(e) => r is None && failed(o, "Failed to add to playlist: "@, e, n),
        },
        Request::Ping => r is None && match reply {
            Ok(v) => n == o,
            Err(e) => failed(o, "Connection check failed: "@, e, n),
        },
        Request::SetStarred { item_id, starred } => r is None && match reply {
            Ok(v) => marks_applied(o, item_id@, Mark::Favorite(starred), n),
            Err(e) => failed(o, "Failed to update favorite: "@, e, n),
        },
        Request::SetRating { item_id, rating } => r is None && match reply {
            Ok(v) => marks_applied(o, item_id@, Mark::Rating(rating), n),
            Err(e) => failed(o, "Failed to set rating: "@, e, n),
        },
    }
}

/// A request for the library tab's lists.
pub open spec fn is_library_request(q: Request) -> bool {
    q is Artists || q is ArtistAlbums || q is SearchArtistAlbums || q is ArtistTracks || q is AlbumTracks
        || q is SearchAlbumTracks
}

/// A request for the search results, the recent tracks or the playlists.
pub open spec fn is_list_request(q: Request) -> bool {
    q is Search || q is Recent || q is Playlists || q is PlaylistTracks
}

/// A request that changes playlists on the server.
pub open spec fn is_edit_request(q: Request) -> bool {
    q is CreatePlaylist || q is DeletePlaylist || q is RemoveFromPlaylist || q is AddToPlaylist
}

/// `prefix` followed by `rest`.
fn joined(prefix: &str, rest: &str) -> (s: String)
    ensures
        s@ == prefix@ + rest@,
{
    let mut s = String::new();
    push_all(&mut s, prefix);
    push_all(&mut s, rest);
    s
}

/// Removes the element at `index` from `v` when there is one.
fn remove_if_present(v: &mut Vec<Item>, index: usize)
    ensures
        final(v)@ == without(old(v)@, index),
{
    if index < v.len() {
        v.remove(index);
    }
}

impl App {
    fn fail(&mut self, prefix: &str, e: String)
        ensures
            failed(*old(self), prefix@, e, *final(self)),
    {
        self.status_message = Some(joined(prefix, e.as_str()));
    }

    /// Takes in the server's reply to a request (see [`complete_post`]) and returns the
    /// follow-up work it asks for.
    pub fn complete(&mut self, request: Request, reply: Result<Vec<Item>, String>) -> (r: Option<Action>)
        ensures
            old(self).wf() ==> final(self).wf(),
            complete_post(*old(self), request, reply, *final(self), r),
    {
        let group: u8 = match &request {
            Request::Artists | Request::ArtistAlbums { .. } | Request::SearchArtistAlbums { .. }
            | Request::ArtistTracks { .. } | Request::AlbumTracks { .. } | Request::SearchAlbumTracks { .. } => 0,
            Request::Search { .. } | Request::Recent { .. } | Request::Playlists { .. }
            | Request::PlaylistTracks { .. } => 1,
            Request::Ping => 3,
            Request::SetStarred { .. } | Request::SetRating { .. } => 4,
            _ => 2,
        };
        if let Request::Ping = request {
            if let Err(e) = reply {
                self.fail("Connection check failed: ", e);
            }
            return None;
        }
        if group == 4 {
            self.complete_mark(request, reply)
        } else if group == 0 {
            self.complete_library(request, reply)
        } else if group == 1 {
            self.complete_lists(request, reply)
        } else {
            self.complete_edits(request, reply)
        }
    }

    #[verifier::spinoff_prover]
    #[verifier::rlimit(90)]
    fn complete_library(&mut self, request: Request, reply: Result<Vec<Item>, String>) -> (r: Option<Action>)
        requires
            is_library_request(request),
        ensures
            old(self).wf() ==> final(self).wf(),
            complete_post(*old(self), request, reply, *final(self), r),
    {
        match request {
            Request::Artists => {
                match reply {
                    Ok(v) => {
                        let nonempty = v.len() > 0;
                        self.artists = v;
                        if nonempty {
                            self.artist_state = Some(0);
                        }
                        self.rebuild_filter();
                    },
                    Err(e) => self.fail("Failed to load artists: ", e),
                }
                None
            },
            Request::ArtistAlbums { artist_id } => {
                match reply {
                    Ok(v) => {
                        self.albums = v;
                        self.album_state = Some(0);
                        self.selected_album_name = None;
                        self.tracks = Vec::new();
                        self.track_state = None;
                    },
                    Err(e) => self.fail("Failed to load albums: ", e),
                }
                None
            },
            Request::SearchArtistAlbums { artist_id, artist_name } => {
                match reply {
                    Ok(v) => {
                        self.albums = v;
                        self.album_state = Some(0);
                        self.selected_artist_name = Some(artist_name);
                        self.selected_album_name = None;
                        self.tracks = Vec::new();
                        self.track_state = None;
                        self.active_tab = Tab::Library;
                        self.focus = Focus::Albums;
                    },
                    Err(e) => self.fail("Failed to load artist: ", e),
                }
                None
            },
            Request::ArtistTracks { artist_id } => {
                match reply {
                    Ok(v) => {
                        self.track_state = first_of(v.len());
                        self.tracks = v;
                    },
                    Err(e) => self.fail("Failed to load tracks: ", e),
                }
                None
            },
            Request::AlbumTracks { album_id } => {
                match reply {
                    Ok(v) => {
                        self.track_state = first_of(v.len());
                        self.tracks = v;
                    },
                    Err(e) => self.fail("Failed to load tracks: ", e),
                }
                None
            },
            Request::SearchAlbumTracks { album_id, artist_name, album_name } => {
                match reply {
                    Ok(v) => {
                        self.track_state = first_of(v.len());
                        self.tracks = v;
                        self.selected_artist_name = Some(artist_name);
                        self.selected_album_name = Some(album_name);
                        self.active_tab = Tab::Library;
                        self.focus = Focus::Tracks;
                    },
                    Err(e) => self.fail("Failed to load album: ", e),
                }
                None
            },
            _ => None,
        }
    }

    fn complete_playlists(&mut self, for_popup: bool, reply: Result<Vec<Item>, String>) -> (r: Option<Action>)
        ensures
            old(self).wf() ==> final(self).wf(),
            complete_post(*old(self), Request::Playlists { for_popup }, reply, *final(self), r),
    {
        match reply {
            Ok(v) => {
                self.playlist_state = first_of(v.len());
                self.playlists = v;
                self.playlists_loaded = true;
            },
            Err(e) => self.fail("Failed to load playlists: ", e),
        }
        if for_popup && self.add_to_playlist_state.is_none() && self.playlists.len() > 0 {
            self.add_to_playlist_state = Some(0);
        }
        None
    }

    #[verifier::spinoff_prover]
    #[verifier::rlimit(40)]
    fn complete_lists(&mut self, request: Request, reply: Result<Vec<Item>, String>) -> (r: Option<Action>)
        requires
            is_list_request(request),
        ensures
            old(self).wf() ==> final(self).wf(),
            complete_post(*old(self), request, reply, *final(self), r),
    {
        match request {
            Request::Search { query } => {
                match reply {
                    Ok(v) => {
                        self.search_state = first_of(v.len());
                        self.search_results = v;
                    },
                    Err(e) => self.fail("Search failed: ", e),
                }
                None
            },
            Request::Recent { limit } => {
                match reply {
                    Ok(v) => {
                        self.recent_state = first_of(v.len());
                        self.recent_tracks = v;
                        self.recent_loaded = true;
                    },
                    Err(e) => self.fail("Failed to load recent: ", e),
                }
                None
            },
            Request::Playlists { for_popup } => self.complete_playlists(for_popup, reply),
            Request::PlaylistTracks { playlist_id } => {
                match reply {
                    Ok(v) => {
                        self.playlist_track_state = first_of(v.len());
                        self.playlist_tracks = v;
                    },
                    Err(e) => self.fail("Failed to load playlist tracks: ", e),
                }
                None
            },
            _ => None,
        }
    }

    #[verifier::spinoff_prover]
    #[verifier::rlimit(40)]
    fn complete_edits(&mut self, request: Request, reply: Result<Vec<Item>, String>) -> (r: Option<Action>)
        requires
            is_edit_request(request),
        ensures
            old(self).wf() ==> final(self).wf(),
            complete_post(*old(self), request, reply, *final(self), r),
    {
        match request {
            Request::CreatePlaylist { name } => {
                match reply {
                    Ok(v) => {
                        self.status_message = Some(joined("Created playlist: ", name.as_str()));
                        Some(Action::Fetch(Request::Playlists { for_popup: false }))
                    },
                    Err(e) => {
                        self.fail("Failed to create playlist: ", e);
                        None
                    },
                }
            },
            Request::DeletePlaylist { index, playlist_id, playlist_name } => {
                match reply {
                    Ok(v) => self.playlist_deleted(index, playlist_id, playlist_name),
                    Err(e) => self.fail("Failed to delete playlist: ", e),
                }
                None
            },
            Request::RemoveFromPlaylist { playlist_id, entry_id, index, track_name } => {
                match reply {
                    Ok(v) => {
                        self.status_message = Some(joined("Removed: ", track_name.as_str()));
                        remove_if_present(&mut self.playlist_tracks, index);
                        let m = self.playlist_tracks.len();
                        if index >= m && m > 0 {
                            self.playlist_track_state = Some(m - 1);
                        } else if m == 0 {
                            self.playlist_track_state = None;
                        }
                    },
                    Err(e) => self.fail("Failed to remove track: ", e),
                }
                None
            },
            Request::AddToPlaylist { playlist_id, playlist_name, ids, first_name } => {
                match reply {
                    Ok(v) => {
                        let count = ids.len();
                        let mut msg = String::new();
                        if count == 1 {
                            push_all(&mut msg, "Added \"");
                            push_all(&mut msg, first_name.as_str());
                            push_all(&mut msg, "\" to ");
                        } else {
                            push_all(&mut msg, "Added ");
                            push_decimal(&mut msg, count as u64);
                            push_all(&mut msg, " tracks to ");
                        }
                        push_all(&mut msg, playlist_name.as_str());
                        proof {
                            reveal_strlit("Added \"");
                            reveal_strlit("\" to ");
                            reveal_strlit("Added ");
                            reveal_strlit(" tracks to ");
                            assert(msg@ =~= added_text(ids@.len(), first_name@, playlist_name@));
                        }
                        self.status_message = Some(msg);
                        match &self.selected_playlist_id {
                            Some(id) => if str_eq(id.as_str(), playlist_id.as_str()) {
                                Some(Action::Fetch(Request::PlaylistTracks { playlist_id: id.clone() }))
                            } else {
                                None
                            },
                            None => None,
                        }
                    },
                    Err(e) => {
                        self.fail("Failed to add to playlist: ", e);
                        None
                    },
                }
            },
            _ => None,
        }
    }

    #[verifier::spinoff_prover]
    #[verifier::rlimit(40)]
    fn playlist_deleted(&mut self, index: usize, playlist_id: String, playlist_name: String)
        ensures
            deleted_post(*old(self), index, playlist_id, playlist_name, *final(self)),
    {
        self.status_message = Some(joined("Deleted playlist: ", playlist_name.as_str()));
        remove_if_present(&mut self.playlists, index);
        let m = self.playlists.len();
        if index >= m && m > 0 {
            self.playlist_state = Some(m - 1);
        } else if m == 0 {
            self.playlist_state = None;
        }
        let open = match &self.selected_playlist_id {
            Some(id) => str_eq(id.as_str(), playlist_id.as_str()),
            None => false,
        };
        if open {
            self.selected_playlist_id = None;
            self.selected_playlist_name = None;
            self.playlist_tracks = Vec::new();
        }
    }
}

// ---------------------------------------------------------------------------------------------
// Keeping the session checked
// ---------------------------------------------------------------------------------------------

/// Ticks of the event loop between two checks of the server: five minutes at ten ticks a
/// second.
pub const KEEPALIVE_TICKS: u32 = 3000;

/// What a tick does: the tick that completes [`KEEPALIVE_TICKS`] asks for a check of the
/// server and restarts the count; any other tick only counts.
pub open spec fn tick_post(o: App, n: App, r: Option<Action>) -> bool {
    if o.ticks_since_ping + 1 >= KEEPALIVE_TICKS {
        &&& r == Some(Action::Fetch(Request::Ping))
        &&& n == (App { ticks_since_ping: 0, ..o })
    } else {
        &&& r is None
        &&& n == (App { ticks_since_ping: (o.ticks_since_ping + 1) as u32, ..o })
    }
}

/// Before the first check, each tick adds one to the count.
proof fn lemma_ticks_count_up(states: Seq<App>, acts: Seq<Option<Action>>, k: int)
    requires
        states.len() == acts.len() + 1,
        forall|i: int| 0 <= i < acts.len() ==> tick_post(#[trigger] states[i], states[i + 1], acts[i]),
        0 <= k <= acts.len(),
        forall|i: int| 0 <= i < k ==> (#[trigger] acts[i]) is None,
    ensures
        states[k].ticks_since_ping == states[0].ticks_since_ping + k,
    decreases k,
{
    if k > 0 {
        lemma_ticks_count_up(states, acts, k - 1);
        assert(tick_post(states[k - 1], states[k], acts[k - 1]));
        assert(acts[k - 1] is None);
    }
}

/// The session is kept checked: from any state, among [`KEEPALIVE_TICKS`] ticks in a row one
/// asks for a check of the server.
pub proof fn lemma_keepalive_within_period(states: Seq<App>, acts: Seq<Option<Action>>)
    requires
        acts.len() == KEEPALIVE_TICKS,
        states.len() == acts.len() + 1,
        forall|i: int| 0 <= i < acts.len() ==> tick_post(#[trigger] states[i], states[i + 1], acts[i]),
    ensures
        exists|i: int| 0 <= i < acts.len() && #[trigger] acts[i] == Some(Action::Fetch(Request::Ping)),
{
    let t = states[0].ticks_since_ping;
    let k: int = if t + 1 >= KEEPALIVE_TICKS { 0 } else { KEEPALIVE_TICKS - 1 - t };
    if forall|i: int| 0 <= i < k ==> (#[trigger] acts[i]) is None {
        lemma_ticks_count_up(states, acts, k);
        assert(tick_post(states[k], states[k + 1], acts[k]));
        assert(acts[k] == Some(Action::Fetch(Request::Ping)));
    } else {
        let i = choose|i: int| 0 <= i < k && !((#[trigger] acts[i]) is None);
        assert(tick_post(states[i], states[i + 1], acts[i]));
        assert(acts[i] == Some(Action::Fetch(Request::Ping)));
    }
}

/// A failed check of the server is shown: the status line gives the error.
pub proof fn lemma_failed_check_shown(o: App, e: String, n: App, r: Option<Action>)
    requires
        complete_post(o, Request::Ping, Err(e), n, r),
    ensures
        says(n.status_message, "Connection check failed: "@ + e@),
        r is None,
{
}

impl App {
    /// Counts a tick of the event loop; every [`KEEPALIVE_TICKS`] ticks the server is checked,
    /// so that a lost connection or rejected credentials show early.
    pub fn on_tick(&mut self) -> (r: Option<Action>)
        ensures
            tick_post(*old(self), *final(self), r),
    {
        if self.ticks_since_ping >= KEEPALIVE_TICKS - 1 {
            self.ticks_since_ping = 0;
            Some(Action::Fetch(Request::Ping))
        } else {
            self.ticks_since_ping = self.ticks_since_ping + 1;
            None
        }
    }
}

// ---------------------------------------------------------------------------------------------
// Player reports and media keys
// ---------------------------------------------------------------------------------------------

impl App {
    /// Takes in a playback state reported by the player. When the track has just finished,
    /// the queue advances (see [`next_post`]; the first action plays the next track); when
    /// pause or playing changed, the second action reports the new state to the media
    /// controls.
    pub fn on_player_state(&mut self, state: PlayerState) -> (r: (Option<Action>, Option<Action>))
        ensures
            old(self).wf() ==> final(self).wf(),
            ({
                let mid = App { player_state: state, ..*old(self) };
                if state.finished && !old(self).player_state.finished {
                    next_post(mid, *final(self), r.0)
                } else {
                    *final(self) == mid && r.0 is None
                }
            }),
            r.1 == (if state.paused != old(self).player_state.paused || state.playing != old(self).player_state.playing {
                Some(Action::ReportPlayback { playing: state.playing, paused: state.paused })
            } else {
                None
            }),
    {
        let was = self.player_state;
        self.player_state = state;
        let advance = if state.finished && !was.finished { self.play_next() } else { None };
        let report = if state.paused != was.paused || state.playing != was.playing {
            Some(Action::ReportPlayback { playing: state.playing, paused: state.paused })
        } else {
            None
        };
        (advance, report)
    }

    /// Takes in a media key: toggle pauses or resumes, next and previous move in the queue
    /// (see [`next_post`], [`prev_post`]).
    pub fn on_media_event(&mut self, event: MediaEvent) -> (r: Option<Action>)
        ensures
            old(self).wf() ==> final(self).wf(),
            match event {
                MediaEvent::Toggle => *final(self) == *old(self) && r == Some(Action::Player(PlayerCommand::TogglePause)),
                MediaEvent::Next => next_post(*old(self), *final(self), r),
                MediaEvent::Prev => prev_post(*old(self), *final(self), r),
            },
    {
        match event {
            MediaEvent::Toggle => Some(Action::Player(PlayerCommand::TogglePause)),
            MediaEvent::Next => self.play_next(),
            MediaEvent::Prev => self.play_prev(),
        }
    }
}

// ---------------------------------------------------------------------------------------------
// Properties of the key bindings
// ---------------------------------------------------------------------------------------------

/// No overlay, popup or input line takes the keys: they reach the global and tab keys.
pub open spec fn keys_reach_tabs(a: App) -> bool {
    &&& !a.show_help
    &&& !a.add_to_playlist_popup
    &&& !a.playlist_create_mode
    &&& !a.filter_active
    &&& !a.search_focused
}

/// The selected row of the track list that `which` plays from.
pub open spec fn sel_for(a: App, which: Tab) -> Option<usize> {
    match which {
        Tab::Library => a.track_state,
        Tab::Recent => a.recent_state,
        _ => a.playlist_track_state,
    }
}

/// The app shows the track list that `which` plays from: the library's tracks, the recent
/// tracks, or an open playlist's tracks.
pub open spec fn shows_track_list(a: App, which: Tab) -> bool {
    match which {
        Tab::Library => a.active_tab == Tab::Library && a.focus == Focus::Tracks,
        Tab::Recent => a.active_tab == Tab::Recent,
        Tab::Playlists => a.active_tab == Tab::Playlists && a.focus == Focus::PlaylistTracks,
        _ => false,
    }
}

/// The key with this code, without Control.
pub open spec fn plain_key(c: KeyCode) -> Key {
    Key { code: c, ctrl: false }
}

/// `?` opens the help overlay and `?` again closes it, leaving everything as it was.
pub proof fn lemma_help_toggles(o: App, n1: App, r1: Option<Action>, n2: App, r2: Option<Action>)
    requires
        keys_reach_tabs(o),
        key_post(o, plain_key(KeyCode::Char('?')), n1, r1),
        key_post(n1, plain_key(KeyCode::Char('?')), n2, r2),
    ensures
        n1.show_help,
        r1 is None,
        r2 is None,
        n2 == o,
{
}

/// Tab and then Shift-Tab give the focus back to the panel it was on.
pub proof fn lemma_focus_cycle_undone(o: App, n1: App, r1: Option<Action>, n2: App, r2: Option<Action>)
    requires
        keys_reach_tabs(o),
        key_post(o, plain_key(KeyCode::Tab), n1, r1),
        key_post(n1, plain_key(KeyCode::BackTab), n2, r2),
    ensures
        n2 == o,
        r1 is None,
        r2 is None,
{
}

/// The key that cycles the focus forward (Tab) or backward (Shift-Tab).
pub open spec fn cycle_key(forward: bool) -> Key {
    plain_key(if forward { KeyCode::Tab } else { KeyCode::BackTab })
}

/// On the library tab, four presses of Tab (or of Shift-Tab) go through artists, albums,
/// tracks and queue and bring the focus, and everything else, back to where it was.
pub proof fn lemma_tab_cycles_library(
    o: App,
    forward: bool,
    n1: App,
    r1: Option<Action>,
    n2: App,
    r2: Option<Action>,
    n3: App,
    r3: Option<Action>,
    n4: App,
    r4: Option<Action>,
)
    requires
        keys_reach_tabs(o),
        o.active_tab == Tab::Library,
        key_post(o, cycle_key(forward), n1, r1),
        key_post(n1, cycle_key(forward), n2, r2),
        key_post(n2, cycle_key(forward), n3, r3),
        key_post(n3, cycle_key(forward), n4, r4),
    ensures
        n4 == o,
        is_library_focus(o.focus) ==> n1.focus != o.focus && n2.focus != o.focus && n3.focus != o.focus,
        r1 is None && r2 is None && r3 is None && r4 is None,
{
}

/// On the playlists tab, two presses of Tab (or of Shift-Tab) go from the playlist list to
/// its tracks and back, leaving everything as it was.
pub proof fn lemma_tab_cycles_playlists(o: App, forward: bool, n1: App, r1: Option<Action>, n2: App, r2: Option<Action>)
    requires
        keys_reach_tabs(o),
        o.active_tab == Tab::Playlists,
        key_post(o, cycle_key(forward), n1, r1),
        key_post(n1, cycle_key(forward), n2, r2),
    ensures
        n2 == o,
        (o.focus == Focus::Playlists || o.focus == Focus::PlaylistTracks) ==> n1.focus != o.focus,
        r1 is None && r2 is None,
{
}

/// On the search, queue and recent tabs Tab and Shift-Tab change nothing.
pub proof fn lemma_tab_elsewhere_keeps_focus(o: App, forward: bool, n: App, r: Option<Action>)
    requires
        keys_reach_tabs(o),
        o.active_tab == Tab::Search || o.active_tab == Tab::Queue || o.active_tab == Tab::Recent,
        key_post(o, cycle_key(forward), n, r),
    ensures
        n == o,
        r is None,
{
}

/// Pressing `r` three times brings the repeat mode, and everything else, back.
pub proof fn lemma_repeat_three_times(
    o: App,
    n1: App,
    r1: Option<Action>,
    n2: App,
    r2: Option<Action>,
    n3: App,
    r3: Option<Action>,
)
    requires
        keys_reach_tabs(o),
        key_post(o, plain_key(KeyCode::Char('r')), n1, r1),
        key_post(n1, plain_key(KeyCode::Char('r')), n2, r2),
        key_post(n2, plain_key(KeyCode::Char('r')), n3, r3),
    ensures
        n3 == o,
        n1.queue.repeat != o.queue.repeat,
{
    crate::player::queue::lemma_repeat_cycle(o.queue.repeat);
    assert(n3.queue == o.queue);
}

/// `v` twice enters and leaves visual mode; only the anchor is dropped.
pub proof fn lemma_visual_toggles(o: App, n1: App, r1: Option<Action>, n2: App, r2: Option<Action>)
    requires
        keys_reach_tabs(o),
        !o.visual_mode,
        key_post(o, plain_key(KeyCode::Char('v')), n1, r1),
        key_post(n1, plain_key(KeyCode::Char('v')), n2, r2),
    ensures
        n1.visual_mode,
        n1.visual_anchor == current_cursor(o),
        n2 == (App { visual_anchor: None, ..o }),
{
}

/// With shuffle off and repeat not One, `n` from the item at `p` plays the item at `p + 1`
/// and moves the queue there; the queue list is unchanged.
pub proof fn lemma_next_plays_following(o: App, n: App, r: Option<Action>, p: usize)
    requires
        o.wf(),
        keys_reach_tabs(o),
        o.queue.current == Some(p),
        p + 1 < o.queue.items@.len(),
        !o.queue.shuffle,
        o.queue.repeat != RepeatMode::One,
        key_post(o, plain_key(KeyCode::Char('n')), n, r),
    ensures
        plays(r, o.queue.items@[p + 1]),
        n.queue.current == Some((p + 1) as usize),
        n.queue.items == o.queue.items,
        n.queue_state == Some((p + 1) as usize),
{
    let c = next_position(o.queue.items@.len(), o.queue.current, o.queue.repeat, o.queue.shuffle, o.queue.order());
    assert(o.queue.items@.len() == o.queue.items.len());
    assert((p + 1) as usize as int == p + 1);
    assert(c == Some((p + 1) as usize));
    assert(item_at(o.queue.items@, c) == Some(&o.queue.items@[p + 1]));
}

/// After `k` presses of `n` from the item at `p` (shuffle off, repeat not One, the queue long
/// enough), the queue is at `p + k` and nothing else about it or the key handling changed.
proof fn lemma_next_walk_state(states: Seq<App>, acts: Seq<Option<Action>>, p: usize, k: int)
    requires
        states.len() == acts.len() + 1,
        0 <= k <= acts.len(),
        states[0].wf(),
        keys_reach_tabs(states[0]),
        states[0].queue.current == Some(p),
        !states[0].queue.shuffle,
        states[0].queue.repeat != RepeatMode::One,
        p + acts.len() < states[0].queue.items@.len(),
        forall|i: int| 0 <= i < acts.len() ==> key_post(#[trigger] states[i], plain_key(KeyCode::Char('n')), states[i + 1], acts[i]),
    ensures
        states[k].wf(),
        keys_reach_tabs(states[k]),
        states[k].queue.current == Some((p + k) as usize),
        states[k].queue.items == states[0].queue.items,
        states[k].queue.shuffle == states[0].queue.shuffle,
        states[k].queue.repeat == states[0].queue.repeat,
        states[k].queue.order() == states[0].queue.order(),
    decreases k,
{
    assert(states[0].queue.items@.len() == states[0].queue.items.len());
    if k > 0 {
        lemma_next_walk_state(states, acts, p, k - 1);
        let o = states[k - 1];
        assert((p + k - 1) as usize as int == p + k - 1);
        assert(key_post(o, plain_key(KeyCode::Char('n')), states[k], acts[k - 1]));
        lemma_next_plays_following(o, states[k], acts[k - 1], (p + k - 1) as usize);
    }
}

/// With shuffle off and repeat not One, pressing `n` again and again from the item at `p`
/// plays the following items of the queue in order, one per press, up to its end.
pub proof fn lemma_next_walks_queue(states: Seq<App>, acts: Seq<Option<Action>>, p: usize)
    requires
        states.len() == acts.len() + 1,
        states[0].wf(),
        keys_reach_tabs(states[0]),
        states[0].queue.current == Some(p),
        !states[0].queue.shuffle,
        states[0].queue.repeat != RepeatMode::One,
        p + acts.len() < states[0].queue.items@.len(),
        forall|i: int| 0 <= i < acts.len() ==> key_post(#[trigger] states[i], plain_key(KeyCode::Char('n')), states[i + 1], acts[i]),
    ensures
        forall|i: int| 0 <= i < acts.len() ==> plays(#[trigger] acts[i], states[0].queue.items@[p + i + 1]),
{
    assert forall|i: int| 0 <= i < acts.len() implies plays(#[trigger] acts[i], states[0].queue.items@[p + i + 1]) by {
        lemma_next_walk_state(states, acts, p, i);
        assert(states[0].queue.items@.len() == states[0].queue.items.len());
        assert((p + i) as usize as int == p + i);
        assert(key_post(states[i], plain_key(KeyCode::Char('n')), states[i + 1], acts[i]));
        lemma_next_plays_following(states[i], states[i + 1], acts[i], (p + i) as usize);
    }
}

/// Enter on a track list (the library's tracks, the recent tracks or a playlist's tracks)
/// plays the selected track with the queue replaced by the whole list; with shuffle off and
/// repeat not One, `n` then plays the track after it in the list.
pub proof fn lemma_enter_then_next(
    o: App,
    which: Tab,
    idx: usize,
    n1: App,
    r1: Option<Action>,
    n2: App,
    r2: Option<Action>,
)
    requires
        o.wf(),
        keys_reach_tabs(o),
        shows_track_list(o, which),
        sel_for(o, which) == Some(idx),
        idx + 1 < list_for(o, which).len(),
        !o.queue.shuffle,
        o.queue.repeat != RepeatMode::One,
        key_post(o, plain_key(KeyCode::Enter), n1, r1),
        key_post(n1, plain_key(KeyCode::Char('n')), n2, r2),
    ensures
        plays(r1, list_for(o, which)[idx as int]),
        plays(r2, list_for(o, which)[idx + 1]),
        n2.queue.current == Some((idx + 1) as usize),
{
    let list = list_for(o, which);
    assert(queue_replaced(o.queue, list, idx, n1.queue));
    assert(n1.queue.items@.len() == list.len()) by {
        assert(items_view(n1.queue.items@).len() == n1.queue.items@.len());
        assert(items_view(list).len() == list.len());
    }
    assert(n1.queue.items@[idx + 1]@ == list[idx + 1]@) by {
        assert(items_view(n1.queue.items@)[idx + 1] == items_view(list)[idx + 1]);
    }
    lemma_next_plays_following(n1, n2, r2, idx);
}

/// `e` on a track list adds the selected track at the end of the queue and asks nothing of
/// the player: the queued items stay, and a queue that had a position keeps it.
pub proof fn lemma_enqueue_keeps_playback(o: App, which: Tab, n: App, r: Option<Action>)
    requires
        o.wf(),
        keys_reach_tabs(o),
        shows_track_list(o, which),
        at_row(list_for(o, which), sel_for(o, which)) is Some,
        key_post(o, plain_key(KeyCode::Char('e')), n, r),
    ensures
        r is None,
        n.queue.items@.len() == o.queue.items@.len() + 1,
        forall|i: int| 0 <= i < o.queue.items@.len() ==> #[trigger] n.queue.items@[i]@ == o.queue.items@[i]@,
        n.queue.items@[o.queue.items@.len() as int]@ == at_row(list_for(o, which), sel_for(o, which))->0@,
        o.queue.current is Some ==> n.queue.current == o.queue.current,
{
    let t = at_row(list_for(o, which), sel_for(o, which))->0;
    assert(queue_enqueued(o.queue, t, n.queue));
    let nv = items_view(n.queue.items@);
    let ov = items_view(o.queue.items@.push(t));
    assert(nv.len() == n.queue.items@.len());
    assert(ov.len() == o.queue.items@.len() + 1);
    assert forall|i: int| 0 <= i < o.queue.items@.len() implies #[trigger] n.queue.items@[i]@ == o.queue.items@[i]@ by {
        assert(nv[i] == ov[i]);
    }
    assert(nv[o.queue.items@.len() as int] == ov[o.queue.items@.len() as int]);
}

/// Esc on the filter line empties and closes it, and the artist list shows every artist
/// again.
pub proof fn lemma_filter_escape_shows_all(o: App, n: App, r: Option<Action>)
    requires
        !o.show_help,
        !o.add_to_playlist_popup,
        !o.playlist_create_mode,
        !o.visual_mode,
        o.filter_active,
        key_post(o, plain_key(KeyCode::Esc), n, r),
    ensures
        !n.filter_active,
        n.filter_text@.len() == 0,
        visible_artists(n) == n.artists@,
        n.artists == o.artists,
        n.filtered_artist_indices@ == all_positions(o.artists@.len()),
{
}

/// The navigation keys keep a selection that is within a non-empty list (or absent) within
/// it; a move by any number of rows ends within the list.
pub proof fn lemma_navigation_stays_in_list(c: KeyCode, sel: Option<usize>, len: nat, delta: int)
    requires
        len > 0,
        sel matches Some(i) ==> i < len,
    ensures
        nav(c, sel, len) matches Some(Some(i)) ==> i < len,
        sel_moved(sel, len, delta) matches Some(i) && i < len,
{
}

/// `+` never goes above 100 and `-` never below 0; from a volume within 0..=100 both stay
/// within it.
pub proof fn lemma_volume_stays_in_range(v: i64)
    ensures
        volume_up(v) <= 100,
        volume_down(v) >= 0,
        0 <= v <= 100 ==> 0 <= volume_up(v) <= 100 && 0 <= volume_down(v) <= 100,
{
}

/// The artists whose lowercased name contains `query`, in their order.
pub open spec fn artists_matching(s: Seq<Item>, query: Seq<char>) -> Seq<Item>
    decreases s.len(),
{
    if s.len() == 0 {
        Seq::empty()
    } else if contains_seq(lowercase(s.last().name@), query) {
        artists_matching(s.drop_last(), query).push(s.last())
    } else {
        artists_matching(s.drop_last(), query)
    }
}

proof fn lemma_matching_positions_below(s: Seq<Item>, query: Seq<char>)
    requires
        s.len() <= usize::MAX,
    ensures
        forall|i: int| 0 <= i < matching_positions(s, query).len() ==> #[trigger] matching_positions(s, query)[i] < s.len(),
    decreases s.len(),
{
    if s.len() > 0 {
        let prev = matching_positions(s.drop_last(), query);
        lemma_matching_positions_below(s.drop_last(), query);
        assert((s.len() - 1) as usize as int == s.len() - 1);
        assert forall|i: int| 0 <= i < matching_positions(s, query).len() implies
            #[trigger] matching_positions(s, query)[i] < s.len() by {
            if i < prev.len() {
                assert(matching_positions(s, query)[i] == prev[i]);
            }
        }
    }
}

proof fn lemma_present_in_prefix(positions: Seq<usize>, s: Seq<Item>, m: int)
    requires
        0 <= m <= s.len(),
        forall|i: int| 0 <= i < positions.len() ==> #[trigger] positions[i] < m,
    ensures
        present_items(positions, s) == present_items(positions, s.take(m)),
    decreases positions.len(),
{
    if positions.len() > 0 {
        lemma_present_in_prefix(positions.drop_last(), s, m);
        assert(positions.last() == positions[positions.len() - 1]);
    }
}

proof fn lemma_present_matching(s: Seq<Item>, query: Seq<char>)
    requires
        s.len() <= usize::MAX,
    ensures
        present_items(matching_positions(s, query), s) == artists_matching(s, query),
    decreases s.len(),
{
    if s.len() > 0 {
        let rest = s.drop_last();
        let p = matching_positions(rest, query);
        lemma_present_matching(rest, query);
        lemma_matching_positions_below(rest, query);
        assert(rest =~= s.take(s.len() - 1));
        lemma_present_in_prefix(p, s, s.len() - 1);
        if contains_seq(lowercase(s.last().name@), query) {
            let q = p.push((s.len() - 1) as usize);
            assert(q.drop_last() =~= p);
            assert(q.last() == (s.len() - 1) as usize);
            assert(present_items(q, s) =~= present_items(p, s).push(s[s.len() - 1]));
        }
    }
}

/// The artist list shows exactly the artists whose lowercased name contains the lowercased
/// filter text, in their order, once the filter is rebuilt for that text; with no text it
/// shows every artist.
pub proof fn lemma_filter_shows_matching(a: App)
    requires
        a.filtered_artist_indices@ == filter_positions(a.artists@, a.filter_text@),
    ensures
        visible_artists(a) == (if a.filter_text@.len() == 0 {
            a.artists@
        } else {
            artists_matching(a.artists@, lowercase(a.filter_text@))
        }),
{
    if a.filter_text@.len() > 0 {
        assert(a.artists@.len() == a.artists.len());
        lemma_present_matching(a.artists@, lowercase(a.filter_text@));
    }
}

/// Enter on a track among the search results adds it at the end of the queue, plays it, and
/// moves the queue to it: what plays and where the queue stands agree, and the tracks queued
/// before stay as they were.
pub proof fn lemma_search_enter_queues_and_plays(o: App, n: App, r: Option<Action>, i: usize)
    requires
        keys_reach_tabs(o),
        o.active_tab == Tab::Search,
        o.search_state == Some(i),
        i < o.search_results@.len(),
        type_is(o.search_results@[i as int], "Audio"@),
        key_post(o, plain_key(KeyCode::Enter), n, r),
    ensures
        n.queue.items@.len() == o.queue.items@.len() + 1,
        forall|j: int| 0 <= j < o.queue.items@.len() ==> (#[trigger] n.queue.items@[j])@ == o.queue.items@[j]@,
        n.queue.current == Some(o.queue.items@.len() as usize),
        item_at(n.queue.items@, n.queue.current) matches Some(y) && y@ == o.search_results@[i as int]@,
        r matches Some(Action::Play(x)) && x@ == o.search_results@[i as int]@,
{
    let it = o.search_results@[i as int];
    let m = o.queue.items@.len();
    assert(o.queue.items.len() == m);
    assert((m as usize) as int == m);
    assert(items_view(n.queue.items@) == items_view(o.queue.items@.push(it)));
    assert(items_view(n.queue.items@).len() == n.queue.items@.len());
    assert(items_view(o.queue.items@.push(it)).len() == m + 1);
    assert forall|j: int| 0 <= j < m implies (#[trigger] n.queue.items@[j])@ == o.queue.items@[j]@ by {
        assert(items_view(n.queue.items@)[j] == n.queue.items@[j]@);
        assert(items_view(o.queue.items@.push(it))[j] == o.queue.items@.push(it)[j]@);
    }
    assert(items_view(n.queue.items@)[m as int] == n.queue.items@[m as int]@);
    assert(items_view(o.queue.items@.push(it))[m as int] == it@);
}

/// When the server confirms that a playlist was deleted, it leaves the list; the open
/// playlist closes (and its tracks go) only when it is the deleted one: another open playlist
/// stays open with its name and tracks, and with none open none opens.
pub proof fn lemma_delete_closes_only_the_deleted_playlist(
    o: App,
    index: usize,
    playlist_id: String,
    playlist_name: String,
    v: Vec<Item>,
    n: App,
    r: Option<Action>,
)
    requires
        complete_post(
            o,
            Request::DeletePlaylist { index, playlist_id, playlist_name },
            Ok(v),
            n,
            r,
        ),
    ensures
        r is None,
        index < o.playlists@.len() ==> n.playlists@ == o.playlists@.remove(index as int),
        index >= o.playlists@.len() ==> n.playlists@ == o.playlists@,
        (o.selected_playlist_id matches Some(id) && id@ != playlist_id@) ==> {
            &&& n.selected_playlist_id == o.selected_playlist_id
            &&& n.selected_playlist_name == o.selected_playlist_name
            &&& n.playlist_tracks == o.playlist_tracks
        },
        o.selected_playlist_id is None ==> {
            &&& n.selected_playlist_id is None
            &&& n.selected_playlist_name == o.selected_playlist_name
            &&& n.playlist_tracks == o.playlist_tracks
        },
        (o.selected_playlist_id matches Some(id) && id@ == playlist_id@) ==> {
            &&& n.selected_playlist_id is None
            &&& n.selected_playlist_name is None
            &&& n.playlist_tracks@.len() == 0
        },
        says(n.status_message, "Deleted playlist: "@ + playlist_name@),
        o.playlist_state == Some(index) ==> (n.playlist_state matches Some(s) ==> s < n.playlists@.len()),
        n.playlists@.len() == 0 ==> n.playlist_state is None,
        n.artists == o.artists && n.queue == o.queue && n.tracks == o.tracks,
{
}

/// Esc on the artist list clears a filter that was kept: the filter text becomes empty and
/// every artist is shown again, in order.
pub proof fn lemma_artist_escape_clears_kept_filter(o: App, n: App, r: Option<Action>)
    requires
        keys_reach_tabs(o),
        !o.visual_mode,
        o.active_tab == Tab::Library,
        o.focus == Focus::Artists,
        o.filter_text@.len() > 0,
        key_post(o, plain_key(KeyCode::Esc), n, r),
    ensures
        r is None,
        n.filter_text@.len() == 0,
        n.artists == o.artists,
        visible_artists(n) == o.artists@,
        n.filtered_artist_indices@.len() == o.artists@.len(),
        forall|j: int| 0 <= j < o.artists@.len() ==> #[trigger] n.filtered_artist_indices@[j] == j,
{
    assert(o.artists.len() == o.artists@.len());
    assert forall|j: int| 0 <= j < o.artists@.len() implies #[trigger] n.filtered_artist_indices@[j] == j by {
        assert(n.filtered_artist_indices@ == all_positions(o.artists@.len()));
        assert((j as usize) as int == j);
    }
}

/// In the add-to-playlist popup, `j` moves the selection exactly one row down, staying on
/// the last row; nothing else changes.
pub proof fn lemma_popup_down_one_row(o: App, n: App, r: Option<Action>, i: usize)
    requires
        !o.show_help,
        o.add_to_playlist_popup,
        o.add_to_playlist_state == Some(i),
        i < o.playlists@.len(),
        key_post(o, plain_key(KeyCode::Char('j')), n, r),
    ensures
        r is None,
        i + 1 < o.playlists@.len() ==> n.add_to_playlist_state == Some((i + 1) as usize),
        i + 1 == o.playlists@.len() ==> n.add_to_playlist_state == Some(i),
        n.add_to_playlist_popup,
        n.playlists == o.playlists,
        n.add_to_playlist_items == o.add_to_playlist_items,
{
}

/// In the add-to-playlist popup, `j` then `k` comes back to the row one started on, unless
/// it was the last row.
pub proof fn lemma_popup_down_then_up(o: App, n1: App, r1: Option<Action>, n2: App, r2: Option<Action>, i: usize)
    requires
        !o.show_help,
        o.add_to_playlist_popup,
        o.add_to_playlist_state == Some(i),
        i + 1 < o.playlists@.len(),
        key_post(o, plain_key(KeyCode::Char('j')), n1, r1),
        key_post(n1, plain_key(KeyCode::Char('k')), n2, r2),
    ensures
        n2 == o,
{
    assert(o.playlists.len() == o.playlists@.len());
    assert(n1.add_to_playlist_state == Some((i + 1) as usize));
    assert(((i + 1) as usize) as int - 1 == i);
    assert(n2.add_to_playlist_state == Some(i));
}

/// Enter on an artist among the search results asks for that artist's albums, and on an album
/// for that album's tracks; nothing else changes until the reply.
pub proof fn lemma_search_enter_opens_artist_or_album(o: App, n: App, r: Option<Action>, i: usize)
    requires
        keys_reach_tabs(o),
        o.active_tab == Tab::Search,
        o.search_state == Some(i),
        i < o.search_results@.len(),
        key_post(o, plain_key(KeyCode::Enter), n, r),
    ensures
        type_is(o.search_results@[i as int], "MusicArtist"@) ==> {
            &&& n == o
            &&& r matches Some(Action::Fetch(Request::SearchArtistAlbums { artist_id, artist_name }))
                && artist_id@ == o.search_results@[i as int].id@
        },
        type_is(o.search_results@[i as int], "MusicAlbum"@) ==> {
            &&& n == o
            &&& r matches Some(Action::Fetch(Request::SearchAlbumTracks { album_id, artist_name, album_name }))
                && album_id@ == o.search_results@[i as int].id@ && album_name@ == o.search_results@[i as int].name@
        },
{
    reveal_strlit("Audio");
    reveal_strlit("MusicArtist");
    reveal_strlit("MusicAlbum");
    assert("Audio"@.len() == 5);
    assert("MusicArtist"@.len() == 11);
    assert("MusicAlbum"@.len() == 10);
    let it = o.search_results@[i as int];
    assert(at_row(o.search_results@, o.search_state) == Some(it));
    if type_is(it, "MusicArtist"@) || type_is(it, "MusicAlbum"@) {
        assert(!type_is(it, "Audio"@));
    }
    if type_is(it, "MusicAlbum"@) {
        assert(!type_is(it, "MusicArtist"@));
    }
}

/// On the artist list, `j` moves one row down (staying on the last row) and `k` one row up
/// (staying on the first); the filter is untouched.
pub proof fn lemma_artist_list_moves_one_row(o: App, down: bool, n: App, r: Option<Action>, i: usize)
    requires
        keys_reach_tabs(o),
        o.active_tab == Tab::Library,
        o.focus == Focus::Artists,
        o.artist_state == Some(i),
        i < visible_artists(o).len(),
        key_post(o, plain_key(KeyCode::Char(if down { 'j' } else { 'k' })), n, r),
    ensures
        r is None,
        down && i + 1 < visible_artists(o).len() ==> n.artist_state == Some((i + 1) as usize),
        down && i + 1 == visible_artists(o).len() ==> n.artist_state == Some(i),
        !down && i > 0 ==> n.artist_state == Some((i - 1) as usize),
        !down && i == 0 ==> n.artist_state == Some(0usize),
        n.filter_text == o.filter_text && n.filtered_artist_indices == o.filtered_artist_indices,
        n.artists == o.artists,
{
}

/// Enter in the add-to-playlist popup, with a playlist selected and tracks pending, asks to
/// add exactly the pending tracks, in order, to the selected playlist, and closes the popup.
pub proof fn lemma_popup_enter_adds_to_selected(o: App, n: App, r: Option<Action>, i: usize)
    requires
        !o.show_help,
        o.add_to_playlist_popup,
        o.add_to_playlist_state == Some(i),
        i < o.playlists@.len(),
        o.add_to_playlist_items@.len() > 0,
        key_post(o, plain_key(KeyCode::Enter), n, r),
    ensures
        r matches Some(Action::Fetch(Request::AddToPlaylist { playlist_id, playlist_name, ids, first_name }))
            && playlist_id@ == o.playlists@[i as int].id@
            && ids@.len() == o.add_to_playlist_items@.len()
            && (forall|j: int| 0 <= j < ids@.len() ==> (#[trigger] ids@[j])@ == o.add_to_playlist_items@[j].id@),
        !n.add_to_playlist_popup,
        n.add_to_playlist_items@.len() == 0,
        n.playlists == o.playlists && n.queue == o.queue,
{
    match r {
        Some(Action::Fetch(Request::AddToPlaylist { playlist_id, playlist_name, ids, first_name })) => {
            let v = ids@.map_values(|s: String| s@);
            assert(v == item_ids(o.add_to_playlist_items@));
            assert(v.len() == ids@.len());
            assert forall|j: int| 0 <= j < ids@.len() implies (#[trigger] ids@[j])@ == o.add_to_playlist_items@[j].id@ by {
                assert(v[j] == ids@[j]@);
                assert(item_ids(o.add_to_playlist_items@)[j] == o.add_to_playlist_items@[j].id@);
            }
        },
        _ => {},
    }
}

/// Esc in the add-to-playlist popup closes it without asking anything; the pending tracks
/// are dropped.
pub proof fn lemma_popup_escape_adds_nothing(o: App, n: App, r: Option<Action>)
    requires
        !o.show_help,
        o.add_to_playlist_popup,
        key_post(o, plain_key(KeyCode::Esc), n, r),
    ensures
        r is None,
        !n.add_to_playlist_popup,
        n.add_to_playlist_items@.len() == 0,
        n.playlists == o.playlists && n.add_to_playlist_state == o.add_to_playlist_state,
{
}

/// The selection and the length of the list that `j` and `k` move in: the tracks of the
/// library, the search results, the queue, the recent tracks, the playlists or an open
/// playlist's tracks, whichever the active tab shows focused.
pub open spec fn focused_list(a: App) -> Option<(Option<usize>, nat)> {
    match a.active_tab {
        Tab::Library => if a.focus == Focus::Tracks { Some((a.track_state, a.tracks@.len())) } else { None },
        Tab::Search => Some((a.search_state, a.search_results@.len())),
        Tab::Queue => Some((a.queue_state, a.queue.items@.len())),
        Tab::Recent => Some((a.recent_state, a.recent_tracks@.len())),
        Tab::Playlists => if a.focus == Focus::Playlists {
            Some((a.playlist_state, a.playlists@.len()))
        } else if a.focus == Focus::PlaylistTracks {
            Some((a.playlist_track_state, a.playlist_tracks@.len()))
        } else {
            None
        },
    }
}

/// In every list, `j` moves the selection one row down and `k` one row up, staying within
/// the list; the list itself and the queue do not change and nothing is asked of the outside.
pub proof fn lemma_lists_move_one_row(o: App, down: bool, n: App, r: Option<Action>, i: usize, len: nat)
    requires
        keys_reach_tabs(o),
        focused_list(o) == Some((Some(i), len)),
        i < len,
        key_post(o, plain_key(KeyCode::Char(if down { 'j' } else { 'k' })), n, r),
    ensures
        r is None,
        down ==> focused_list(n) == Some((Some(if i + 1 < len { (i + 1) as usize } else { i }), len)),
        !down ==> focused_list(n) == Some((Some(if i > 0 { (i - 1) as usize } else { 0usize }), len)),
        n.queue == o.queue,
        n.active_tab == o.active_tab && n.focus == o.focus,
{
}

/// `d` on the queue tab removes exactly the selected track: the others keep their order, the
/// track playing (when it is another one) keeps playing, and the selection stays within the
/// queue.
pub proof fn lemma_queue_d_removes_selected(o: App, n: App, r: Option<Action>, i: usize)
    requires
        keys_reach_tabs(o),
        o.active_tab == Tab::Queue,
        o.queue_state == Some(i),
        i < o.queue.items@.len(),
        key_post(o, plain_key(KeyCode::Char('d')), n, r),
    ensures
        r is None,
        n.queue.items@ == o.queue.items@.remove(i as int),
        (o.queue.current matches Some(c) && c < o.queue.items@.len() && c != i) ==> (
            item_at(n.queue.items@, n.queue.current) == item_at(o.queue.items@, o.queue.current)),
        n.queue.items@.len() > 0 ==> (n.queue_state matches Some(s) && s < n.queue.items@.len()),
        n.queue.repeat == o.queue.repeat && n.queue.shuffle == o.queue.shuffle,
{
    match o.queue.current {
        Some(c) => if c < o.queue.items@.len() && c != i {
            crate::player::queue::lemma_remove_keeps_current(o.queue.items@, c, i);
        },
        None => {},
    }
}

/// `c` on the queue tab empties the queue, drops its position and selection, and stops the
/// player.
pub proof fn lemma_queue_c_clears_and_stops(o: App, n: App, r: Option<Action>)
    requires
        keys_reach_tabs(o),
        o.active_tab == Tab::Queue,
        key_post(o, plain_key(KeyCode::Char('c')), n, r),
    ensures
        r == Some(Action::Player(PlayerCommand::Stop)),
        n.queue.items@.len() == 0,
        n.queue.current is None,
        n.queue_state is None,
        item_at(n.queue.items@, n.queue.current) is None,
{
}

/// A reply carrying a list of tracks or results is shown as it came: the list becomes the
/// reply, its first row is selected (none when the reply is empty), and the queue is left
/// alone.
pub proof fn lemma_list_reply_shown(o: App, q: Request, v: Vec<Item>, n: App, r: Option<Action>)
    requires
        complete_post(o, q, Ok(v), n, r),
    ensures
        (q is ArtistTracks || q is AlbumTracks || q is SearchAlbumTracks) ==> {
            &&& n.tracks == v
            &&& n.track_state == (if v@.len() > 0 { Some(0usize) } else { None })
        },
        q is Search ==> {
            &&& n.search_results == v
            &&& n.search_state == (if v@.len() > 0 { Some(0usize) } else { None })
        },
        q is Recent ==> {
            &&& n.recent_tracks == v
            &&& n.recent_state == (if v@.len() > 0 { Some(0usize) } else { None })
            &&& n.recent_loaded
        },
        q is PlaylistTracks ==> {
            &&& n.playlist_tracks == v
            &&& n.playlist_track_state == (if v@.len() > 0 { Some(0usize) } else { None })
        },
        q is Playlists ==> n.playlists == v && n.playlists_loaded,
        (q is ArtistTracks || q is AlbumTracks || q is SearchAlbumTracks || q is Search || q is Recent
            || q is PlaylistTracks || q is Playlists) ==> r is None && n.queue == o.queue,
{
}

/// A failed request leaves every list and the queue as they were, asks for nothing more, and
/// puts a message in the status line.
pub proof fn lemma_failed_reply_changes_no_list(o: App, q: Request, e: String, n: App, r: Option<Action>)
    requires
        complete_post(o, q, Err(e), n, r),
    ensures
        r is None,
        n.status_message is Some,
        n.queue == o.queue,
        n.artists == o.artists && n.albums == o.albums && n.tracks == o.tracks,
        n.search_results == o.search_results && n.recent_tracks == o.recent_tracks,
        n.playlists == o.playlists && n.playlist_tracks == o.playlist_tracks,
        n.recent_loaded == o.recent_loaded && n.playlists_loaded == o.playlists_loaded,
{
}

} // verus!
