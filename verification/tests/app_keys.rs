use navidrome_tui::app::{mark_in, Action, App, Focus, Key, KeyCode, Mark, Request, Tab};
use navidrome_tui::client::models::Item;
use navidrome_tui::player::media_controls::MediaEvent;
use navidrome_tui::player::mpv::{PlayerCommand, PlayerState};
use navidrome_tui::player::queue::RepeatMode;

fn item(id: &str, name: &str, kind: &str) -> Item {
    let mut it = Item::default();
    it.id = id.to_string();
    it.name = name.to_string();
    it.item_type = Some(kind.to_string());
    it
}

fn track(id: &str, name: &str) -> Item {
    item(id, name, "Audio")
}

fn key(c: char) -> Key {
    Key { code: KeyCode::Char(c), ctrl: false }
}

fn ctrl(c: char) -> Key {
    Key { code: KeyCode::Char(c), ctrl: true }
}

fn code(k: KeyCode) -> Key {
    Key { code: k, ctrl: false }
}

fn played_id(a: Option<Action>) -> String {
    match a {
        Some(Action::Play(it)) => it.id,
        other => panic!("expected a play action, got {:?}", other),
    }
}

fn library_with_tracks(n: usize) -> App {
    let mut app = App::new();
    app.tracks = (0..n).map(|i| track(&format!("t{i}"), &format!("Track {i}"))).collect();
    app.track_state = Some(0);
    app.focus = Focus::Tracks;
    app
}

#[test]
fn new_app_starts_on_library_artists() {
    let app = App::new();
    assert!(app.running);
    assert_eq!(app.active_tab, Tab::Library);
    assert_eq!(app.focus, Focus::Artists);
    assert_eq!(app.artist_state, Some(0));
    assert_eq!(app.player_state.volume, 80);
    assert!(app.queue.items.is_empty());
}

#[test]
fn q_quits() {
    let mut app = App::new();
    assert!(app.handle_key(key('q')).is_none());
    assert!(!app.running);
}

#[test]
fn help_toggles_with_question_mark() {
    let mut app = App::new();
    app.handle_key(key('?'));
    assert!(app.show_help);
    // other keys are swallowed while help is shown
    app.handle_key(key('q'));
    assert!(app.running);
    assert!(!app.show_help);
    app.handle_key(key('?'));
    app.handle_key(key('?'));
    assert!(!app.show_help);
}

#[test]
fn enter_replaces_queue_and_n_advances_in_order() {
    let mut app = library_with_tracks(4);
    app.track_state = Some(1);
    assert_eq!(played_id(app.handle_key(code(KeyCode::Enter))), "t1");
    assert_eq!(app.queue.items.len(), 4);
    assert_eq!(app.queue.current, Some(1));
    assert_eq!(app.queue_state, Some(1));
    assert_eq!(played_id(app.handle_key(key('n'))), "t2");
    assert_eq!(played_id(app.handle_key(key('n'))), "t3");
    // past the end with repeat off: nothing plays
    assert!(app.handle_key(key('n')).is_none());
    assert_eq!(app.queue.current, None);
}

#[test]
fn previous_goes_back_and_wraps_with_repeat_all() {
    let mut app = library_with_tracks(3);
    app.handle_key(code(KeyCode::Enter));
    assert!(matches!(app.handle_key(key('N')), Some(Action::Play(_))));
    assert_eq!(app.queue.current, Some(0));
    app.handle_key(key('r'));
    assert_eq!(app.queue.repeat, RepeatMode::All);
    assert_eq!(played_id(app.handle_key(key('N'))), "t2");
}

#[test]
fn repeat_cycles_through_three_modes() {
    let mut app = App::new();
    app.handle_key(key('r'));
    assert_eq!(app.queue.repeat, RepeatMode::All);
    app.handle_key(key('r'));
    assert_eq!(app.queue.repeat, RepeatMode::One);
    app.handle_key(key('r'));
    assert_eq!(app.queue.repeat, RepeatMode::Off);
}

#[test]
fn enqueue_adds_to_end_without_disturbing_playback() {
    let mut app = library_with_tracks(3);
    app.handle_key(code(KeyCode::Enter));
    app.track_state = Some(2);
    assert!(app.handle_key(key('e')).is_none());
    assert_eq!(app.queue.items.len(), 4);
    assert_eq!(app.queue.current, Some(0));
    assert_eq!(app.queue.items[3].id, "t2");
    assert_eq!(app.status_message.as_deref(), Some("Enqueued: Track 2"));
}

#[test]
fn track_navigation_clamps_at_both_ends() {
    let mut app = library_with_tracks(5);
    app.handle_key(key('k'));
    assert_eq!(app.track_state, Some(0));
    app.handle_key(key('G'));
    assert_eq!(app.track_state, Some(4));
    app.handle_key(key('j'));
    assert_eq!(app.track_state, Some(4));
    app.handle_key(key('g'));
    assert_eq!(app.track_state, Some(0));
    app.handle_key(ctrl('d'));
    assert_eq!(app.track_state, Some(2));
    app.handle_key(ctrl('d'));
    assert_eq!(app.track_state, Some(4));
    app.handle_key(ctrl('u'));
    assert_eq!(app.track_state, Some(2));
}

#[test]
fn volume_keys_step_by_five_within_bounds() {
    let mut app = App::new();
    match app.handle_key(key('+')) {
        Some(Action::Player(PlayerCommand::SetVolume(v))) => assert_eq!(v, 85),
        other => panic!("unexpected {:?}", other),
    }
    app.player_state.volume = 98;
    match app.handle_key(key('=')) {
        Some(Action::Player(PlayerCommand::SetVolume(v))) => assert_eq!(v, 100),
        other => panic!("unexpected {:?}", other),
    }
    app.player_state.volume = 3;
    match app.handle_key(key('-')) {
        Some(Action::Player(PlayerCommand::SetVolume(v))) => assert_eq!(v, 0),
        other => panic!("unexpected {:?}", other),
    }
}

#[test]
fn seek_and_pause_keys_send_player_commands() {
    let mut app = App::new();
    assert!(matches!(app.handle_key(key(' ')), Some(Action::Player(PlayerCommand::TogglePause))));
    assert!(matches!(app.handle_key(key('>')), Some(Action::Player(PlayerCommand::SeekForward(10)))));
    assert!(matches!(app.handle_key(key('<')), Some(Action::Player(PlayerCommand::SeekBackward(10)))));
}

#[test]
fn tab_keys_switch_tabs_and_request_loads_once() {
    let mut app = App::new();
    assert!(matches!(app.handle_key(key('4')), Some(Action::Fetch(Request::Recent { limit: 100 }))));
    assert_eq!(app.active_tab, Tab::Recent);
    app.complete(Request::Recent { limit: 100 }, Ok(vec![track("r1", "New")]));
    assert!(app.recent_loaded);
    assert_eq!(app.recent_state, Some(0));
    assert!(app.handle_key(key('4')).is_none());
    assert!(matches!(
        app.handle_key(key('5')),
        Some(Action::Fetch(Request::Playlists { for_popup: false }))
    ));
    assert_eq!(app.focus, Focus::Playlists);
    app.handle_key(key('2'));
    assert_eq!(app.active_tab, Tab::Search);
    assert!(app.search_focused);
    app.handle_key(code(KeyCode::Esc));
    app.handle_key(key('1'));
    assert_eq!(app.active_tab, Tab::Library);
    assert_eq!(app.focus, Focus::Artists);
}

#[test]
fn tab_cycles_focus_and_back_tab_undoes_it() {
    let mut app = App::new();
    app.handle_key(code(KeyCode::Tab));
    assert_eq!(app.focus, Focus::Albums);
    app.handle_key(code(KeyCode::Tab));
    app.handle_key(code(KeyCode::Tab));
    assert_eq!(app.focus, Focus::QueuePanel);
    app.handle_key(code(KeyCode::Tab));
    assert_eq!(app.focus, Focus::Artists);
    app.handle_key(code(KeyCode::BackTab));
    assert_eq!(app.focus, Focus::QueuePanel);
}

#[test]
fn artist_filter_narrows_and_escape_restores() {
    let mut app = App::new();
    app.complete(
        Request::Artists,
        Ok(vec![item("a1", "ABBA", "MusicArtist"), item("a2", "Beatles", "MusicArtist"), item("a3", "Abba Tribute", "MusicArtist")]),
    );
    assert_eq!(app.filtered_artists().len(), 3);
    app.handle_key(key('/'));
    assert!(app.filter_active);
    app.handle_key(key('b'));
    app.handle_key(key('b'));
    app.handle_key(key('a'));
    let shown: Vec<String> = app.filtered_artists().iter().map(|a| a.name.clone()).collect();
    assert_eq!(shown, vec!["ABBA".to_string(), "Abba Tribute".to_string()]);
    app.handle_key(code(KeyCode::Backspace));
    assert_eq!(app.filter_text, "bb");
    app.handle_key(code(KeyCode::Esc));
    assert!(!app.filter_active);
    assert_eq!(app.filtered_artists().len(), 3);
}

#[test]
fn filter_without_match_clears_selection() {
    let mut app = App::new();
    app.complete(Request::Artists, Ok(vec![item("a1", "ABBA", "MusicArtist")]));
    app.handle_key(key('/'));
    app.handle_key(key('z'));
    assert!(app.filtered_artists().is_empty());
    assert_eq!(app.artist_state, None);
    assert_eq!(app.selected_artist_id(), None);
}

#[test]
fn opening_an_artist_requests_its_albums() {
    let mut app = App::new();
    app.complete(Request::Artists, Ok(vec![item("a1", "ABBA", "MusicArtist"), item("a2", "Blur", "MusicArtist")]));
    app.handle_key(key('j'));
    assert_eq!(app.selected_artist_id().as_deref(), Some("a2"));
    match app.handle_key(key('l')) {
        Some(Action::Fetch(Request::ArtistAlbums { artist_id })) => assert_eq!(artist_id, "a2"),
        other => panic!("unexpected {:?}", other),
    }
    assert_eq!(app.focus, Focus::Albums);
    assert_eq!(app.selected_artist_name.as_deref(), Some("Blur"));
    app.complete(
        Request::ArtistAlbums { artist_id: "a2".to_string() },
        Ok(vec![item("al1", "Parklife", "MusicAlbum")]),
    );
    assert_eq!(app.album_state, Some(0));
    // row 0 is "All Tracks"
    match app.handle_key(code(KeyCode::Enter)) {
        Some(Action::Fetch(Request::ArtistTracks { artist_id })) => assert_eq!(artist_id, "a2"),
        other => panic!("unexpected {:?}", other),
    }
    assert_eq!(app.selected_album_name.as_deref(), Some("All Tracks"));
    assert_eq!(app.focus, Focus::Tracks);
    app.handle_key(key('h'));
    app.handle_key(key('G'));
    assert_eq!(app.album_state, Some(1));
    match app.handle_key(key('l')) {
        Some(Action::Fetch(Request::AlbumTracks { album_id })) => assert_eq!(album_id, "al1"),
        other => panic!("unexpected {:?}", other),
    }
    assert_eq!(app.selected_album_name.as_deref(), Some("Parklife"));
}

#[test]
fn failed_load_sets_status() {
    let mut app = App::new();
    app.complete(Request::Artists, Err("network down".to_string()));
    assert_eq!(app.status_message.as_deref(), Some("Failed to load artists: network down"));
    app.complete(Request::Search { query: "x".to_string() }, Err("boom".to_string()));
    assert_eq!(app.status_message.as_deref(), Some("Search failed: boom"));
}

#[test]
fn search_typing_and_enter_requests_search() {
    let mut app = App::new();
    app.handle_key(key('2'));
    app.handle_key(key('a'));
    app.handle_key(key('b'));
    app.handle_key(code(KeyCode::Backspace));
    app.handle_key(key('c'));
    match app.handle_key(code(KeyCode::Enter)) {
        Some(Action::Fetch(Request::Search { query })) => assert_eq!(query, "ac"),
        other => panic!("unexpected {:?}", other),
    }
    assert!(!app.search_focused);
}

#[test]
fn empty_search_requests_nothing() {
    let mut app = App::new();
    app.handle_key(key('2'));
    assert!(app.handle_key(code(KeyCode::Enter)).is_none());
}

#[test]
fn search_result_enter_depends_on_kind() {
    let mut app = App::new();
    app.active_tab = Tab::Search;
    let mut album = item("al", "Album", "MusicAlbum");
    album.album_artist = Some("Band".to_string());
    app.complete(
        Request::Search { query: "q".to_string() },
        Ok(vec![track("s1", "Song"), item("ar", "Artist", "MusicArtist"), album]),
    );
    assert_eq!(played_id(app.handle_key(code(KeyCode::Enter))), "s1");
    assert_eq!(app.queue.current, Some(0));
    app.handle_key(key('j'));
    match app.handle_key(code(KeyCode::Enter)) {
        Some(Action::Fetch(Request::SearchArtistAlbums { artist_id, artist_name })) => {
            assert_eq!(artist_id, "ar");
            assert_eq!(artist_name, "Artist");
        }
        other => panic!("unexpected {:?}", other),
    }
    app.handle_key(key('j'));
    let request = match app.handle_key(code(KeyCode::Enter)) {
        Some(Action::Fetch(r)) => r,
        other => panic!("unexpected {:?}", other),
    };
    match &request {
        Request::SearchAlbumTracks { album_id, artist_name, album_name } => {
            assert_eq!(album_id, "al");
            assert_eq!(artist_name, "Band");
            assert_eq!(album_name, "Album");
        }
        other => panic!("unexpected {:?}", other),
    }
    app.complete(request, Ok(vec![track("x", "X")]));
    assert_eq!(app.active_tab, Tab::Library);
    assert_eq!(app.focus, Focus::Tracks);
    assert_eq!(app.selected_artist_name.as_deref(), Some("Band"));
}

#[test]
fn enqueue_search_result_only_for_tracks() {
    let mut app = App::new();
    app.active_tab = Tab::Search;
    app.complete(
        Request::Search { query: "q".to_string() },
        Ok(vec![item("ar", "Artist", "MusicArtist"), track("s1", "Song")]),
    );
    app.handle_key(key('e'));
    assert!(app.queue.items.is_empty());
    app.handle_key(key('j'));
    app.handle_key(key('e'));
    assert_eq!(app.queue.items.len(), 1);
}

#[test]
fn queue_remove_keeps_selection_in_range_and_clear_stops() {
    let mut app = library_with_tracks(3);
    app.handle_key(code(KeyCode::Enter));
    app.handle_key(key('3'));
    app.queue_state = Some(2);
    app.handle_key(key('d'));
    assert_eq!(app.queue.items.len(), 2);
    assert_eq!(app.queue_state, Some(1));
    // Ctrl-d does not remove
    app.handle_key(ctrl('d'));
    assert_eq!(app.queue.items.len(), 2);
    assert!(matches!(app.handle_key(key('c')), Some(Action::Player(PlayerCommand::Stop))));
    assert!(app.queue.items.is_empty());
    assert_eq!(app.queue_state, None);
    assert_eq!(app.queue.current, None);
}

#[test]
fn queue_enter_plays_selected_item() {
    let mut app = library_with_tracks(3);
    app.handle_key(code(KeyCode::Enter));
    app.handle_key(key('3'));
    app.queue_state = Some(2);
    assert_eq!(played_id(app.handle_key(code(KeyCode::Enter))), "t2");
    assert_eq!(app.queue.current, Some(2));
}

#[test]
fn visual_selection_adds_range_to_playlist() {
    let mut app = library_with_tracks(5);
    app.complete(Request::Playlists { for_popup: false }, Ok(vec![item("p1", "Mix", "Playlist")]));
    app.active_tab = Tab::Library;
    app.focus = Focus::Tracks;
    app.track_state = Some(1);
    app.handle_key(key('v'));
    assert!(app.visual_mode);
    app.handle_key(key('j'));
    app.handle_key(key('j'));
    assert_eq!(app.visual_selection_range(), Some((1, 3)));
    assert_eq!(app.get_visual_selection_items().len(), 3);
    assert!(app.handle_key(key('a')).is_none());
    assert!(app.add_to_playlist_popup);
    assert!(!app.visual_mode);
    assert_eq!(app.add_to_playlist_state, Some(0));
    let request = match app.handle_key(code(KeyCode::Enter)) {
        Some(Action::Fetch(r)) => r,
        other => panic!("unexpected {:?}", other),
    };
    assert!(!app.add_to_playlist_popup);
    assert!(app.add_to_playlist_items.is_empty());
    match &request {
        Request::AddToPlaylist { playlist_id, playlist_name, ids, first_name } => {
            assert_eq!(playlist_id, "p1");
            assert_eq!(playlist_name, "Mix");
            assert_eq!(ids, &vec!["t1".to_string(), "t2".to_string(), "t3".to_string()]);
            assert_eq!(first_name, "Track 1");
        }
        other => panic!("unexpected {:?}", other),
    }
    assert!(app.complete(request, Ok(Vec::new())).is_none());
    assert_eq!(app.status_message.as_deref(), Some("Added 3 tracks to Mix"));
}

#[test]
fn adding_one_track_names_it_and_reloads_open_playlist() {
    let mut app = library_with_tracks(2);
    app.selected_playlist_id = Some("p1".to_string());
    let request = Request::AddToPlaylist {
        playlist_id: "p1".to_string(),
        playlist_name: "Mix".to_string(),
        ids: vec!["t0".to_string()],
        first_name: "Track 0".to_string(),
    };
    match app.complete(request, Ok(Vec::new())) {
        Some(Action::Fetch(Request::PlaylistTracks { playlist_id })) => assert_eq!(playlist_id, "p1"),
        other => panic!("unexpected {:?}", other),
    }
    assert_eq!(app.status_message.as_deref(), Some("Added \"Track 0\" to Mix"));
}

#[test]
fn add_key_loads_playlists_when_never_loaded() {
    let mut app = library_with_tracks(2);
    assert!(matches!(
        app.handle_key(key('a')),
        Some(Action::Fetch(Request::Playlists { for_popup: true }))
    ));
    assert!(app.add_to_playlist_popup);
    app.complete(Request::Playlists { for_popup: true }, Ok(vec![item("p", "P", "Playlist")]));
    assert_eq!(app.add_to_playlist_state, Some(0));
    app.handle_key(code(KeyCode::Esc));
    assert!(!app.add_to_playlist_popup);
}

#[test]
fn add_key_with_nothing_selected_does_nothing() {
    let mut app = App::new();
    assert!(app.handle_key(key('a')).is_none());
    assert!(!app.add_to_playlist_popup);
}

#[test]
fn playlist_create_flow() {
    let mut app = App::new();
    app.active_tab = Tab::Playlists;
    app.focus = Focus::Playlists;
    app.handle_key(key('C'));
    assert!(app.playlist_create_mode);
    for c in "Road".chars() {
        app.handle_key(key(c));
    }
    match app.handle_key(code(KeyCode::Enter)) {
        Some(Action::Fetch(Request::CreatePlaylist { name })) => assert_eq!(name, "Road"),
        other => panic!("unexpected {:?}", other),
    }
    assert!(!app.playlist_create_mode);
    assert!(app.playlist_create_name.is_empty());
    let next = app.complete(Request::CreatePlaylist { name: "Road".to_string() }, Ok(Vec::new()));
    assert!(matches!(next, Some(Action::Fetch(Request::Playlists { for_popup: false }))));
    assert_eq!(app.status_message.as_deref(), Some("Created playlist: Road"));
}

#[test]
fn playlist_create_with_empty_name_requests_nothing() {
    let mut app = App::new();
    app.active_tab = Tab::Playlists;
    app.focus = Focus::Playlists;
    app.handle_key(key('C'));
    assert!(app.handle_key(code(KeyCode::Enter)).is_none());
    assert!(!app.playlist_create_mode);
}

#[test]
fn deleting_open_playlist_closes_it() {
    let mut app = App::new();
    app.active_tab = Tab::Playlists;
    app.focus = Focus::Playlists;
    app.complete(
        Request::Playlists { for_popup: false },
        Ok(vec![item("p1", "One", "Playlist"), item("p2", "Two", "Playlist")]),
    );
    app.handle_key(key('j'));
    match app.handle_key(code(KeyCode::Enter)) {
        Some(Action::Fetch(Request::PlaylistTracks { playlist_id })) => assert_eq!(playlist_id, "p2"),
        other => panic!("unexpected {:?}", other),
    }
    assert_eq!(app.focus, Focus::PlaylistTracks);
    app.complete(Request::PlaylistTracks { playlist_id: "p2".to_string() }, Ok(vec![track("t", "T")]));
    app.handle_key(key('h'));
    let request = match app.handle_key(key('D')) {
        Some(Action::Fetch(r)) => r,
        other => panic!("unexpected {:?}", other),
    };
    app.complete(request, Ok(Vec::new()));
    assert_eq!(app.status_message.as_deref(), Some("Deleted playlist: Two"));
    assert_eq!(app.playlists.len(), 1);
    assert_eq!(app.playlist_state, Some(0));
    assert_eq!(app.selected_playlist_id, None);
    assert!(app.playlist_tracks.is_empty());
}

#[test]
fn removing_a_playlist_track_uses_its_entry_id() {
    let mut app = App::new();
    app.active_tab = Tab::Playlists;
    app.focus = Focus::PlaylistTracks;
    app.selected_playlist_id = Some("p".to_string());
    let mut a = track("a", "A");
    a.playlist_item_id = Some("0".to_string());
    let mut b = track("b", "B");
    b.playlist_item_id = Some("1".to_string());
    app.playlist_tracks = vec![a, b];
    app.playlist_track_state = Some(1);
    let request = match app.handle_key(key('d')) {
        Some(Action::Fetch(r)) => r,
        other => panic!("unexpected {:?}", other),
    };
    match &request {
        Request::RemoveFromPlaylist { playlist_id, entry_id, index, track_name } => {
            assert_eq!(playlist_id, "p");
            assert_eq!(entry_id, "1");
            assert_eq!(*index, 1);
            assert_eq!(track_name, "B");
        }
        other => panic!("unexpected {:?}", other),
    }
    app.complete(request, Ok(Vec::new()));
    assert_eq!(app.playlist_tracks.len(), 1);
    assert_eq!(app.playlist_track_state, Some(0));
    assert_eq!(app.status_message.as_deref(), Some("Removed: B"));
}

#[test]
fn removing_from_playlist_failure_reports() {
    let mut app = App::new();
    app.complete(
        Request::RemoveFromPlaylist {
            playlist_id: "p".to_string(),
            entry_id: "0".to_string(),
            index: 0,
            track_name: "A".to_string(),
        },
        Err("denied".to_string()),
    );
    assert_eq!(app.status_message.as_deref(), Some("Failed to remove track: denied"));
}

#[test]
fn finished_track_advances_and_reports_playback() {
    let mut app = library_with_tracks(2);
    app.handle_key(code(KeyCode::Enter));
    let playing = PlayerState { playing: true, paused: false, volume: 80, finished: false };
    let (advance, report) = app.on_player_state(playing);
    assert!(advance.is_none());
    assert!(matches!(report, Some(Action::ReportPlayback { playing: true, paused: false })));
    let done = PlayerState { playing: false, paused: false, volume: 80, finished: true };
    let (advance, report) = app.on_player_state(done);
    assert_eq!(played_id(advance), "t1");
    assert!(matches!(report, Some(Action::ReportPlayback { playing: false, paused: false })));
    // the same finished state again does not advance
    let (advance, report) = app.on_player_state(done);
    assert!(advance.is_none());
    assert!(report.is_none());
}

#[test]
fn media_keys_toggle_and_move() {
    let mut app = library_with_tracks(2);
    app.handle_key(code(KeyCode::Enter));
    assert!(matches!(
        app.on_media_event(MediaEvent::Toggle),
        Some(Action::Player(PlayerCommand::TogglePause))
    ));
    assert_eq!(played_id(app.on_media_event(MediaEvent::Next)), "t1");
    assert_eq!(played_id(app.on_media_event(MediaEvent::Prev)), "t0");
}

#[test]
fn visual_mode_escape_leaves_it() {
    let mut app = library_with_tracks(3);
    app.handle_key(key('v'));
    assert_eq!(app.visual_anchor, Some(0));
    app.handle_key(code(KeyCode::Esc));
    assert!(!app.visual_mode);
    assert_eq!(app.visual_anchor, None);
}

#[test]
fn selected_audio_item_follows_tab() {
    let mut app = library_with_tracks(2);
    assert_eq!(app.get_selected_audio_item().map(|i| i.id), Some("t0".to_string()));
    app.focus = Focus::Albums;
    assert!(app.get_selected_audio_item().is_none());
    assert_eq!(app.current_cursor_index(), None);
}

#[test]
fn recent_enter_plays_recent_list() {
    let mut app = App::new();
    app.active_tab = Tab::Recent;
    app.complete(Request::Recent { limit: 100 }, Ok(vec![track("r0", "A"), track("r1", "B")]));
    app.handle_key(key('j'));
    assert_eq!(played_id(app.handle_key(code(KeyCode::Enter))), "r1");
    assert_eq!(app.queue.items.len(), 2);
}

#[test]
fn shuffle_toggle_keeps_queue() {
    let mut app = library_with_tracks(4);
    app.handle_key(code(KeyCode::Enter));
    app.handle_key(key('s'));
    assert!(app.queue.shuffle);
    let mut order = app.queue.shuffle_order.clone();
    order.sort();
    assert_eq!(order, vec![0, 1, 2, 3]);
    assert_eq!(app.queue.current, Some(0));
    app.handle_key(key('s'));
    assert!(!app.queue.shuffle);
}

#[test]
fn v_twice_leaves_visual_mode_without_anchor() {
    let mut app = library_with_tracks(3);
    app.track_state = Some(2);
    app.handle_key(key('v'));
    assert!(app.visual_mode);
    assert_eq!(app.visual_anchor, Some(2));
    app.handle_key(key('v'));
    assert!(!app.visual_mode);
    assert_eq!(app.visual_anchor, None);
    assert_eq!(app.track_state, Some(2));
}

#[test]
fn every_failed_request_reports_its_own_message() {
    let s = |x: &str| x.to_string();
    let cases: Vec<(Request, &str)> = vec![
        (Request::Artists, "Failed to load artists: e"),
        (Request::ArtistAlbums { artist_id: s("a") }, "Failed to load albums: e"),
        (Request::SearchArtistAlbums { artist_id: s("a"), artist_name: s("A") }, "Failed to load artist: e"),
        (Request::ArtistTracks { artist_id: s("a") }, "Failed to load tracks: e"),
        (Request::AlbumTracks { album_id: s("a") }, "Failed to load tracks: e"),
        (
            Request::SearchAlbumTracks { album_id: s("a"), artist_name: s("A"), album_name: s("B") },
            "Failed to load album: e",
        ),
        (Request::Search { query: s("q") }, "Search failed: e"),
        (Request::Recent { limit: 100 }, "Failed to load recent: e"),
        (Request::Playlists { for_popup: false }, "Failed to load playlists: e"),
        (Request::PlaylistTracks { playlist_id: s("p") }, "Failed to load playlist tracks: e"),
        (Request::CreatePlaylist { name: s("n") }, "Failed to create playlist: e"),
        (
            Request::DeletePlaylist { index: 0, playlist_id: s("p"), playlist_name: s("P") },
            "Failed to delete playlist: e",
        ),
        (
            Request::RemoveFromPlaylist { playlist_id: s("p"), entry_id: s("0"), index: 0, track_name: s("T") },
            "Failed to remove track: e",
        ),
        (
            Request::AddToPlaylist { playlist_id: s("p"), playlist_name: s("P"), ids: vec![s("t")], first_name: s("T") },
            "Failed to add to playlist: e",
        ),
        (Request::Ping, "Connection check failed: e"),
        (Request::SetStarred { item_id: s("t"), starred: true }, "Failed to update favorite: e"),
        (Request::SetRating { item_id: s("t"), rating: 3 }, "Failed to set rating: e"),
    ];
    for (request, message) in cases {
        let mut app = App::new();
        assert!(app.complete(request, Err(s("e"))).is_none());
        assert_eq!(app.status_message.as_deref(), Some(message));
        assert!(!app.recent_loaded);
        assert!(!app.playlists_loaded);
    }
}

#[test]
fn server_is_checked_every_keepalive_period() {
    let mut app = App::new();
    for _ in 0..(navidrome_tui::app::KEEPALIVE_TICKS - 1) {
        assert!(app.on_tick().is_none());
    }
    assert!(matches!(app.on_tick(), Some(Action::Fetch(Request::Ping))));
    assert_eq!(app.ticks_since_ping, 0);
    assert!(app.complete(Request::Ping, Ok(Vec::new())).is_none());
    assert_eq!(app.status_message, None);
    app.complete(Request::Ping, Err("HTTP 401".to_string()));
    assert_eq!(app.status_message.as_deref(), Some("Connection check failed: HTTP 401"));
}

#[test]
fn f_toggles_favorite_of_selected_track_when_server_agrees() {
    let mut app = library_with_tracks(3);
    app.track_state = Some(1);
    app.handle_key(code(KeyCode::Enter));
    let request = match app.handle_key(key('f')) {
        Some(Action::Fetch(r)) => r,
        other => panic!("expected a request, got {:?}", other),
    };
    match &request {
        Request::SetStarred { item_id, starred } => {
            assert_eq!(item_id, "t1");
            assert!(*starred);
        }
        other => panic!("expected a favorite request, got {:?}", other),
    }
    // nothing changes before the server answers
    assert!(!app.tracks[1].starred);
    assert!(app.complete(request, Ok(Vec::new())).is_none());
    assert!(app.tracks[1].starred);
    assert!(app.queue.items[1].starred);
    assert!(!app.tracks[0].starred);
    assert!(!app.tracks[2].starred);
    match app.handle_key(key('f')) {
        Some(Action::Fetch(Request::SetStarred { item_id, starred })) => {
            assert_eq!(item_id, "t1");
            assert!(!starred);
        }
        other => panic!("expected a favorite request, got {:?}", other),
    }
}

#[test]
fn f_acts_on_now_playing_without_a_selected_track() {
    let mut app = library_with_tracks(3);
    app.track_state = Some(2);
    app.handle_key(code(KeyCode::Enter));
    app.focus = Focus::Artists;
    match app.handle_key(key('f')) {
        Some(Action::Fetch(Request::SetStarred { item_id, starred })) => {
            assert_eq!(item_id, "t2");
            assert!(starred);
        }
        other => panic!("expected a favorite request, got {:?}", other),
    }
}

#[test]
fn f_without_any_track_does_nothing() {
    let mut app = App::new();
    assert!(app.handle_key(key('f')).is_none());
    assert_eq!(app.status_message, None);
}

#[test]
fn control_digits_rate_and_backquote_clears() {
    let mut app = library_with_tracks(2);
    let request = match app.handle_key(ctrl('4')) {
        Some(Action::Fetch(r)) => r,
        other => panic!("expected a request, got {:?}", other),
    };
    assert_eq!(app.active_tab, Tab::Library);
    match &request {
        Request::SetRating { item_id, rating } => {
            assert_eq!(item_id, "t0");
            assert_eq!(*rating, 4);
        }
        other => panic!("expected a rating request, got {:?}", other),
    }
    app.complete(request, Ok(Vec::new()));
    assert_eq!(app.tracks[0].user_rating, 4);
    assert_eq!(app.tracks[1].user_rating, 0);
    match app.handle_key(key('`')) {
        Some(Action::Fetch(Request::SetRating { item_id, rating })) => {
            assert_eq!(item_id, "t0");
            assert_eq!(rating, 0);
        }
        other => panic!("expected a rating request, got {:?}", other),
    }
    // a plain digit still switches tabs
    app.handle_key(key('3'));
    assert_eq!(app.active_tab, Tab::Queue);
}

#[test]
fn f_is_typed_into_the_search_line() {
    let mut app = App::new();
    app.handle_key(key('2'));
    assert!(app.handle_key(key('f')).is_none());
    assert_eq!(app.search_query, "f");
}

#[test]
fn marking_reaches_every_copy_of_the_track() {
    let mut v = vec![track("a", "A"), track("b", "B"), track("a", "A again")];
    mark_in(&mut v, &"a".to_string(), Mark::Rating(5));
    assert_eq!(v[0].user_rating, 5);
    assert_eq!(v[1].user_rating, 0);
    assert_eq!(v[2].user_rating, 5);
    mark_in(&mut v, &"b".to_string(), Mark::Favorite(true));
    assert!(v[1].starred);
    assert!(!v[0].starred);
}

#[test]
fn tab_twice_on_playlists_returns_and_elsewhere_stays() {
    let mut app = App::new();
    app.handle_key(key('5'));
    assert_eq!(app.focus, Focus::Playlists);
    app.handle_key(code(KeyCode::Tab));
    assert_eq!(app.focus, Focus::PlaylistTracks);
    app.handle_key(code(KeyCode::Tab));
    assert_eq!(app.focus, Focus::Playlists);
    app.handle_key(key('3'));
    let before = app.focus;
    app.handle_key(code(KeyCode::Tab));
    assert_eq!(app.focus, before);
}

#[test]
fn shuffle_from_a_middle_track_plays_each_other_track_once() {
    let mut app = library_with_tracks(5);
    app.track_state = Some(2);
    app.handle_key(code(KeyCode::Enter));
    app.handle_key(key('s'));
    assert_eq!(app.queue.current, Some(2));
    let mut seen: Vec<String> = Vec::new();
    for _ in 0..5 {
        match app.handle_key(key('n')) {
            Some(Action::Play(it)) => seen.push(it.id),
            None => break,
            other => panic!("unexpected action {:?}", other),
        }
    }
    assert_eq!(app.queue.current, None);
    assert!(seen.len() <= 4);
    assert!(!seen.contains(&"t2".to_string()));
    let mut sorted = seen.clone();
    sorted.sort();
    sorted.dedup();
    assert_eq!(sorted.len(), seen.len());
}
