use navidrome_tui::client::api::{
    append_album_tracks, append_recent, artist_album_items, album_song_items, artist_index_items,
    playlist_list_items, playlist_track_items, recent_full, search_items,
};
use navidrome_tui::client::models::{
    format_duration, Album, AlbumPayload, Artist, ArtistIndexEntry, ArtistPayload, ArtistsIndex, ArtistsPayload,
    Item, PlaylistMeta, PlaylistPayload, PlaylistsInner, PlaylistsPayload, SearchInner, SearchPayload, Song,
};
use navidrome_tui::player::media_controls::{
    media_event_for, playback_status, pump_event_loop, ControlEvent, MediaEvent, PlaybackStatus,
};
use navidrome_tui::player::mpv::{apply_command, apply_end_file, MpvOp, PlayerCommand, PlayerState};
use navidrome_tui::player::queue::{Queue, RepeatMode};

fn song(id: &str, title: &str) -> Song {
    Song {
        id: id.to_string(),
        title: title.to_string(),
        album: Some("Alb".to_string()),
        album_id: None,
        artist: Some("Art".to_string()),
        artist_id: None,
        track: None,
        year: Some(1999),
        genre: Some("Pop".to_string()),
        duration: Some(185),
        bit_rate: Some(320),
        suffix: Some("mp3".to_string()),
        created: None,
        disc_number: None,
        starred: None,
        user_rating: Some(9),
    }
}

fn album(id: &str, name: &str, year: Option<u32>) -> Album {
    Album {
        id: id.to_string(),
        name: name.to_string(),
        artist: Some("Art".to_string()),
        artist_id: None,
        year,
        created: None,
        song_count: None,
        duration: None,
        songs: None,
        starred: Some("2024".to_string()),
        user_rating: None,
    }
}

fn artist(id: &str, name: &str) -> Artist {
    Artist { id: id.to_string(), name: name.to_string(), album_count: None, albums: None }
}

fn playlist(id: &str, name: &str, entries: Option<Vec<Song>>) -> PlaylistMeta {
    PlaylistMeta {
        id: id.to_string(),
        name: name.to_string(),
        song_count: None,
        duration: Some(60),
        created: None,
        changed: None,
        entries,
    }
}

fn named(id: &str) -> Item {
    let mut it = Item::default();
    it.id = id.to_string();
    it.name = id.to_uppercase();
    it
}

#[test]
fn durations_format_as_minutes_and_seconds() {
    assert_eq!(format_duration(0), "0:00");
    assert_eq!(format_duration(65), "1:05");
    assert_eq!(format_duration(3600), "60:00");
}

#[test]
fn song_becomes_track_item() {
    let it = song("s1", "Hello").into_item();
    assert_eq!(it.item_type.as_deref(), Some("Audio"));
    assert_eq!(it.name, "Hello");
    assert_eq!(it.artists, Some(vec!["Art".to_string()]));
    assert_eq!(it.genres, Some(vec!["Pop".to_string()]));
    assert_eq!(it.user_rating, 5);
    assert!(!it.starred);
    assert_eq!(it.duration_display(), "3:05");
    assert_eq!(it.codec_display().as_deref(), Some("MP3 @ 320 kbps"));
    assert_eq!(it.artist_display(), "Art");
    assert_eq!(it.duration_secs(), 185);
}

#[test]
fn album_artist_and_playlist_items() {
    let a = album("a1", "First", Some(2001)).into_item();
    assert_eq!(a.item_type.as_deref(), Some("MusicAlbum"));
    assert!(a.starred);
    assert_eq!(a.production_year, Some(2001));
    let ar = artist("r1", "Band").into_item();
    assert_eq!(ar.item_type.as_deref(), Some("MusicArtist"));
    assert_eq!(ar.album, None);
    let p = playlist("p1", "Mix", None).into_item();
    assert_eq!(p.item_type.as_deref(), Some("Playlist"));
    assert_eq!(p.duration_seconds, Some(60));
    let plain = Item::default();
    assert_eq!(plain.artist_display(), "");
    assert_eq!(plain.codec_display(), None);
    assert_eq!(plain.duration_display(), "0:00");
}

#[test]
fn artist_index_is_flattened_in_order() {
    let payload = ArtistsPayload {
        artists: ArtistsIndex {
            index: vec![
                ArtistIndexEntry { name: "A".to_string(), artist: vec![artist("1", "ABBA"), artist("2", "Air")] },
                ArtistIndexEntry { name: "B".to_string(), artist: vec![artist("3", "Blur")] },
            ],
        },
    };
    let items = artist_index_items(payload);
    let names: Vec<&str> = items.iter().map(|i| i.name.as_str()).collect();
    assert_eq!(names, vec!["ABBA", "Air", "Blur"]);
}

#[test]
fn artist_albums_sort_by_year_then_name_unknown_last() {
    let mut a = artist("r", "Band");
    a.albums = Some(vec![
        album("1", "Zed", Some(2000)),
        album("2", "Unknown", None),
        album("3", "Alpha", Some(2000)),
        album("4", "Old", Some(1990)),
    ]);
    let items = artist_album_items(ArtistPayload { artist: a });
    let ids: Vec<&str> = items.iter().map(|i| i.id.as_str()).collect();
    assert_eq!(ids, vec!["4", "3", "1", "2"]);
}

#[test]
fn album_songs_sort_by_disc_then_track() {
    let mut s1 = song("a", "A");
    s1.disc_number = Some(2);
    s1.track = Some(1);
    let mut s2 = song("b", "B");
    s2.track = Some(3);
    let mut s3 = song("c", "C");
    s3.track = Some(2);
    let mut al = album("x", "X", None);
    al.songs = Some(vec![s1, s2, s3]);
    let items = album_song_items(AlbumPayload { album: al });
    let ids: Vec<&str> = items.iter().map(|i| i.id.as_str()).collect();
    assert_eq!(ids, vec!["c", "b", "a"]);
}

#[test]
fn playlists_sort_by_name_ignoring_case() {
    let payload = PlaylistsPayload {
        playlists: PlaylistsInner {
            playlist: vec![playlist("1", "beta", None), playlist("2", "Alpha", None), playlist("3", "Gamma", None)],
        },
    };
    let items = playlist_list_items(payload);
    let names: Vec<&str> = items.iter().map(|i| i.name.as_str()).collect();
    assert_eq!(names, vec!["Alpha", "beta", "Gamma"]);
}

#[test]
fn playlist_entries_remember_their_index() {
    let payload = PlaylistPayload { playlist: playlist("p", "P", Some(vec![song("a", "A"), song("b", "B")])) };
    let items = playlist_track_items(payload);
    assert_eq!(items[0].playlist_item_id.as_deref(), Some("0"));
    assert_eq!(items[1].playlist_item_id.as_deref(), Some("1"));
    let empty = playlist_track_items(PlaylistPayload { playlist: playlist("p", "P", None) });
    assert!(empty.is_empty());
}

#[test]
fn search_results_list_artists_albums_then_songs() {
    let payload = SearchPayload {
        search_result3: SearchInner {
            artist: vec![artist("r", "R")],
            album: vec![album("a", "A", None)],
            song: vec![song("s", "S")],
        },
    };
    let kinds: Vec<String> = search_items(payload).into_iter().map(|i| i.item_type.unwrap()).collect();
    assert_eq!(kinds, vec!["MusicArtist", "MusicAlbum", "Audio"]);
}

#[test]
fn recent_list_stops_at_limit() {
    let mut all = vec![named("a")];
    append_recent(&mut all, vec![named("b"), named("c"), named("d")], 3);
    assert_eq!(all.len(), 3);
    assert!(recent_full(&all, 3));
    append_recent(&mut all, vec![named("e")], 3);
    assert_eq!(all.len(), 3);
    assert!(!recent_full(&all, 4));
}

#[test]
fn album_tracks_append_only_on_success() {
    let mut all = vec![named("a")];
    append_album_tracks(&mut all, Err("x".to_string()));
    assert_eq!(all.len(), 1);
    append_album_tracks(&mut all, Ok(vec![named("b")]));
    assert_eq!(all.len(), 2);
}

#[test]
fn repeat_mode_cycles_and_labels() {
    assert_eq!(RepeatMode::Off.next(), RepeatMode::All);
    assert_eq!(RepeatMode::All.next(), RepeatMode::One);
    assert_eq!(RepeatMode::One.next(), RepeatMode::Off);
    assert_eq!(RepeatMode::Off.label(), "Off");
    assert_eq!(RepeatMode::All.label(), "All");
    assert_eq!(RepeatMode::One.label(), "One");
}

#[test]
fn queue_next_prev_and_repeat() {
    let mut q = Queue::new();
    q.replace(vec![named("a"), named("b"), named("c")], 7);
    assert_eq!(q.current, Some(2));
    assert!(q.next().is_none());
    assert_eq!(q.current, None);
    assert_eq!(q.next().map(|i| i.id.clone()), Some("a".to_string()));
    q.repeat = RepeatMode::One;
    assert_eq!(q.next().map(|i| i.id.clone()), Some("a".to_string()));
    q.repeat = RepeatMode::All;
    assert_eq!(q.prev().map(|i| i.id.clone()), Some("c".to_string()));
    assert_eq!(q.next().map(|i| i.id.clone()), Some("a".to_string()));
}

#[test]
fn queue_enqueue_remove_clear() {
    let mut q = Queue::new();
    q.enqueue(named("a"));
    assert_eq!(q.current, Some(0));
    q.enqueue_many(vec![named("b"), named("c")]);
    assert_eq!(q.items.len(), 3);
    q.current = Some(2);
    q.remove(0);
    assert_eq!(q.current, Some(1));
    q.remove(1);
    assert_eq!(q.current, Some(0));
    q.remove(5);
    assert_eq!(q.items.len(), 1);
    q.remove(0);
    assert_eq!(q.current, None);
    q.enqueue(named("z"));
    q.clear();
    assert!(q.items.is_empty());
    assert_eq!(q.current_item().map(|i| i.id.clone()), None);
}

#[test]
fn shuffle_visits_every_item_once() {
    let mut q = Queue::new();
    q.replace((0..6).map(|i| named(&format!("t{i}"))).collect(), 0);
    q.toggle_shuffle();
    assert!(q.shuffle);
    q.current = Some(q.shuffle_order[0]);
    let mut seen = vec![q.current.unwrap()];
    while let Some(it) = q.next() {
        let _ = it;
        seen.push(q.current.unwrap());
    }
    seen.sort();
    assert_eq!(seen, vec![0, 1, 2, 3, 4, 5]);
}

#[test]
fn player_commands_update_state() {
    let mut st = PlayerState::default();
    assert_eq!(st.volume, 80);
    assert!(matches!(apply_command(&mut st, PlayerCommand::TogglePause), MpvOp::Nothing));
    assert!(matches!(apply_command(&mut st, PlayerCommand::SeekForward(10)), MpvOp::Nothing));
    match apply_command(&mut st, PlayerCommand::Play("http://x".to_string())) {
        MpvOp::LoadFile(u) => assert_eq!(u, "http://x"),
        _ => panic!("expected loadfile"),
    }
    assert!(st.playing && !st.paused && !st.finished);
    assert!(matches!(apply_command(&mut st, PlayerCommand::TogglePause), MpvOp::SetPause(true)));
    assert!(st.paused);
    assert!(matches!(apply_command(&mut st, PlayerCommand::Resume), MpvOp::SetPause(false)));
    assert!(matches!(apply_command(&mut st, PlayerCommand::Pause), MpvOp::SetPause(true)));
    assert!(matches!(apply_command(&mut st, PlayerCommand::SeekBackward(10)), MpvOp::SeekRelative(-10)));
    assert!(matches!(apply_command(&mut st, PlayerCommand::SetVolume(150)), MpvOp::SetVolume(100)));
    assert!(matches!(apply_command(&mut st, PlayerCommand::SetVolume(-4)), MpvOp::SetVolume(0)));
    assert_eq!(st.volume, 0);
    assert!(matches!(apply_command(&mut st, PlayerCommand::Stop), MpvOp::Stop));
    assert!(!st.playing && !st.paused);
    assert!(matches!(apply_command(&mut st, PlayerCommand::Quit), MpvOp::Quit));
}

#[test]
fn only_end_of_stream_finishes() {
    let mut st = PlayerState { playing: true, paused: false, volume: 50, finished: false };
    apply_end_file(&mut st, false);
    assert!(st.playing && !st.finished);
    apply_end_file(&mut st, true);
    assert!(!st.playing && st.finished);
}

#[test]
fn media_controls_mapping() {
    assert_eq!(media_event_for(ControlEvent::Play), Some(MediaEvent::Toggle));
    assert_eq!(media_event_for(ControlEvent::Pause), Some(MediaEvent::Toggle));
    assert_eq!(media_event_for(ControlEvent::Toggle), Some(MediaEvent::Toggle));
    assert_eq!(media_event_for(ControlEvent::Next), Some(MediaEvent::Next));
    assert_eq!(media_event_for(ControlEvent::Previous), Some(MediaEvent::Prev));
    assert_eq!(media_event_for(ControlEvent::Other), None);
    assert_eq!(playback_status(false, true), PlaybackStatus::Stopped);
    assert_eq!(playback_status(true, true), PlaybackStatus::Paused);
    assert_eq!(playback_status(true, false), PlaybackStatus::Playing);
    pump_event_loop();
}

#[test]
fn toggling_pause_twice_restores_state() {
    let mut st = PlayerState { playing: true, paused: false, volume: 40, finished: false };
    let before = st;
    apply_command(&mut st, PlayerCommand::TogglePause);
    assert!(st.paused);
    apply_command(&mut st, PlayerCommand::TogglePause);
    assert_eq!(st, before);
}

#[test]
fn previous_undoes_next_within_the_queue() {
    let mut q = Queue::new();
    q.replace(vec![named("a"), named("b"), named("c")], 1);
    q.next();
    assert_eq!(q.current, Some(2));
    q.prev();
    assert_eq!(q.current, Some(1));
}

#[test]
fn codec_line_matches_readme_example() {
    let mut it = Item::default();
    it.container = Some("flac".to_string());
    it.bitrate_kbps = Some(1411);
    assert_eq!(it.codec_display().as_deref(), Some("FLAC @ 1411 kbps"));
}

#[test]
fn queue_tolerates_a_position_past_the_end() {
    let mut q = Queue::new();
    q.replace((0..3).map(|i| named(&format!("t{i}"))).collect(), 0);
    q.current = Some(usize::MAX);
    assert!(q.current_item().is_none());
    assert!(q.next().is_none());
    assert_eq!(q.current, None);
    q.current = Some(7);
    q.repeat = RepeatMode::All;
    assert_eq!(q.next().map(|i| i.id.clone()), Some("t0".to_string()));
    q.current = Some(7);
    q.toggle_shuffle();
    assert!(q.shuffle);
    assert_eq!(q.current, Some(7));
    assert!(q.next().is_some());
    assert!(q.current.unwrap() < 3);
}
