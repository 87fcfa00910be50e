use navidrome_tui::app::{App, Focus, Request, Tab};
use navidrome_tui::client::models::Item;
use navidrome_tui::text::{contains_str, parse_unsigned, trim_trailing_slashes, u64_to_string};
use navidrome_tui::ui::help::{help_entries, help_line, HelpLine};
use navidrome_tui::ui::library::{
    albums_title, artist_rows, artists_title, queue_row, queue_title, track_row, tracks_title, year_label,
};
use navidrome_tui::ui::now_playing::{modes_line, now_playing_line, time_line, volume_line};
use navidrome_tui::ui::playlists::{playlist_track_row, playlist_tracks_title, playlists_title, popup_row, popup_title};
use navidrome_tui::ui::recent::{join, recent_row, recent_title};
use navidrome_tui::ui::scroll::{compute_scroll_offset, scroll_line, slice_span_content, str_width, StyledSpan};
use navidrome_tui::ui::search::{result_row, results_title, search_line};
use navidrome_tui::ui::{tab_bar, RowMark};

fn track(id: &str, name: &str) -> Item {
    let mut it = Item::default();
    it.id = id.to_string();
    it.name = name.to_string();
    it.item_type = Some("Audio".to_string());
    it.duration_seconds = Some(125);
    it
}

fn span(text: &str, style: u8) -> StyledSpan<u8> {
    StyledSpan { content: text.to_string(), style }
}

#[test]
fn text_helpers() {
    assert_eq!(u64_to_string(0), "0");
    assert_eq!(u64_to_string(18446744073709551615), "18446744073709551615");
    assert_eq!(parse_unsigned("42", 100), Some(42));
    assert_eq!(parse_unsigned("420", 100), None);
    assert_eq!(parse_unsigned("4x", 100), None);
    assert_eq!(parse_unsigned("", 100), None);
    assert_eq!(trim_trailing_slashes("http://h:4533///"), "http://h:4533");
    assert!(contains_str("hello world", "o w"));
    assert!(!contains_str("hello", "world"));
    assert!(contains_str("abc", ""));
}

#[test]
fn scroll_offset_pauses_then_scrolls() {
    assert_eq!(compute_scroll_offset(5, 0), 0);
    assert_eq!(compute_scroll_offset(9, 4), 0);
    assert_eq!(compute_scroll_offset(10, 4), 0);
    assert_eq!(compute_scroll_offset(13, 4), 1);
    assert_eq!(compute_scroll_offset(21, 4), 3);
    assert_eq!(compute_scroll_offset(22, 4), 4);
    assert_eq!(compute_scroll_offset(31, 4), 4);
    assert_eq!(compute_scroll_offset(32, 4), 0);
    assert_eq!(compute_scroll_offset(0, 5), 0);
    assert_eq!(compute_scroll_offset(13, 5), 1);
    assert_eq!(compute_scroll_offset(26, 5), 5);
    assert_eq!(compute_scroll_offset(65535, 40000), 21841);
}

#[test]
fn widths_count_wide_characters_twice() {
    assert_eq!(str_width("abc"), 3);
    assert_eq!(str_width("日本"), 4);
    assert_eq!(slice_span_content("abcdef", 2, 3), "cde");
    assert_eq!(slice_span_content("日本語", 1, 4), "本語");
}

#[test]
fn scroll_line_keeps_fitting_lines_and_cuts_long_ones() {
    let short = vec![span("ab", 1), span("cd", 2)];
    let same = scroll_line(short, 10, 99);
    assert_eq!(same.len(), 2);
    assert_eq!(same[1].content, "cd");
    let long = vec![span("hello ", 1), span("world", 2)];
    let cut = scroll_line(long, 5, 0);
    let text: String = cut.iter().map(|s| s.content.clone()).collect();
    assert_eq!(text, "hello");
    let long = vec![span("hello ", 1), span("world", 2)];
    let cut = scroll_line(long, 5, 16);
    let text: String = cut.iter().map(|s| s.content.clone()).collect();
    assert_eq!(text, "llo w");
    assert_eq!(cut.last().unwrap().style, 2);
}

#[test]
fn tab_bar_marks_active_tab() {
    let mut app = App::new();
    app.active_tab = Tab::Queue;
    let bar = tab_bar(&app);
    assert_eq!(bar.len(), 5);
    assert_eq!(bar[2], ("[3:Queue]", true));
    assert_eq!(bar[0], ("[1:Library]", false));
}

#[test]
fn library_titles_and_rows() {
    let mut app = App::new();
    app.complete(Request::Artists, Ok(vec![track("a1", "ABBA"), track("a2", "Blur")]));
    assert_eq!(artists_title(&app), " Artists (2) ");
    app.filter_active = true;
    app.filter_text = "bl".to_string();
    assert_eq!(artists_title(&app), " Artists [/bl] ");
    app.filter_active = false;
    app.filter_text.clear();
    let rows = artist_rows(&app);
    assert_eq!(rows, vec![("ABBA".to_string(), true), ("Blur".to_string(), false)]);
    assert_eq!(albums_title(&app), " Albums ");
    app.selected_artist_name = Some("Blur".to_string());
    app.albums = vec![track("al", "Parklife")];
    assert_eq!(albums_title(&app), " Albums - Blur (1) ");
    assert_eq!(year_label(Some(1994)), " (1994)");
    assert_eq!(year_label(None), "");
    app.tracks = vec![track("t1", "Girls & Boys"), track("t2", "Tracy Jacks")];
    app.tracks[1].index_number = Some(12);
    app.tracks[0].album = Some("Parklife".to_string());
    assert_eq!(tracks_title(&app), " Tracks ");
    app.selected_album_name = Some("All Tracks".to_string());
    assert_eq!(tracks_title(&app), " Blur - All Tracks (2) ");
    app.selected_album_name = Some("Parklife".to_string());
    assert_eq!(tracks_title(&app), " Parklife (2) ");
    let r0 = track_row(&app, 0);
    assert_eq!(r0.number, "   1. ");
    assert_eq!(r0.album, "Parklife");
    assert_eq!(r0.duration, "2:05");
    assert_eq!(r0.mark, RowMark::Plain);
    let r1 = track_row(&app, 1);
    assert_eq!(r1.number, "  12. ");
    assert_eq!(r1.album, "");
}

#[test]
fn playing_and_visual_rows_stand_out() {
    let mut app = App::new();
    app.tracks = vec![track("t1", "One"), track("t2", "Two"), track("t3", "Three")];
    app.focus = Focus::Tracks;
    app.track_state = Some(0);
    app.queue.replace(vec![track("t1", "One")], 0);
    assert_eq!(track_row(&app, 0).mark, RowMark::Playing);
    assert_eq!(track_row(&app, 0).number, "♪  1. ");
    app.visual_mode = true;
    app.visual_anchor = Some(2);
    assert_eq!(track_row(&app, 1).mark, RowMark::Visual);
    assert_eq!(track_row(&app, 0).mark, RowMark::Playing);
    assert_eq!(tracks_title(&app), " Tracks -- VISUAL 3 selected ");
}

#[test]
fn queue_rows_and_title() {
    let mut app = App::new();
    app.queue.replace(vec![track("a", "A"), track("b", "B")], 1);
    let r = queue_row(&app, 1);
    assert!(r.current);
    assert_eq!(r.number, "▶ 2. ");
    assert_eq!(queue_row(&app, 0).number, "  1. ");
    assert_eq!(queue_title(&app), " Queue (2) | Repeat: Off | Shuffle: Off ");
}

#[test]
fn playlist_views() {
    let mut app = App::new();
    app.playlists = vec![track("p1", "Mix")];
    assert_eq!(playlists_title(&app), " Playlists (1) ");
    app.playlist_create_mode = true;
    app.playlist_create_name = "Ne".to_string();
    assert_eq!(playlists_title(&app), " New Playlist: Ne_ ");
    let mut t = track("t", "Song");
    t.artists = Some(vec!["Band".to_string()]);
    t.album = Some("LP".to_string());
    app.playlist_tracks = vec![t];
    let row = playlist_track_row(&app, 0);
    assert_eq!(row.number, "   1. ");
    assert_eq!(row.artist, " - Band");
    assert_eq!(row.album, "  LP");
    assert_eq!(row.duration, "  2:05");
    assert_eq!(playlist_tracks_title(&app), " Tracks ");
    app.selected_playlist_name = Some("Mix".to_string());
    assert_eq!(playlist_tracks_title(&app), " Mix (1) ");
    assert_eq!(popup_title(&app), " Add to Playlist ");
    app.add_to_playlist_items = vec![track("x", "X"), track("y", "Y")];
    assert_eq!(popup_title(&app), " Add 2 tracks to Playlist ");
    assert_eq!(popup_row(&app, 0), "  Mix");
}

#[test]
fn recent_rows_join_lists_and_cut_dates() {
    let mut app = App::new();
    app.active_tab = Tab::Recent;
    let mut t = track("r", "New");
    t.artists = Some(vec!["A".to_string(), "B".to_string()]);
    t.genres = Some(vec!["Rock".to_string(), "Pop".to_string()]);
    t.date_created = Some("2024-05-01T10:00:00Z".to_string());
    let mut bare = track("s", "Old");
    bare.album_artist = Some("Solo".to_string());
    bare.date_created = Some("2024".to_string());
    app.recent_tracks = vec![t, bare];
    let row = recent_row(&app, 0);
    assert_eq!(row.prefix, "  ");
    assert_eq!(row.artists, " - A, B");
    assert_eq!(row.genres.as_deref(), Some("  [Rock, Pop]"));
    assert_eq!(row.added.as_deref(), Some("  2024-05-01"));
    assert_eq!(row.duration, "  2:05");
    let row = recent_row(&app, 1);
    assert_eq!(row.artists, " - Solo");
    assert_eq!(row.genres, None);
    assert_eq!(row.added, None);
    assert_eq!(recent_title(&app), " Recent (2) ");
    app.visual_mode = true;
    app.visual_anchor = Some(0);
    app.recent_state = Some(1);
    assert_eq!(recent_title(&app), " Recent (2) -- VISUAL 2 selected ");
    assert_eq!(join(&vec![], ", "), "");
}

#[test]
fn search_views() {
    let mut app = App::new();
    app.search_focused = true;
    app.search_query = "ab".to_string();
    assert_eq!(search_line(&app), " ab_");
    assert_eq!(results_title(&app), " Results (0) ");
    let mut album = track("al", "LP");
    album.item_type = Some("MusicAlbum".to_string());
    album.album_artist = Some("Band".to_string());
    album.production_year = Some(2001);
    let mut song = track("s", "Hit");
    song.artists = Some(vec!["Band".to_string()]);
    let mut other = track("o", "Thing");
    other.item_type = None;
    app.search_results = vec![album, song, other];
    assert_eq!(result_row(&app, 0), ("[Album] ", "LP".to_string(), " - Band (2001)".to_string()));
    assert_eq!(result_row(&app, 1), ("[Track] ", "Hit".to_string(), " - Band  2:05".to_string()));
    assert_eq!(result_row(&app, 2), ("[?]     ", "Thing".to_string(), String::new()));
    app.search_query.clear();
    assert_eq!(results_title(&app), " Results ");
}

#[test]
fn now_playing_bar() {
    let mut app = App::new();
    assert_eq!(now_playing_line(&app), "  No track playing");
    assert_eq!(time_line(&app, 5, 10), "");
    assert_eq!(volume_line(&app), "Vol: 80%");
    let mut t = track("t", "Song");
    t.album_artist = Some("Band".to_string());
    app.queue.replace(vec![t], 0);
    assert_eq!(now_playing_line(&app), "  Now Playing: Song - Band");
    app.player_state.paused = true;
    assert_eq!(time_line(&app, 65, 125), "[1:05/2:05] [PAUSED]");
    app.queue.shuffle = true;
    assert_eq!(modes_line(&app), " Off Shuf");
}

#[test]
fn help_lines_classify_entries() {
    let entries = help_entries();
    assert_eq!(entries.len(), 35);
    assert_eq!(entries[0], ("Navigation", ""));
    match help_line("Navigation", "") {
        HelpLine::Header(h) => assert_eq!(h, " Navigation"),
        other => panic!("unexpected {:?}", other),
    }
    assert!(matches!(help_line("", ""), HelpLine::Blank));
    match help_line("j / k", "Move down / up") {
        HelpLine::Entry(k, d) => {
            assert_eq!(k, format!("  {:<20}", "j / k"));
            assert_eq!(d, "Move down / up");
        }
        other => panic!("unexpected {:?}", other),
    }
}
