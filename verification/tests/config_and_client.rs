use navidrome_tui::client::api::{
    add_to_playlist_params, check_response, error_detail, http_error, id_params, rating_params, recent_params,
    remove_from_playlist_params, search_params, star_endpoint, status_ok, SubsonicClient,
};
use navidrome_tui::client::auth::{
    auth_query, auth_query_with_salt, auth_token, check_auth_response, check_credentials, mark_authenticated,
    random_salt, url_encode,
};
use navidrome_tui::client::models::{SubsonicError, SubsonicResponse};
use navidrome_tui::config::{
    choose_server, get_server_config, migrate_config, new_server_config, preselected_server, server_menu,
    server_name_from_input, Config, MultiServerConfig, ServerEntry,
};

fn entry(name: &str, url: &str) -> ServerEntry {
    ServerEntry {
        name: name.to_string(),
        server_url: url.to_string(),
        username: "alice".to_string(),
        password: "pw".to_string(),
        token: None,
        user_id: None,
    }
}

fn two_servers() -> MultiServerConfig {
    MultiServerConfig {
        active: "remote".to_string(),
        servers: vec![entry("home", "http://10.0.0.1:4533"), entry("remote", "https://music.example.com")],
    }
}

fn config(url: &str, user: &str, pw: &str) -> Config {
    Config {
        server_url: url.to_string(),
        username: user.to_string(),
        password: pw.to_string(),
        token: None,
        user_id: None,
    }
}

#[test]
fn get_server_config_finds_by_name() {
    let multi = two_servers();
    let c = get_server_config(&multi, "remote").unwrap();
    assert_eq!(c.server_url, "https://music.example.com");
    assert_eq!(c.username, "alice");
    assert!(get_server_config(&multi, "missing").is_none());
}

#[test]
fn url_display_is_server_url() {
    let e = entry("home", "http://10.0.0.1:4533");
    assert_eq!(e.url_display(), "http://10.0.0.1:4533");
}

#[test]
fn old_config_migrates_to_default_server() {
    let multi = migrate_config(config("http://x", "bob", "secret"));
    assert_eq!(multi.active, "default");
    assert_eq!(multi.servers.len(), 1);
    assert_eq!(multi.servers[0].name, "default");
    assert_eq!(multi.servers[0].username, "bob");
}

#[test]
fn update_server_stores_token_and_user_id() {
    let mut multi = two_servers();
    let mut c = config("u", "alice", "pw");
    c.user_id = Some("alice".to_string());
    multi.update_server("home", &c);
    assert_eq!(multi.servers[0].user_id.as_deref(), Some("alice"));
    assert_eq!(multi.servers[1].user_id, None);
    multi.update_server("nowhere", &c);
    assert_eq!(multi.servers.len(), 2);
    let found = get_server_config(&multi, "home").unwrap();
    assert_eq!(found.user_id.as_deref(), Some("alice"));
    assert_eq!(found.server_url, "http://10.0.0.1:4533");
}

#[test]
fn server_choice_by_number_name_or_default() {
    let multi = two_servers();
    assert_eq!(choose_server(&multi, "1"), "home");
    assert_eq!(choose_server(&multi, " 2 \n"), "remote");
    assert_eq!(choose_server(&multi, "home"), "home");
    assert_eq!(choose_server(&multi, ""), "remote");
    assert_eq!(choose_server(&multi, "7"), "remote");
    assert_eq!(choose_server(&multi, "nope"), "remote");
    assert_eq!(preselected_server(&multi), None);
    let single = new_server_config("solo".to_string(), "u".to_string(), "a".to_string(), "p".to_string());
    assert_eq!(preselected_server(&single).as_deref(), Some("solo"));
}

#[test]
fn server_menu_marks_active() {
    let lines = server_menu(&two_servers());
    assert_eq!(lines[0], "  [1] home — http://10.0.0.1:4533");
    assert_eq!(lines[1], "  [2] remote — https://music.example.com (active)");
}

#[test]
fn server_name_defaults() {
    assert_eq!(server_name_from_input("  \n"), "default");
    assert_eq!(server_name_from_input(" work \n"), "work");
}

#[test]
fn url_encode_keeps_unreserved_bytes() {
    assert_eq!(url_encode("abc-XYZ_0.9~"), "abc-XYZ_0.9~");
    assert_eq!(url_encode("a b&c"), "a%20b%26c");
    assert_eq!(url_encode("é"), "%C3%A9");
    assert_eq!(url_encode(""), "");
}

#[test]
fn auth_token_matches_subsonic_example() {
    assert_eq!(auth_token("sesame", "c19b2d"), "26719a1196d2a940705a59634eb18eab");
}

#[test]
fn auth_query_with_fixed_salt() {
    assert_eq!(
        auth_query_with_salt("a b", "sesame", "c19b2d"),
        "u=a%20b&t=26719a1196d2a940705a59634eb18eab&s=c19b2d&v=1.16.1&c=navidrome-tui&f=json"
    );
}

#[test]
fn random_salt_is_sixteen_hex_digits_and_query_uses_it() {
    let s = random_salt();
    assert_eq!(s.len(), 16);
    assert!(s.chars().all(|c| c.is_ascii_hexdigit() && !c.is_ascii_uppercase()));
    let q = auth_query("alice", "pw");
    assert!(q.starts_with("u=alice&t="));
    assert!(q.ends_with("&v=1.16.1&c=navidrome-tui&f=json"));
    let salt = &q[q.find("&s=").unwrap() + 3..q.find("&v=").unwrap()];
    let token = &q[q.find("&t=").unwrap() + 3..q.find("&s=").unwrap()];
    assert_eq!(token, auth_token("pw", salt));
}

#[test]
fn credentials_are_checked_in_order() {
    assert_eq!(check_credentials(&config("", "a", "b")).unwrap_err(), "Server URL is empty in config");
    assert_eq!(check_credentials(&config("u", "", "b")).unwrap_err(), "Username is empty in config");
    assert!(check_credentials(&config("u", "a", "")).unwrap_err().starts_with("Password is empty in config"));
    assert!(check_credentials(&config("u", "a", "b")).is_ok());
}

#[test]
fn sign_in_records_user_id() {
    let mut c = config("u", "alice", "pw");
    c.token = Some("old".to_string());
    mark_authenticated(&mut c);
    assert_eq!(c.token, None);
    assert_eq!(c.user_id.as_deref(), Some("alice"));
}

#[test]
fn auth_response_rejection_carries_detail() {
    let ok = SubsonicResponse { status: "ok".to_string(), error: None, data: () };
    assert!(check_auth_response(&ok).is_ok());
    let bad = SubsonicResponse {
        status: "failed".to_string(),
        error: Some(SubsonicError { code: 40, message: "Wrong username or password".to_string() }),
        data: (),
    };
    assert_eq!(
        check_auth_response(&bad).unwrap_err(),
        "Authentication rejected by server: (code 40) Wrong username or password"
    );
}

#[test]
fn client_needs_url_user_and_password() {
    assert_eq!(SubsonicClient::new(&config("", "a", "b")).err().unwrap(), "Missing server URL");
    assert_eq!(SubsonicClient::new(&config("u", "", "b")).err().unwrap(), "Missing username");
    assert_eq!(SubsonicClient::new(&config("u", "a", "")).err().unwrap(), "Missing password");
    let c = SubsonicClient::new(&config("http://h", "a", "b")).ok().unwrap();
    assert_eq!(c.base_url, "http://h");
    assert_eq!(c.user_id, "a");
}

#[test]
fn request_urls_have_endpoint_auth_and_params() {
    let c = SubsonicClient::new(&config("http://h:4533", "alice", "pw")).ok().unwrap();
    let u = c.url("getAlbum.view", "id=7");
    assert!(u.starts_with("http://h:4533/rest/getAlbum.view?u=alice&t="));
    assert!(u.ends_with("&f=json&id=7"));
    let plain = c.url("ping.view", "");
    assert!(plain.ends_with("&f=json"));
    let s = c.stream_url("a b");
    assert!(s.starts_with("http://h:4533/rest/stream.view?"));
    assert!(s.ends_with("&id=a%20b"));
}

#[test]
fn parameter_builders() {
    assert_eq!(id_params("x/y"), "id=x%2Fy");
    assert_eq!(search_params("abba"), "query=abba&artistCount=20&albumCount=20&songCount=50");
    assert_eq!(recent_params(100), "type=newest&size=100");
    assert_eq!(recent_params(900), "type=newest&size=500");
    assert_eq!(
        add_to_playlist_params("p1", &vec!["s1".to_string(), "s 2".to_string()]),
        "playlistId=p1&songIdToAdd=s1&songIdToAdd=s%202"
    );
}

#[test]
fn removal_indices_go_from_largest_and_skip_unparsable() {
    let ids = vec!["2".to_string(), "x".to_string(), "10".to_string(), "0".to_string()];
    assert_eq!(
        remove_from_playlist_params("p", &ids),
        "playlistId=p&songIndexToRemove=10&songIndexToRemove=2&songIndexToRemove=0"
    );
}

#[test]
fn response_errors_name_endpoint() {
    assert!(status_ok("ok"));
    assert!(!status_ok("failed"));
    let ok = SubsonicResponse { status: "ok".to_string(), error: None, data: 5u32 };
    assert_eq!(check_response("getSong", ok).ok(), Some(5));
    let bad: SubsonicResponse<u32> = SubsonicResponse { status: "failed".to_string(), error: None, data: 0 };
    assert_eq!(check_response("getSong", bad).err().unwrap(), "getSong: unknown error");
    assert_eq!(error_detail(&Some(SubsonicError { code: -3, message: "m".to_string() })), "(code -3) m");
    assert_eq!(http_error("ping", "500 Internal Server Error", "oops"), "ping: HTTP 500 Internal Server Error: oops");
}

#[test]
fn favorite_and_rating_requests() {
    assert_eq!(star_endpoint(true), "star.view");
    assert_eq!(star_endpoint(false), "unstar.view");
    assert_eq!(rating_params("a b", 4), "id=a%20b&rating=4");
    assert_eq!(rating_params("t", 0), "id=t&rating=0");
}

#[test]
fn answers_are_trimmed_of_unicode_white_space() {
    assert_eq!(server_name_from_input("\u{3000}\u{A0}home\u{2003}\t"), "home");
    assert_eq!(server_name_from_input("\u{85}\u{2028}"), "default");
    // a zero-width space is not white space
    assert_eq!(server_name_from_input("\u{200B}x"), "\u{200B}x");
}
