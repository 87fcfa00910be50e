//! The Subsonic client: request URLs and parameters, and what the responses become.
use vstd::prelude::*;
use vstd::utf8::encode_utf8;
use crate::client::auth::{auth_query, auth_query_text, is_salt, percent_encoded, url_encode};
use crate::client::models::{
    album_item, artist_item, items_view, playlist_item, song_item, strings_view, Album, AlbumPayload, Artist,
    ArtistIndexEntry, ArtistPayload, ArtistsPayload, Item, ItemView, PlaylistMeta, PlaylistPayload, PlaylistsPayload, SearchPayload,
    Song, SubsonicError, SubsonicResponse,
};
use crate::config::Config;
use crate::sorting::{is_stable_sort, keys_agree, lemma_unkeyed_sort, sort_descending, sorted_descending, stable_sort, unkeyed, SortKey};
use crate::text::{chars_of, decimal, lowercase, parse_unsigned, parse_unsigned_spec, push_all, push_decimal, push_signed_decimal, signed_decimal, to_lowercase};

verus! {

/// The server and credentials every request is made with.
#[derive(Debug)]
pub struct SubsonicClient {
    pub base_url: String,
    pub user_id: String,
    username: String,
    password: String,
}

/// Why a client cannot be made from the configuration, if it cannot: the first empty field
/// among server URL, username and password.
pub open spec fn client_config_problem(c: Config) -> Option<Seq<char>> {
    if c.server_url@.len() == 0 {
        Some("Missing server URL"@)
    } else if c.username@.len() == 0 {
        Some("Missing username"@)
    } else if c.password@.len() == 0 {
        Some("Missing password"@)
    } else {
        None
    }
}

/// A request URL: `<base>/rest/<endpoint>?<auth>`, then `&<extra>` when there are extra
/// parameters.
pub open spec fn url_text(base: Seq<char>, endpoint: Seq<char>, auth: Seq<char>, extra: Seq<char>) -> Seq<char> {
    base + "/rest/"@ + endpoint + "?"@ + auth + (if extra.len() == 0 { Seq::empty() } else { "&"@ + extra })
}

/// The parameter `<name>=<value, percent-encoded>`.
pub open spec fn param_text(name: Seq<char>, value: Seq<char>) -> Seq<char> {
    name + "="@ + percent_encoded(encode_utf8(value))
}

impl SubsonicClient {
    /// The server URL requests go to.
    pub closed spec fn base_url_view(&self) -> Seq<char> {
        self.base_url@
    }

    /// The user id of the signed-in user.
    pub closed spec fn user_id_view(&self) -> Seq<char> {
        self.user_id@
    }

    /// The username requests are signed with.
    pub closed spec fn username_view(&self) -> Seq<char> {
        self.username@
    }

    /// The password requests are signed with.
    pub closed spec fn password_view(&self) -> Seq<char> {
        self.password@
    }

    /// A client for the configured server; the user id is the configured one, else the
    /// username.
    pub fn new(config: &Config) -> (r: Result<Self, String>)
        ensures
            r is Ok == client_config_problem(*config) is None,
            r matches Err(e) ==> Some(e@) == client_config_problem(*config),
            r matches Ok(c) ==> {
                &&& c.base_url_view() == config.server_url@
                &&& c.user_id_view() == (if config.user_id is Some { config.user_id->0@ } else { config.username@ })
                &&& c.username_view() == config.username@
                &&& c.password_view() == config.password@
            },
    {
        if config.server_url.as_str().is_empty() {
            return Err("Missing server URL".to_owned());
        }
        if config.username.as_str().is_empty() {
            return Err("Missing username".to_owned());
        }
        if config.password.as_str().is_empty() {
            return Err("Missing password".to_owned());
        }
        let user_id = match &config.user_id {
            Some(u) => u.clone(),
            None => config.username.clone(),
        };
        Ok(SubsonicClient {
            base_url: config.server_url.clone(),
            user_id,
            username: config.username.clone(),
            password: config.password.clone(),
        })
    }

    /// The URL of `endpoint` with fresh auth parameters and `extra` appended.
    pub fn url(&self, endpoint: &str, extra: &str) -> (r: String)
        ensures
            exists|salt: Seq<char>| is_salt(salt) && r@ == #[trigger] url_text(
                self.base_url_view(),
                endpoint@,
                auth_query_text(self.username_view(), self.password_view(), salt),
                extra@,
            ),
    {
        let auth = auth_query(self.username.as_str(), self.password.as_str());
        let mut r = String::new();
        push_all(&mut r, self.base_url.as_str());
        push_all(&mut r, "/rest/");
        push_all(&mut r, endpoint);
        push_all(&mut r, "?");
        push_all(&mut r, auth.as_str());
        if !extra.is_empty() {
            push_all(&mut r, "&");
            push_all(&mut r, extra);
        }
        proof {
            let salt = choose|salt: Seq<char>| is_salt(salt) && auth@ == #[trigger] auth_query_text(self.username@, self.password@, salt);
            assert(r@ =~= url_text(self.base_url_view(), endpoint@, auth_query_text(self.username_view(), self.password_view(), salt), extra@));
        }
        r
    }

    /// The stream URL of an item, with fresh auth parameters: the player fetches it directly.
    pub fn stream_url(&self, item_id: &str) -> (r: String)
        ensures
            exists|salt: Seq<char>| is_salt(salt) && r@ == #[trigger] url_text(
                self.base_url_view(),
                "stream.view"@,
                auth_query_text(self.username_view(), self.password_view(), salt),
                param_text("id"@, item_id@),
            ),
    {
        let params = id_params(item_id);
        self.url("stream.view", params.as_str())
    }
}

fn param(name: &str, value: &str) -> (r: String)
    ensures
        r@ == param_text(name@, value@),
{
    let mut r = String::new();
    push_all(&mut r, name);
    push_all(&mut r, "=");
    let v = url_encode(value);
    push_all(&mut r, v.as_str());
    assert(r@ =~= param_text(name@, value@));
    r
}

/// `id=<id>`.
pub fn id_params(id: &str) -> (r: String)
    ensures
        r@ == param_text("id"@, id@),
{
    param("id", id)
}

/// The endpoint that puts the favorite mark on a track (`starred`) or takes it away.
pub fn star_endpoint(starred: bool) -> (s: &'static str)
    ensures
        s@ == (if starred { "star.view"@ } else { "unstar.view"@ }),
{
    if starred {
        "star.view"
    } else {
        "unstar.view"
    }
}

/// `id=<id>&rating=<rating>`, for rating a track (0 clears the rating).
pub fn rating_params(id: &str, rating: u8) -> (r: String)
    ensures
        r@ == param_text("id"@, id@) + "&rating="@ + decimal(rating as nat),
{
    let mut r = param("id", id);
    push_all(&mut r, "&rating=");
    push_decimal(&mut r, rating as u64);
    r
}

/// The parameters of a search: the query, and at most 20 artists, 20 albums and 50 songs.
pub fn search_params(query: &str) -> (r: String)
    ensures
        r@ == param_text("query"@, query@) + "&artistCount=20&albumCount=20&songCount=50"@,
{
    let mut r = param("query", query);
    push_all(&mut r, "&artistCount=20&albumCount=20&songCount=50");
    r
}

/// The parameters of the newest-albums list: at most `limit` albums, and never more than 500.
pub fn recent_params(limit: u32) -> (r: String)
    ensures
        r@ == "type=newest&size="@ + decimal(if limit < 500 { limit as nat } else { 500 }),
{
    let mut r = "type=newest&size=".to_owned();
    let size: u32 = if limit < 500 { limit } else { 500 };
    push_decimal(&mut r, size as u64);
    r
}

/// `name=<name>`, for creating a playlist.
pub fn create_playlist_params(name: &str) -> (r: String)
    ensures
        r@ == param_text("name"@, name@),
{
    param("name", name)
}

/// `&<name>=<value>` for each value in turn.
pub open spec fn repeated_param(name: Seq<char>, values: Seq<Seq<char>>) -> Seq<char>
    decreases values.len(),
{
    if values.len() == 0 {
        Seq::empty()
    } else {
        repeated_param(name, values.drop_last()) + "&"@ + param_text(name, values.last())
    }
}

/// The parameters that add songs to a playlist: the playlist, then one `songIdToAdd` per song.
pub fn add_to_playlist_params(playlist_id: &str, item_ids: &Vec<String>) -> (r: String)
    ensures
        r@ == param_text("playlistId"@, playlist_id@) + repeated_param("songIdToAdd"@, strings_view(*item_ids)),
{
    let mut r = param("playlistId", playlist_id);
    let ghost head = r@;
    let mut i: usize = 0;
    while i < item_ids.len()
        invariant
            i <= item_ids@.len(),
            r@ == head + repeated_param("songIdToAdd"@, strings_view(*item_ids).take(i as int)),
        decreases item_ids@.len() - i,
    {
        push_all(&mut r, "&");
        let p = param("songIdToAdd", item_ids[i].as_str());
        push_all(&mut r, p.as_str());
        proof {
            let vs = strings_view(*item_ids);
            assert(vs.take(i + 1).drop_last() =~= vs.take(i as int));
            assert(r@ =~= head + repeated_param("songIdToAdd"@, vs.take(i + 1)));
        }
        i = i + 1;
    }
    assert(strings_view(*item_ids).take(i as int) =~= strings_view(*item_ids));
    r
}

/// The entries that parse as playlist indices (`u32`), in their order.
pub open spec fn parsed_indices(ids: Seq<Seq<char>>) -> Seq<u32>
    decreases ids.len(),
{
    if ids.len() == 0 {
        Seq::empty()
    } else {
        match parse_unsigned_spec(ids.last(), u32::MAX as nat) {
            Some(v) => parsed_indices(ids.drop_last()).push(v as u32),
            None => parsed_indices(ids.drop_last()),
        }
    }
}

/// `&songIndexToRemove=<n>` for each index in turn.
pub open spec fn remove_params_text(indices: Seq<u32>) -> Seq<char>
    decreases indices.len(),
{
    if indices.len() == 0 {
        Seq::empty()
    } else {
        remove_params_text(indices.drop_last()) + "&songIndexToRemove="@ + decimal(indices.last() as nat)
    }
}

/// The parameters that remove entries from a playlist. The entries are playlist indices in
/// decimal; those that do not parse are left out, and the others go from the largest to the
/// smallest, so that each removal leaves the later indices in place.
pub fn remove_from_playlist_params(playlist_id: &str, entry_ids: &Vec<String>) -> (r: String)
    ensures
        exists|sorted: Seq<u32>| {
            &&& sorted_descending(sorted)
            &&& sorted.to_multiset() == parsed_indices(strings_view(*entry_ids)).to_multiset()
            &&& r@ == param_text("playlistId"@, playlist_id@) + #[trigger] remove_params_text(sorted)
        },
{
    let mut indices: Vec<u32> = Vec::new();
    let mut i: usize = 0;
    while i < entry_ids.len()
        invariant
            i <= entry_ids@.len(),
            indices@ == parsed_indices(strings_view(*entry_ids).take(i as int)),
        decreases entry_ids@.len() - i,
    {
        let parsed = parse_unsigned(entry_ids[i].as_str(), u32::MAX as u64);
        proof {
            let vs = strings_view(*entry_ids);
            assert(vs.take(i + 1).drop_last() =~= vs.take(i as int));
            assert(vs.take(i + 1).last() == entry_ids@[i as int]@);
        }
        if let Some(v) = parsed {
            indices.push(v as u32);
        }
        i = i + 1;
    }
    assert(strings_view(*entry_ids).take(i as int) =~= strings_view(*entry_ids));
    let sorted = sort_descending(indices);
    let mut r = param("playlistId", playlist_id);
    let ghost head = r@;
    let mut k: usize = 0;
    while k < sorted.len()
        invariant
            k <= sorted@.len(),
            r@ == head + remove_params_text(sorted@.take(k as int)),
        decreases sorted@.len() - k,
    {
        push_all(&mut r, "&songIndexToRemove=");
        push_decimal(&mut r, sorted[k] as u64);
        proof {
            assert(sorted@.take(k + 1).drop_last() =~= sorted@.take(k as int));
            assert(r@ =~= head + remove_params_text(sorted@.take(k + 1)));
        }
        k = k + 1;
    }
    assert(sorted@.take(k as int) =~= sorted@);
    r
}

/// What an error object says: `(code <code>) <message>`, or `unknown error` when there is
/// none.
pub open spec fn error_detail_text(error: Option<SubsonicError>) -> Seq<char> {
    match error {
        Some(e) => "(code "@ + signed_decimal(e.code as int) + ") "@ + e.message@,
        None => "unknown error"@,
    }
}

/// Formats a response's error object (see [`error_detail_text`]).
pub fn error_detail(error: &Option<SubsonicError>) -> (r: String)
    ensures
        r@ == error_detail_text(*error),
{
    match error {
        Some(e) => {
            let mut r = "(code ".to_owned();
            push_signed_decimal(&mut r, e.code as i64);
            push_all(&mut r, ") ");
            push_all(&mut r, e.message.as_str());
            assert(r@ =~= error_detail_text(*error));
            r
        },
        None => "unknown error".to_owned(),
    }
}

/// Whether the status is `ok`.
pub fn status_ok(status: &str) -> (r: bool)
    ensures
        r == (status@ == "ok"@),
{
    crate::config::str_eq(status, "ok")
}

/// The payload of a successful response; for a failed one, `<endpoint>: <error detail>`.
pub fn check_response<T>(endpoint: &str, response: SubsonicResponse<T>) -> (r: Result<T, String>)
    ensures
        response.status@ == "ok"@ ==> r == Ok::<T, String>(response.data),
        response.status@ != "ok"@ ==> (r matches Err(e) && e@ == endpoint@ + ": "@ + error_detail_text(response.error)),
{
    if status_ok(response.status.as_str()) {
        Ok(response.data)
    } else {
        let detail = error_detail(&response.error);
        let mut e = String::new();
        push_all(&mut e, endpoint);
        push_all(&mut e, ": ");
        push_all(&mut e, detail.as_str());
        Err(e)
    }
}

/// The error for an unsuccessful HTTP status: `<endpoint>: HTTP <status>: <body>`.
pub fn http_error(endpoint: &str, status: &str, body: &str) -> (r: String)
    ensures
        r@ == endpoint@ + ": HTTP "@ + status@ + ": "@ + body@,
{
    let mut r = String::new();
    push_all(&mut r, endpoint);
    push_all(&mut r, ": HTTP ");
    push_all(&mut r, status);
    push_all(&mut r, ": ");
    push_all(&mut r, body);
    r
}

/// The items of the artists of an artist index, letter by letter.
pub open spec fn index_artist_items(index: Seq<ArtistIndexEntry>) -> Seq<ItemView>
    decreases index.len(),
{
    if index.len() == 0 {
        Seq::empty()
    } else {
        index_artist_items(index.drop_last()) + artist_items_of(index.last().artist@)
    }
}

fn push_artist_items(items: &mut Vec<Item>, artists: Vec<Artist>)
    ensures
        items_view(final(items)@) == items_view(old(items)@) + artist_items_of(artists@),
{
    let ghost all = artists@;
    let ghost start = items_view(items@);
    let mut rest = artists;
    let ghost mut done: int = 0;
    assert(all.skip(0) =~= all);
    while rest.len() > 0
        invariant
            0 <= done <= all.len(),
            rest@ == all.skip(done),
            items_view(items@) == start + artist_items_of(all.take(done)),
        decreases rest@.len(),
    {
        let a = rest.remove(0);
        proof {
            assert(rest@ =~= all.skip(done + 1));
            assert(a == all[done]);
        }
        let ghost prev = items@;
        let it = a.into_item();
        items.push(it);
        proof {
            lemma_items_view_push(prev, it);
            assert(all.take(done + 1) =~= all.take(done).push(all[done]));
            lemma_artist_items_push(all.take(done), all[done]);
            assert(items_view(items@) =~= start + artist_items_of(all.take(done + 1)));
            done = done + 1;
        }
    }
    assert(all.take(done) =~= all);
}

fn push_album_items(items: &mut Vec<Item>, albums: Vec<Album>)
    ensures
        items_view(final(items)@) == items_view(old(items)@) + album_items_of(albums@),
{
    let ghost all = albums@;
    let ghost start = items_view(items@);
    let mut rest = albums;
    let ghost mut done: int = 0;
    assert(all.skip(0) =~= all);
    while rest.len() > 0
        invariant
            0 <= done <= all.len(),
            rest@ == all.skip(done),
            items_view(items@) == start + album_items_of(all.take(done)),
        decreases rest@.len(),
    {
        let a = rest.remove(0);
        proof {
            assert(rest@ =~= all.skip(done + 1));
            assert(a == all[done]);
        }
        let ghost prev = items@;
        let it = a.into_item();
        items.push(it);
        proof {
            lemma_items_view_push(prev, it);
            assert(all.take(done + 1) =~= all.take(done).push(all[done]));
            lemma_album_items_push(all.take(done), all[done]);
            assert(items_view(items@) =~= start + album_items_of(all.take(done + 1)));
            done = done + 1;
        }
    }
    assert(all.take(done) =~= all);
}

fn push_song_items(items: &mut Vec<Item>, songs: Vec<Song>)
    ensures
        items_view(final(items)@) == items_view(old(items)@) + song_items_of(songs@),
{
    let ghost all = songs@;
    let ghost start = items_view(items@);
    let mut rest = songs;
    let ghost mut done: int = 0;
    assert(all.skip(0) =~= all);
    while rest.len() > 0
        invariant
            0 <= done <= all.len(),
            rest@ == all.skip(done),
            items_view(items@) == start + song_items_of(all.take(done)),
        decreases rest@.len(),
    {
        let s = rest.remove(0);
        proof {
            assert(rest@ =~= all.skip(done + 1));
            assert(s == all[done]);
        }
        let ghost prev = items@;
        let it = s.into_item();
        items.push(it);
        proof {
            lemma_items_view_push(prev, it);
            assert(all.take(done + 1) =~= all.take(done).push(all[done]));
            lemma_song_items_push(all.take(done), all[done]);
            assert(items_view(items@) =~= start + song_items_of(all.take(done + 1)));
            done = done + 1;
        }
    }
    assert(all.take(done) =~= all);
}

/// The items of all artists of the artist index, letter by letter.
pub fn artist_index_items(payload: ArtistsPayload) -> (r: Vec<Item>)
    ensures
        items_view(r@) == index_artist_items(payload.artists.index@),
{
    let ghost all = payload.artists.index@;
    let mut rest = payload.artists.index;
    let mut items: Vec<Item> = Vec::new();
    let ghost mut done: int = 0;
    assert(all.skip(0) =~= all);
    assert(items_view(items@) =~= Seq::<ItemView>::empty());
    while rest.len() > 0
        invariant
            0 <= done <= all.len(),
            rest@ == all.skip(done),
            items_view(items@) == index_artist_items(all.take(done)),
        decreases rest@.len(),
    {
        let entry = rest.remove(0);
        proof {
            assert(rest@ =~= all.skip(done + 1));
            assert(entry == all[done]);
            assert(all.take(done + 1).drop_last() =~= all.take(done));
        }
        push_artist_items(&mut items, entry.artist);
        proof {
            done = done + 1;
        }
    }
    assert(all.take(done) =~= all);
    items
}

/// The items of a search: artists, then albums, then songs.
pub fn search_items(payload: SearchPayload) -> (r: Vec<Item>)
    ensures
        items_view(r@) == artist_items_of(payload.search_result3.artist@)
            + album_items_of(payload.search_result3.album@)
            + song_items_of(payload.search_result3.song@),
{
    let inner = payload.search_result3;
    let mut items: Vec<Item> = Vec::new();
    assert(items_view(items@) =~= Seq::<ItemView>::empty());
    push_artist_items(&mut items, inner.artist);
    push_album_items(&mut items, inner.album);
    push_song_items(&mut items, inner.song);
    items
}

/// The items artists become.
pub open spec fn artist_items_of(s: Seq<Artist>) -> Seq<ItemView> {
    s.map_values(|a: Artist| artist_item(a))
}

proof fn lemma_artist_items_push(s: Seq<Artist>, a: Artist)
    ensures
        artist_items_of(s.push(a)) == artist_items_of(s).push(artist_item(a)),
{
    assert(artist_items_of(s.push(a)) =~= artist_items_of(s).push(artist_item(a)));
}

proof fn lemma_album_items_push(s: Seq<Album>, a: Album)
    ensures
        album_items_of(s.push(a)) == album_items_of(s).push(album_item(a)),
{
    assert(album_items_of(s.push(a)) =~= album_items_of(s).push(album_item(a)));
}

proof fn lemma_song_items_push(s: Seq<Song>, a: Song)
    ensures
        song_items_of(s.push(a)) == song_items_of(s).push(song_item(a)),
{
    assert(song_items_of(s.push(a)) =~= song_items_of(s).push(song_item(a)));
}

proof fn lemma_playlist_items_push(s: Seq<PlaylistMeta>, a: PlaylistMeta)
    ensures
        playlist_items_of(s.push(a)) == playlist_items_of(s).push(playlist_item(a)),
{
    assert(playlist_items_of(s.push(a)) =~= playlist_items_of(s).push(playlist_item(a)));
}

proof fn lemma_items_view_push(s: Seq<Item>, x: Item)
    ensures
        items_view(s.push(x)) == items_view(s).push(x@),
{
    assert(items_view(s.push(x)) =~= items_view(s).push(x@));
}

proof fn lemma_unkeyed_push<T>(s: Seq<(SortKey, T)>, p: (SortKey, T))
    ensures
        unkeyed(s.push(p)) == unkeyed(s).push(p.1),
{
    assert(unkeyed(s.push(p)) =~= unkeyed(s).push(p.1));
}

proof fn lemma_unkeyed_rest<T>(s: Seq<(SortKey, T)>)
    requires
        s.len() > 0,
    ensures
        unkeyed(s.remove(0)) == unkeyed(s).skip(1),
        unkeyed(s)[0] == s[0].1,
{
    assert(unkeyed(s.remove(0)) =~= unkeyed(s).skip(1));
}

/// The items albums become.
pub open spec fn album_items_of(s: Seq<Album>) -> Seq<ItemView> {
    s.map_values(|a: Album| album_item(a))
}

/// The items songs become.
pub open spec fn song_items_of(s: Seq<Song>) -> Seq<ItemView> {
    s.map_values(|s: Song| song_item(s))
}

/// The items playlists become.
pub open spec fn playlist_items_of(s: Seq<PlaylistMeta>) -> Seq<ItemView> {
    s.map_values(|p: PlaylistMeta| playlist_item(p))
}

/// The sort key of an album: its year (unknown years last), then its name.
pub open spec fn album_key() -> spec_fn(Album) -> (u64, u64, Seq<char>) {
    |a: Album| ((if a.year is Some { a.year->0 } else { u32::MAX }) as u64, 0u64, a.name@)
}

/// The sort key of a song within an album: its disc (1 when unknown), then its track number
/// (0 when unknown).
pub open spec fn song_key() -> spec_fn(Song) -> (u64, u64, Seq<char>) {
    |s: Song| (
        (if s.disc_number is Some { s.disc_number->0 } else { 1 }) as u64,
        (if s.track is Some { s.track->0 } else { 0 }) as u64,
        Seq::<char>::empty(),
    )
}

/// The sort key of a playlist: its name in lowercase.
pub open spec fn playlist_key() -> spec_fn(PlaylistMeta) -> (u64, u64, Seq<char>) {
    |p: PlaylistMeta| (0u64, 0u64, lowercase(p.name@))
}

/// The albums of an artist sorted by year (unknown years last), then name, as items.
pub fn artist_album_items(payload: ArtistPayload) -> (r: Vec<Item>)
    ensures
        exists|sorted: Seq<Album>| {
            &&& is_stable_sort(sorted, (if payload.artist.albums is Some { payload.artist.albums->0@ } else { Seq::empty() }), album_key())
            &&& items_view(r@) == #[trigger] album_items_of(sorted)
        },
{
    let albums = match payload.artist.albums {
        Some(a) => a,
        None => Vec::new(),
    };
    let ghost input = albums@;
    let mut keyed: Vec<(SortKey, Album)> = Vec::new();
    let mut rest = albums;
    let ghost mut done: int = 0;
    assert(input.skip(0) =~= input);
    while rest.len() > 0
        invariant
            0 <= done <= input.len(),
            rest@ == input.skip(done),
            unkeyed(keyed@) == input.take(done),
            keys_agree(keyed@, album_key()),
        decreases rest@.len(),
    {
        let a = rest.remove(0);
        proof {
            assert(rest@ =~= input.skip(done + 1));
            assert(a == input[done]);
        }
        let year: u32 = match a.year {
            Some(y) => y,
            None => u32::MAX,
        };
        let key = SortKey { primary: year as u64, secondary: 0, text: chars_of(a.name.as_str()) };
        let ghost prev_keyed = keyed@;
        let ghost kp = (key, a);
        keyed.push((key, a));
        proof {
            lemma_unkeyed_push(prev_keyed, kp);
            assert(input.take(done + 1) =~= input.take(done).push(input[done]));
            assert(keyed@ == prev_keyed.push(kp));
            done = done + 1;
        }
    }
    assert(input.take(done) =~= input);
    let ghost keyed_all = keyed@;
    let sorted = stable_sort(keyed);
    proof {
        lemma_unkeyed_sort(sorted@, keyed_all, album_key());
    }
    let ghost order = unkeyed(sorted@);
    let mut rest = sorted;
    let mut items: Vec<Item> = Vec::new();
    let ghost mut k: int = 0;
    assert(order.skip(0) =~= unkeyed(rest@));
    while rest.len() > 0
        invariant
            0 <= k <= order.len(),
            unkeyed(rest@) == order.skip(k),
            items_view(items@) == album_items_of(order.take(k)),
        decreases rest@.len(),
    {
        let ghost before = rest@;
        let (_key, a) = rest.remove(0);
        proof {
            lemma_unkeyed_rest(before);
            assert(order.skip(k).skip(1) =~= order.skip(k + 1));
            assert(order.skip(k)[0] == order[k]);
        }
        let ghost prev = items@;
        let it = a.into_item();
        items.push(it);
        proof {
            lemma_items_view_push(prev, it);
            assert(order.take(k + 1) =~= order.take(k).push(order[k]));
            lemma_album_items_push(order.take(k), order[k]);
            k = k + 1;
        }
    }
    assert(order.take(k) =~= order);
    items
}

/// The songs of an album sorted by disc, then track number, as items.
pub fn album_song_items(payload: AlbumPayload) -> (r: Vec<Item>)
    ensures
        exists|sorted: Seq<Song>| {
            &&& is_stable_sort(sorted, (if payload.album.songs is Some { payload.album.songs->0@ } else { Seq::empty() }), song_key())
            &&& items_view(r@) == #[trigger] song_items_of(sorted)
        },
{
    let songs = match payload.album.songs {
        Some(s) => s,
        None => Vec::new(),
    };
    let ghost input = songs@;
    let mut keyed: Vec<(SortKey, Song)> = Vec::new();
    let mut rest = songs;
    let ghost mut done: int = 0;
    assert(input.skip(0) =~= input);
    while rest.len() > 0
        invariant
            0 <= done <= input.len(),
            rest@ == input.skip(done),
            unkeyed(keyed@) == input.take(done),
            keys_agree(keyed@, song_key()),
        decreases rest@.len(),
    {
        let s = rest.remove(0);
        proof {
            assert(rest@ =~= input.skip(done + 1));
            assert(s == input[done]);
        }
        let disc: u32 = match s.disc_number {
            Some(d) => d,
            None => 1,
        };
        let track: u32 = match s.track {
            Some(t) => t,
            None => 0,
        };
        let key = SortKey { primary: disc as u64, secondary: track as u64, text: Vec::new() };
        proof {
            assert(key.text@ =~= Seq::<char>::empty());
        }
        let ghost prev_keyed = keyed@;
        let ghost kp = (key, s);
        keyed.push((key, s));
        proof {
            lemma_unkeyed_push(prev_keyed, kp);
            assert(input.take(done + 1) =~= input.take(done).push(input[done]));
            assert(keyed@ == prev_keyed.push(kp));
            done = done + 1;
        }
    }
    assert(input.take(done) =~= input);
    let ghost keyed_all = keyed@;
    let sorted = stable_sort(keyed);
    proof {
        lemma_unkeyed_sort(sorted@, keyed_all, song_key());
    }
    let ghost order = unkeyed(sorted@);
    let mut rest = sorted;
    let mut items: Vec<Item> = Vec::new();
    let ghost mut k: int = 0;
    assert(order.skip(0) =~= unkeyed(rest@));
    while rest.len() > 0
        invariant
            0 <= k <= order.len(),
            unkeyed(rest@) == order.skip(k),
            items_view(items@) == song_items_of(order.take(k)),
        decreases rest@.len(),
    {
        let ghost before = rest@;
        let (_key, s) = rest.remove(0);
        proof {
            lemma_unkeyed_rest(before);
            assert(order.skip(k).skip(1) =~= order.skip(k + 1));
            assert(order.skip(k)[0] == order[k]);
        }
        let ghost prev = items@;
        let it = s.into_item();
        items.push(it);
        proof {
            lemma_items_view_push(prev, it);
            assert(order.take(k + 1) =~= order.take(k).push(order[k]));
            lemma_song_items_push(order.take(k), order[k]);
            k = k + 1;
        }
    }
    assert(order.take(k) =~= order);
    items
}

/// The playlists sorted by name without regard to case, as items.
pub fn playlist_list_items(payload: PlaylistsPayload) -> (r: Vec<Item>)
    ensures
        exists|sorted: Seq<PlaylistMeta>| {
            &&& is_stable_sort(sorted, payload.playlists.playlist@, playlist_key())
            &&& items_view(r@) == #[trigger] playlist_items_of(sorted)
        },
{
    let playlists = payload.playlists.playlist;
    let ghost input = playlists@;
    let mut keyed: Vec<(SortKey, PlaylistMeta)> = Vec::new();
    let mut rest = playlists;
    let ghost mut done: int = 0;
    assert(input.skip(0) =~= input);
    while rest.len() > 0
        invariant
            0 <= done <= input.len(),
            rest@ == input.skip(done),
            unkeyed(keyed@) == input.take(done),
            keys_agree(keyed@, playlist_key()),
        decreases rest@.len(),
    {
        let p = rest.remove(0);
        proof {
            assert(rest@ =~= input.skip(done + 1));
            assert(p == input[done]);
        }
        let lower = to_lowercase(p.name.as_str());
        let key = SortKey { primary: 0, secondary: 0, text: chars_of(lower.as_str()) };
        let ghost prev_keyed = keyed@;
        let ghost kp = (key, p);
        keyed.push((key, p));
        proof {
            lemma_unkeyed_push(prev_keyed, kp);
            assert(input.take(done + 1) =~= input.take(done).push(input[done]));
            assert(keyed@ == prev_keyed.push(kp));
            done = done + 1;
        }
    }
    assert(input.take(done) =~= input);
    let ghost keyed_all = keyed@;
    let sorted = stable_sort(keyed);
    proof {
        lemma_unkeyed_sort(sorted@, keyed_all, playlist_key());
    }
    let ghost order = unkeyed(sorted@);
    let mut rest = sorted;
    let mut items: Vec<Item> = Vec::new();
    let ghost mut k: int = 0;
    assert(order.skip(0) =~= unkeyed(rest@));
    while rest.len() > 0
        invariant
            0 <= k <= order.len(),
            unkeyed(rest@) == order.skip(k),
            items_view(items@) == playlist_items_of(order.take(k)),
        decreases rest@.len(),
    {
        let ghost before = rest@;
        let (_key, p) = rest.remove(0);
        proof {
            lemma_unkeyed_rest(before);
            assert(order.skip(k).skip(1) =~= order.skip(k + 1));
            assert(order.skip(k)[0] == order[k]);
        }
        let ghost prev = items@;
        let it = p.into_item();
        items.push(it);
        proof {
            lemma_items_view_push(prev, it);
            assert(order.take(k + 1) =~= order.take(k).push(order[k]));
            lemma_playlist_items_push(order.take(k), order[k]);
            k = k + 1;
        }
    }
    assert(order.take(k) =~= order);
    items
}

/// The item a playlist entry becomes: the song's item, remembering its index in the playlist
/// (in decimal), by which it is removed again.
pub open spec fn playlist_entry_item(s: Song, index: nat) -> ItemView {
    ItemView { playlist_item_id: Some(decimal(index)), ..song_item(s) }
}

/// The entries of a playlist as items, each remembering its index in the playlist.
pub fn playlist_track_items(payload: PlaylistPayload) -> (r: Vec<Item>)
    ensures
        r@.len() == (if payload.playlist.entries is Some { payload.playlist.entries->0@.len() } else { 0 }),
        forall|i: int| 0 <= i < r@.len() ==> #[trigger] r@[i]@ == playlist_entry_item(payload.playlist.entries->0@[i], i as nat),
{
    let entries = match payload.playlist.entries {
        Some(e) => e,
        None => Vec::new(),
    };
    let ghost input = entries@;
    let n = entries.len();
    let mut rest = entries;
    let mut items: Vec<Item> = Vec::new();
    let mut idx: usize = 0;
    assert(input.skip(0) =~= input);
    while rest.len() > 0
        invariant
            n == input.len(),
            idx <= input.len(),
            rest@ == input.skip(idx as int),
            items@.len() == idx,
            forall|i: int| 0 <= i < idx ==> #[trigger] items@[i]@ == playlist_entry_item(input[i], i as nat),
        decreases rest@.len(),
    {
        let s = rest.remove(0);
        proof {
            assert(rest@ =~= input.skip(idx + 1));
            assert(s == input[idx as int]);
        }
        let mut item = s.into_item();
        let mut id = String::new();
        push_decimal(&mut id, idx as u64);
        item.playlist_item_id = Some(id);
        items.push(item);
        idx = idx + 1;
    }
    items
}

/// Whether the list of recent tracks is full, the count taken as a `u32`.
pub fn recent_full(all: &Vec<Item>, limit: u32) -> (r: bool)
    ensures
        r == ((all@.len() as u32) >= limit),
{
    (all.len() as u32) >= limit
}

/// How many of `n` songs still fit in a list of `len` tracks limited to `limit`.
pub open spec fn room_for(len: nat, limit: nat, n: nat) -> nat {
    if len >= limit { 0 } else if n < limit - len { n } else { (limit - len) as nat }
}

/// Appends an album's songs to the recent tracks, stopping once `limit` tracks are listed.
pub fn append_recent(all: &mut Vec<Item>, songs: Vec<Item>, limit: u32)
    requires
        old(all)@.len() <= limit,
    ensures
        final(all)@ == old(all)@ + songs@.take(room_for(old(all)@.len(), limit as nat, songs@.len()) as int),
{
    let ghost start = all@;
    let ghost input = songs@;
    let mut rest = songs;
    let ghost mut done: int = 0;
    assert(input.skip(0) =~= input);
    while rest.len() > 0 && (all.len() as u32) < limit
        invariant
            0 <= done <= input.len(),
            rest@ == input.skip(done),
            all@ == start + input.take(done),
            all@.len() <= limit,
            start.len() <= limit,
            done <= room_for(start.len(), limit as nat, input.len()),
        decreases rest@.len(),
    {
        let s = rest.remove(0);
        proof {
            assert(rest@ =~= input.skip(done + 1));
            assert(s == input[done]);
        }
        all.push(s);
        proof {
            assert(input.take(done + 1) =~= input.take(done).push(input[done]));
            assert(all@ =~= start + input.take(done + 1));
            done = done + 1;
        }
    }
    assert(done == room_for(start.len(), limit as nat, input.len()));
}

/// Appends an album's tracks to an artist's tracks; an album whose tracks failed to load adds
/// nothing.
pub fn append_album_tracks(all: &mut Vec<Item>, songs: Result<Vec<Item>, String>)
    ensures
        songs matches Ok(v) ==> final(all)@ == old(all)@ + v@,
        songs is Err ==> final(all)@ == old(all)@,
{
    if let Ok(v) = songs {
        let mut v = v;
        all.append(&mut v);
    }
}

} // verus!
