//! The item shape used throughout the player, and the Subsonic response shapes it is built from.
use vstd::prelude::*;
use crate::text::{decimal, push_all, push_decimal, push_two_digits, to_uppercase, two_digits, uppercase};

verus! {

/// The characters of an optional string.
pub open spec fn opt_view(o: Option<String>) -> Option<Seq<char>> {
    match o {
        Some(s) => Some(s@),
        None => None,
    }
}

/// The characters of each string of a vector.
pub open spec fn strings_view(v: Vec<String>) -> Seq<Seq<char>> {
    v@.map_values(|s: String| s@)
}

/// The characters of each string of an optional vector.
pub open spec fn opt_strings_view(o: Option<Vec<String>>) -> Option<Seq<Seq<char>>> {
    match o {
        Some(v) => Some(strings_view(v)),
        None => None,
    }
}

/// Copies an optional string.
pub fn clone_opt_string(o: &Option<String>) -> (r: Option<String>)
    ensures
        opt_view(r) == opt_view(*o),
{
    match o {
        Some(s) => Some(s.clone()),
        None => None,
    }
}

/// Copies a vector of strings.
pub fn clone_strings(v: &Vec<String>) -> (r: Vec<String>)
    ensures
        strings_view(r) == strings_view(*v),
{
    let mut r: Vec<String> = Vec::new();
    let mut i: usize = 0;
    while i < v.len()
        invariant
            i <= v@.len(),
            r@.len() == i,
            forall|k: int| 0 <= k < i ==> #[trigger] r@[k]@ == v@[k]@,
        decreases v@.len() - i,
    {
        r.push(v[i].clone());
        i = i + 1;
    }
    assert(strings_view(r) =~= strings_view(*v));
    r
}

/// Copies an optional vector of strings.
pub fn clone_opt_strings(o: &Option<Vec<String>>) -> (r: Option<Vec<String>>)
    ensures
        opt_strings_view(r) == opt_strings_view(*o),
{
    match o {
        Some(v) => Some(clone_strings(v)),
        None => None,
    }
}

/// What an [`Item`] holds, as mathematical values.
pub struct ItemView {
    pub id: Seq<char>,
    pub name: Seq<char>,
    pub item_type: Option<Seq<char>>,
    pub album: Option<Seq<char>>,
    pub album_id: Option<Seq<char>>,
    pub album_artist: Option<Seq<char>>,
    pub artists: Option<Seq<Seq<char>>>,
    pub index_number: Option<u32>,
    pub duration_seconds: Option<u64>,
    pub collection_type: Option<Seq<char>>,
    pub production_year: Option<u32>,
    pub playlist_item_id: Option<Seq<char>>,
    pub genres: Option<Seq<Seq<char>>>,
    pub date_created: Option<Seq<char>>,
    pub container: Option<Seq<char>>,
    pub bitrate_kbps: Option<u64>,
    pub starred: bool,
    pub user_rating: u8,
}

/// Universal item representation used throughout the player: a track, an album, an artist or
/// a playlist, filled in from Subsonic responses.
#[derive(Debug)]
pub struct Item {
    pub id: String,
    pub name: String,
    /// One of: "Audio", "MusicAlbum", "MusicArtist", "Playlist".
    pub item_type: Option<String>,
    pub album: Option<String>,
    pub album_id: Option<String>,
    pub album_artist: Option<String>,
    pub artists: Option<Vec<String>>,
    pub index_number: Option<u32>,
    /// Duration in whole seconds (the server reports whole seconds).
    pub duration_seconds: Option<u64>,
    pub collection_type: Option<String>,
    pub production_year: Option<u32>,
    /// For playlist tracks: the index of the song within the playlist, in decimal.
    pub playlist_item_id: Option<String>,
    pub genres: Option<Vec<String>>,
    pub date_created: Option<String>,
    /// File suffix or container (e.g. "flac", "mp3"), if known.
    pub container: Option<String>,
    /// Bitrate in kbps, if known.
    pub bitrate_kbps: Option<u64>,
    /// True if the user has starred (favorited) this item.
    pub starred: bool,
    /// User rating 0..=5 (0 = unrated).
    pub user_rating: u8,
}

impl View for Item {
    type V = ItemView;

    open spec fn view(&self) -> ItemView {
        ItemView {
            id: self.id@,
            name: self.name@,
            item_type: opt_view(self.item_type),
            album: opt_view(self.album),
            album_id: opt_view(self.album_id),
            album_artist: opt_view(self.album_artist),
            artists: opt_strings_view(self.artists),
            index_number: self.index_number,
            duration_seconds: self.duration_seconds,
            collection_type: opt_view(self.collection_type),
            production_year: self.production_year,
            playlist_item_id: opt_view(self.playlist_item_id),
            genres: opt_strings_view(self.genres),
            date_created: opt_view(self.date_created),
            container: opt_view(self.container),
            bitrate_kbps: self.bitrate_kbps,
            starred: self.starred,
            user_rating: self.user_rating,
        }
    }
}

/// The views of a sequence of items.
pub open spec fn items_view(s: Seq<Item>) -> Seq<ItemView> {
    s.map_values(|i: Item| i@)
}

/// The item with every field empty: no id or name, every optional field absent, not starred,
/// unrated.
pub open spec fn empty_item() -> ItemView {
    ItemView {
        id: Seq::empty(),
        name: Seq::empty(),
        item_type: None,
        album: None,
        album_id: None,
        album_artist: None,
        artists: None,
        index_number: None,
        duration_seconds: None,
        collection_type: None,
        production_year: None,
        playlist_item_id: None,
        genres: None,
        date_created: None,
        container: None,
        bitrate_kbps: None,
        starred: false,
        user_rating: 0,
    }
}

impl Clone for Item {
    fn clone(&self) -> (r: Self)
        ensures
            r@ == self@,
    {
        Item {
            id: self.id.clone(),
            name: self.name.clone(),
            item_type: clone_opt_string(&self.item_type),
            album: clone_opt_string(&self.album),
            album_id: clone_opt_string(&self.album_id),
            album_artist: clone_opt_string(&self.album_artist),
            artists: clone_opt_strings(&self.artists),
            index_number: self.index_number,
            duration_seconds: self.duration_seconds,
            collection_type: clone_opt_string(&self.collection_type),
            production_year: self.production_year,
            playlist_item_id: clone_opt_string(&self.playlist_item_id),
            genres: clone_opt_strings(&self.genres),
            date_created: clone_opt_string(&self.date_created),
            container: clone_opt_string(&self.container),
            bitrate_kbps: self.bitrate_kbps,
            starred: self.starred,
            user_rating: self.user_rating,
        }
    }
}

impl Default for Item {
    fn default() -> (r: Self)
        ensures
            r@ == empty_item(),
    {
        Item {
            id: String::new(),
            name: String::new(),
            item_type: None,
            album: None,
            album_id: None,
            album_artist: None,
            artists: None,
            index_number: None,
            duration_seconds: None,
            collection_type: None,
            production_year: None,
            playlist_item_id: None,
            genres: None,
            date_created: None,
            container: None,
            bitrate_kbps: None,
            starred: false,
            user_rating: 0,
        }
    }
}

/// Copies a vector of items.
pub fn clone_items(v: &Vec<Item>) -> (r: Vec<Item>)
    ensures
        items_view(r@) == items_view(v@),
{
    let mut r: Vec<Item> = Vec::new();
    let mut i: usize = 0;
    while i < v.len()
        invariant
            i <= v@.len(),
            r@.len() == i,
            forall|k: int| 0 <= k < i ==> #[trigger] r@[k]@ == v@[k]@,
        decreases v@.len() - i,
    {
        r.push(v[i].clone());
        i = i + 1;
    }
    assert(items_view(r@) =~= items_view(v@));
    r
}

/// `m:ss` for a number of seconds: whole minutes, a colon, then the seconds with two digits.
pub open spec fn duration_text(total: nat) -> Seq<char> {
    decimal(total / 60) + seq![':'] + two_digits(total % 60)
}

/// Formats a number of whole seconds as `m:ss`.
pub fn format_duration(secs: u64) -> (s: String)
    ensures
        s@ == duration_text(secs as nat),
{
    let m = secs / 60;
    let r = secs % 60;
    let mut s = String::new();
    push_decimal(&mut s, m);
    s.push(':');
    push_two_digits(&mut s, r);
    assert(s@ =~= duration_text(secs as nat));
    s
}

/// What the artist line of an item shows: its first listed artist, else its album artist,
/// else nothing.
pub open spec fn artist_text(i: ItemView) -> Seq<char> {
    if i.artists is Some && i.artists->0.len() > 0 {
        i.artists->0[0]
    } else if i.album_artist is Some {
        i.album_artist->0
    } else {
        Seq::empty()
    }
}

/// What the codec line of an item shows: the container in uppercase and the bitrate, when
/// both are known.
pub open spec fn codec_text(i: ItemView) -> Option<Seq<char>> {
    if i.container is Some && i.bitrate_kbps is Some {
        Some(uppercase(i.container->0) + " @ "@ + decimal(i.bitrate_kbps->0 as nat) + " kbps"@)
    } else {
        None
    }
}

impl Item {
    /// Duration in whole seconds, zero when unknown.
    pub fn duration_secs(&self) -> (d: u64)
        ensures
            d == (if self.duration_seconds is Some { self.duration_seconds->0 } else { 0 }),
    {
        match self.duration_seconds {
            Some(d) => d,
            None => 0,
        }
    }

    /// The duration as `m:ss` (`0:00` when unknown).
    pub fn duration_display(&self) -> (s: String)
        ensures
            s@ == duration_text(
                (if self.duration_seconds is Some { self.duration_seconds->0 } else { 0 }) as nat,
            ),
    {
        format_duration(self.duration_secs())
    }

    /// E.g. `FLAC @ 1411 kbps`, when both the container and the bitrate are known.
    pub fn codec_display(&self) -> (r: Option<String>)
        ensures
            r is Some == codec_text(self@) is Some,
            r is Some ==> r->0@ == codec_text(self@)->0,
    {
        match (&self.container, self.bitrate_kbps) {
            (Some(container), Some(bitrate)) => {
                let mut s = to_uppercase(container.as_str());
                push_all(&mut s, " @ ");
                push_decimal(&mut s, bitrate);
                push_all(&mut s, " kbps");
                proof {
                    reveal_strlit(" @ ");
                    reveal_strlit(" kbps");
                }
                assert(s@ =~= codec_text(self@)->0);
                Some(s)
            },
            _ => None,
        }
    }

    /// The first artist, else the album artist, else the empty string.
    pub fn artist_display(&self) -> (s: String)
        ensures
            s@ == artist_text(self@),
    {
        if let Some(a) = &self.artists {
            if a.len() > 0 {
                return a[0].clone();
            }
        }
        match &self.album_artist {
            Some(s) => s.clone(),
            None => String::new(),
        }
    }
}


// ----- Subsonic API response shapes -----
//
// The Subsonic API wraps everything in `{"subsonic-response": {...}}`: either a success
// payload or an error.

/// The outer object of every Subsonic response.
pub struct SubsonicEnvelope<T> {
    pub response: SubsonicResponse<T>,
}

/// Status, optional error, and the endpoint's own payload.
pub struct SubsonicResponse<T> {
    pub status: String,
    pub error: Option<SubsonicError>,
    pub data: T,
}

/// The error object of a failed request.
pub struct SubsonicError {
    pub code: i32,
    pub message: String,
}

/// A song as the server describes it.
pub struct Song {
    pub id: String,
    pub title: String,
    pub album: Option<String>,
    pub album_id: Option<String>,
    pub artist: Option<String>,
    pub artist_id: Option<String>,
    pub track: Option<u32>,
    pub year: Option<u32>,
    pub genre: Option<String>,
    pub duration: Option<u64>,
    pub bit_rate: Option<u64>,
    pub suffix: Option<String>,
    pub created: Option<String>,
    pub disc_number: Option<u32>,
    /// Starred timestamp (ISO-8601). Presence means favorited.
    pub starred: Option<String>,
    pub user_rating: Option<u8>,
}

/// An album as the server describes it, with its songs when the endpoint lists them.
pub struct Album {
    pub id: String,
    pub name: String,
    pub artist: Option<String>,
    pub artist_id: Option<String>,
    pub year: Option<u32>,
    pub created: Option<String>,
    pub song_count: Option<u32>,
    pub duration: Option<u64>,
    pub songs: Option<Vec<Song>>,
    pub starred: Option<String>,
    pub user_rating: Option<u8>,
}

/// An artist as the server describes it, with its albums when the endpoint lists them.
pub struct Artist {
    pub id: String,
    pub name: String,
    pub album_count: Option<u32>,
    pub albums: Option<Vec<Album>>,
}

/// A playlist as the server describes it, with its entries when the endpoint lists them.
pub struct PlaylistMeta {
    pub id: String,
    pub name: String,
    pub song_count: Option<u32>,
    pub duration: Option<u64>,
    pub created: Option<String>,
    pub changed: Option<String>,
    pub entries: Option<Vec<Song>>,
}

/// Payload of `getArtists`.
pub struct ArtistsPayload {
    pub artists: ArtistsIndex,
}

/// The alphabetical index of artists.
pub struct ArtistsIndex {
    pub index: Vec<ArtistIndexEntry>,
}

/// One letter of the artist index.
pub struct ArtistIndexEntry {
    pub name: String,
    pub artist: Vec<Artist>,
}

/// Payload of `getArtist`.
pub struct ArtistPayload {
    pub artist: Artist,
}

/// Payload of `getAlbum`.
pub struct AlbumPayload {
    pub album: Album,
}

/// Payload of `getAlbumList2`.
pub struct AlbumListPayload {
    pub album_list2: AlbumListInner,
}

/// The albums of an album list.
pub struct AlbumListInner {
    pub album: Vec<Album>,
}

/// Payload of `search3`.
pub struct SearchPayload {
    pub search_result3: SearchInner,
}

/// Artists, albums and songs that a search found.
pub struct SearchInner {
    pub artist: Vec<Artist>,
    pub album: Vec<Album>,
    pub song: Vec<Song>,
}

/// Payload of `getPlaylists`.
pub struct PlaylistsPayload {
    pub playlists: PlaylistsInner,
}

/// The playlists of a playlist listing.
pub struct PlaylistsInner {
    pub playlist: Vec<PlaylistMeta>,
}

/// Payload of `getPlaylist` and `createPlaylist`.
pub struct PlaylistPayload {
    pub playlist: PlaylistMeta,
}

/// Payload of `getSong`.
pub struct SongPayload {
    pub song: Song,
}

/// Payload of endpoints that return nothing but a status.
pub struct EmptyPayload {}

/// A rating as the item keeps it: absent means 0, and values above 5 become 5.
pub open spec fn clamp_rating(r: Option<u8>) -> u8 {
    match r {
        Some(v) => if v > 5 { 5 } else { v },
        None => 0,
    }
}

/// A one-element list holding the string, if there is one.
pub open spec fn opt_singleton(o: Option<String>) -> Option<Seq<Seq<char>>> {
    match o {
        Some(s) => Some(seq![s@]),
        None => None,
    }
}

/// The item a song becomes.
pub open spec fn song_item(s: Song) -> ItemView {
    ItemView {
        id: s.id@,
        name: s.title@,
        item_type: Some("Audio"@),
        album: opt_view(s.album),
        album_id: opt_view(s.album_id),
        album_artist: opt_view(s.artist),
        artists: opt_singleton(s.artist),
        index_number: s.track,
        duration_seconds: s.duration,
        collection_type: None,
        production_year: s.year,
        playlist_item_id: None,
        genres: opt_singleton(s.genre),
        date_created: opt_view(s.created),
        container: opt_view(s.suffix),
        bitrate_kbps: s.bit_rate,
        starred: s.starred is Some,
        user_rating: clamp_rating(s.user_rating),
    }
}

/// The item an album becomes.
pub open spec fn album_item(a: Album) -> ItemView {
    ItemView {
        id: a.id@,
        name: a.name@,
        item_type: Some("MusicAlbum"@),
        album: None,
        album_id: None,
        album_artist: opt_view(a.artist),
        artists: opt_singleton(a.artist),
        index_number: None,
        duration_seconds: a.duration,
        collection_type: None,
        production_year: a.year,
        playlist_item_id: None,
        genres: None,
        date_created: opt_view(a.created),
        container: None,
        bitrate_kbps: None,
        starred: a.starred is Some,
        user_rating: clamp_rating(a.user_rating),
    }
}

/// The item an artist becomes: its id and name, typed as an artist, every other field empty.
pub open spec fn artist_item(a: Artist) -> ItemView {
    ItemView { id: a.id@, name: a.name@, item_type: Some("MusicArtist"@), ..empty_item() }
}

/// The item a playlist becomes: id, name, duration and creation date, typed as a playlist.
pub open spec fn playlist_item(p: PlaylistMeta) -> ItemView {
    ItemView {
        id: p.id@,
        name: p.name@,
        item_type: Some("Playlist"@),
        duration_seconds: p.duration,
        date_created: opt_view(p.created),
        ..empty_item()
    }
}

fn clamp_rating_exec(r: Option<u8>) -> (v: u8)
    ensures
        v == clamp_rating(r),
{
    match r {
        Some(v) => if v > 5 { 5 } else { v },
        None => 0,
    }
}

fn singleton(o: &Option<String>) -> (r: Option<Vec<String>>)
    ensures
        opt_strings_view(r) == opt_singleton(*o),
{
    match o {
        Some(s) => {
            let mut v: Vec<String> = Vec::new();
            v.push(s.clone());
            assert(strings_view(v) =~= seq![s@]);
            Some(v)
        },
        None => None,
    }
}

fn str_to_string(s: &str) -> (r: String)
    ensures
        r@ == s@,
{
    s.to_owned()
}

impl Song {
    /// The item this song becomes.
    pub fn into_item(self) -> (i: Item)
        ensures
            i@ == song_item(self),
    {
        let genres = singleton(&self.genre);
        let artists = singleton(&self.artist);
        let album_artist = clone_opt_string(&self.artist);
        let starred = self.starred.is_some();
        let user_rating = clamp_rating_exec(self.user_rating);
        Item {
            id: self.id,
            name: self.title,
            item_type: Some(str_to_string("Audio")),
            album: self.album,
            album_id: self.album_id,
            album_artist,
            artists,
            index_number: self.track,
            duration_seconds: self.duration,
            collection_type: None,
            production_year: self.year,
            playlist_item_id: None,
            genres,
            date_created: self.created,
            container: self.suffix,
            bitrate_kbps: self.bit_rate,
            starred,
            user_rating,
        }
    }
}

impl Album {
    /// The item this album becomes.
    pub fn into_item(self) -> (i: Item)
        ensures
            i@ == album_item(self),
    {
        let artists = singleton(&self.artist);
        let starred = self.starred.is_some();
        let user_rating = clamp_rating_exec(self.user_rating);
        Item {
            id: self.id,
            name: self.name,
            item_type: Some(str_to_string("MusicAlbum")),
            album: None,
            album_id: None,
            album_artist: self.artist,
            artists,
            index_number: None,
            duration_seconds: self.duration,
            collection_type: None,
            production_year: self.year,
            playlist_item_id: None,
            genres: None,
            date_created: self.created,
            container: None,
            bitrate_kbps: None,
            starred,
            user_rating,
        }
    }
}

impl Artist {
    /// The item this artist becomes.
    pub fn into_item(self) -> (i: Item)
        ensures
            i@ == artist_item(self),
    {
        let mut i = Item::default();
        i.id = self.id;
        i.name = self.name;
        i.item_type = Some(str_to_string("MusicArtist"));
        i
    }
}

impl PlaylistMeta {
    /// The item this playlist becomes.
    pub fn into_item(self) -> (i: Item)
        ensures
            i@ == playlist_item(self),
    {
        let mut i = Item::default();
        i.id = self.id;
        i.name = self.name;
        i.item_type = Some(str_to_string("Playlist"));
        i.duration_seconds = self.duration;
        i.date_created = self.created;
        i
    }
}

} // verus!
