//! Conversion of the service's records into the player's data model.
//!
//! Each conversion is stated as a relation between a converted value and its
//! source record: every field that the source carries is moved over, and the
//! fields that a simplified record lacks get their documented defaults.

use vstd::prelude::*;
use crate::api;
use crate::model::{Album, AlbumType, Artist, Image, Playlist, Track};

verus! {

/// The picture that `i` converts to.
pub open spec fn image_of(i: api::Image) -> Image {
    Image { url: i.url, width: i.width, height: i.height }
}

/// The pictures that `s` converts to, in order.
pub open spec fn images_of(s: Seq<api::Image>) -> Seq<Image> {
    s.map_values(|i: api::Image| image_of(i))
}

/// The album type that `t` converts to.
pub open spec fn album_type_of(t: api::AlbumType) -> AlbumType {
    match t {
        api::AlbumType::Album => AlbumType::Album,
        api::AlbumType::Single => AlbumType::Single,
        api::AlbumType::Compilation => AlbumType::Compilation,
    }
}

/// The album type of a simplified album: `Album` where the service gave none.
pub open spec fn album_type_or_default(t: Option<api::AlbumType>) -> AlbumType {
    match t {
        Some(t) => album_type_of(t),
        None => AlbumType::Album,
    }
}

/// Every artist in `s` carries an id.
pub open spec fn artists_have_ids(s: Seq<api::ArtistSimplified>) -> bool {
    forall|i: int| 0 <= i < s.len() ==> (#[trigger] s[i]).id is Some
}

/// A simplified album that can be converted: it and its artists carry ids.
pub open spec fn album_simplified_convertible(a: api::AlbumSimplified) -> bool {
    a.id is Some && artists_have_ids(a.artists@)
}

/// A full album that can be converted: its artists and those of its tracks
/// carry ids.
pub open spec fn album_convertible(a: api::Album) -> bool {
    &&& artists_have_ids(a.artists@)
    &&& forall|i: int| 0 <= i < a.tracks@.len() ==> artists_have_ids(#[trigger] a.tracks@[i].artists@)
}

/// A full track that can be converted: its album and its artists carry ids.
pub open spec fn track_convertible(t: api::Track) -> bool {
    album_simplified_convertible(t.album) && artists_have_ids(t.artists@)
}

/// `r` is what the simplified artist `a` converts to: no pictures.
pub open spec fn artist_from_simplified(r: Artist, a: api::ArtistSimplified) -> bool {
    &&& r.id == a.id->0
    &&& r.name == a.name
    &&& r.images@.len() == 0
}

/// `r` lists what the simplified artists `s` convert to, in order.
pub open spec fn artists_from_simplified(r: Seq<Artist>, s: Seq<api::ArtistSimplified>) -> bool {
    &&& r.len() == s.len()
    &&& forall|i: int| 0 <= i < s.len() ==> artist_from_simplified(#[trigger] r[i], s[i])
}

/// `r` is what the full artist `a` converts to.
pub open spec fn artist_from_full(r: Artist, a: api::Artist) -> bool {
    &&& r.id == a.id
    &&& r.name == a.name
    &&& r.images@ == images_of(a.images@)
}

/// `r` is what the simplified album `a` converts to: no genres and no tracks.
pub open spec fn album_from_simplified(r: Album, a: api::AlbumSimplified) -> bool {
    &&& r.album_type == album_type_or_default(a.album_type)
    &&& artists_from_simplified(r.artists@, a.artists@)
    &&& r.id == a.id->0
    &&& r.images@ == images_of(a.images@)
    &&& r.name == a.name
    &&& r.release_date == a.release_date
    &&& r.release_date_precision == a.release_date_precision
    &&& r.genres@.len() == 0
    &&& r.tracks@.len() == 0
}

/// `r` is what the full album `a` converts to, its tracks included.
pub open spec fn album_from_full(r: Album, a: api::Album) -> bool {
    &&& r.album_type == album_type_of(a.album_type)
    &&& artists_from_simplified(r.artists@, a.artists@)
    &&& r.id == a.id
    &&& r.images@ == images_of(a.images@)
    &&& r.name == a.name
    &&& r.release_date == Some(a.release_date)
    &&& r.release_date_precision == Some(a.release_date_precision)
    &&& r.genres@ == a.genres@
    &&& tracks_from_simplified(r.tracks@, a.tracks@)
}

/// `r` is what the album `a` of an artist's listing converts to: no genres
/// and no tracks.
pub open spec fn album_from_artists_album(r: Album, a: api::ArtistsAlbum) -> bool {
    &&& r.album_type == album_type_of(a.album_type)
    &&& artists_from_simplified(r.artists@, a.artists@)
    &&& r.id == a.id
    &&& r.images@ == images_of(a.images@)
    &&& r.name == a.name
    &&& r.release_date == Some(a.release_date)
    &&& r.release_date_precision == Some(a.release_date_precision)
    &&& r.genres@.len() == 0
    &&& r.tracks@.len() == 0
}

/// `r` is what the simplified track `t` converts to: no album, playability
/// or popularity.
pub open spec fn track_from_simplified(r: Track, t: api::TrackSimplified) -> bool {
    &&& r.album is None
    &&& artists_from_simplified(r.artists@, t.artists@)
    &&& r.disc_number == t.disc_number
    &&& r.duration_ms == t.duration_ms
    &&& r.explicit == t.explicit
    &&& r.id == t.id
    &&& r.is_local == t.is_local
    &&& r.is_playable is None
    &&& r.name == t.name
    &&& r.popularity is None
    &&& r.track_number == t.track_number
}

/// `r` lists what the simplified tracks `s` convert to, in order.
pub open spec fn tracks_from_simplified(r: Seq<Track>, s: Seq<api::TrackSimplified>) -> bool {
    &&& r.len() == s.len()
    &&& forall|i: int| 0 <= i < s.len() ==> track_from_simplified(#[trigger] r[i], s[i])
}

/// `r` is what the full track `t` converts to, its album included.
pub open spec fn track_from_full(r: Track, t: api::Track) -> bool {
    &&& r.album matches Some(al) && album_from_simplified(al, t.album)
    &&& artists_from_simplified(r.artists@, t.artists@)
    &&& r.disc_number == t.disc_number
    &&& r.duration_ms == t.duration_ms
    &&& r.explicit == t.explicit
    &&& r.id == t.id
    &&& r.is_local == t.is_local
    &&& r.is_playable == t.is_playable
    &&& r.name == t.name
    &&& r.popularity == Some(t.popularity)
    &&& r.track_number == t.track_number
}

/// A playlist entry that can be converted: it holds a convertible track.
pub open spec fn playlist_item_convertible(p: api::PlaylistItem) -> bool {
    p.item matches Some(api::PlaylistItemType::Track(t)) && track_convertible(t)
}

/// The track that the playlist entry `p` holds.
pub open spec fn track_of_item(p: api::PlaylistItem) -> api::Track {
    match p.item {
        Some(api::PlaylistItemType::Track(t)) => t,
        _ => arbitrary(),
    }
}

/// `r` is what the playlist `p` converts to.
pub open spec fn playlist_from(r: Playlist, p: api::PlaylistSimplified) -> bool {
    &&& r.id == p.id
    &&& r.images@ == images_of(p.images@)
    &&& r.name == p.name
}

/// The items of `v` in reverse order, moved.
fn reversed<T>(v: Vec<T>) -> (r: Vec<T>)
    ensures
        r@.len() == v@.len(),
        forall|j: int| 0 <= j < v@.len() ==> r@[j] == v@[v@.len() - 1 - j],
{
    let ghost orig = v@;
    let mut v = v;
    let mut r: Vec<T> = Vec::new();
    while v.len() > 0
        invariant
            r@.len() + v@.len() == orig.len(),
            v@ == orig.subrange(0, v@.len() as int),
            forall|j: int| 0 <= j < r@.len() ==> r@[j] == orig[orig.len() - 1 - j],
        decreases v@.len(),
    {
        let x = v.pop().unwrap();
        r.push(x);
    }
    r
}

impl Image {
    /// Converts a picture record.
    pub fn from_api(i: api::Image) -> (r: Image)
        ensures
            r == image_of(i),
    {
        Image { url: i.url, width: i.width, height: i.height }
    }

    /// Converts a list of picture records, keeping their order.
    pub fn from_api_list(v: Vec<api::Image>) -> (r: Vec<Image>)
        ensures
            r@ == images_of(v@),
    {
        let ghost orig = v@;
        let mut rev = reversed(v);
        let mut r: Vec<Image> = Vec::new();
        while rev.len() > 0
            invariant
                r@.len() + rev@.len() == orig.len(),
                forall|j: int| 0 <= j < rev@.len() ==> rev@[j] == orig[orig.len() - 1 - j],
                forall|i: int| 0 <= i < r@.len() ==> r@[i] == image_of(orig[i]),
            decreases rev@.len(),
        {
            let x = rev.pop().unwrap();
            r.push(Image::from_api(x));
        }
        assert(r@ =~= images_of(orig));
        r
    }
}

impl AlbumType {
    /// Converts an album type record.
    pub fn from_api(t: api::AlbumType) -> (r: AlbumType)
        ensures
            r == album_type_of(t),
    {
        match t {
            api::AlbumType::Album => AlbumType::Album,
            api::AlbumType::Single => AlbumType::Single,
            api::AlbumType::Compilation => AlbumType::Compilation,
        }
    }
}

impl Artist {
    /// Converts an artist as listed inside another object.
    pub fn from_simplified(a: api::ArtistSimplified) -> (r: Artist)
        requires
            a.id is Some,
        ensures
            artist_from_simplified(r, a),
    {
        Artist { id: a.id.unwrap(), name: a.name, images: Vec::new() }
    }

    /// Converts a full artist object.
    pub fn from_full(a: api::Artist) -> (r: Artist)
        ensures
            artist_from_full(r, a),
    {
        Artist { id: a.id, name: a.name, images: Image::from_api_list(a.images) }
    }

    /// Converts a list of artists as listed inside another object, keeping
    /// their order.
    pub fn from_simplified_list(v: Vec<api::ArtistSimplified>) -> (r: Vec<Artist>)
        requires
            artists_have_ids(v@),
        ensures
            artists_from_simplified(r@, v@),
    {
        let ghost orig = v@;
        let mut rev = reversed(v);
        let mut r: Vec<Artist> = Vec::new();
        while rev.len() > 0
            invariant
                artists_have_ids(orig),
                r@.len() + rev@.len() == orig.len(),
                forall|j: int| 0 <= j < rev@.len() ==> rev@[j] == orig[orig.len() - 1 - j],
                forall|i: int| 0 <= i < r@.len() ==> artist_from_simplified(#[trigger] r@[i], orig[i]),
            decreases rev@.len(),
        {
            let x = rev.pop().unwrap();
            assert(x == orig[r@.len() as int]);
            r.push(Artist::from_simplified(x));
        }
        r
    }

    /// Converts a list of full artist objects, keeping their order.
    pub fn from_full_list(v: Vec<api::Artist>) -> (r: Vec<Artist>)
        ensures
            r@.len() == v@.len(),
            forall|i: int| 0 <= i < v@.len() ==> artist_from_full(#[trigger] r@[i], v@[i]),
    {
        let ghost orig = v@;
        let mut rev = reversed(v);
        let mut r: Vec<Artist> = Vec::new();
        while rev.len() > 0
            invariant
                r@.len() + rev@.len() == orig.len(),
                forall|j: int| 0 <= j < rev@.len() ==> rev@[j] == orig[orig.len() - 1 - j],
                forall|i: int| 0 <= i < r@.len() ==> artist_from_full(#[trigger] r@[i], orig[i]),
            decreases rev@.len(),
        {
            let x = rev.pop().unwrap();
            r.push(Artist::from_full(x));
        }
        r
    }
}

impl Playlist {
    /// Converts a playlist as listed among the user's playlists.
    pub fn from_api(p: api::PlaylistSimplified) -> (r: Playlist)
        ensures
            playlist_from(r, p),
    {
        Playlist { id: p.id, images: Image::from_api_list(p.images), name: p.name }
    }

    /// Converts a list of playlists, keeping their order.
    pub fn from_api_list(v: Vec<api::PlaylistSimplified>) -> (r: Vec<Playlist>)
        ensures
            r@.len() == v@.len(),
            forall|i: int| 0 <= i < v@.len() ==> playlist_from(#[trigger] r@[i], v@[i]),
    {
        let ghost orig = v@;
        let mut rev = reversed(v);
        let mut r: Vec<Playlist> = Vec::new();
        while rev.len() > 0
            invariant
                r@.len() + rev@.len() == orig.len(),
                forall|j: int| 0 <= j < rev@.len() ==> rev@[j] == orig[orig.len() - 1 - j],
                forall|i: int| 0 <= i < r@.len() ==> playlist_from(#[trigger] r@[i], orig[i]),
            decreases rev@.len(),
        {
            let x = rev.pop().unwrap();
            r.push(Playlist::from_api(x));
        }
        r
    }
}

impl Album {
    /// Converts an album as listed inside another object; the album type
    /// defaults to `Album` where the record has none.
    pub fn from_simplified(a: api::AlbumSimplified) -> (r: Album)
        requires
            album_simplified_convertible(a),
        ensures
            album_from_simplified(r, a),
    {
        let album_type = match a.album_type {
            Some(t) => AlbumType::from_api(t),
            None => AlbumType::Album,
        };
        Album {
            album_type,
            artists: Artist::from_simplified_list(a.artists),
            id: a.id.unwrap(),
            images: Image::from_api_list(a.images),
            name: a.name,
            release_date: a.release_date,
            release_date_precision: a.release_date_precision,
            genres: Vec::new(),
            tracks: Vec::new(),
        }
    }

    /// Converts a full album object, with its genres and tracks.
    pub fn from_full(a: api::Album) -> (r: Album)
        requires
            album_convertible(a),
        ensures
            album_from_full(r, a),
    {
        let tracks = Track::from_simplified_list(a.tracks);
        Album {
            album_type: AlbumType::from_api(a.album_type),
            artists: Artist::from_simplified_list(a.artists),
            id: a.id,
            images: Image::from_api_list(a.images),
            name: a.name,
            release_date: Some(a.release_date),
            release_date_precision: Some(a.release_date_precision),
            genres: a.genres,
            tracks,
        }
    }

    /// Converts an album of an artist's listing.
    pub fn from_artists_album(a: api::ArtistsAlbum) -> (r: Album)
        requires
            artists_have_ids(a.artists@),
        ensures
            album_from_artists_album(r, a),
    {
        Album {
            album_type: AlbumType::from_api(a.album_type),
            artists: Artist::from_simplified_list(a.artists),
            id: a.id,
            images: Image::from_api_list(a.images),
            name: a.name,
            release_date: Some(a.release_date),
            release_date_precision: Some(a.release_date_precision),
            genres: Vec::new(),
            tracks: Vec::new(),
        }
    }

    /// Converts a list of simplified albums, keeping their order.
    pub fn from_simplified_list(v: Vec<api::AlbumSimplified>) -> (r: Vec<Album>)
        requires
            forall|i: int| 0 <= i < v@.len() ==> album_simplified_convertible(#[trigger] v@[i]),
        ensures
            r@.len() == v@.len(),
            forall|i: int| 0 <= i < v@.len() ==> album_from_simplified(#[trigger] r@[i], v@[i]),
    {
        let ghost orig = v@;
        let mut rev = reversed(v);
        let mut r: Vec<Album> = Vec::new();
        while rev.len() > 0
            invariant
                forall|i: int| 0 <= i < orig.len() ==> album_simplified_convertible(#[trigger] orig[i]),
                r@.len() + rev@.len() == orig.len(),
                forall|j: int| 0 <= j < rev@.len() ==> rev@[j] == orig[orig.len() - 1 - j],
                forall|i: int| 0 <= i < r@.len() ==> album_from_simplified(#[trigger] r@[i], orig[i]),
            decreases rev@.len(),
        {
            let x = rev.pop().unwrap();
            assert(x == orig[r@.len() as int]);
            r.push(Album::from_simplified(x));
        }
        r
    }

    /// Converts a list of full album objects, keeping their order.
    pub fn from_full_list(v: Vec<api::Album>) -> (r: Vec<Album>)
        requires
            forall|i: int| 0 <= i < v@.len() ==> album_convertible(#[trigger] v@[i]),
        ensures
            r@.len() == v@.len(),
            forall|i: int| 0 <= i < v@.len() ==> album_from_full(#[trigger] r@[i], v@[i]),
    {
        let ghost orig = v@;
        let mut rev = reversed(v);
        let mut r: Vec<Album> = Vec::new();
        while rev.len() > 0
            invariant
                forall|i: int| 0 <= i < orig.len() ==> album_convertible(#[trigger] orig[i]),
                r@.len() + rev@.len() == orig.len(),
                forall|j: int| 0 <= j < rev@.len() ==> rev@[j] == orig[orig.len() - 1 - j],
                forall|i: int| 0 <= i < r@.len() ==> album_from_full(#[trigger] r@[i], orig[i]),
            decreases rev@.len(),
        {
            let x = rev.pop().unwrap();
            assert(x == orig[r@.len() as int]);
            r.push(Album::from_full(x));
        }
        r
    }

    /// Converts a list of albums of an artist's listing, keeping their order.
    pub fn from_artists_album_list(v: Vec<api::ArtistsAlbum>) -> (r: Vec<Album>)
        requires
            forall|i: int| 0 <= i < v@.len() ==> artists_have_ids(#[trigger] v@[i].artists@),
        ensures
            r@.len() == v@.len(),
            forall|i: int| 0 <= i < v@.len() ==> album_from_artists_album(#[trigger] r@[i], v@[i]),
    {
        let ghost orig = v@;
        let mut rev = reversed(v);
        let mut r: Vec<Album> = Vec::new();
        while rev.len() > 0
            invariant
                forall|i: int| 0 <= i < orig.len() ==> artists_have_ids(#[trigger] orig[i].artists@),
                r@.len() + rev@.len() == orig.len(),
                forall|j: int| 0 <= j < rev@.len() ==> rev@[j] == orig[orig.len() - 1 - j],
                forall|i: int| 0 <= i < r@.len() ==> album_from_artists_album(#[trigger] r@[i], orig[i]),
            decreases rev@.len(),
        {
            let x = rev.pop().unwrap();
            assert(x == orig[r@.len() as int]);
            r.push(Album::from_artists_album(x));
        }
        r
    }
}

impl Track {
    /// Converts a track as listed inside an album.
    pub fn from_simplified(t: api::TrackSimplified) -> (r: Track)
        requires
            artists_have_ids(t.artists@),
        ensures
            track_from_simplified(r, t),
    {
        Track {
            album: None,
            artists: Artist::from_simplified_list(t.artists),
            disc_number: t.disc_number,
            duration_ms: t.duration_ms,
            explicit: t.explicit,
            id: t.id,
            is_local: t.is_local,
            is_playable: None,
            name: t.name,
            popularity: None,
            track_number: t.track_number,
        }
    }

    /// Converts a full track object, with its album.
    pub fn from_full(t: api::Track) -> (r: Track)
        requires
            track_convertible(t),
        ensures
            track_from_full(r, t),
    {
        Track {
            album: Some(Album::from_simplified(t.album)),
            artists: Artist::from_simplified_list(t.artists),
            disc_number: t.disc_number,
            duration_ms: t.duration_ms,
            explicit: t.explicit,
            id: t.id,
            is_local: t.is_local,
            is_playable: t.is_playable,
            name: t.name,
            popularity: Some(t.popularity),
            track_number: t.track_number,
        }
    }

    /// Converts a list of full track objects, keeping their order.
    pub fn from_full_list(v: Vec<api::Track>) -> (r: Vec<Track>)
        requires
            forall|i: int| 0 <= i < v@.len() ==> track_convertible(#[trigger] v@[i]),
        ensures
            r@.len() == v@.len(),
            forall|i: int| 0 <= i < v@.len() ==> track_from_full(#[trigger] r@[i], v@[i]),
    {
        let ghost orig = v@;
        let mut rev = reversed(v);
        let mut r: Vec<Track> = Vec::new();
        while rev.len() > 0
            invariant
                forall|i: int| 0 <= i < orig.len() ==> track_convertible(#[trigger] orig[i]),
                r@.len() + rev@.len() == orig.len(),
                forall|j: int| 0 <= j < rev@.len() ==> rev@[j] == orig[orig.len() - 1 - j],
                forall|i: int| 0 <= i < r@.len() ==> track_from_full(#[trigger] r@[i], orig[i]),
            decreases rev@.len(),
        {
            let x = rev.pop().unwrap();
            assert(x == orig[r@.len() as int]);
            r.push(Track::from_full(x));
        }
        r
    }

    /// Converts a list of simplified tracks, keeping their order.
    pub fn from_simplified_list(v: Vec<api::TrackSimplified>) -> (r: Vec<Track>)
        requires
            forall|i: int| 0 <= i < v@.len() ==> artists_have_ids(#[trigger] v@[i].artists@),
        ensures
            tracks_from_simplified(r@, v@),
    {
        let ghost orig = v@;
        let mut rev = reversed(v);
        let mut r: Vec<Track> = Vec::new();
        while rev.len() > 0
            invariant
                forall|i: int| 0 <= i < orig.len() ==> artists_have_ids(#[trigger] orig[i].artists@),
                r@.len() + rev@.len() == orig.len(),
                forall|j: int| 0 <= j < rev@.len() ==> rev@[j] == orig[orig.len() - 1 - j],
                forall|i: int| 0 <= i < r@.len() ==> track_from_simplified(#[trigger] r@[i], orig[i]),
            decreases rev@.len(),
        {
            let x = rev.pop().unwrap();
            assert(x == orig[r@.len() as int]);
            r.push(Track::from_simplified(x));
        }
        r
    }

    /// Converts a playlist entry that holds a track.
    pub fn from_playlist_item(p: api::PlaylistItem) -> (r: Track)
        requires
            playlist_item_convertible(p),
        ensures
            track_from_full(r, track_of_item(p)),
    {
        match p.item {
            Some(api::PlaylistItemType::Track(t)) => Track::from_full(t),
            _ => vstd::pervasive::unreached(),
        }
    }

    /// Converts the entries of a playlist, each of which holds a track,
    /// keeping their order.
    pub fn from_playlist_items(v: Vec<api::PlaylistItem>) -> (r: Vec<Track>)
        requires
            forall|i: int| 0 <= i < v@.len() ==> playlist_item_convertible(#[trigger] v@[i]),
        ensures
            r@.len() == v@.len(),
            forall|i: int| 0 <= i < v@.len() ==> track_from_full(#[trigger] r@[i], track_of_item(v@[i])),
    {
        let ghost orig = v@;
        let mut rev = reversed(v);
        let mut r: Vec<Track> = Vec::new();
        while rev.len() > 0
            invariant
                forall|i: int| 0 <= i < orig.len() ==> playlist_item_convertible(#[trigger] orig[i]),
                r@.len() + rev@.len() == orig.len(),
                forall|j: int| 0 <= j < rev@.len() ==> rev@[j] == orig[orig.len() - 1 - j],
                forall|i: int| 0 <= i < r@.len() ==> track_from_full(#[trigger] r@[i], track_of_item(orig[i])),
            decreases rev@.len(),
        {
            let x = rev.pop().unwrap();
            assert(x == orig[r@.len() as int]);
            r.push(Track::from_playlist_item(x));
        }
        r
    }
}

/// Whether every artist in `s` carries an id.
pub fn has_artist_ids(s: &Vec<api::ArtistSimplified>) -> (r: bool)
    ensures
        r == artists_have_ids(s@),
{
    let mut i: usize = 0;
    while i < s.len()
        invariant
            i <= s@.len(),
            forall|j: int| 0 <= j < i ==> (#[trigger] s@[j]).id is Some,
        decreases s@.len() - i,
    {
        if s[i].id.is_none() {
            return false;
        }
        i = i + 1;
    }
    true
}

/// Whether the simplified album `a` can be converted.
pub fn is_album_simplified_convertible(a: &api::AlbumSimplified) -> (r: bool)
    ensures
        r == album_simplified_convertible(*a),
{
    a.id.is_some() && has_artist_ids(&a.artists)
}

/// Whether the full album `a` can be converted.
pub fn is_album_convertible(a: &api::Album) -> (r: bool)
    ensures
        r == album_convertible(*a),
{
    if !has_artist_ids(&a.artists) {
        return false;
    }
    let mut i: usize = 0;
    while i < a.tracks.len()
        invariant
            i <= a.tracks@.len(),
            forall|j: int| 0 <= j < i ==> artists_have_ids(#[trigger] a.tracks@[j].artists@),
        decreases a.tracks@.len() - i,
    {
        if !has_artist_ids(&a.tracks[i].artists) {
            return false;
        }
        i = i + 1;
    }
    true
}

/// Whether the full track `t` can be converted.
pub fn is_track_convertible(t: &api::Track) -> (r: bool)
    ensures
        r == track_convertible(*t),
{
    is_album_simplified_convertible(&t.album) && has_artist_ids(&t.artists)
}

/// Whether the playlist entry `p` holds a track that can be converted.
pub fn is_playlist_item_convertible(p: &api::PlaylistItem) -> (r: bool)
    ensures
        r == playlist_item_convertible(*p),
{
    match &p.item {
        Some(api::PlaylistItemType::Track(t)) => is_track_convertible(t),
        _ => false,
    }
}

} // verus!
