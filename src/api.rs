//! Records of the catalog service's responses, holding the fields that the
//! conversions into the player's data model read.

use vstd::prelude::*;

verus! {

/// A picture at some URL, with its size in pixels when the service knows it.
pub struct Image {
    pub url: String,
    pub width: Option<usize>,
    pub height: Option<usize>,
}

/// An artist as listed inside another object; local artists carry no id.
pub struct ArtistSimplified {
    pub id: Option<String>,
    pub name: String,
}

/// A full artist object.
pub struct Artist {
    pub id: String,
    pub name: String,
    pub images: Vec<Image>,
}

/// The kind of release an album is.
#[derive(Clone, Copy, Debug, PartialEq, Eq, Structural)]
pub enum AlbumType {
    Album,
    Single,
    Compilation,
}

/// How precisely a release date is known.
#[derive(Clone, Copy, Debug, PartialEq, Eq, Structural)]
pub enum DatePrecision {
    Year,
    Month,
    Day,
}

/// A calendar date.
#[derive(Clone, Copy, Debug, PartialEq, Eq, Structural)]
pub struct Date {
    pub year: i32,
    pub month: u32,
    pub day: u32,
}

/// An album as listed inside another object; local albums carry no id.
pub struct AlbumSimplified {
    pub album_type: Option<AlbumType>,
    pub artists: Vec<ArtistSimplified>,
    pub id: Option<String>,
    pub images: Vec<Image>,
    pub name: String,
    pub release_date: Option<Date>,
    pub release_date_precision: Option<DatePrecision>,
}

/// A full album object, with the first page of its tracks.
pub struct Album {
    pub album_type: AlbumType,
    pub artists: Vec<ArtistSimplified>,
    pub id: String,
    pub images: Vec<Image>,
    pub name: String,
    pub release_date: Date,
    pub release_date_precision: DatePrecision,
    pub genres: Vec<String>,
    pub tracks: Vec<TrackSimplified>,
}

/// An album in the listing of an artist's albums.
pub struct ArtistsAlbum {
    pub album_type: AlbumType,
    pub artists: Vec<ArtistSimplified>,
    pub id: String,
    pub images: Vec<Image>,
    pub name: String,
    pub release_date: Date,
    pub release_date_precision: DatePrecision,
}

/// A track as listed inside an album.
pub struct TrackSimplified {
    pub artists: Vec<ArtistSimplified>,
    pub disc_number: usize,
    pub duration_ms: u64,
    pub explicit: bool,
    pub id: Option<String>,
    pub is_local: bool,
    pub name: String,
    pub track_number: usize,
}

/// A full track object, with the album it belongs to.
pub struct Track {
    pub album: AlbumSimplified,
    pub artists: Vec<ArtistSimplified>,
    pub disc_number: usize,
    pub duration_ms: u64,
    pub explicit: bool,
    pub id: Option<String>,
    pub is_local: bool,
    pub is_playable: Option<bool>,
    pub name: String,
    pub popularity: u32,
    pub track_number: usize,
}

/// A playlist as listed among the user's playlists.
pub struct PlaylistSimplified {
    pub id: String,
    pub images: Vec<Image>,
    pub name: String,
}

/// What an entry of a playlist holds.
pub enum PlaylistItemType {
    Track(Track),
    Episode,
}

/// An entry of a playlist; its item is absent where the service withholds it.
pub struct PlaylistItem {
    pub item: Option<PlaylistItemType>,
}

} // verus!
