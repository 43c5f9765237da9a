//! The player's own data model: plain value records.

use vstd::prelude::*;
use crate::api::{Date, DatePrecision};

verus! {

/// A picture at some URL, with its size in pixels when known.
pub struct Image {
    pub url: String,
    pub width: Option<usize>,
    pub height: Option<usize>,
}

/// An artist: its id, its name and its pictures.
pub struct Artist {
    pub id: String,
    pub name: String,
    pub images: Vec<Image>,
}

/// The kind of release an album is; `Album` where the service does not say.
#[derive(Clone, Copy, Debug, PartialEq, Eq, Structural)]
pub enum AlbumType {
    Album,
    Single,
    Compilation,
}

/// An album. Genres and tracks are empty where the source listing had none.
pub struct Album {
    pub album_type: AlbumType,
    pub artists: Vec<Artist>,
    pub id: String,
    pub images: Vec<Image>,
    pub name: String,
    pub release_date: Option<Date>,
    pub release_date_precision: Option<DatePrecision>,
    pub genres: Vec<String>,
    pub tracks: Vec<Track>,
}

/// A track. Album, playability and popularity are known only from a full
/// track object.
pub struct Track {
    pub album: Option<Album>,
    pub artists: Vec<Artist>,
    pub disc_number: usize,
    pub duration_ms: u64,
    pub explicit: bool,
    pub id: Option<String>,
    pub is_local: bool,
    pub is_playable: Option<bool>,
    pub name: String,
    pub popularity: Option<u32>,
    pub track_number: usize,
}

/// A playlist: its id, its pictures and its name.
pub struct Playlist {
    pub id: String,
    pub images: Vec<Image>,
    pub name: String,
}

} // verus!
