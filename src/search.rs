//! Text search over artists, albums and tracks.

use vstd::prelude::*;
use crate::api;
use crate::convert::{
    album_from_simplified, album_simplified_convertible, artist_from_full, track_convertible,
    track_from_full,
};
use crate::model::{Album, Artist, Track};

verus! {

/// The number of results of each kind that a search asks for.
pub const SEARCH_LIMIT: usize = 25;

/// The position of the first result that a search asks for.
pub const SEARCH_OFFSET: usize = 0;

/// The items of a result page that may be absent: none where it is.
pub open spec fn items_or_empty<T>(page: Option<Vec<T>>) -> Seq<T> {
    match page {
        Some(v) => v@,
        None => Seq::empty(),
    }
}

/// The results of a search that can be converted: its albums and tracks
/// carry the ids they need.
pub open spec fn search_convertible(
    albums: Option<Vec<api::AlbumSimplified>>,
    tracks: Option<Vec<api::Track>>,
) -> bool {
    &&& forall|i: int|
        0 <= i < items_or_empty(albums).len() ==> album_simplified_convertible(
            #[trigger] items_or_empty(albums)[i],
        )
    &&& forall|i: int|
        0 <= i < items_or_empty(tracks).len() ==> track_convertible(
            #[trigger] items_or_empty(tracks)[i],
        )
}

/// Converts the artists, albums and tracks that a search found, each kind
/// in its order; a kind whose page is absent gives no results.
pub fn search_results(
    artists: Option<Vec<api::Artist>>,
    albums: Option<Vec<api::AlbumSimplified>>,
    tracks: Option<Vec<api::Track>>,
) -> (r: (Vec<Artist>, Vec<Album>, Vec<Track>))
    requires
        search_convertible(albums, tracks),
    ensures
        r.0@.len() == items_or_empty(artists).len(),
        forall|i: int|
            0 <= i < r.0@.len() ==> artist_from_full(#[trigger] r.0@[i], items_or_empty(artists)[i]),
        r.1@.len() == items_or_empty(albums).len(),
        forall|i: int|
            0 <= i < r.1@.len() ==> album_from_simplified(
                #[trigger] r.1@[i],
                items_or_empty(albums)[i],
            ),
        r.2@.len() == items_or_empty(tracks).len(),
        forall|i: int|
            0 <= i < r.2@.len() ==> track_from_full(#[trigger] r.2@[i], items_or_empty(tracks)[i]),
{
    let ghost albums_found = items_or_empty(albums);
    let ghost tracks_found = items_or_empty(tracks);
    let artists = match artists {
        Some(v) => Artist::from_full_list(v),
        None => Vec::new(),
    };
    let albums = match albums {
        Some(v) => {
            assert(v@ == albums_found);
            Album::from_simplified_list(v)
        },
        None => Vec::new(),
    };
    let tracks = match tracks {
        Some(v) => {
            assert(v@ == tracks_found);
            Track::from_full_list(v)
        },
        None => Vec::new(),
    };
    (artists, albums, tracks)
}

} // verus!
