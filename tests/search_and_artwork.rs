use image::GenericImageView;
use psst_web::api;
use psst_web::artwork::decode_image;
use psst_web::error::{WebApiCause, WebError};
use psst_web::search::{search_results, SEARCH_LIMIT, SEARCH_OFFSET};

const TWO_PIXEL_PNG: [u8; 70] = [
    137, 80, 78, 71, 13, 10, 26, 10, 0, 0, 0, 13, 73, 72, 68, 82, 0, 0, 0, 2, 0, 0, 0, 1, 8, 2, 0,
    0, 0, 123, 64, 232, 221, 0, 0, 0, 13, 73, 68, 65, 84, 120, 156, 99, 248, 207, 0, 4, 255, 1, 7,
    0, 1, 255, 226, 35, 158, 89, 0, 0, 0, 0, 73, 69, 78, 68, 174, 66, 96, 130,
];

fn artist(id: &str) -> api::Artist {
    api::Artist { id: id.to_string(), name: id.to_uppercase(), images: vec![] }
}

fn album(id: &str) -> api::AlbumSimplified {
    api::AlbumSimplified {
        album_type: None,
        artists: vec![],
        id: Some(id.to_string()),
        images: vec![],
        name: id.to_string(),
        release_date: None,
        release_date_precision: None,
    }
}

fn track(id: &str) -> api::Track {
    api::Track {
        album: album("al"),
        artists: vec![],
        disc_number: 1,
        duration_ms: 5,
        explicit: false,
        id: Some(id.to_string()),
        is_local: false,
        is_playable: None,
        name: id.to_string(),
        popularity: 3,
        track_number: 1,
    }
}

#[test]
fn search_asks_for_twenty_five_from_the_start() {
    assert_eq!(SEARCH_LIMIT, 25);
    assert_eq!(SEARCH_OFFSET, 0);
}

#[test]
fn search_converts_every_kind_in_order() {
    let (artists, albums, tracks) = search_results(
        Some(vec![artist("x"), artist("y")]),
        Some(vec![album("p")]),
        Some(vec![track("t1"), track("t2"), track("t3")]),
    );
    assert_eq!(artists.iter().map(|a| a.id.as_str()).collect::<Vec<_>>(), vec!["x", "y"]);
    assert_eq!(artists[1].name, "Y");
    assert_eq!(albums.len(), 1);
    assert_eq!(albums[0].id, "p");
    assert_eq!(
        tracks.iter().map(|t| t.id.clone().unwrap()).collect::<Vec<_>>(),
        vec!["t1", "t2", "t3"]
    );
    assert_eq!(tracks[0].popularity, Some(3));
}

#[test]
fn search_with_absent_pages_gives_empty_results() {
    let (artists, albums, tracks) = search_results(None, None, Some(vec![track("t")]));
    assert!(artists.is_empty());
    assert!(albums.is_empty());
    assert_eq!(tracks.len(), 1);
    let (artists, albums, tracks) = search_results(Some(vec![]), None, None);
    assert!(artists.is_empty() && albums.is_empty() && tracks.is_empty());
}

#[test]
fn decode_image_reads_a_png() {
    let picture = decode_image(&TWO_PIXEL_PNG).ok().unwrap();
    assert_eq!(picture.dimensions(), (2, 1));
}

#[test]
fn decode_image_refuses_garbage_with_an_image_cause() {
    let r = decode_image(b"not a picture");
    assert!(matches!(r, Err(WebError::WebApiError(WebApiCause::Image(_)))));
    let r = decode_image(&[]);
    assert!(matches!(r, Err(WebError::WebApiError(WebApiCause::Image(_)))));
}
