use psst_web::api;
use psst_web::convert::{
    has_artist_ids, is_album_convertible, is_album_simplified_convertible,
    is_playlist_item_convertible, is_track_convertible,
};
use psst_web::model::{Album, AlbumType, Artist, Image, Playlist, Track};

fn image(url: &str, size: Option<usize>) -> api::Image {
    api::Image { url: url.to_string(), width: size, height: size }
}

fn artist(id: &str, name: &str) -> api::ArtistSimplified {
    api::ArtistSimplified { id: Some(id.to_string()), name: name.to_string() }
}

fn date() -> api::Date {
    api::Date { year: 1997, month: 5, day: 21 }
}

fn simplified_album(album_type: Option<api::AlbumType>) -> api::AlbumSimplified {
    api::AlbumSimplified {
        album_type,
        artists: vec![artist("a1", "Radiohead")],
        id: Some("al1".to_string()),
        images: vec![image("https://i/1", Some(640)), image("https://i/2", None)],
        name: "OK Computer".to_string(),
        release_date: Some(date()),
        release_date_precision: Some(api::DatePrecision::Day),
    }
}

fn simplified_track(n: usize) -> api::TrackSimplified {
    api::TrackSimplified {
        artists: vec![artist("a1", "Radiohead"), artist("a2", "Guest")],
        disc_number: 1,
        duration_ms: 284_000,
        explicit: false,
        id: Some(format!("t{}", n)),
        is_local: false,
        name: format!("Track {}", n),
        track_number: n,
    }
}

fn full_track() -> api::Track {
    api::Track {
        album: simplified_album(Some(api::AlbumType::Single)),
        artists: vec![artist("a1", "Radiohead")],
        disc_number: 2,
        duration_ms: 1_000,
        explicit: true,
        id: Some("t9".to_string()),
        is_local: false,
        is_playable: Some(true),
        name: "Lucky".to_string(),
        popularity: 77,
        track_number: 11,
    }
}

#[test]
fn image_keeps_url_and_size() {
    let i = Image::from_api(api::Image { url: "u".to_string(), width: Some(3), height: None });
    assert_eq!(i.url, "u");
    assert_eq!(i.width, Some(3));
    assert_eq!(i.height, None);
}

#[test]
fn album_types_map_one_to_one() {
    assert_eq!(AlbumType::from_api(api::AlbumType::Album), AlbumType::Album);
    assert_eq!(AlbumType::from_api(api::AlbumType::Single), AlbumType::Single);
    assert_eq!(AlbumType::from_api(api::AlbumType::Compilation), AlbumType::Compilation);
}

#[test]
fn simplified_artist_has_no_images() {
    let a = Artist::from_simplified(artist("a1", "Radiohead"));
    assert_eq!(a.id, "a1");
    assert_eq!(a.name, "Radiohead");
    assert!(a.images.is_empty());
}

#[test]
fn full_artist_keeps_images_in_order() {
    let a = Artist::from_full(api::Artist {
        id: "a3".to_string(),
        name: "Björk".to_string(),
        images: vec![image("x", Some(1)), image("y", Some(2))],
    });
    assert_eq!(a.id, "a3");
    assert_eq!(a.name, "Björk");
    let urls: Vec<&str> = a.images.iter().map(|i| i.url.as_str()).collect();
    assert_eq!(urls, vec!["x", "y"]);
    assert_eq!(a.images[1].width, Some(2));
}

#[test]
fn simplified_album_defaults_type_and_leaves_genres_and_tracks_empty() {
    let a = Album::from_simplified(simplified_album(None));
    assert_eq!(a.album_type, AlbumType::Album);
    assert_eq!(a.id, "al1");
    assert_eq!(a.name, "OK Computer");
    assert_eq!(a.artists.len(), 1);
    assert_eq!(a.artists[0].id, "a1");
    assert_eq!(a.images.len(), 2);
    assert_eq!(a.images[0].url, "https://i/1");
    assert_eq!(a.release_date, Some(date()));
    assert_eq!(a.release_date_precision, Some(api::DatePrecision::Day));
    assert!(a.genres.is_empty());
    assert!(a.tracks.is_empty());
}

#[test]
fn simplified_album_keeps_given_type() {
    let a = Album::from_simplified(simplified_album(Some(api::AlbumType::Compilation)));
    assert_eq!(a.album_type, AlbumType::Compilation);
}

#[test]
fn full_album_keeps_genres_and_tracks() {
    let a = Album::from_full(api::Album {
        album_type: api::AlbumType::Single,
        artists: vec![artist("a1", "Radiohead")],
        id: "al2".to_string(),
        images: vec![],
        name: "No Surprises".to_string(),
        release_date: date(),
        release_date_precision: api::DatePrecision::Year,
        genres: vec!["rock".to_string(), "art rock".to_string()],
        tracks: vec![simplified_track(1), simplified_track(2)],
    });
    assert_eq!(a.album_type, AlbumType::Single);
    assert_eq!(a.id, "al2");
    assert_eq!(a.release_date, Some(date()));
    assert_eq!(a.release_date_precision, Some(api::DatePrecision::Year));
    assert_eq!(a.genres, vec!["rock".to_string(), "art rock".to_string()]);
    assert_eq!(a.tracks.len(), 2);
    assert_eq!(a.tracks[0].id, Some("t1".to_string()));
    assert_eq!(a.tracks[1].track_number, 2);
    assert!(a.tracks[1].album.is_none());
}

#[test]
fn artists_album_has_dates_and_no_tracks() {
    let a = Album::from_artists_album(api::ArtistsAlbum {
        album_type: api::AlbumType::Album,
        artists: vec![artist("a1", "Radiohead"), artist("a2", "Guest")],
        id: "al3".to_string(),
        images: vec![image("z", None)],
        name: "Kid A".to_string(),
        release_date: date(),
        release_date_precision: api::DatePrecision::Month,
    });
    assert_eq!(a.album_type, AlbumType::Album);
    assert_eq!(a.artists[1].name, "Guest");
    assert_eq!(a.release_date_precision, Some(api::DatePrecision::Month));
    assert!(a.genres.is_empty());
    assert!(a.tracks.is_empty());
}

#[test]
fn simplified_track_leaves_album_playability_and_popularity_unknown() {
    let t = Track::from_simplified(simplified_track(4));
    assert!(t.album.is_none());
    assert_eq!(t.artists.len(), 2);
    assert_eq!(t.artists[1].id, "a2");
    assert_eq!(t.disc_number, 1);
    assert_eq!(t.duration_ms, 284_000);
    assert!(!t.explicit);
    assert_eq!(t.id, Some("t4".to_string()));
    assert!(!t.is_local);
    assert_eq!(t.is_playable, None);
    assert_eq!(t.name, "Track 4");
    assert_eq!(t.popularity, None);
    assert_eq!(t.track_number, 4);
}

#[test]
fn full_track_keeps_album_playability_and_popularity() {
    let t = Track::from_full(full_track());
    let album = t.album.as_ref().unwrap();
    assert_eq!(album.id, "al1");
    assert_eq!(album.album_type, AlbumType::Single);
    assert_eq!(t.disc_number, 2);
    assert_eq!(t.duration_ms, 1_000);
    assert!(t.explicit);
    assert_eq!(t.id, Some("t9".to_string()));
    assert_eq!(t.is_playable, Some(true));
    assert_eq!(t.name, "Lucky");
    assert_eq!(t.popularity, Some(77));
    assert_eq!(t.track_number, 11);
}

#[test]
fn playlist_items_become_tracks_in_order() {
    let mut second = full_track();
    second.name = "Airbag".to_string();
    let items = vec![
        api::PlaylistItem { item: Some(api::PlaylistItemType::Track(full_track())) },
        api::PlaylistItem { item: Some(api::PlaylistItemType::Track(second)) },
    ];
    let tracks = Track::from_playlist_items(items);
    let names: Vec<&str> = tracks.iter().map(|t| t.name.as_str()).collect();
    assert_eq!(names, vec!["Lucky", "Airbag"]);
}

#[test]
fn playlist_keeps_id_images_and_name() {
    let ps = Playlist::from_api_list(vec![
        api::PlaylistSimplified { id: "p1".to_string(), images: vec![image("c", Some(300))], name: "Mix".to_string() },
        api::PlaylistSimplified { id: "p2".to_string(), images: vec![], name: "Other".to_string() },
    ]);
    assert_eq!(ps.len(), 2);
    assert_eq!(ps[0].id, "p1");
    assert_eq!(ps[0].images[0].url, "c");
    assert_eq!(ps[0].name, "Mix");
    assert_eq!(ps[1].id, "p2");
    assert!(ps[1].images.is_empty());
}

#[test]
fn list_conversions_keep_order() {
    let albums = Album::from_simplified_list(vec![simplified_album(None), {
        let mut a = simplified_album(None);
        a.id = Some("al9".to_string());
        a
    }]);
    assert_eq!(albums[0].id, "al1");
    assert_eq!(albums[1].id, "al9");
    let artists = Artist::from_simplified_list(vec![artist("b", "B"), artist("c", "C"), artist("d", "D")]);
    let ids: Vec<&str> = artists.iter().map(|a| a.id.as_str()).collect();
    assert_eq!(ids, vec!["b", "c", "d"]);
    let images = Image::from_api_list(vec![]);
    assert!(images.is_empty());
}

#[test]
fn missing_ids_are_detected() {
    let local = api::ArtistSimplified { id: None, name: "Local".to_string() };
    assert!(has_artist_ids(&vec![]));
    assert!(has_artist_ids(&vec![artist("a", "A")]));
    assert!(!has_artist_ids(&vec![artist("a", "A"), local]));

    let mut album = simplified_album(None);
    assert!(is_album_simplified_convertible(&album));
    album.id = None;
    assert!(!is_album_simplified_convertible(&album));

    let mut track = full_track();
    assert!(is_track_convertible(&track));
    track.album.artists.push(api::ArtistSimplified { id: None, name: "L".to_string() });
    assert!(!is_track_convertible(&track));

    let mut bad_track = simplified_track(1);
    bad_track.artists[0].id = None;
    let full = api::Album {
        album_type: api::AlbumType::Album,
        artists: vec![],
        id: "x".to_string(),
        images: vec![],
        name: "x".to_string(),
        release_date: date(),
        release_date_precision: api::DatePrecision::Day,
        genres: vec![],
        tracks: vec![simplified_track(0), bad_track],
    };
    assert!(!is_album_convertible(&full));
}

#[test]
fn only_track_entries_of_playlists_convert() {
    assert!(is_playlist_item_convertible(&api::PlaylistItem {
        item: Some(api::PlaylistItemType::Track(full_track()))
    }));
    assert!(!is_playlist_item_convertible(&api::PlaylistItem { item: Some(api::PlaylistItemType::Episode) }));
    assert!(!is_playlist_item_convertible(&api::PlaylistItem { item: None }));
}
