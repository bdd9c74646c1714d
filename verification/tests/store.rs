use music_catalog::catalog::{Catalog, CatalogError};
use music_catalog::date::Date;
use music_catalog::records::MusicGenre;

fn d(year: i32, month: u8, day: u8) -> Date {
    Date { year, month, day }
}

/// A store with one artist (id 1) and one album (id 1) owned by it.
fn store_with_album() -> Catalog {
    let mut c = Catalog::new();
    let artist = c
        .create_artist_on("The Band".to_string(), d(1990, 5, 1), MusicGenre::Rock, d(2020, 1, 1))
        .unwrap();
    assert_eq!(artist, 1);
    let album = c
        .create_album_on("First Album".to_string(), d(2001, 3, 15), artist, d(2020, 1, 1))
        .unwrap();
    assert_eq!(album, 1);
    c
}

#[test]
fn test() {
    let mut c = store_with_album();
    let song_id = c.create_song("My song".to_string(), 120, 1).unwrap();
    let song = c.get_song_by_id(song_id).unwrap();
    assert_eq!(song.name, "My song");
    assert_eq!(song.length_secs, 120);
    assert_eq!(song.album_id, 1);
}

#[test]
fn created_song_round_trips() {
    let mut c = store_with_album();
    let id = c.create_song("Opening".to_string(), 245, 1).unwrap();
    let song = c.get_song_by_id(id).unwrap();
    assert_eq!(song.id, id);
    assert_eq!(song.name, "Opening");
    assert_eq!(song.length_secs, 245);
    assert_eq!(song.album_id, 1);
}

#[test]
fn create_song_rejects_empty_name() {
    let mut c = store_with_album();
    assert_eq!(c.create_song("".to_string(), 120, 1), Err(CatalogError::Validation));
    assert!(c.get_all_songs().is_empty());
}

#[test]
fn create_song_rejects_nonpositive_length() {
    let mut c = store_with_album();
    assert_eq!(c.create_song("Silent".to_string(), 0, 1), Err(CatalogError::Validation));
    assert_eq!(c.create_song("Negative".to_string(), -3, 1), Err(CatalogError::Validation));
    assert!(c.get_all_songs().is_empty());
}

#[test]
fn create_song_rejects_missing_album() {
    let mut c = store_with_album();
    assert_eq!(c.create_song("Lost".to_string(), 120, 77), Err(CatalogError::Validation));
}

#[test]
fn create_album_rejects_future_date() {
    let mut c = store_with_album();
    let r = c.create_album_on("Tomorrow".to_string(), d(2020, 1, 2), 1, d(2020, 1, 1));
    assert_eq!(r, Err(CatalogError::Validation));
}

#[test]
fn create_album_accepts_today_and_is_listed_for_artist() {
    let mut c = store_with_album();
    let id = c.create_album_on("Same Day".to_string(), d(2020, 1, 1), 1, d(2020, 1, 1)).unwrap();
    let albums = c.get_albums(1).unwrap();
    assert_eq!(albums.len(), 2);
    assert_eq!(albums[1].id, id);
    assert_eq!(albums[1].name, "Same Day");
}

#[test]
fn create_album_rejects_missing_artist() {
    let mut c = Catalog::new();
    let r = c.create_album_on("Nobody's".to_string(), d(2000, 1, 1), 9, d(2020, 1, 1));
    assert_eq!(r, Err(CatalogError::Validation));
}

#[test]
fn delete_sole_artist_sweeps_album_and_songs() {
    let mut c = store_with_album();
    let song_a = c.create_song("One".to_string(), 100, 1).unwrap();
    let song_b = c.create_song("Two".to_string(), 200, 1).unwrap();
    let r = c.delete_artist(1);
    assert_eq!(r, Ok(1));
    assert!(c.get_album_by_id(1).is_none());
    assert!(c.get_song_by_id(song_a).is_none());
    assert!(c.get_song_by_id(song_b).is_none());
    assert!(c.get_all_songs().is_empty());
    assert!(c.get_all_albums().is_empty());
}

#[test]
fn delete_shared_artist_keeps_album_with_other_artist() {
    let mut c = store_with_album();
    let other = c
        .create_artist_on("Guest".to_string(), d(1985, 2, 2), MusicGenre::Jazz, d(2020, 1, 1))
        .unwrap();
    c.add_artist(1, &vec![other]).unwrap();
    let r = c.delete_artist(1);
    assert_eq!(r, Ok(1));
    assert!(c.get_album_by_id(1).is_some());
    let artists = c.get_artists(1).unwrap();
    assert_eq!(artists.len(), 1);
    assert_eq!(artists[0].id, other);
    assert_eq!(artists[0].name, "Guest");
}

#[test]
fn delete_artist_missing_is_not_found() {
    let mut c = Catalog::new();
    assert_eq!(c.delete_artist(4), Err(CatalogError::NotFound));
}

#[test]
fn delete_artist_leaves_album_already_orphaned() {
    let mut c = store_with_album();
    c.remove_artist(1, &vec![1]).unwrap();
    // The album now has no link at all; deleting the artist must not touch
    // it, since the album is no longer in the artist's link snapshot.
    assert_eq!(c.delete_artist(1), Ok(1));
    assert!(c.get_album_by_id(1).is_some());
}

#[test]
fn add_artist_with_unknown_id_changes_nothing() {
    let mut c = store_with_album();
    let known = c
        .create_artist_on("Known".to_string(), d(1999, 9, 9), MusicGenre::Pop, d(2020, 1, 1))
        .unwrap();
    let r = c.add_artist(1, &vec![known, 42]);
    assert_eq!(r, Err(CatalogError::Validation));
    let artists = c.get_artists(1).unwrap();
    assert_eq!(artists.len(), 1);
    assert_eq!(artists[0].id, 1);
}

#[test]
fn add_artist_rejects_duplicate_request_ids() {
    let mut c = store_with_album();
    let known = c
        .create_artist_on("Known".to_string(), d(1999, 9, 9), MusicGenre::Pop, d(2020, 1, 1))
        .unwrap();
    // Two requests for one artist find one row, so the counts differ.
    assert_eq!(c.add_artist(1, &vec![known, known]), Err(CatalogError::Validation));
}

#[test]
fn add_artist_to_missing_album_is_not_found() {
    let mut c = store_with_album();
    assert_eq!(c.add_artist(9, &vec![1]), Err(CatalogError::NotFound));
}

#[test]
fn duplicate_links_list_each_artist_once() {
    let mut c = store_with_album();
    c.add_artist(1, &vec![1]).unwrap();
    let artists = c.get_artists(1).unwrap();
    assert_eq!(artists.len(), 1);
    assert_eq!(artists[0].id, 1);
}

#[test]
fn remove_artist_leaves_album_without_sweep() {
    let mut c = store_with_album();
    let song = c.create_song("Kept".to_string(), 90, 1).unwrap();
    let r = c.remove_artist(1, &vec![1]);
    assert_eq!(r, Ok(1));
    let artists = c.get_artists(1).unwrap();
    assert!(artists.is_empty());
    assert!(c.get_album_by_id(1).is_some());
    assert!(c.get_song_by_id(song).is_some());
}

#[test]
fn remove_artist_validates_like_add() {
    let mut c = store_with_album();
    assert_eq!(c.remove_artist(9, &vec![1]), Err(CatalogError::NotFound));
    assert_eq!(c.remove_artist(1, &vec![1, 5]), Err(CatalogError::Validation));
    // The failed requests deleted nothing.
    assert_eq!(c.get_artists(1).unwrap().len(), 1);
}

#[test]
fn updated_album_round_trips() {
    let mut c = store_with_album();
    let r = c.update_album(1, "Renamed".to_string(), d(2005, 12, 24));
    assert_eq!(r, Ok(1));
    let album = c.get_album_by_id(1).unwrap();
    assert_eq!(album.name, "Renamed");
    assert_eq!(album.date_published, d(2005, 12, 24));
}

#[test]
fn update_album_missing_is_not_found() {
    let mut c = Catalog::new();
    assert_eq!(
        c.update_album(3, "Ghost".to_string(), d(2000, 1, 1)),
        Err(CatalogError::NotFound)
    );
}

#[test]
fn delete_album_twice_reports_not_found_second_time() {
    let mut c = store_with_album();
    assert_eq!(c.delete_album(1), Ok(1));
    assert_eq!(c.delete_album(1), Err(CatalogError::NotFound));
}

#[test]
fn delete_album_cascades_to_songs_and_links() {
    let mut c = store_with_album();
    let song = c.create_song("Gone".to_string(), 150, 1).unwrap();
    assert_eq!(c.delete_album(1), Ok(1));
    assert!(c.get_song_by_id(song).is_none());
    assert!(c.get_all_songs().is_empty());
    // The artist itself stays.
    assert!(c.get_artist_by_id(1).is_some());
    assert_eq!(c.get_albums(1).unwrap().len(), 0);
}

#[test]
fn update_song_paths() {
    let mut c = store_with_album();
    let id = c.create_song("Old".to_string(), 100, 1).unwrap();
    assert_eq!(
        c.update_song(77, "New".to_string(), 110, 1),
        Err(CatalogError::NotFound)
    );
    assert_eq!(
        c.update_song(id, "New".to_string(), 110, 9),
        Err(CatalogError::Validation)
    );
    assert_eq!(c.update_song(id, "New".to_string(), 110, 1), Ok(id));
    let song = c.get_song_by_id(id).unwrap();
    assert_eq!(song.name, "New");
    assert_eq!(song.length_secs, 110);
}

#[test]
fn delete_song_paths() {
    let mut c = store_with_album();
    let id = c.create_song("Brief".to_string(), 30, 1).unwrap();
    assert_eq!(c.delete_song(id), Ok(id));
    assert_eq!(c.delete_song(id), Err(CatalogError::NotFound));
}

#[test]
fn update_artist_round_trips() {
    let mut c = store_with_album();
    let r = c.update_artist(1, "Renamed Band".to_string(), d(1991, 6, 2), MusicGenre::Metal);
    assert_eq!(r, Ok(1));
    let artist = c.get_artist_by_id(1).unwrap();
    assert_eq!(artist.name, "Renamed Band");
    assert_eq!(artist.date_formed, d(1991, 6, 2));
    assert_eq!(artist.genre, MusicGenre::Metal);
    assert_eq!(
        c.update_artist(8, "None".to_string(), d(1991, 6, 2), MusicGenre::Unspecified),
        Err(CatalogError::NotFound)
    );
}

#[test]
fn listings_cover_all_rows() {
    let mut c = store_with_album();
    c.create_album_on("Second".to_string(), d(2003, 7, 7), 1, d(2020, 1, 1)).unwrap();
    c.create_song("A".to_string(), 10, 1).unwrap();
    c.create_song("B".to_string(), 20, 2).unwrap();
    assert_eq!(c.get_all_albums().len(), 2);
    assert_eq!(c.get_all_artists().len(), 1);
    assert_eq!(c.get_all_songs().len(), 2);
    let songs_of_first = c.get_songs(1);
    assert_eq!(songs_of_first.len(), 1);
    assert_eq!(songs_of_first[0].name, "A");
    // No existence check: a missing album simply has no songs.
    assert!(c.get_songs(42).is_empty());
}

#[test]
fn relation_queries_check_existence() {
    let c = Catalog::new();
    assert_eq!(c.get_artists(1), Err(CatalogError::NotFound));
    assert_eq!(c.get_albums(1), Err(CatalogError::NotFound));
}

#[test]
fn empty_artist_list_is_a_valid_batch() {
    let mut c = store_with_album();
    // Zero requested ids find zero rows: the counts agree and nothing changes.
    assert_eq!(c.add_artist(1, &vec![]), Ok(1));
    assert_eq!(c.remove_artist(1, &vec![]), Ok(1));
    assert_eq!(c.get_artists(1).unwrap().len(), 1);
}

#[test]
fn linked_artists_are_all_listed() {
    let mut c = store_with_album();
    let second = c
        .create_artist_on("Second".to_string(), d(1991, 1, 1), MusicGenre::Pop, d(2020, 1, 1))
        .unwrap();
    let third = c
        .create_artist_on("Third".to_string(), d(1992, 1, 1), MusicGenre::Jazz, d(2020, 1, 1))
        .unwrap();
    assert_eq!(c.add_artist(1, &vec![second, third]), Ok(1));
    let artists = c.get_artists(1).unwrap();
    assert_eq!(artists.len(), 3);
    assert_eq!(artists[0].id, 1);
    assert_eq!(artists[1].id, second);
    assert_eq!(artists[2].id, third);
}

#[test]
fn create_artist_against_machine_clock() {
    let mut c = Catalog::new();
    // A long-past formation date must pass whatever today is.
    let id = c.create_artist("Old Act".to_string(), d(1950, 1, 1), MusicGenre::Classical).unwrap();
    assert_eq!(id, 1);
    // A far-future formation date must fail whatever today is.
    assert_eq!(
        c.create_artist("Future Act".to_string(), d(9999, 12, 31), MusicGenre::Pop),
        Err(CatalogError::Validation)
    );
}

#[test]
fn create_album_against_machine_clock() {
    let mut c = Catalog::new();
    let artist = c.create_artist("Act".to_string(), d(1950, 1, 1), MusicGenre::Unspecified).unwrap();
    let album = c.create_album("Past Album".to_string(), d(1999, 9, 9), artist).unwrap();
    assert!(c.get_album_by_id(album).is_some());
    assert_eq!(
        c.create_album("Future Album".to_string(), d(9999, 1, 1), artist),
        Err(CatalogError::Validation)
    );
}
