use vstd::prelude::*;

use crate::date::Date;

verus! {

/// The fixed set of genres an artist may carry; `Unspecified` stands for a
/// record whose genre was never set.
#[derive(Clone, Copy, PartialEq, Eq, Structural, Debug)]
pub enum MusicGenre {
    Unspecified,
    Metal,
    Classical,
    Rock,
    Pop,
    Jazz,
}

/// A song row: a name, a positive length in seconds and the album it belongs to.
#[derive(Debug, PartialEq)]
pub struct Song {
    pub id: u64,
    pub name: String,
    pub length_secs: i64,
    pub album_id: u64,
}

/// An album row: a name and the date it was published.
#[derive(Debug, PartialEq)]
pub struct Album {
    pub id: u64,
    pub name: String,
    pub date_published: Date,
}

/// An artist row: a name, the date the act was formed, and a genre.
#[derive(Debug, PartialEq)]
pub struct Artist {
    pub id: u64,
    pub name: String,
    pub date_formed: Date,
    pub genre: MusicGenre,
}

/// One album-to-artist association row.
#[derive(Clone, Copy, PartialEq, Eq, Structural, Debug)]
pub struct AlbumArtistLink {
    pub id: u64,
    pub album_id: u64,
    pub artist_id: u64,
}

// Existence of a row with a given id.

pub open spec fn has_song_id(songs: Seq<Song>, id: u64) -> bool {
    exists|i: int| 0 <= i < songs.len() && songs[i].id == id
}

pub open spec fn has_album_id(albums: Seq<Album>, id: u64) -> bool {
    exists|i: int| 0 <= i < albums.len() && albums[i].id == id
}

pub open spec fn has_artist_id(artists: Seq<Artist>, id: u64) -> bool {
    exists|i: int| 0 <= i < artists.len() && artists[i].id == id
}

// The position of the row with a given id (meaningful only under distinct ids).

pub open spec fn song_index(songs: Seq<Song>, id: u64) -> int {
    choose|i: int| 0 <= i < songs.len() && songs[i].id == id
}

pub open spec fn album_index(albums: Seq<Album>, id: u64) -> int {
    choose|i: int| 0 <= i < albums.len() && albums[i].id == id
}

pub open spec fn artist_index(artists: Seq<Artist>, id: u64) -> int {
    choose|i: int| 0 <= i < artists.len() && artists[i].id == id
}

// Distinctness of ids within one table.

pub open spec fn song_ids_distinct(songs: Seq<Song>) -> bool {
    forall|i: int, j: int| 0 <= i < j < songs.len() ==> songs[i].id != songs[j].id
}

pub open spec fn album_ids_distinct(albums: Seq<Album>) -> bool {
    forall|i: int, j: int| 0 <= i < j < albums.len() ==> albums[i].id != albums[j].id
}

pub open spec fn artist_ids_distinct(artists: Seq<Artist>) -> bool {
    forall|i: int, j: int| 0 <= i < j < artists.len() ==> artists[i].id != artists[j].id
}

pub open spec fn link_ids_distinct(links: Seq<AlbumArtistLink>) -> bool {
    forall|i: int, j: int| 0 <= i < j < links.len() ==> links[i].id != links[j].id
}

// Every id lies below the table's next fresh id.

pub open spec fn song_ids_below(songs: Seq<Song>, bound: u64) -> bool {
    forall|i: int| 0 <= i < songs.len() ==> songs[i].id < bound
}

pub open spec fn album_ids_below(albums: Seq<Album>, bound: u64) -> bool {
    forall|i: int| 0 <= i < albums.len() ==> albums[i].id < bound
}

pub open spec fn artist_ids_below(artists: Seq<Artist>, bound: u64) -> bool {
    forall|i: int| 0 <= i < artists.len() ==> artists[i].id < bound
}

pub open spec fn link_ids_below(links: Seq<AlbumArtistLink>, bound: u64) -> bool {
    forall|i: int| 0 <= i < links.len() ==> links[i].id < bound
}

// Association rows.

/// Some row links `album_id` to `artist_id`.
pub open spec fn has_link(links: Seq<AlbumArtistLink>, album_id: u64, artist_id: u64) -> bool {
    exists|i: int|
        0 <= i < links.len() && links[i].album_id == album_id && links[i].artist_id == artist_id
}

/// Some row links `album_id` to any artist at all.
pub open spec fn album_has_links(links: Seq<AlbumArtistLink>, album_id: u64) -> bool {
    exists|i: int| 0 <= i < links.len() && links[i].album_id == album_id
}

/// Deleting the artist would leave `album_id` with no remaining link: the
/// album is linked to `artist_id`, and to no one else.
pub open spec fn album_swept(
    links: Seq<AlbumArtistLink>,
    artist_id: u64,
    album_id: u64,
) -> bool {
    has_link(links, album_id, artist_id) && (forall|i: int|
        0 <= i < links.len() && links[i].album_id == album_id ==> links[i].artist_id
            == artist_id)
}

// The filtered tables that the operations leave behind or hand out.

pub open spec fn songs_without_id(songs: Seq<Song>, id: u64) -> Seq<Song> {
    songs.filter(|s: Song| s.id != id)
}

pub open spec fn songs_without_album(songs: Seq<Song>, album_id: u64) -> Seq<Song> {
    songs.filter(|s: Song| s.album_id != album_id)
}

pub open spec fn songs_of_album(songs: Seq<Song>, album_id: u64) -> Seq<Song> {
    songs.filter(|s: Song| s.album_id == album_id)
}

pub open spec fn albums_without_id(albums: Seq<Album>, id: u64) -> Seq<Album> {
    albums.filter(|a: Album| a.id != id)
}

pub open spec fn artists_without_id(artists: Seq<Artist>, id: u64) -> Seq<Artist> {
    artists.filter(|a: Artist| a.id != id)
}

pub open spec fn links_without_album(
    links: Seq<AlbumArtistLink>,
    album_id: u64,
) -> Seq<AlbumArtistLink> {
    links.filter(|l: AlbumArtistLink| l.album_id != album_id)
}

pub open spec fn links_without_artist(
    links: Seq<AlbumArtistLink>,
    artist_id: u64,
) -> Seq<AlbumArtistLink> {
    links.filter(|l: AlbumArtistLink| l.artist_id != artist_id)
}

/// The rows that remove-artists-from-album deletes in one batch: those of the
/// album whose artist is among the requested ids.
pub open spec fn links_without_pairs(
    links: Seq<AlbumArtistLink>,
    album_id: u64,
    artist_ids: Seq<u64>,
) -> Seq<AlbumArtistLink> {
    links.filter(|l: AlbumArtistLink| !(l.album_id == album_id && artist_ids.contains(l.artist_id)))
}

/// The artist rows whose id occurs in the requested list.
pub open spec fn matching_artists(artists: Seq<Artist>, ids: Seq<u64>) -> Seq<Artist> {
    artists.filter(|a: Artist| ids.contains(a.id))
}

/// The albums that carry a link to the given artist.
pub open spec fn albums_of_artist(
    albums: Seq<Album>,
    links: Seq<AlbumArtistLink>,
    artist_id: u64,
) -> Seq<Album> {
    albums.filter(|a: Album| has_link(links, a.id, artist_id))
}

/// The artists that carry a link to the given album.
pub open spec fn artists_of_album(
    artists: Seq<Artist>,
    links: Seq<AlbumArtistLink>,
    album_id: u64,
) -> Seq<Artist> {
    artists.filter(|a: Artist| has_link(links, album_id, a.id))
}

/// The albums that the deletion of `artist_id` sweeps away together with it.
pub open spec fn albums_after_sweep(
    albums: Seq<Album>,
    links: Seq<AlbumArtistLink>,
    artist_id: u64,
) -> Seq<Album> {
    albums.filter(|a: Album| !album_swept(links, artist_id, a.id))
}

/// The songs that survive the sweep: those whose album keeps another artist.
pub open spec fn songs_after_sweep(
    songs: Seq<Song>,
    links: Seq<AlbumArtistLink>,
    artist_id: u64,
) -> Seq<Song> {
    songs.filter(|s: Song| !album_swept(links, artist_id, s.album_id))
}

/// The album ids collected from the links of an artist, in row order and with
/// duplicates kept, before the artist row is deleted.
pub open spec fn linked_album_ids(links: Seq<AlbumArtistLink>, artist_id: u64) -> Seq<u64> {
    links.filter(|l: AlbumArtistLink| l.artist_id == artist_id).map_values(
        |l: AlbumArtistLink| l.album_id,
    )
}

/// The albums still standing while the orphan sweep has worked through the
/// collected album ids in `done`: an album is gone once it is swept and its
/// id has been visited.
pub open spec fn albums_pending_sweep(
    albums: Seq<Album>,
    links: Seq<AlbumArtistLink>,
    artist_id: u64,
    done: Seq<u64>,
) -> Seq<Album> {
    albums.filter(|a: Album| !(album_swept(links, artist_id, a.id) && done.contains(a.id)))
}

/// The songs still standing while the orphan sweep has worked through the
/// collected album ids in `done`.
pub open spec fn songs_pending_sweep(
    songs: Seq<Song>,
    links: Seq<AlbumArtistLink>,
    artist_id: u64,
    done: Seq<u64>,
) -> Seq<Song> {
    songs.filter(|s: Song| !(album_swept(links, artist_id, s.album_id) && done.contains(s.album_id)))
}

/// The batch of link rows that add-artists-to-album inserts: one per requested
/// artist, with consecutive fresh ids starting at `first_id`.
pub open spec fn new_links(
    first_id: u64,
    album_id: u64,
    artist_ids: Seq<u64>,
) -> Seq<AlbumArtistLink> {
    Seq::new(
        artist_ids.len(),
        |i: int|
            AlbumArtistLink {
                id: (first_id + i) as u64,
                album_id: album_id,
                artist_id: artist_ids[i],
            },
    )
}

} // verus!
