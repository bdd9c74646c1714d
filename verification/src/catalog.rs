use vstd::prelude::*;

use crate::date::Date;
use crate::records::{
    Album, AlbumArtistLink, Artist, MusicGenre, Song, album_has_links, album_ids_below,
    album_ids_distinct, album_index, album_swept, albums_after_sweep, albums_of_artist,
    albums_pending_sweep, albums_without_id, artist_ids_below, artist_ids_distinct, artist_index,
    artists_of_album, artists_without_id, has_album_id, has_artist_id, has_link, has_song_id,
    link_ids_below, link_ids_distinct, linked_album_ids, links_without_album, links_without_artist,
    links_without_pairs, matching_artists, new_links, song_ids_below, song_ids_distinct,
    song_index, songs_after_sweep, songs_of_album, songs_pending_sweep, songs_without_album,
    songs_without_id,
};
use crate::seqtools::{
    lemma_filter_all_true, lemma_filter_congruent, lemma_filter_distinct_keys, lemma_filter_filter,
    lemma_filter_members, lemma_filter_push,
};

verus! {

broadcast use vstd::seq_lib::group_seq_properties;

/// How a request can fail: the input broke a validation rule, or a referenced
/// id does not exist. A store behind a network could also fail on its own;
/// this in-memory store cannot, so no such variant exists.
#[derive(Clone, Copy, PartialEq, Eq, Structural, Debug)]
pub enum CatalogError {
    Validation,
    NotFound,
}

/// The entity store: four tables keyed by server-assigned ids, together with
/// the next fresh id of each table.
///
/// Every mutating operation enforces the cross-entity rules: creation
/// validates its inputs and the rows it references, deletion cascades to the
/// dependent rows, and link insertion is all-or-nothing at the validation
/// stage.
pub struct Catalog {
    pub songs: Vec<Song>,
    pub albums: Vec<Album>,
    pub artists: Vec<Artist>,
    pub links: Vec<AlbumArtistLink>,
    pub next_song_id: u64,
    pub next_album_id: u64,
    pub next_artist_id: u64,
    pub next_link_id: u64,
}

impl Catalog {
    /// Ids are unique within each table and lie below the table's next id.
    pub open spec fn ids_wf(self) -> bool {
        &&& song_ids_distinct(self.songs@)
        &&& album_ids_distinct(self.albums@)
        &&& artist_ids_distinct(self.artists@)
        &&& link_ids_distinct(self.links@)
        &&& song_ids_below(self.songs@, self.next_song_id)
        &&& album_ids_below(self.albums@, self.next_album_id)
        &&& artist_ids_below(self.artists@, self.next_artist_id)
        &&& link_ids_below(self.links@, self.next_link_id)
    }

    /// Every song belongs to an existing album.
    pub open spec fn songs_reference_albums(self) -> bool {
        forall|i: int|
            0 <= i < self.songs@.len() ==> has_album_id(
                self.albums@,
                (#[trigger] self.songs@[i]).album_id,
            )
    }

    /// Every link row joins an existing album to an existing artist.
    pub open spec fn links_reference_rows(self) -> bool {
        forall|i: int|
            0 <= i < self.links@.len() ==> has_album_id(
                self.albums@,
                (#[trigger] self.links@[i]).album_id,
            ) && has_artist_id(self.artists@, self.links@[i].artist_id)
    }

    /// The store's invariant: well-formed ids and referential integrity.
    ///
    /// Note that an album may hold zero links (removing artists from an album
    /// performs no orphan sweep), and a name or length updated in place is not
    /// re-validated; neither is therefore part of the invariant.
    pub open spec fn wf(self) -> bool {
        self.ids_wf() && self.songs_reference_albums() && self.links_reference_rows()
    }

    pub open spec fn has_song(self, id: u64) -> bool {
        has_song_id(self.songs@, id)
    }

    pub open spec fn has_album(self, id: u64) -> bool {
        has_album_id(self.albums@, id)
    }

    pub open spec fn has_artist(self, id: u64) -> bool {
        has_artist_id(self.artists@, id)
    }

    pub open spec fn song_at(self, id: u64) -> Song {
        self.songs@[song_index(self.songs@, id)]
    }

    pub open spec fn album_at(self, id: u64) -> Album {
        self.albums@[album_index(self.albums@, id)]
    }

    pub open spec fn artist_at(self, id: u64) -> Artist {
        self.artists@[artist_index(self.artists@, id)]
    }

    /// What a lookup of a song id observes.
    pub open spec fn spec_get_song(self, id: u64) -> Option<Song> {
        if self.has_song(id) {
            Some(self.song_at(id))
        } else {
            None
        }
    }

    /// What a lookup of an album id observes.
    pub open spec fn spec_get_album(self, id: u64) -> Option<Album> {
        if self.has_album(id) {
            Some(self.album_at(id))
        } else {
            None
        }
    }

    /// What a lookup of an artist id observes.
    pub open spec fn spec_get_artist(self, id: u64) -> Option<Artist> {
        if self.has_artist(id) {
            Some(self.artist_at(id))
        } else {
            None
        }
    }

    /// An empty store.
    pub fn new() -> (r: Catalog)
        ensures
            r.wf(),
            r.songs@ == Seq::<Song>::empty(),
            r.albums@ == Seq::<Album>::empty(),
            r.artists@ == Seq::<Artist>::empty(),
            r.links@ == Seq::<AlbumArtistLink>::empty(),
            r.next_song_id == 1u64,
            r.next_album_id == 1u64,
            r.next_artist_id == 1u64,
            r.next_link_id == 1u64,
    {
        Catalog {
            songs: Vec::new(),
            albums: Vec::new(),
            artists: Vec::new(),
            links: Vec::new(),
            next_song_id: 1,
            next_album_id: 1,
            next_artist_id: 1,
            next_link_id: 1,
        }
    }

    /// Create a song after validating its name, its length and the album it
    /// references; on success the fresh id is returned and the song is
    /// immediately visible under it.
    pub fn create_song(&mut self, name: String, length_secs: i64, album_id: u64) -> (r: Result<
        u64,
        CatalogError,
    >)
        requires
            old(self).wf(),
            old(self).next_song_id < u64::MAX,
        ensures
            final(self).wf(),
            r is Ok <==> name@.len() > 0 && length_secs > 0 && old(self).has_album(album_id),
            r matches Ok(id) ==> {
                &&& id == old(self).next_song_id
                &&& !old(self).has_song(id)
                &&& final(self).songs@ == old(self).songs@.push(
                    Song { id, name, length_secs, album_id },
                )
                &&& final(self).spec_get_song(id) == Some(
                    Song { id, name, length_secs, album_id },
                )
                &&& final(self).next_song_id == old(self).next_song_id + 1
                &&& final(self).albums == old(self).albums
                &&& final(self).artists == old(self).artists
                &&& final(self).links == old(self).links
                &&& final(self).next_album_id == old(self).next_album_id
                &&& final(self).next_artist_id == old(self).next_artist_id
                &&& final(self).next_link_id == old(self).next_link_id
            },
            r is Err ==> r == Err::<u64, CatalogError>(CatalogError::Validation) && *final(self)
                == *old(self),
    {
        let album_exists = find_album_index(&self.albums, album_id).is_some();
        if name.as_str().is_empty() || length_secs <= 0 || !album_exists {
            return Err(CatalogError::Validation);
        }
        let id = self.next_song_id;
        let song = Song { id, name, length_secs, album_id };
        self.songs.push(song);
        self.next_song_id = id + 1;
        proof {
            let post = self.songs@;
            let pre = old(self).songs@;
            assert(forall|i: int| 0 <= i < pre.len() ==> post[i] == pre[i]);
            assert(post[pre.len() as int].id == id);
            assert(self.has_song(id));
            let w = song_index(post, id);
            assert(post[w] == post[pre.len() as int]);
        }
        Ok(id)
    }

    /// Look a song up by id.
    pub fn get_song_by_id(&self, id: u64) -> (r: Option<&Song>)
        requires
            self.wf(),
        ensures
            match r {
                Some(s) => self.spec_get_song(id) == Some(*s),
                None => self.spec_get_song(id) is None,
            },
    {
        match find_song_index(&self.songs, id) {
            Some(i) => {
                proof {
                    let w = song_index(self.songs@, id);
                    assert(self.songs@[i as int].id == id && self.songs@[w].id == id);
                }
                Some(&self.songs[i])
            },
            None => None,
        }
    }

    /// Replace every field of the song at `id`. The update path re-validates
    /// neither the name nor the length; only the song's existence and the
    /// referenced album (the store's foreign key) are checked.
    pub fn update_song(&mut self, id: u64, name: String, length_secs: i64, album_id: u64) -> (r:
        Result<u64, CatalogError>)
        requires
            old(self).wf(),
        ensures
            final(self).wf(),
            r is Ok <==> old(self).has_song(id) && old(self).has_album(album_id),
            r matches Ok(rid) ==> {
                &&& rid == id
                &&& final(self).songs@ == old(self).songs@.update(
                    song_index(old(self).songs@, id),
                    Song { id, name, length_secs, album_id },
                )
                &&& final(self).spec_get_song(id) == Some(
                    Song { id, name, length_secs, album_id },
                )
                &&& final(self).albums == old(self).albums
                &&& final(self).artists == old(self).artists
                &&& final(self).links == old(self).links
                &&& final(self).next_song_id == old(self).next_song_id
                &&& final(self).next_album_id == old(self).next_album_id
                &&& final(self).next_artist_id == old(self).next_artist_id
                &&& final(self).next_link_id == old(self).next_link_id
            },
            r == Err::<u64, CatalogError>(CatalogError::NotFound) <==> !old(self).has_song(id),
            r == Err::<u64, CatalogError>(CatalogError::Validation) <==> old(self).has_song(id)
                && !old(self).has_album(album_id),
            r is Err ==> *final(self) == *old(self),
    {
        let i = match find_song_index(&self.songs, id) {
            Some(i) => i,
            None => {
                return Err(CatalogError::NotFound);
            },
        };
        if find_album_index(&self.albums, album_id).is_none() {
            return Err(CatalogError::Validation);
        }
        let song = Song { id, name, length_secs, album_id };
        self.songs.remove(i);
        self.songs.insert(i, song);
        proof {
            let pre = old(self).songs@;
            let post = self.songs@;
            let w = song_index(pre, id);
            assert(pre[i as int].id == id && pre[w].id == id);
            assert(w == i as int);
            assert(post =~= pre.update(w, Song { id, name, length_secs, album_id }));
            assert(forall|k: int| 0 <= k < post.len() ==> (#[trigger] post[k]).id == pre[k].id);
            assert(post[i as int].id == id);
            assert(has_song_id(post, id));
            let w2 = song_index(post, id);
            assert(post[w2].id == id);
            assert(w2 == i as int);
        }
        Ok(id)
    }

    /// Delete the song at `id`; report which id was removed, or that none was.
    pub fn delete_song(&mut self, id: u64) -> (r: Result<u64, CatalogError>)
        requires
            old(self).wf(),
        ensures
            final(self).wf(),
            r is Ok <==> old(self).has_song(id),
            r matches Ok(rid) ==> {
                &&& rid == id
                &&& final(self).songs@ == songs_without_id(old(self).songs@, id)
                &&& !final(self).has_song(id)
                &&& final(self).albums == old(self).albums
                &&& final(self).artists == old(self).artists
                &&& final(self).links == old(self).links
                &&& final(self).next_song_id == old(self).next_song_id
                &&& final(self).next_album_id == old(self).next_album_id
                &&& final(self).next_artist_id == old(self).next_artist_id
                &&& final(self).next_link_id == old(self).next_link_id
            },
            r is Err ==> r == Err::<u64, CatalogError>(CatalogError::NotFound) && *final(self)
                == *old(self),
    {
        if find_song_index(&self.songs, id).is_none() {
            return Err(CatalogError::NotFound);
        }
        retain_songs_not_id(&mut self.songs, id);
        proof {
            let pre = old(self).songs@;
            let post = self.songs@;
            lemma_filter_members(pre, |s: Song| s.id != id);
            lemma_filter_distinct_keys(pre, |s: Song| s.id != id, |s: Song| s.id);
            assert forall|i: int| 0 <= i < post.len() implies has_album_id(
                self.albums@,
                (#[trigger] post[i]).album_id,
            ) && post[i].id < self.next_song_id by {
                let w = choose|m: int| 0 <= m < pre.len() && pre[m] == post[i];
            }
        }
        Ok(id)
    }

    /// Every song in the store, in insertion order.
    pub fn get_all_songs(&self) -> (r: &Vec<Song>)
        ensures
            r@ == self.songs@,
    {
        &self.songs
    }

    /// Create an album for the given artist, validating the name, that the
    /// publication date is not later than `today`, and that the artist
    /// exists. On success the album and one link to the artist are inserted,
    /// in that order.
    pub fn create_album_on(
        &mut self,
        name: String,
        date_published: Date,
        artist_id: u64,
        today: Date,
    ) -> (r: Result<u64, CatalogError>)
        requires
            old(self).wf(),
            old(self).next_album_id < u64::MAX,
            old(self).next_link_id < u64::MAX,
        ensures
            final(self).wf(),
            r is Ok <==> name@.len() > 0 && !today.spec_before(date_published) && old(
                self,
            ).has_artist(artist_id),
            r matches Ok(id) ==> {
                &&& id == old(self).next_album_id
                &&& !old(self).has_album(id)
                &&& final(self).albums@ == old(self).albums@.push(
                    Album { id, name, date_published },
                )
                &&& final(self).links@ == old(self).links@.push(
                    AlbumArtistLink { id: old(self).next_link_id, album_id: id, artist_id },
                )
                &&& final(self).spec_get_album(id) == Some(Album { id, name, date_published })
                &&& final(self).next_album_id == old(self).next_album_id + 1
                &&& final(self).next_link_id == old(self).next_link_id + 1
                &&& final(self).songs == old(self).songs
                &&& final(self).artists == old(self).artists
                &&& final(self).next_song_id == old(self).next_song_id
                &&& final(self).next_artist_id == old(self).next_artist_id
            },
            r is Err ==> r == Err::<u64, CatalogError>(CatalogError::Validation) && *final(self)
                == *old(self),
    {
        let artist_exists = find_artist_index(&self.artists, artist_id).is_some();
        if name.as_str().is_empty() || date_published.is_after(&today) || !artist_exists {
            return Err(CatalogError::Validation);
        }
        let id = self.next_album_id;
        let link_id = self.next_link_id;
        self.albums.push(Album { id, name, date_published });
        self.next_album_id = id + 1;
        self.links.push(AlbumArtistLink { id: link_id, album_id: id, artist_id });
        self.next_link_id = link_id + 1;
        proof {
            let pre = old(self).albums@;
            let post = self.albums@;
            assert(forall|i: int| 0 <= i < pre.len() ==> post[i] == pre[i]);
            assert(post[pre.len() as int].id == id);
            assert(self.has_album(id));
            let w = album_index(post, id);
            assert(post[w] == post[pre.len() as int]);
            assert(forall|i: int|
                0 <= i < old(self).links@.len() ==> self.links@[i] == old(self).links@[i]);
            assert forall|i: int| 0 <= i < self.songs@.len() implies has_album_id(
                post,
                (#[trigger] self.songs@[i]).album_id,
            ) by {
                let m = choose|m: int|
                    0 <= m < pre.len() && pre[m].id == self.songs@[i].album_id;
                assert(post[m].id == self.songs@[i].album_id);
            }
            assert forall|i: int| 0 <= i < self.links@.len() implies has_album_id(
                post,
                (#[trigger] self.links@[i]).album_id,
            ) && has_artist_id(self.artists@, self.links@[i].artist_id) by {
                if i < old(self).links@.len() {
                    let m = choose|m: int|
                        0 <= m < pre.len() && pre[m].id == self.links@[i].album_id;
                    assert(post[m].id == self.links@[i].album_id);
                } else {
                    assert(post[pre.len() as int].id == self.links@[i].album_id);
                }
            }
        }
        Ok(id)
    }

    /// Create an album for the given artist, measured against the machine's
    /// current date. Whether a given publication date counts as future depends
    /// on the clock; everything else about the outcome is pinned down.
    pub fn create_album(&mut self, name: String, date_published: Date, artist_id: u64) -> (r:
        Result<u64, CatalogError>)
        requires
            old(self).wf(),
            old(self).next_album_id < u64::MAX,
            old(self).next_link_id < u64::MAX,
        ensures
            final(self).wf(),
            name@.len() == 0 || !old(self).has_artist(artist_id) ==> r is Err,
            r matches Ok(id) ==> {
                &&& name@.len() > 0
                &&& old(self).has_artist(artist_id)
                &&& id == old(self).next_album_id
                &&& !old(self).has_album(id)
                &&& final(self).albums@ == old(self).albums@.push(
                    Album { id, name, date_published },
                )
                &&& final(self).links@ == old(self).links@.push(
                    AlbumArtistLink { id: old(self).next_link_id, album_id: id, artist_id },
                )
                &&& final(self).spec_get_album(id) == Some(Album { id, name, date_published })
                &&& final(self).next_album_id == old(self).next_album_id + 1
                &&& final(self).next_link_id == old(self).next_link_id + 1
                &&& final(self).songs == old(self).songs
                &&& final(self).artists == old(self).artists
                &&& final(self).next_song_id == old(self).next_song_id
                &&& final(self).next_artist_id == old(self).next_artist_id
            },
            r is Err ==> r == Err::<u64, CatalogError>(CatalogError::Validation) && *final(self)
                == *old(self),
    {
        let now = crate::date::today();
        self.create_album_on(name, date_published, artist_id, now)
    }

    /// Look an album up by id.
    pub fn get_album_by_id(&self, id: u64) -> (r: Option<&Album>)
        requires
            self.wf(),
        ensures
            match r {
                Some(a) => self.spec_get_album(id) == Some(*a),
                None => self.spec_get_album(id) is None,
            },
    {
        match find_album_index(&self.albums, id) {
            Some(i) => {
                proof {
                    let w = album_index(self.albums@, id);
                    assert(self.albums@[i as int].id == id && self.albums@[w].id == id);
                }
                Some(&self.albums[i])
            },
            None => None,
        }
    }

    /// Replace every field of the album at `id`. The update path re-validates
    /// nothing beyond the album's existence, not even the publication date.
    pub fn update_album(&mut self, id: u64, name: String, date_published: Date) -> (r: Result<
        u64,
        CatalogError,
    >)
        requires
            old(self).wf(),
        ensures
            final(self).wf(),
            r is Ok <==> old(self).has_album(id),
            r matches Ok(rid) ==> {
                &&& rid == id
                &&& final(self).albums@ == old(self).albums@.update(
                    album_index(old(self).albums@, id),
                    Album { id, name, date_published },
                )
                &&& final(self).spec_get_album(id) == Some(Album { id, name, date_published })
                &&& final(self).songs == old(self).songs
                &&& final(self).artists == old(self).artists
                &&& final(self).links == old(self).links
                &&& final(self).next_song_id == old(self).next_song_id
                &&& final(self).next_album_id == old(self).next_album_id
                &&& final(self).next_artist_id == old(self).next_artist_id
                &&& final(self).next_link_id == old(self).next_link_id
            },
            r is Err ==> r == Err::<u64, CatalogError>(CatalogError::NotFound) && *final(self)
                == *old(self),
    {
        let i = match find_album_index(&self.albums, id) {
            Some(i) => i,
            None => {
                return Err(CatalogError::NotFound);
            },
        };
        let album = Album { id, name, date_published };
        self.albums.remove(i);
        self.albums.insert(i, album);
        proof {
            let pre = old(self).albums@;
            let post = self.albums@;
            let w = album_index(pre, id);
            assert(pre[i as int].id == id && pre[w].id == id);
            assert(w == i as int);
            assert(post =~= pre.update(w, Album { id, name, date_published }));
            assert(forall|k: int| 0 <= k < post.len() ==> (#[trigger] post[k]).id == pre[k].id);
            assert(post[i as int].id == id);
            assert(has_album_id(post, id));
            let w2 = album_index(post, id);
            assert(post[w2].id == id);
            assert(w2 == i as int);
            assert forall|k: int| 0 <= k < self.songs@.len() implies has_album_id(
                post,
                (#[trigger] self.songs@[k]).album_id,
            ) by {
                let m = choose|m: int|
                    0 <= m < pre.len() && pre[m].id == self.songs@[k].album_id;
                assert(post[m].id == self.songs@[k].album_id);
            }
            assert forall|k: int| 0 <= k < self.links@.len() implies has_album_id(
                post,
                (#[trigger] self.links@[k]).album_id,
            ) by {
                let m = choose|m: int|
                    0 <= m < pre.len() && pre[m].id == self.links@[k].album_id;
                assert(post[m].id == self.links@[k].album_id);
            }
        }
        Ok(id)
    }

    /// Delete the album at `id`. The store-level cascade removes the album's
    /// songs and its link rows together with it; artists are never deleted as
    /// a side effect.
    pub fn delete_album(&mut self, id: u64) -> (r: Result<u64, CatalogError>)
        requires
            old(self).wf(),
        ensures
            final(self).wf(),
            r is Ok <==> old(self).has_album(id),
            r matches Ok(rid) ==> {
                &&& rid == id
                &&& final(self).albums@ == albums_without_id(old(self).albums@, id)
                &&& final(self).songs@ == songs_without_album(old(self).songs@, id)
                &&& final(self).links@ == links_without_album(old(self).links@, id)
                &&& !final(self).has_album(id)
                &&& final(self).artists == old(self).artists
                &&& final(self).next_song_id == old(self).next_song_id
                &&& final(self).next_album_id == old(self).next_album_id
                &&& final(self).next_artist_id == old(self).next_artist_id
                &&& final(self).next_link_id == old(self).next_link_id
            },
            r is Err ==> r == Err::<u64, CatalogError>(CatalogError::NotFound) && *final(self)
                == *old(self),
    {
        if find_album_index(&self.albums, id).is_none() {
            return Err(CatalogError::NotFound);
        }
        retain_albums_not_id(&mut self.albums, id);
        retain_songs_not_album(&mut self.songs, id);
        retain_links_not_album(&mut self.links, id);
        proof {
            let pre_albums = old(self).albums@;
            let pre_songs = old(self).songs@;
            let pre_links = old(self).links@;
            lemma_filter_members(pre_albums, |a: Album| a.id != id);
            lemma_filter_members(pre_songs, |s: Song| s.album_id != id);
            lemma_filter_members(pre_links, |l: AlbumArtistLink| l.album_id != id);
            lemma_filter_distinct_keys(pre_albums, |a: Album| a.id != id, |a: Album| a.id);
            lemma_filter_distinct_keys(pre_songs, |s: Song| s.album_id != id, |s: Song| s.id);
            lemma_filter_distinct_keys(
                pre_links,
                |l: AlbumArtistLink| l.album_id != id,
                |l: AlbumArtistLink| l.id,
            );
            assert forall|i: int| 0 <= i < self.songs@.len() implies (#[trigger] self.songs@[i]).id
                < self.next_song_id && has_album_id(self.albums@, self.songs@[i].album_id) by {
                let w = choose|m: int| 0 <= m < pre_songs.len() && pre_songs[m] == self.songs@[i];
                let wa = choose|m: int|
                    0 <= m < pre_albums.len() && pre_albums[m].id == self.songs@[i].album_id;
                lemma_has_album_in_filter(pre_albums, |a: Album| a.id != id, wa);
            }
            assert forall|i: int| 0 <= i < self.albums@.len() implies (
            #[trigger] self.albums@[i]).id < self.next_album_id by {
                let w = choose|m: int|
                    0 <= m < pre_albums.len() && pre_albums[m] == self.albums@[i];
            }
            assert forall|i: int| 0 <= i < self.links@.len() implies (#[trigger] self.links@[i]).id
                < self.next_link_id && has_album_id(self.albums@, self.links@[i].album_id)
                && has_artist_id(self.artists@, self.links@[i].artist_id) by {
                let w = choose|m: int| 0 <= m < pre_links.len() && pre_links[m] == self.links@[i];
                let wa = choose|m: int|
                    0 <= m < pre_albums.len() && pre_albums[m].id == self.links@[i].album_id;
                lemma_has_album_in_filter(pre_albums, |a: Album| a.id != id, wa);
            }
        }
        Ok(id)
    }

    /// Every album in the store, in insertion order.
    pub fn get_all_albums(&self) -> (r: &Vec<Album>)
        ensures
            r@ == self.albums@,
    {
        &self.albums
    }

    /// Every song of the given album. No check is made that the album
    /// exists: a missing album simply has no songs.
    pub fn get_songs(&self, id: u64) -> (r: Vec<&Song>)
        ensures
            r@.map_values(|s: &Song| *s) == songs_of_album(self.songs@, id),
    {
        let mut out: Vec<&Song> = Vec::new();
        let mut i: usize = 0;
        while i < self.songs.len()
            invariant
                i <= self.songs@.len(),
                out@.map_values(|s: &Song| *s) == songs_of_album(
                    self.songs@.subrange(0, i as int),
                    id,
                ),
            decreases self.songs@.len() - i,
        {
            proof {
                assert(self.songs@.subrange(0, i as int + 1) =~= self.songs@.subrange(
                    0,
                    i as int,
                ).push(self.songs@[i as int]));
                lemma_filter_push(
                    self.songs@.subrange(0, i as int),
                    |s: Song| s.album_id == id,
                    self.songs@[i as int],
                );
            }
            if self.songs[i].album_id == id {
                let ghost prev = out@;
                out.push(&self.songs[i]);
                proof {
                    assert(out@.map_values(|s: &Song| *s) =~= prev.map_values(
                        |s: &Song| *s,
                    ).push(self.songs@[i as int]));
                }
            }
            i += 1;
        }
        proof {
            assert(self.songs@.subrange(0, self.songs@.len() as int) =~= self.songs@);
        }
        out
    }
    /// Create an artist, validating the name and that the formation date is
    /// not later than `today`.
    pub fn create_artist_on(
        &mut self,
        name: String,
        date_formed: Date,
        genre: MusicGenre,
        today: Date,
    ) -> (r: Result<u64, CatalogError>)
        requires
            old(self).wf(),
            old(self).next_artist_id < u64::MAX,
        ensures
            final(self).wf(),
            r is Ok <==> name@.len() > 0 && !today.spec_before(date_formed),
            r matches Ok(id) ==> {
                &&& id == old(self).next_artist_id
                &&& !old(self).has_artist(id)
                &&& final(self).artists@ == old(self).artists@.push(
                    Artist { id, name, date_formed, genre },
                )
                &&& final(self).spec_get_artist(id) == Some(Artist { id, name, date_formed, genre })
                &&& final(self).next_artist_id == old(self).next_artist_id + 1
                &&& final(self).songs == old(self).songs
                &&& final(self).albums == old(self).albums
                &&& final(self).links == old(self).links
                &&& final(self).next_song_id == old(self).next_song_id
                &&& final(self).next_album_id == old(self).next_album_id
                &&& final(self).next_link_id == old(self).next_link_id
            },
            r is Err ==> r == Err::<u64, CatalogError>(CatalogError::Validation) && *final(self)
                == *old(self),
    {
        if name.as_str().is_empty() || date_formed.is_after(&today) {
            return Err(CatalogError::Validation);
        }
        let id = self.next_artist_id;
        self.artists.push(Artist { id, name, date_formed, genre });
        self.next_artist_id = id + 1;
        proof {
            let pre = old(self).artists@;
            let post = self.artists@;
            assert(forall|i: int| 0 <= i < pre.len() ==> post[i] == pre[i]);
            assert(post[pre.len() as int].id == id);
            assert(self.has_artist(id));
            let w = artist_index(post, id);
            assert(post[w] == post[pre.len() as int]);
            assert forall|i: int| 0 <= i < self.links@.len() implies has_artist_id(
                post,
                (#[trigger] self.links@[i]).artist_id,
            ) by {
                let m = choose|m: int|
                    0 <= m < pre.len() && pre[m].id == self.links@[i].artist_id;
                assert(post[m].id == self.links@[i].artist_id);
            }
        }
        Ok(id)
    }

    /// Create an artist, measured against the machine's current date. Whether
    /// a given formation date counts as future depends on the clock;
    /// everything else about the outcome is pinned down.
    pub fn create_artist(&mut self, name: String, date_formed: Date, genre: MusicGenre) -> (r:
        Result<u64, CatalogError>)
        requires
            old(self).wf(),
            old(self).next_artist_id < u64::MAX,
        ensures
            final(self).wf(),
            name@.len() == 0 ==> r is Err,
            r matches Ok(id) ==> {
                &&& name@.len() > 0
                &&& id == old(self).next_artist_id
                &&& !old(self).has_artist(id)
                &&& final(self).artists@ == old(self).artists@.push(
                    Artist { id, name, date_formed, genre },
                )
                &&& final(self).spec_get_artist(id) == Some(Artist { id, name, date_formed, genre })
                &&& final(self).next_artist_id == old(self).next_artist_id + 1
                &&& final(self).songs == old(self).songs
                &&& final(self).albums == old(self).albums
                &&& final(self).links == old(self).links
                &&& final(self).next_song_id == old(self).next_song_id
                &&& final(self).next_album_id == old(self).next_album_id
                &&& final(self).next_link_id == old(self).next_link_id
            },
            r is Err ==> r == Err::<u64, CatalogError>(CatalogError::Validation) && *final(self)
                == *old(self),
    {
        let now = crate::date::today();
        self.create_artist_on(name, date_formed, genre, now)
    }

    /// Look an artist up by id.
    pub fn get_artist_by_id(&self, id: u64) -> (r: Option<&Artist>)
        requires
            self.wf(),
        ensures
            match r {
                Some(a) => self.spec_get_artist(id) == Some(*a),
                None => self.spec_get_artist(id) is None,
            },
    {
        match find_artist_index(&self.artists, id) {
            Some(i) => {
                proof {
                    let w = artist_index(self.artists@, id);
                    assert(self.artists@[i as int].id == id && self.artists@[w].id == id);
                }
                Some(&self.artists[i])
            },
            None => None,
        }
    }

    /// Replace every field of the artist at `id`. The update path
    /// re-validates nothing beyond the artist's existence, not even the
    /// formation date.
    pub fn update_artist(&mut self, id: u64, name: String, date_formed: Date, genre: MusicGenre) -> (r:
        Result<u64, CatalogError>)
        requires
            old(self).wf(),
        ensures
            final(self).wf(),
            r is Ok <==> old(self).has_artist(id),
            r matches Ok(rid) ==> {
                &&& rid == id
                &&& final(self).artists@ == old(self).artists@.update(
                    artist_index(old(self).artists@, id),
                    Artist { id, name, date_formed, genre },
                )
                &&& final(self).spec_get_artist(id) == Some(Artist { id, name, date_formed, genre })
                &&& final(self).songs == old(self).songs
                &&& final(self).albums == old(self).albums
                &&& final(self).links == old(self).links
                &&& final(self).next_song_id == old(self).next_song_id
                &&& final(self).next_album_id == old(self).next_album_id
                &&& final(self).next_artist_id == old(self).next_artist_id
                &&& final(self).next_link_id == old(self).next_link_id
            },
            r is Err ==> r == Err::<u64, CatalogError>(CatalogError::NotFound) && *final(self)
                == *old(self),
    {
        let i = match find_artist_index(&self.artists, id) {
            Some(i) => i,
            None => {
                return Err(CatalogError::NotFound);
            },
        };
        let artist = Artist { id, name, date_formed, genre };
        self.artists.remove(i);
        self.artists.insert(i, artist);
        proof {
            let pre = old(self).artists@;
            let post = self.artists@;
            let w = artist_index(pre, id);
            assert(pre[i as int].id == id && pre[w].id == id);
            assert(w == i as int);
            assert(post =~= pre.update(w, Artist { id, name, date_formed, genre }));
            assert(forall|k: int| 0 <= k < post.len() ==> (#[trigger] post[k]).id == pre[k].id);
            assert(post[i as int].id == id);
            assert(has_artist_id(post, id));
            let w2 = artist_index(post, id);
            assert(post[w2].id == id);
            assert(w2 == i as int);
            assert forall|k: int| 0 <= k < self.links@.len() implies has_artist_id(
                post,
                (#[trigger] self.links@[k]).artist_id,
            ) by {
                let m = choose|m: int|
                    0 <= m < pre.len() && pre[m].id == self.links@[k].artist_id;
                assert(post[m].id == self.links@[k].artist_id);
            }
        }
        Ok(id)
    }

    /// Every artist in the store, in insertion order.
    pub fn get_all_artists(&self) -> (r: &Vec<Artist>)
        ensures
            r@ == self.artists@,
    {
        &self.artists
    }

    /// Every album linked to the given artist, or `NotFound` if the artist
    /// does not exist.
    pub fn get_albums(&self, id: u64) -> (r: Result<Vec<&Album>, CatalogError>)
        ensures
            r is Ok <==> self.has_artist(id),
            r matches Ok(v) ==> v@.map_values(|a: &Album| *a) == albums_of_artist(
                self.albums@,
                self.links@,
                id,
            ),
            r is Err ==> r == Err::<Vec<&Album>, CatalogError>(CatalogError::NotFound),
    {
        if find_artist_index(&self.artists, id).is_none() {
            return Err(CatalogError::NotFound);
        }
        let mut out: Vec<&Album> = Vec::new();
        let mut i: usize = 0;
        while i < self.albums.len()
            invariant
                i <= self.albums@.len(),
                out@.map_values(|a: &Album| *a) == albums_of_artist(
                    self.albums@.subrange(0, i as int),
                    self.links@,
                    id,
                ),
            decreases self.albums@.len() - i,
        {
            proof {
                assert(self.albums@.subrange(0, i as int + 1) =~= self.albums@.subrange(
                    0,
                    i as int,
                ).push(self.albums@[i as int]));
                lemma_filter_push(
                    self.albums@.subrange(0, i as int),
                    |a: Album| has_link(self.links@, a.id, id),
                    self.albums@[i as int],
                );
            }
            if links_contain(&self.links, self.albums[i].id, id) {
                let ghost prev = out@;
                out.push(&self.albums[i]);
                proof {
                    assert(out@.map_values(|a: &Album| *a) =~= prev.map_values(
                        |a: &Album| *a,
                    ).push(self.albums@[i as int]));
                }
            }
            i += 1;
        }
        proof {
            assert(self.albums@.subrange(0, self.albums@.len() as int) =~= self.albums@);
        }
        Ok(out)
    }

    /// Every artist linked to the given album, or `NotFound` if the album
    /// does not exist. Each matching artist row is returned once, however
    /// many duplicate links exist.
    pub fn get_artists(&self, id: u64) -> (r: Result<Vec<&Artist>, CatalogError>)
        ensures
            r is Ok <==> self.has_album(id),
            r matches Ok(v) ==> v@.map_values(|a: &Artist| *a) == artists_of_album(
                self.artists@,
                self.links@,
                id,
            ),
            r is Err ==> r == Err::<Vec<&Artist>, CatalogError>(CatalogError::NotFound),
    {
        if find_album_index(&self.albums, id).is_none() {
            return Err(CatalogError::NotFound);
        }
        let mut out: Vec<&Artist> = Vec::new();
        let mut i: usize = 0;
        while i < self.artists.len()
            invariant
                i <= self.artists@.len(),
                out@.map_values(|a: &Artist| *a) == artists_of_album(
                    self.artists@.subrange(0, i as int),
                    self.links@,
                    id,
                ),
            decreases self.artists@.len() - i,
        {
            proof {
                assert(self.artists@.subrange(0, i as int + 1) =~= self.artists@.subrange(
                    0,
                    i as int,
                ).push(self.artists@[i as int]));
                lemma_filter_push(
                    self.artists@.subrange(0, i as int),
                    |a: Artist| has_link(self.links@, id, a.id),
                    self.artists@[i as int],
                );
            }
            if links_contain(&self.links, id, self.artists[i].id) {
                let ghost prev = out@;
                out.push(&self.artists[i]);
                proof {
                    assert(out@.map_values(|a: &Artist| *a) =~= prev.map_values(
                        |a: &Artist| *a,
                    ).push(self.artists@[i as int]));
                }
            }
            i += 1;
        }
        proof {
            assert(self.artists@.subrange(0, self.artists@.len() as int) =~= self.artists@);
        }
        Ok(out)
    }
    /// Link every artist in `artist_ids` to the album at `id`. The whole
    /// request is validated before any row is inserted: the album must exist,
    /// and the number of artist rows found among the requested ids must equal
    /// the number requested, so one bad id (or a duplicate) rejects the batch
    /// and leaves the store untouched. Duplicate pairs are not checked: a
    /// valid request may insert a link that already exists.
    pub fn add_artist(&mut self, id: u64, artist_ids: &Vec<u64>) -> (r: Result<u64, CatalogError>)
        requires
            old(self).wf(),
            old(self).next_link_id + artist_ids@.len() <= u64::MAX,
        ensures
            final(self).wf(),
            r == Err::<u64, CatalogError>(CatalogError::NotFound) <==> !old(self).has_album(id),
            r == Err::<u64, CatalogError>(CatalogError::Validation) <==> old(self).has_album(id)
                && matching_artists(old(self).artists@, artist_ids@).len() != artist_ids@.len(),
            r is Ok <==> old(self).has_album(id) && matching_artists(
                old(self).artists@,
                artist_ids@,
            ).len() == artist_ids@.len(),
            r matches Ok(rid) ==> {
                &&& rid == id
                &&& final(self).links@ == old(self).links@ + new_links(
                    old(self).next_link_id,
                    id,
                    artist_ids@,
                )
                &&& final(self).next_link_id == old(self).next_link_id + artist_ids@.len()
                &&& final(self).songs == old(self).songs
                &&& final(self).albums == old(self).albums
                &&& final(self).artists == old(self).artists
                &&& final(self).next_song_id == old(self).next_song_id
                &&& final(self).next_album_id == old(self).next_album_id
                &&& final(self).next_artist_id == old(self).next_artist_id
            },
            r is Err ==> *final(self) == *old(self),
    {
        if find_album_index(&self.albums, id).is_none() {
            return Err(CatalogError::NotFound);
        }
        let found = count_matching_artists(&self.artists, artist_ids);
        if found != artist_ids.len() {
            return Err(CatalogError::Validation);
        }
        proof {
            lemma_matching_artists_full(self.artists@, artist_ids@);
        }
        let ghost pre = *self;
        let mut k: usize = 0;
        while k < artist_ids.len()
            invariant
                k <= artist_ids@.len(),
                pre.wf(),
                pre.next_link_id + artist_ids@.len() <= u64::MAX,
                self.links@ == pre.links@ + new_links(
                    pre.next_link_id,
                    id,
                    artist_ids@.subrange(0, k as int),
                ),
                self.next_link_id == pre.next_link_id + k,
                self.songs == pre.songs,
                self.albums == pre.albums,
                self.artists == pre.artists,
                self.next_song_id == pre.next_song_id,
                self.next_album_id == pre.next_album_id,
                self.next_artist_id == pre.next_artist_id,
                has_album_id(pre.albums@, id),
                forall|m: int| 0 <= m < artist_ids@.len() ==> has_artist_id(
                    pre.artists@,
                    #[trigger] artist_ids@[m],
                ),
            decreases artist_ids@.len() - k,
        {
            let link_id = self.next_link_id;
            self.links.push(AlbumArtistLink { id: link_id, album_id: id, artist_id: artist_ids[k] });
            self.next_link_id = link_id + 1;
            proof {
                assert(self.links@ =~= pre.links@ + new_links(
                    pre.next_link_id,
                    id,
                    artist_ids@.subrange(0, k as int + 1),
                ));
            }
            k += 1;
        }
        proof {
            assert(artist_ids@.subrange(0, artist_ids@.len() as int) =~= artist_ids@);
            let post = self.links@;
            let fresh = new_links(pre.next_link_id, id, artist_ids@);
            assert(forall|i: int| 0 <= i < pre.links@.len() ==> post[i] == pre.links@[i]);
            assert(forall|i: int|
                pre.links@.len() <= i < post.len() ==> post[i] == fresh[i - pre.links@.len()]);
        }
        Ok(id)
    }

    /// Unlink the given artists from the album at `id`, deleting every
    /// matching link row in one batch. The request is validated exactly as in
    /// `add_artist`; no orphan sweep follows, so the album may be left with
    /// no artist at all.
    pub fn remove_artist(&mut self, id: u64, artist_ids: &Vec<u64>) -> (r: Result<
        u64,
        CatalogError,
    >)
        requires
            old(self).wf(),
        ensures
            final(self).wf(),
            r == Err::<u64, CatalogError>(CatalogError::NotFound) <==> !old(self).has_album(id),
            r == Err::<u64, CatalogError>(CatalogError::Validation) <==> old(self).has_album(id)
                && matching_artists(old(self).artists@, artist_ids@).len() != artist_ids@.len(),
            r is Ok <==> old(self).has_album(id) && matching_artists(
                old(self).artists@,
                artist_ids@,
            ).len() == artist_ids@.len(),
            r matches Ok(rid) ==> {
                &&& rid == id
                &&& final(self).links@ == links_without_pairs(old(self).links@, id, artist_ids@)
                &&& final(self).songs == old(self).songs
                &&& final(self).albums == old(self).albums
                &&& final(self).artists == old(self).artists
                &&& final(self).next_song_id == old(self).next_song_id
                &&& final(self).next_album_id == old(self).next_album_id
                &&& final(self).next_artist_id == old(self).next_artist_id
                &&& final(self).next_link_id == old(self).next_link_id
            },
            r is Err ==> *final(self) == *old(self),
    {
        if find_album_index(&self.albums, id).is_none() {
            return Err(CatalogError::NotFound);
        }
        let found = count_matching_artists(&self.artists, artist_ids);
        if found != artist_ids.len() {
            return Err(CatalogError::Validation);
        }
        retain_links_not_pairs(&mut self.links, id, artist_ids);
        proof {
            let pre = old(self).links@;
            lemma_filter_members(
                pre,
                |l: AlbumArtistLink| !(l.album_id == id && artist_ids@.contains(l.artist_id)),
            );
            lemma_filter_distinct_keys(
                pre,
                |l: AlbumArtistLink| !(l.album_id == id && artist_ids@.contains(l.artist_id)),
                |l: AlbumArtistLink| l.id,
            );
            assert forall|i: int| 0 <= i < self.links@.len() implies (#[trigger] self.links@[i]).id
                < self.next_link_id && has_album_id(self.albums@, self.links@[i].album_id)
                && has_artist_id(self.artists@, self.links@[i].artist_id) by {
                let w = choose|m: int| 0 <= m < pre.len() && pre[m] == self.links@[i];
            }
        }
        Ok(id)
    }
    /// Delete the artist at `id`, with the orphan-album cleanup: the album
    /// ids linked to the artist are collected first, the artist row and its
    /// links are deleted, and then each collected album that kept no link at
    /// all is deleted in turn, together with its songs. The sweep runs once
    /// per collected id from the pre-deletion snapshot; an album that already
    /// had zero links beforehand is not in the snapshot and is left alone.
    pub fn delete_artist(&mut self, id: u64) -> (r: Result<u64, CatalogError>)
        requires
            old(self).wf(),
        ensures
            final(self).wf(),
            r is Ok <==> old(self).has_artist(id),
            r matches Ok(rid) ==> {
                &&& rid == id
                &&& final(self).artists@ == artists_without_id(old(self).artists@, id)
                &&& final(self).links@ == links_without_artist(old(self).links@, id)
                &&& final(self).albums@ == albums_after_sweep(
                    old(self).albums@,
                    old(self).links@,
                    id,
                )
                &&& final(self).songs@ == songs_after_sweep(old(self).songs@, old(self).links@, id)
                &&& !final(self).has_artist(id)
                &&& final(self).next_song_id == old(self).next_song_id
                &&& final(self).next_album_id == old(self).next_album_id
                &&& final(self).next_artist_id == old(self).next_artist_id
                &&& final(self).next_link_id == old(self).next_link_id
            },
            r is Err ==> r == Err::<u64, CatalogError>(CatalogError::NotFound) && *final(self)
                == *old(self),
    {
        if find_artist_index(&self.artists, id).is_none() {
            return Err(CatalogError::NotFound);
        }
        let ghost a0 = self.albums@;
        let ghost s0 = self.songs@;
        let ghost l0 = self.links@;
        let album_ids = collect_linked_albums(&self.links, id);
        retain_artists_not_id(&mut self.artists, id);
        retain_links_not_artist(&mut self.links, id);
        proof {
            lemma_filter_all_true(
                a0,
                |a: Album| !(album_swept(l0, id, a.id) && album_ids@.subrange(0, 0).contains(a.id)),
            );
            lemma_filter_all_true(
                s0,
                |s: Song| !(album_swept(l0, id, s.album_id) && album_ids@.subrange(0, 0).contains(
                    s.album_id,
                )),
            );
        }
        let mut k: usize = 0;
        while k < album_ids.len()
            invariant
                k <= album_ids@.len(),
                album_ids@ == linked_album_ids(l0, id),
                self.links@ == links_without_artist(l0, id),
                self.artists@ == artists_without_id(old(self).artists@, id),
                self.albums@ == albums_pending_sweep(a0, l0, id, album_ids@.subrange(0, k as int)),
                self.songs@ == songs_pending_sweep(s0, l0, id, album_ids@.subrange(0, k as int)),
                self.next_song_id == old(self).next_song_id,
                self.next_album_id == old(self).next_album_id,
                self.next_artist_id == old(self).next_artist_id,
                self.next_link_id == old(self).next_link_id,
            decreases album_ids@.len() - k,
        {
            let x = album_ids[k];
            let ghost done = album_ids@.subrange(0, k as int);
            let ghost done_next = album_ids@.subrange(0, k as int + 1);
            proof {
                assert(done_next =~= done.push(x));
                // The collected id names an album that was linked to the artist.
                let lf = l0.filter(|l: AlbumArtistLink| l.artist_id == id);
                lemma_filter_members(l0, |l: AlbumArtistLink| l.artist_id == id);
                assert(lf[k as int].album_id == x && lf[k as int].artist_id == id);
                assert(has_link(l0, x, id));
            }
            if !album_has_any_link(&self.links, x) {
                proof {
                    // No surviving link of the album: every original link of it
                    // named the deleted artist, so the album is swept.
                    assert forall|m: int|
                        0 <= m < l0.len() && l0[m].album_id == x implies l0[m].artist_id == id by {
                        if l0[m].artist_id != id {
                            l0.lemma_filter_contains(|l: AlbumArtistLink| l.artist_id != id, m);
                            let l1 = links_without_artist(l0, id);
                            let n = choose|n: int| 0 <= n < l1.len() && l1[n] == l0[m];
                        }
                    }
                    assert(album_swept(l0, id, x));
                }
                retain_albums_not_id(&mut self.albums, x);
                retain_songs_not_album(&mut self.songs, x);
                proof {
                    assert(done_next[done.len() as int] == x);
                    lemma_filter_filter(
                        a0,
                        |a: Album| !(album_swept(l0, id, a.id) && done.contains(a.id)),
                        |a: Album| a.id != x,
                        |a: Album| !(album_swept(l0, id, a.id) && done.contains(a.id)) && a.id
                            != x,
                    );
                    assert forall|i: int| 0 <= i < a0.len() implies (!(album_swept(
                        l0,
                        id,
                        (#[trigger] a0[i]).id,
                    ) && done.contains(a0[i].id)) && a0[i].id != x) == !(album_swept(
                        l0,
                        id,
                        a0[i].id,
                    ) && done_next.contains(a0[i].id)) by {
                        if a0[i].id == x {
                            assert(done_next.contains(x));
                        }
                    }
                    lemma_filter_congruent(
                        a0,
                        |a: Album| !(album_swept(l0, id, a.id) && done.contains(a.id)) && a.id
                            != x,
                        |a: Album| !(album_swept(l0, id, a.id) && done_next.contains(a.id)),
                    );
                    lemma_filter_filter(
                        s0,
                        |s: Song| !(album_swept(l0, id, s.album_id) && done.contains(s.album_id)),
                        |s: Song| s.album_id != x,
                        |s: Song| !(album_swept(l0, id, s.album_id) && done.contains(s.album_id))
                            && s.album_id != x,
                    );
                    assert forall|i: int| 0 <= i < s0.len() implies (!(album_swept(
                        l0,
                        id,
                        (#[trigger] s0[i]).album_id,
                    ) && done.contains(s0[i].album_id)) && s0[i].album_id != x) == !(album_swept(
                        l0,
                        id,
                        s0[i].album_id,
                    ) && done_next.contains(s0[i].album_id)) by {
                        if s0[i].album_id == x {
                            assert(done_next.contains(x));
                        }
                    }
                    lemma_filter_congruent(
                        s0,
                        |s: Song| !(album_swept(l0, id, s.album_id) && done.contains(s.album_id))
                            && s.album_id != x,
                        |s: Song| !(album_swept(l0, id, s.album_id) && done_next.contains(
                            s.album_id,
                        )),
                    );
                }
            } else {
                proof {
                    // A link of the album survived, so another artist still
                    // holds it: the album is not swept and nothing changes.
                    let l1 = links_without_artist(l0, id);
                    let n = choose|n: int| 0 <= n < l1.len() && l1[n].album_id == x;
                    lemma_filter_members(l0, |l: AlbumArtistLink| l.artist_id != id);
                    let m = choose|m: int| 0 <= m < l0.len() && l0[m] == l1[n];
                    assert(!album_swept(l0, id, x));
                    assert forall|i: int| 0 <= i < a0.len() implies (!(album_swept(
                        l0,
                        id,
                        (#[trigger] a0[i]).id,
                    ) && done.contains(a0[i].id))) == !(album_swept(l0, id, a0[i].id)
                        && done_next.contains(a0[i].id)) by {
                        if a0[i].id != x {
                            assert(done_next.contains(a0[i].id) == done.contains(a0[i].id));
                        }
                    }
                    lemma_filter_congruent(
                        a0,
                        |a: Album| !(album_swept(l0, id, a.id) && done.contains(a.id)),
                        |a: Album| !(album_swept(l0, id, a.id) && done_next.contains(a.id)),
                    );
                    assert forall|i: int| 0 <= i < s0.len() implies (!(album_swept(
                        l0,
                        id,
                        (#[trigger] s0[i]).album_id,
                    ) && done.contains(s0[i].album_id))) == !(album_swept(l0, id, s0[i].album_id)
                        && done_next.contains(s0[i].album_id)) by {
                        if s0[i].album_id != x {
                            assert(done_next.contains(s0[i].album_id) == done.contains(
                                s0[i].album_id,
                            ));
                        }
                    }
                    lemma_filter_congruent(
                        s0,
                        |s: Song| !(album_swept(l0, id, s.album_id) && done.contains(s.album_id)),
                        |s: Song| !(album_swept(l0, id, s.album_id) && done_next.contains(
                            s.album_id,
                        )),
                    );
                }
            }
            k += 1;
        }
        proof {
            assert(album_ids@.subrange(0, album_ids@.len() as int) =~= album_ids@);
            // Once every collected id is visited, the pending filters agree
            // with the final sweep: a swept album's id was always collected.
            assert forall|y: u64| album_swept(l0, id, y) implies album_ids@.contains(y) by {
                let m = choose|m: int|
                    0 <= m < l0.len() && l0[m].album_id == y && l0[m].artist_id == id;
                l0.lemma_filter_contains(|l: AlbumArtistLink| l.artist_id == id, m);
                let lf = l0.filter(|l: AlbumArtistLink| l.artist_id == id);
                let n = choose|n: int| 0 <= n < lf.len() && lf[n] == l0[m];
                assert(linked_album_ids(l0, id)[n] == y);
            }
            lemma_filter_congruent(
                a0,
                |a: Album| !(album_swept(l0, id, a.id) && album_ids@.contains(a.id)),
                |a: Album| !album_swept(l0, id, a.id),
            );
            lemma_filter_congruent(
                s0,
                |s: Song| !(album_swept(l0, id, s.album_id) && album_ids@.contains(s.album_id)),
                |s: Song| !album_swept(l0, id, s.album_id),
            );
            // Well-formedness of the final state.
            let pre = *old(self);
            lemma_filter_members(pre.artists@, |a: Artist| a.id != id);
            lemma_filter_distinct_keys(pre.artists@, |a: Artist| a.id != id, |a: Artist| a.id);
            lemma_filter_members(l0, |l: AlbumArtistLink| l.artist_id != id);
            lemma_filter_distinct_keys(
                l0,
                |l: AlbumArtistLink| l.artist_id != id,
                |l: AlbumArtistLink| l.id,
            );
            lemma_filter_members(a0, |a: Album| !album_swept(l0, id, a.id));
            lemma_filter_distinct_keys(
                a0,
                |a: Album| !album_swept(l0, id, a.id),
                |a: Album| a.id,
            );
            lemma_filter_members(s0, |s: Song| !album_swept(l0, id, s.album_id));
            lemma_filter_distinct_keys(
                s0,
                |s: Song| !album_swept(l0, id, s.album_id),
                |s: Song| s.id,
            );
            assert forall|i: int| 0 <= i < self.artists@.len() implies (
            #[trigger] self.artists@[i]).id < self.next_artist_id by {
                let w = choose|m: int|
                    0 <= m < pre.artists@.len() && pre.artists@[m] == self.artists@[i];
            }
            assert forall|i: int| 0 <= i < self.albums@.len() implies (
            #[trigger] self.albums@[i]).id < self.next_album_id by {
                let w = choose|m: int| 0 <= m < a0.len() && a0[m] == self.albums@[i];
            }
            assert forall|i: int| 0 <= i < self.songs@.len() implies (#[trigger] self.songs@[i]).id
                < self.next_song_id && has_album_id(self.albums@, self.songs@[i].album_id) by {
                let w = choose|m: int| 0 <= m < s0.len() && s0[m] == self.songs@[i];
                let wa = choose|m: int|
                    0 <= m < a0.len() && a0[m].id == self.songs@[i].album_id;
                assert(!album_swept(l0, id, a0[wa].id));
                lemma_has_album_in_filter(a0, |a: Album| !album_swept(l0, id, a.id), wa);
            }
            assert forall|i: int| 0 <= i < self.links@.len() implies (#[trigger] self.links@[i]).id
                < self.next_link_id && has_album_id(self.albums@, self.links@[i].album_id)
                && has_artist_id(self.artists@, self.links@[i].artist_id) by {
                let w = choose|m: int| 0 <= m < l0.len() && l0[m] == self.links@[i];
                let wa = choose|m: int|
                    0 <= m < a0.len() && a0[m].id == self.links@[i].album_id;
                assert(l0[w].artist_id != id && l0[w].album_id == a0[wa].id);
                assert(!album_swept(l0, id, a0[wa].id));
                lemma_has_album_in_filter(a0, |a: Album| !album_swept(l0, id, a.id), wa);
                let wr = choose|m: int|
                    0 <= m < pre.artists@.len() && pre.artists@[m].id == self.links@[i].artist_id;
                lemma_has_artist_in_filter(pre.artists@, |a: Artist| a.id != id, wr);
            }
        }
        Ok(id)
    }
}

/// The album ids linked to the given artist, in row order, duplicates kept.
fn collect_linked_albums(links: &Vec<AlbumArtistLink>, artist_id: u64) -> (r: Vec<u64>)
    ensures
        r@ == linked_album_ids(links@, artist_id),
{
    let mut out: Vec<u64> = Vec::new();
    let mut i: usize = 0;
    while i < links.len()
        invariant
            i <= links@.len(),
            out@ == linked_album_ids(links@.subrange(0, i as int), artist_id),
        decreases links@.len() - i,
    {
        proof {
            assert(links@.subrange(0, i as int + 1) =~= links@.subrange(0, i as int).push(
                links@[i as int],
            ));
            lemma_filter_push(
                links@.subrange(0, i as int),
                |l: AlbumArtistLink| l.artist_id == artist_id,
                links@[i as int],
            );
        }
        if links[i].artist_id == artist_id {
            let ghost prev = out@;
            out.push(links[i].album_id);
            proof {
                assert(out@ =~= linked_album_ids(
                    links@.subrange(0, i as int + 1),
                    artist_id,
                ));
            }
        } else {
            proof {
                assert(out@ =~= linked_album_ids(
                    links@.subrange(0, i as int + 1),
                    artist_id,
                ));
            }
        }
        i += 1;
    }
    proof {
        assert(links@.subrange(0, links@.len() as int) =~= links@);
    }
    out
}

/// Whether any row of the given album remains.
fn album_has_any_link(links: &Vec<AlbumArtistLink>, album_id: u64) -> (r: bool)
    ensures
        r == album_has_links(links@, album_id),
{
    let mut i: usize = 0;
    while i < links.len()
        invariant
            i <= links@.len(),
            forall|k: int| 0 <= k < i ==> (#[trigger] links@[k]).album_id != album_id,
        decreases links@.len() - i,
    {
        if links[i].album_id == album_id {
            return true;
        }
        i += 1;
    }
    false
}

/// Remove every artist whose id is `id`, in place.
fn retain_artists_not_id(artists: &mut Vec<Artist>, id: u64)
    ensures
        final(artists)@ == artists_without_id(old(artists)@, id),
{
    let ghost orig = artists@;
    let ghost mut j: int = 0;
    let mut i: usize = 0;
    while i < artists.len()
        invariant
            0 <= i as int <= artists@.len(),
            i as int <= j <= orig.len(),
            artists@ == artists_without_id(orig.subrange(0, j), id) + orig.subrange(
                j,
                orig.len() as int,
            ),
            i as int == artists_without_id(orig.subrange(0, j), id).len(),
        decreases orig.len() - j,
    {
        proof {
            assert(artists@[i as int] == orig[j]);
            assert(orig.subrange(0, j + 1) =~= orig.subrange(0, j).push(orig[j]));
            lemma_filter_push(orig.subrange(0, j), |a: Artist| a.id != id, orig[j]);
        }
        if artists[i].id != id {
            i += 1;
        } else {
            let ghost pref = artists_without_id(orig.subrange(0, j), id);
            artists.remove(i);
            proof {
                assert(artists@ =~= pref + orig.subrange(j + 1, orig.len() as int));
            }
        }
        proof {
            j = j + 1;
        }
    }
    proof {
        assert(orig.subrange(j, orig.len() as int).len() == 0);
        assert(j == orig.len());
        assert(orig.subrange(0, j) =~= orig);
        assert(artists@ =~= artists_without_id(orig, id));
    }
}

/// Remove every link row of the given artist, in place.
fn retain_links_not_artist(links: &mut Vec<AlbumArtistLink>, artist_id: u64)
    ensures
        final(links)@ == links_without_artist(old(links)@, artist_id),
{
    let ghost orig = links@;
    let ghost mut j: int = 0;
    let mut i: usize = 0;
    while i < links.len()
        invariant
            0 <= i as int <= links@.len(),
            i as int <= j <= orig.len(),
            links@ == links_without_artist(orig.subrange(0, j), artist_id) + orig.subrange(
                j,
                orig.len() as int,
            ),
            i as int == links_without_artist(orig.subrange(0, j), artist_id).len(),
        decreases orig.len() - j,
    {
        proof {
            assert(links@[i as int] == orig[j]);
            assert(orig.subrange(0, j + 1) =~= orig.subrange(0, j).push(orig[j]));
            lemma_filter_push(
                orig.subrange(0, j),
                |l: AlbumArtistLink| l.artist_id != artist_id,
                orig[j],
            );
        }
        if links[i].artist_id != artist_id {
            i += 1;
        } else {
            let ghost pref = links_without_artist(orig.subrange(0, j), artist_id);
            links.remove(i);
            proof {
                assert(links@ =~= pref + orig.subrange(j + 1, orig.len() as int));
            }
        }
        proof {
            j = j + 1;
        }
    }
    proof {
        assert(orig.subrange(j, orig.len() as int).len() == 0);
        assert(j == orig.len());
        assert(orig.subrange(0, j) =~= orig);
        assert(links@ =~= links_without_artist(orig, artist_id));
    }
}

/// Count the artist rows whose id occurs in the requested list.
fn count_matching_artists(artists: &Vec<Artist>, ids: &Vec<u64>) -> (r: usize)
    ensures
        r == matching_artists(artists@, ids@).len(),
{
    let mut count: usize = 0;
    let mut i: usize = 0;
    while i < artists.len()
        invariant
            i <= artists@.len(),
            count == matching_artists(artists@.subrange(0, i as int), ids@).len(),
            count <= i,
        decreases artists@.len() - i,
    {
        proof {
            assert(artists@.subrange(0, i as int + 1) =~= artists@.subrange(0, i as int).push(
                artists@[i as int],
            ));
            lemma_filter_push(
                artists@.subrange(0, i as int),
                |a: Artist| ids@.contains(a.id),
                artists@[i as int],
            );
        }
        if ids_contain(ids, artists[i].id) {
            count += 1;
        }
        i += 1;
    }
    proof {
        assert(artists@.subrange(0, artists@.len() as int) =~= artists@);
    }
    count
}

/// Whether the requested id list holds the given id.
fn ids_contain(ids: &Vec<u64>, x: u64) -> (r: bool)
    ensures
        r == ids@.contains(x),
{
    let mut i: usize = 0;
    while i < ids.len()
        invariant
            i <= ids@.len(),
            forall|k: int| 0 <= k < i ==> ids@[k] != x,
        decreases ids@.len() - i,
    {
        if ids[i] == x {
            return true;
        }
        i += 1;
    }
    false
}

/// Remove every link of the given album whose artist occurs in the requested
/// list, in place.
fn retain_links_not_pairs(links: &mut Vec<AlbumArtistLink>, album_id: u64, ids: &Vec<u64>)
    ensures
        final(links)@ == links_without_pairs(old(links)@, album_id, ids@),
{
    let ghost orig = links@;
    let ghost mut j: int = 0;
    let mut i: usize = 0;
    while i < links.len()
        invariant
            0 <= i as int <= links@.len(),
            i as int <= j <= orig.len(),
            links@ == links_without_pairs(orig.subrange(0, j), album_id, ids@) + orig.subrange(
                j,
                orig.len() as int,
            ),
            i as int == links_without_pairs(orig.subrange(0, j), album_id, ids@).len(),
        decreases orig.len() - j,
    {
        proof {
            assert(links@[i as int] == orig[j]);
            assert(orig.subrange(0, j + 1) =~= orig.subrange(0, j).push(orig[j]));
            lemma_filter_push(
                orig.subrange(0, j),
                |l: AlbumArtistLink| !(l.album_id == album_id && ids@.contains(l.artist_id)),
                orig[j],
            );
        }
        let keep = !(links[i].album_id == album_id && ids_contain(ids, links[i].artist_id));
        if keep {
            i += 1;
        } else {
            let ghost pref = links_without_pairs(orig.subrange(0, j), album_id, ids@);
            links.remove(i);
            proof {
                assert(links@ =~= pref + orig.subrange(j + 1, orig.len() as int));
            }
        }
        proof {
            j = j + 1;
        }
    }
    proof {
        assert(orig.subrange(j, orig.len() as int).len() == 0);
        assert(j == orig.len());
        assert(orig.subrange(0, j) =~= orig);
        assert(links@ =~= links_without_pairs(orig, album_id, ids@));
    }
}

/// When the count of artist rows found among the requested ids equals the
/// number requested, every requested id names an existing artist.
proof fn lemma_matching_artists_full(artists: Seq<Artist>, ids: Seq<u64>)
    requires
        artist_ids_distinct(artists),
        matching_artists(artists, ids).len() == ids.len(),
    ensures
        forall|k: int| 0 <= k < ids.len() ==> has_artist_id(artists, #[trigger] ids[k]),
{
    broadcast use vstd::seq_lib::group_seq_properties;

    assert forall|k: int| 0 <= k < ids.len() implies has_artist_id(artists, #[trigger] ids[k]) by {
        if !has_artist_id(artists, ids[k]) {
            let x = ids[k];
            let found = matching_artists(artists, ids);
            lemma_filter_members(artists, |a: Artist| ids.contains(a.id));
            lemma_filter_distinct_keys(
                artists,
                |a: Artist| ids.contains(a.id),
                |a: Artist| a.id,
            );
            // No found row carries the missing id: such a row would witness the artist.
            assert forall|m: int| 0 <= m < found.len() implies (#[trigger] found[m]).id != x by {
                if found[m].id == x {
                    let w = choose|w: int| 0 <= w < artists.len() && artists[w] == found[m];
                }
            }
            let mids = found.map_values(|a: Artist| a.id);
            assert(mids.no_duplicates());
            mids.unique_seq_to_set();
            // Every found id is a requested id other than the missing one.
            assert forall|y: u64| mids.to_set().contains(y) implies ids.to_set().remove(
                x,
            ).contains(y) by {
                let m = choose|m: int| 0 <= m < mids.len() && mids[m] == y;
                assert(ids.contains(found[m].id));
            }
            vstd::set_lib::lemma_len_subset(mids.to_set(), ids.to_set().remove(x));
            assert(ids.to_set().contains(x));
            assert(ids.to_set().remove(x).len() == ids.to_set().len() - 1);
            ids.lemma_cardinality_of_set();
            assert(found.len() <= ids.len() - 1);
        }
    }
}

/// Whether some row links the given album to the given artist.
fn links_contain(links: &Vec<AlbumArtistLink>, album_id: u64, artist_id: u64) -> (r: bool)
    ensures
        r == has_link(links@, album_id, artist_id),
{
    let mut i: usize = 0;
    while i < links.len()
        invariant
            i <= links@.len(),
            forall|k: int|
                0 <= k < i ==> !((#[trigger] links@[k]).album_id == album_id && links@[k].artist_id
                    == artist_id),
        decreases links@.len() - i,
    {
        if links[i].album_id == album_id && links[i].artist_id == artist_id {
            return true;
        }
        i += 1;
    }
    false
}

/// An album that satisfies the kept-predicate still answers lookups after the
/// filter.
pub proof fn lemma_has_album_in_filter(albums: Seq<Album>, pred: spec_fn(Album) -> bool, w: int)
    requires
        0 <= w < albums.len(),
        pred(albums[w]),
    ensures
        has_album_id(albums.filter(pred), albums[w].id),
{
    albums.lemma_filter_contains(pred, w);
    let f = albums.filter(pred);
    let n = choose|n: int| 0 <= n < f.len() && f[n] == albums[w];
    assert(f[n].id == albums[w].id);
}

/// An artist that satisfies the kept-predicate still answers lookups after
/// the filter.
pub proof fn lemma_has_artist_in_filter(artists: Seq<Artist>, pred: spec_fn(Artist) -> bool, w: int)
    requires
        0 <= w < artists.len(),
        pred(artists[w]),
    ensures
        has_artist_id(artists.filter(pred), artists[w].id),
{
    artists.lemma_filter_contains(pred, w);
    let f = artists.filter(pred);
    let n = choose|n: int| 0 <= n < f.len() && f[n] == artists[w];
    assert(f[n].id == artists[w].id);
}

/// The position of the song with the given id, if one exists.
fn find_song_index(songs: &Vec<Song>, id: u64) -> (r: Option<usize>)
    ensures
        match r {
            Some(i) => i < songs@.len() && songs@[i as int].id == id,
            None => !has_song_id(songs@, id),
        },
{
    let mut i: usize = 0;
    while i < songs.len()
        invariant
            i <= songs@.len(),
            forall|k: int| 0 <= k < i ==> (#[trigger] songs@[k]).id != id,
        decreases songs@.len() - i,
    {
        if songs[i].id == id {
            return Some(i);
        }
        i += 1;
    }
    None
}

/// The position of the album with the given id, if one exists.
fn find_album_index(albums: &Vec<Album>, id: u64) -> (r: Option<usize>)
    ensures
        match r {
            Some(i) => i < albums@.len() && albums@[i as int].id == id,
            None => !has_album_id(albums@, id),
        },
{
    let mut i: usize = 0;
    while i < albums.len()
        invariant
            i <= albums@.len(),
            forall|k: int| 0 <= k < i ==> (#[trigger] albums@[k]).id != id,
        decreases albums@.len() - i,
    {
        if albums[i].id == id {
            return Some(i);
        }
        i += 1;
    }
    None
}

/// The position of the artist with the given id, if one exists.
fn find_artist_index(artists: &Vec<Artist>, id: u64) -> (r: Option<usize>)
    ensures
        match r {
            Some(i) => i < artists@.len() && artists@[i as int].id == id,
            None => !has_artist_id(artists@, id),
        },
{
    let mut i: usize = 0;
    while i < artists.len()
        invariant
            i <= artists@.len(),
            forall|k: int| 0 <= k < i ==> (#[trigger] artists@[k]).id != id,
        decreases artists@.len() - i,
    {
        if artists[i].id == id {
            return Some(i);
        }
        i += 1;
    }
    None
}

/// Remove every song whose id is `id`, in place.
fn retain_songs_not_id(songs: &mut Vec<Song>, id: u64)
    ensures
        final(songs)@ == songs_without_id(old(songs)@, id),
{
    let ghost orig = songs@;
    let ghost mut j: int = 0;
    let mut i: usize = 0;
    while i < songs.len()
        invariant
            0 <= i as int <= songs@.len(),
            i as int <= j <= orig.len(),
            songs@ == songs_without_id(orig.subrange(0, j), id) + orig.subrange(
                j,
                orig.len() as int,
            ),
            i as int == songs_without_id(orig.subrange(0, j), id).len(),
        decreases orig.len() - j,
    {
        proof {
            assert(songs@[i as int] == orig[j]);
            assert(orig.subrange(0, j + 1) =~= orig.subrange(0, j).push(orig[j]));
            lemma_filter_push(orig.subrange(0, j), |s: Song| s.id != id, orig[j]);
        }
        if songs[i].id != id {
            i += 1;
        } else {
            let ghost pref = songs_without_id(orig.subrange(0, j), id);
            songs.remove(i);
            proof {
                assert(songs@ =~= pref + orig.subrange(j + 1, orig.len() as int));
            }
        }
        proof {
            j = j + 1;
        }
    }
    proof {
        assert(orig.subrange(j, orig.len() as int).len() == 0);
        assert(j == orig.len());
        assert(orig.subrange(0, j) =~= orig);
        assert(songs@ =~= songs_without_id(orig, id));
    }
}

/// Remove every album whose id is `id`, in place.
fn retain_albums_not_id(albums: &mut Vec<Album>, id: u64)
    ensures
        final(albums)@ == albums_without_id(old(albums)@, id),
{
    let ghost orig = albums@;
    let ghost mut j: int = 0;
    let mut i: usize = 0;
    while i < albums.len()
        invariant
            0 <= i as int <= albums@.len(),
            i as int <= j <= orig.len(),
            albums@ == albums_without_id(orig.subrange(0, j), id) + orig.subrange(
                j,
                orig.len() as int,
            ),
            i as int == albums_without_id(orig.subrange(0, j), id).len(),
        decreases orig.len() - j,
    {
        proof {
            assert(albums@[i as int] == orig[j]);
            assert(orig.subrange(0, j + 1) =~= orig.subrange(0, j).push(orig[j]));
            lemma_filter_push(orig.subrange(0, j), |a: Album| a.id != id, orig[j]);
        }
        if albums[i].id != id {
            i += 1;
        } else {
            let ghost pref = albums_without_id(orig.subrange(0, j), id);
            albums.remove(i);
            proof {
                assert(albums@ =~= pref + orig.subrange(j + 1, orig.len() as int));
            }
        }
        proof {
            j = j + 1;
        }
    }
    proof {
        assert(orig.subrange(j, orig.len() as int).len() == 0);
        assert(j == orig.len());
        assert(orig.subrange(0, j) =~= orig);
        assert(albums@ =~= albums_without_id(orig, id));
    }
}

/// Remove every song of the given album, in place.
fn retain_songs_not_album(songs: &mut Vec<Song>, album_id: u64)
    ensures
        final(songs)@ == songs_without_album(old(songs)@, album_id),
{
    let ghost orig = songs@;
    let ghost mut j: int = 0;
    let mut i: usize = 0;
    while i < songs.len()
        invariant
            0 <= i as int <= songs@.len(),
            i as int <= j <= orig.len(),
            songs@ == songs_without_album(orig.subrange(0, j), album_id) + orig.subrange(
                j,
                orig.len() as int,
            ),
            i as int == songs_without_album(orig.subrange(0, j), album_id).len(),
        decreases orig.len() - j,
    {
        proof {
            assert(songs@[i as int] == orig[j]);
            assert(orig.subrange(0, j + 1) =~= orig.subrange(0, j).push(orig[j]));
            lemma_filter_push(orig.subrange(0, j), |s: Song| s.album_id != album_id, orig[j]);
        }
        if songs[i].album_id != album_id {
            i += 1;
        } else {
            let ghost pref = songs_without_album(orig.subrange(0, j), album_id);
            songs.remove(i);
            proof {
                assert(songs@ =~= pref + orig.subrange(j + 1, orig.len() as int));
            }
        }
        proof {
            j = j + 1;
        }
    }
    proof {
        assert(orig.subrange(j, orig.len() as int).len() == 0);
        assert(j == orig.len());
        assert(orig.subrange(0, j) =~= orig);
        assert(songs@ =~= songs_without_album(orig, album_id));
    }
}

/// Remove every link row of the given album, in place.
fn retain_links_not_album(links: &mut Vec<AlbumArtistLink>, album_id: u64)
    ensures
        final(links)@ == links_without_album(old(links)@, album_id),
{
    let ghost orig = links@;
    let ghost mut j: int = 0;
    let mut i: usize = 0;
    while i < links.len()
        invariant
            0 <= i as int <= links@.len(),
            i as int <= j <= orig.len(),
            links@ == links_without_album(orig.subrange(0, j), album_id) + orig.subrange(
                j,
                orig.len() as int,
            ),
            i as int == links_without_album(orig.subrange(0, j), album_id).len(),
        decreases orig.len() - j,
    {
        proof {
            assert(links@[i as int] == orig[j]);
            assert(orig.subrange(0, j + 1) =~= orig.subrange(0, j).push(orig[j]));
            lemma_filter_push(
                orig.subrange(0, j),
                |l: AlbumArtistLink| l.album_id != album_id,
                orig[j],
            );
        }
        if links[i].album_id != album_id {
            i += 1;
        } else {
            let ghost pref = links_without_album(orig.subrange(0, j), album_id);
            links.remove(i);
            proof {
                assert(links@ =~= pref + orig.subrange(j + 1, orig.len() as int));
            }
        }
        proof {
            j = j + 1;
        }
    }
    proof {
        assert(orig.subrange(j, orig.len() as int).len() == 0);
        assert(j == orig.len());
        assert(orig.subrange(0, j) =~= orig);
        assert(links@ =~= links_without_album(orig, album_id));
    }
}

} // verus!
