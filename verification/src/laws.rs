use vstd::prelude::*;

use crate::catalog::{Catalog, lemma_has_album_in_filter};
use crate::records::{
    Album, AlbumArtistLink, Artist, Song, album_index, album_swept, albums_after_sweep,
    albums_of_artist, albums_without_id, artist_index, artists_of_album, artists_without_id,
    has_album_id, has_link, has_song_id, links_without_artist, song_index, songs_after_sweep,
};
use crate::seqtools::{
    lemma_filter_congruent, lemma_filter_distinct_keys, lemma_filter_members,
    lemma_filter_push, lemma_filter_single_match,
};

verus! {

/// A song that a successful creation appended is what a lookup of its fresh
/// id then returns. The premises are what a successful song creation
/// guarantees: the row is appended under the store's next fresh id.
pub proof fn lemma_created_song_found(pre: Catalog, post: Catalog, song: Song)
    requires
        pre.wf(),
        song.id == pre.next_song_id,
        post.songs@ == pre.songs@.push(song),
    ensures
        post.spec_get_song(song.id) == Some(song),
{
    let s = post.songs@;
    assert(s[pre.songs@.len() as int] == song);
    assert(post.has_song(song.id));
    let w = song_index(s, song.id);
    assert(s[w].id == song.id);
    assert(forall|i: int| 0 <= i < pre.songs@.len() ==> (#[trigger] s[i]).id < song.id);
    assert(w == pre.songs@.len());
}

/// An album update is read back exactly: looking the id up afterwards
/// returns the replacement record. The premises are what a successful album
/// update guarantees: the row at the id's position is replaced, the id kept.
pub proof fn lemma_updated_album_found(pre: Catalog, post: Catalog, id: u64, album: Album)
    requires
        pre.wf(),
        pre.has_album(id),
        album.id == id,
        post.albums@ == pre.albums@.update(album_index(pre.albums@, id), album),
    ensures
        post.spec_get_album(id) == Some(album),
{
    let w = album_index(pre.albums@, id);
    assert(pre.albums@[w].id == id);
    let s = post.albums@;
    assert(s[w] == album);
    assert(post.has_album(id));
    assert(forall|i: int| 0 <= i < s.len() ==> (#[trigger] s[i]).id == pre.albums@[i].id);
    let w2 = album_index(s, id);
    assert(s[w2].id == id && pre.albums@[w2].id == id);
    assert(w2 == w);
}

/// Deleting an album removes it for good: a second lookup or deletion of the
/// same id finds nothing, so the deletion reports `NotFound` the second
/// time. The premise is what a successful album deletion guarantees about
/// the surviving albums.
pub proof fn lemma_deleted_album_not_found(pre: Catalog, post: Catalog, id: u64)
    requires
        post.albums@ == albums_without_id(pre.albums@, id),
    ensures
        !post.has_album(id),
        post.spec_get_album(id) is None,
{
    lemma_filter_members(pre.albums@, |a: Album| a.id != id);
    if post.has_album(id) {
        let n = choose|n: int| 0 <= n < post.albums@.len() && post.albums@[n].id == id;
    }
}

/// An album created for an artist is immediately visible when the artist's
/// albums are listed: the listing afterwards is the listing before with the
/// new album appended. The two premises on `post` are what a successful
/// album creation guarantees: the album row and its link row are appended,
/// the album under the store's next fresh id.
pub proof fn lemma_created_album_visible(
    pre: Catalog,
    post: Catalog,
    album: Album,
    link: AlbumArtistLink,
)
    requires
        pre.wf(),
        album.id == pre.next_album_id,
        link.album_id == album.id,
        post.albums@ == pre.albums@.push(album),
        post.links@ == pre.links@.push(link),
    ensures
        albums_of_artist(post.albums@, post.links@, link.artist_id) == albums_of_artist(
            pre.albums@,
            pre.links@,
            link.artist_id,
        ).push(album),
{
    let artist_id = link.artist_id;
    assert(post.links@[pre.links@.len() as int] == link);
    assert(has_link(post.links@, album.id, artist_id));
    lemma_filter_push(pre.albums@, |a: Album| has_link(post.links@, a.id, artist_id), album);
    assert forall|i: int| 0 <= i < pre.albums@.len() implies has_link(
        post.links@,
        (#[trigger] pre.albums@[i]).id,
        artist_id,
    ) == has_link(pre.links@, pre.albums@[i].id, artist_id) by {
        let aid = pre.albums@[i].id;
        assert(aid != album.id);
        if has_link(pre.links@, aid, artist_id) {
            let m = choose|m: int|
                0 <= m < pre.links@.len() && pre.links@[m].album_id == aid
                    && pre.links@[m].artist_id == artist_id;
            assert(post.links@[m] == pre.links@[m]);
        }
        if has_link(post.links@, aid, artist_id) {
            let m = choose|m: int|
                0 <= m < post.links@.len() && post.links@[m].album_id == aid
                    && post.links@[m].artist_id == artist_id;
            assert(m < pre.links@.len());
        }
    }
    lemma_filter_congruent(
        pre.albums@,
        |a: Album| has_link(post.links@, a.id, artist_id),
        |a: Album| has_link(pre.links@, a.id, artist_id),
    );
}

/// When a deleted artist was the sole artist on an album, the sweep that
/// artist deletion performs removes the album and every one of its songs.
/// The two premises on `post` are what a successful artist deletion
/// guarantees about the surviving albums and songs.
pub proof fn lemma_delete_sole_artist(pre: Catalog, post: Catalog, artist_id: u64, album_id: u64)
    requires
        pre.wf(),
        post.albums@ == albums_after_sweep(pre.albums@, pre.links@, artist_id),
        post.songs@ == songs_after_sweep(pre.songs@, pre.links@, artist_id),
        has_link(pre.links@, album_id, artist_id),
        forall|i: int|
            0 <= i < pre.links@.len() && (#[trigger] pre.links@[i]).album_id == album_id
                ==> pre.links@[i].artist_id == artist_id,
    ensures
        !has_album_id(post.albums@, album_id),
        forall|i: int|
            0 <= i < pre.songs@.len() && (#[trigger] pre.songs@[i]).album_id == album_id
                ==> !has_song_id(post.songs@, pre.songs@[i].id),
{
    assert(album_swept(pre.links@, artist_id, album_id));
    lemma_filter_members(pre.albums@, |a: Album| !album_swept(pre.links@, artist_id, a.id));
    if has_album_id(post.albums@, album_id) {
        let n = choose|n: int| 0 <= n < post.albums@.len() && post.albums@[n].id == album_id;
    }
    lemma_filter_members(
        pre.songs@,
        |s: Song| !album_swept(pre.links@, artist_id, s.album_id),
    );
    assert forall|i: int|
        0 <= i < pre.songs@.len() && (#[trigger] pre.songs@[i]).album_id == album_id implies
        !has_song_id(post.songs@, pre.songs@[i].id) by {
        if has_song_id(post.songs@, pre.songs@[i].id) {
            let n = choose|n: int|
                0 <= n < post.songs@.len() && post.songs@[n].id == pre.songs@[i].id;
            let w = choose|w: int| 0 <= w < pre.songs@.len() && pre.songs@[w] == post.songs@[n];
            assert(pre.songs@[w].id == pre.songs@[i].id);
            assert(w == i);
        }
    }
}

/// When a deleted artist shared an album with exactly one other artist, the
/// album survives the deletion and listing its artists yields exactly the
/// other artist's row. The three premises on `post` are what a successful
/// artist deletion guarantees about the surviving albums, artists and links.
pub proof fn lemma_delete_shared_artist(
    pre: Catalog,
    post: Catalog,
    artist_a: u64,
    artist_b: u64,
    album_id: u64,
)
    requires
        pre.wf(),
        post.albums@ == albums_after_sweep(pre.albums@, pre.links@, artist_a),
        post.artists@ == artists_without_id(pre.artists@, artist_a),
        post.links@ == links_without_artist(pre.links@, artist_a),
        artist_a != artist_b,
        pre.has_album(album_id),
        pre.has_artist(artist_b),
        has_link(pre.links@, album_id, artist_b),
        forall|i: int|
            0 <= i < pre.links@.len() && (#[trigger] pre.links@[i]).album_id == album_id
                ==> pre.links@[i].artist_id == artist_a || pre.links@[i].artist_id == artist_b,
    ensures
        has_album_id(post.albums@, album_id),
        artists_of_album(post.artists@, post.links@, album_id) == seq![
            pre.artist_at(artist_b),
        ],
{
    // The album is not swept: its link to the other artist is not the
    // deleted artist's.
    let wb = choose|i: int|
        0 <= i < pre.links@.len() && pre.links@[i].album_id == album_id && pre.links@[i].artist_id
            == artist_b;
    assert(!album_swept(pre.links@, artist_a, album_id));
    let wa = choose|i: int| 0 <= i < pre.albums@.len() && pre.albums@[i].id == album_id;
    lemma_has_album_in_filter(
        pre.albums@,
        |a: Album| !album_swept(pre.links@, artist_a, a.id),
        wa,
    );
    // The link to the other artist survives the deletion of the first.
    pre.links@.lemma_filter_contains(|l: AlbumArtistLink| l.artist_id != artist_a, wb);
    let ln = choose|n: int| 0 <= n < post.links@.len() && post.links@[n] == pre.links@[wb];
    assert(has_link(post.links@, album_id, artist_b));
    // Every surviving link of the album names the other artist.
    lemma_filter_members(pre.links@, |l: AlbumArtistLink| l.artist_id != artist_a);
    assert forall|n: int|
        0 <= n < post.links@.len() && (#[trigger] post.links@[n]).album_id == album_id implies
        post.links@[n].artist_id == artist_b by {
        let m = choose|m: int| 0 <= m < pre.links@.len() && pre.links@[m] == post.links@[n];
    }
    // The other artist's row survives, and is the single artist the album
    // still lists.
    let wr = choose|i: int| 0 <= i < pre.artists@.len() && pre.artists@[i].id == artist_b;
    pre.artists@.lemma_filter_contains(|a: Artist| a.id != artist_a, wr);
    let wn = choose|n: int| 0 <= n < post.artists@.len() && post.artists@[n] == pre.artists@[wr];
    lemma_filter_members(pre.artists@, |a: Artist| a.id != artist_a);
    lemma_filter_distinct_keys(
        pre.artists@,
        |a: Artist| a.id != artist_a,
        |a: Artist| a.id,
    );
    assert forall|i: int|
        0 <= i < post.artists@.len() && i != wn implies !has_link(
        post.links@,
        album_id,
        (#[trigger] post.artists@[i]).id,
    ) by {
        assert(post.artists@[i].id != post.artists@[wn].id);
        if has_link(post.links@, album_id, post.artists@[i].id) {
            let m = choose|m: int|
                0 <= m < post.links@.len() && post.links@[m].album_id == album_id
                    && post.links@[m].artist_id == post.artists@[i].id;
        }
    }
    assert(has_link(post.links@, album_id, post.artists@[wn].id));
    lemma_filter_single_match(
        post.artists@,
        |a: Artist| has_link(post.links@, album_id, a.id),
        wn,
    );
    // The surviving row is the row that looking the other artist up returns.
    let wx = artist_index(pre.artists@, artist_b);
    assert(pre.artists@[wx].id == artist_b && pre.artists@[wr].id == artist_b);
    assert(wx == wr);
    assert(pre.artist_at(artist_b) == post.artists@[wn]);
}

} // verus!
