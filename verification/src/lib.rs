//! A verified music-catalog store: songs, albums and artists with a
//! many-to-many album-to-artist association, together with the consistency
//! rules that hold the four tables together.
//!
//! The [`catalog::Catalog`] type is the entity store. Its operations carry
//! contracts that pin down validation (empty names, non-positive lengths,
//! future dates, missing referenced rows), the cascades that deletion
//! performs (an album takes its songs and links with it; an artist takes the
//! albums that were linked to no one else), and the all-or-nothing check in
//! front of link insertion. The store's invariant — unique ids per table and
//! referential integrity of song and link rows — is proved to be preserved
//! by every operation.

pub mod catalog;
pub mod date;
pub mod laws;
pub mod records;
pub mod seqtools;
pub mod song;
pub mod theme;
