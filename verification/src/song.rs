use vstd::prelude::*;

verus! {

/// Why a standalone song record could not be built.
#[derive(Debug)]
pub enum SongError {
    CreateError(String),
}

/// A standalone song record as a client submits it, before the store assigns
/// an id: a name and a length in seconds.
#[derive(Debug, PartialEq)]
pub struct Song {
    pub name: String,
    pub length_secs: u32,
}

impl Song {
    /// Build a song record, rejecting an empty name or a zero length.
    pub fn new(name: String, length_secs: u32) -> (r: Result<Song, SongError>)
        ensures
            r is Ok <==> name@.len() > 0 && length_secs > 0,
            r matches Ok(s) ==> s.name == name && s.length_secs == length_secs,
            r matches Err(e) ==> match e {
                SongError::CreateError(m) => if name@.len() == 0 {
                    m@ == "Name cannot be empty"@
                } else {
                    m@ == "Length cannot be 0"@
                },
            },
    {
        if name.as_str().is_empty() {
            Err(SongError::CreateError("Name cannot be empty".to_owned()))
        } else if length_secs == 0 {
            Err(SongError::CreateError("Length cannot be 0".to_owned()))
        } else {
            Ok(Song { name, length_secs })
        }
    }
}

} // verus!
