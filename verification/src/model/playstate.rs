//! How far into a video playback has come.
use vstd::prelude::*;
use crate::date::{Timestamp, timestamp_in_range, timestamp_of, lemma_timestamp_of, lemma_unix_timestamp_of};

verus! {

/// A playback position to store for a video, in whole seconds.
#[derive(Debug)]
pub struct UpsertPlaystate {
    pub id: String,
    pub position: u32,
}

/// The stored playback position of a video and when it was last changed.
#[derive(Debug)]
pub struct Playstate {
    pub id: String,
    pub position: u32,
    pub modified_at: Timestamp,
}

/// A playstate as a database row holds it.
#[derive(Debug)]
pub struct PlaystateFromQuery {
    pub id: String,
    pub position: i64,
    pub modified_at: i64,
}

/// The playstate that a row describes: the position is cut to its low 32
/// bits, as `as u32` does.
pub open spec fn playstate_of_row(row: PlaystateFromQuery) -> Playstate {
    Playstate {
        id: row.id,
        position: row.position as u32,
        modified_at: timestamp_of(row.modified_at as int),
    }
}

impl PlaystateFromQuery {
    /// The playstate this row describes.  `modified_at` must be a Unix
    /// timestamp that `time` can represent.
    pub fn into_playstate(self) -> (res: Playstate)
        requires
            timestamp_in_range(self.modified_at as int),
        ensures
            res == playstate_of_row(self),
            res.modified_at@ == self.modified_at,
    {
        let modified_at = Timestamp::from_unix_timestamp(self.modified_at).unwrap();
        proof {
            lemma_timestamp_of(modified_at);
        }
        Playstate { id: self.id, position: self.position as u32, modified_at }
    }
}

/// A position stored as a row's integer reads back unchanged, and so does the
/// time of the change: what `into_playstate` gives of a row written from an
/// `UpsertPlaystate` at instant `modified_at` is that position at that instant.
pub proof fn lemma_playstate_roundtrip(upsert: UpsertPlaystate, modified_at: int)
    requires
        timestamp_in_range(modified_at),
    ensures
        playstate_of_row(
            PlaystateFromQuery {
                id: upsert.id,
                position: upsert.position as i64,
                modified_at: modified_at as i64,
            },
        ) == (Playstate {
            id: upsert.id,
            position: upsert.position,
            modified_at: timestamp_of(modified_at),
        }),
        timestamp_of(modified_at)@ == modified_at,
{
    lemma_unix_timestamp_of(modified_at);
    let p = upsert.position;
    assert((p as i64) as u32 == p) by (bit_vector);
}

} // verus!
