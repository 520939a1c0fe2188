//! The now-playing state store: exactly one shared record.
//!
//! The store exposes only a whole-record copy-out read and a whole-record
//! replace.  No operation can touch a strict subset of the fields, so a
//! reader can never observe a record mixing fields of two writes: every
//! value handed out is the complete result of a single write (or the initial
//! placeholder).  The surrounding process serializes access with a
//! readers-shared, writer-exclusive lock; each locked section is one of the
//! two whole-record operations below.

use vstd::prelude::*;
use crate::songs::{SongView, SongsFromClient};

verus! {

/// Holds exactly one now-playing record.
pub struct CurrentSongStore {
    song: SongsFromClient,
}

impl View for CurrentSongStore {
    type V = SongView;

    closed spec fn view(&self) -> SongView {
        self.song@
    }
}

impl CurrentSongStore {
    /// Start the store with `initial` as its held record.
    pub fn new(initial: SongsFromClient) -> (r: Self)
        ensures
            r@ == initial@,
    {
        CurrentSongStore { song: initial }
    }

    /// A value copy of the current record, complete as last written.
    pub fn read(&self) -> (r: SongsFromClient)
        ensures
            r@ == self@,
    {
        self.song.duplicate()
    }

    /// Replace the held record wholesale with `song`; fields are never
    /// merged, so after the call the store holds `song` and nothing of the
    /// previous record.
    pub fn write(&mut self, song: SongsFromClient)
        ensures
            final(self)@ == song@,
    {
        self.song = song;
    }
}

} // verus!
