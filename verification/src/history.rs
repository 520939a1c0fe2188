//! The history log: an append-only record of accepted writes, queried
//! through a bounded, paginated window.
//!
//! The log's abstract value is the sequence of snapshots in acceptance
//! order, oldest first.  Entries are only ever appended; none is mutated or
//! deleted.  Retrieval reverses that order (most recent first) and looks at
//! no more than the `RECENT_WINDOW` most recent entries; `PAGE_SIZE`
//! subdivides that window, not the full log.

use vstd::prelude::*;
use crate::songs::{HistView, SongHistory};

verus! {

/// How many most-recent entries the pagination query considers.
pub const RECENT_WINDOW: usize = 150;

/// Entries per page.  Pages are 1-indexed.
pub const PAGE_SIZE: usize = 50;

/// Append-only store of history snapshots, oldest first.
pub struct HistoryLog {
    entries: Vec<SongHistory>,
}

impl View for HistoryLog {
    type V = Seq<HistView>;

    closed spec fn view(&self) -> Seq<HistView> {
        self.entries.deep_view()
    }
}

/// The at most `limit` most recent entries of `log`, most recent first.
pub open spec fn spec_recent(log: Seq<HistView>, limit: int) -> Seq<HistView> {
    let w = if log.len() <= limit {
        log.len() as int
    } else {
        limit
    };
    Seq::new(w as nat, |j: int| log[log.len() - 1 - j])
}

/// Ceiling of `count / PAGE_SIZE`: how many pages the window fills.
pub open spec fn spec_total_pages(count: int) -> int {
    (count + PAGE_SIZE - 1) / (PAGE_SIZE as int)
}

/// First window index of `page`.  Pages are 1-indexed; a page argument of 0
/// is treated as the first page.
pub open spec fn spec_page_start(page: u32) -> int {
    (if page == 0 {
        0
    } else {
        page - 1
    }) * PAGE_SIZE
}

/// One past the last window index of `page`, the window holding `count`
/// entries.
pub open spec fn spec_page_end(count: int, page: u32) -> int {
    if spec_page_start(page) + PAGE_SIZE <= count {
        spec_page_start(page) + PAGE_SIZE
    } else {
        count
    }
}

/// The page asks for entries wholly beyond the window: a not-found
/// condition, not an empty success.  An empty window has no page at all.
pub open spec fn spec_page_out_of_range(count: int, page: u32) -> bool {
    spec_page_start(page) >= count
}

/// The entries of `page` within the window, most recent first.
pub open spec fn spec_page_songs(window: Seq<HistView>, page: u32) -> Seq<HistView> {
    window.subrange(spec_page_start(page), spec_page_end(window.len() as int, page))
}

/// A later page than this one still has entries.
pub open spec fn spec_has_more(count: int, page: u32) -> bool {
    (page as int) < spec_total_pages(count)
}

/// One page of history, most recent first, with its place in the window.
#[derive(Debug, Clone, PartialEq)]
pub struct PaginatedSongs {
    pub songs: Vec<SongHistory>,
    pub page: u32,
    pub total_pages: u32,
    pub has_more: bool,
}

impl HistoryLog {
    /// An empty log.
    pub fn new() -> (r: Self)
        ensures
            r@ == Seq::<HistView>::empty(),
    {
        let r = HistoryLog { entries: Vec::new() };
        proof {
            assert(r@ =~= Seq::<HistView>::empty());
        }
        r
    }

    /// How many entries the log holds.
    pub fn len(&self) -> (r: usize)
        ensures
            r == self@.len(),
    {
        self.entries.len()
    }

    /// Persist one snapshot at the end of the log.  Nothing already present
    /// moves or changes.  The in-memory log cannot lose the entry; a caller
    /// that mirrors it to some other medium reports that medium's failures
    /// itself rather than swallowing them.
    pub fn append(&mut self, entry: SongHistory)
        ensures
            final(self)@ == old(self)@.push(entry@),
    {
        self.entries.push(entry);
        proof {
            assert(self@ =~= old(self)@.push(self.entries@.last()@));
        }
    }

    /// The at most `limit` most recent entries, most recent first.
    pub fn fetch_recent_song_history(&self, limit: usize) -> (r: Vec<SongHistory>)
        ensures
            r.deep_view() == spec_recent(self@, limit as int),
    {
        let n = self.entries.len();
        let w = if n <= limit {
            n
        } else {
            limit
        };
        let mut out: Vec<SongHistory> = Vec::new();
        let mut j: usize = 0;
        while j < w
            invariant
                w <= n,
                n == self.entries.len(),
                j <= w,
                out@.len() == j,
                forall|k: int| 0 <= k < j ==> out@[k]@ == self.entries@[n - 1 - k]@,
            decreases w - j,
        {
            let ghost prev = out@;
            let d = self.entries[n - 1 - j].duplicate();
            out.push(d);
            proof {
                assert forall|k: int| 0 <= k < j + 1 implies out@[k]@ == self.entries@[n - 1
                    - k]@ by {
                    assert(out@ == prev.push(d));
                    if k < j {
                        assert(out@[k] == prev[k]);
                    } else {
                        assert(out@[k] == d);
                    }
                }
            }
            j += 1;
        }
        proof {
            let r = spec_recent(self@, limit as int);
            assert forall|k: int| 0 <= k < w implies out.deep_view()[k] == r[k] by {
                assert(out.deep_view()[k] == out@[k]@);
                assert(r[k] == self@[n - 1 - k]);
                assert(self@[n - 1 - k] == self.entries@[n - 1 - k]@);
            }
            assert(out.deep_view() =~= r);
        }
        out
    }
}

} // verus!
