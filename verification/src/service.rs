//! The API surface: the three authenticated operations over the shared
//! state, and the request pipeline that verifies a credential before
//! dispatching to any of them.
//!
//! Every failure is an explicit outcome; nothing below this boundary
//! panics for an expected condition.  Authentication and authorization
//! failures are surfaced uniformly as `Unauthorized`, intentionally not
//! distinguished to avoid identity enumeration.

use vstd::prelude::*;
use crate::auth::{jwt_auth, spec_token_user, AuthenticatedUser};
use crate::config::{spec_can_read, spec_can_write, Config, ConfigView};
use crate::history::{
    spec_has_more, spec_page_out_of_range, spec_page_songs, spec_recent, spec_total_pages,
    HistoryLog, PaginatedSongs, PAGE_SIZE, RECENT_WINDOW,
};
use crate::identity::Identity;
use crate::songs::{initial_song, spec_history_of, spec_initial_song, HistView, SongHistory,
    SongView, SongsFromClient};
use crate::store::CurrentSongStore;

verus! {

/// Abstract value of the whole service state.
#[verifier::ext_equal]
pub ghost struct StateView {
    pub current_song: SongView,
    pub history: Seq<HistView>,
    pub config: ConfigView,
}

/// The caller-visible outcome classes of a failed operation.
#[derive(Clone, Copy, PartialEq, Eq, Structural, Debug)]
pub enum ApiError {
    /// Bad, expired or malformed credential, or insufficient privilege.
    Unauthorized,
    /// Malformed request body.
    BadRequest,
    /// A page beyond the available range.
    NotFound,
    /// A backing-store failure, reported and never swallowed.
    Internal,
}

/// The shared state behind every request: the single now-playing record,
/// the history log, and the configuration.
pub struct AppState {
    pub current_song: CurrentSongStore,
    pub history: HistoryLog,
    pub config: Config,
}

impl View for AppState {
    type V = StateView;

    open spec fn view(&self) -> StateView {
        StateView {
            current_song: self.current_song@,
            history: self.history@,
            config: self.config@,
        }
    }
}

/// Fetching the current record: a value copy of it for a read-authorized
/// caller, `Unauthorized` for anyone else.
pub open spec fn spec_fetch_current_song(state: StateView, user: Identity) -> Result<
    SongView,
    ApiError,
> {
    if spec_can_read(state.config, user) {
        Ok(state.current_song)
    } else {
        Err(ApiError::Unauthorized)
    }
}

/// The state after a submit: for the owner, the record is replaced
/// wholesale and exactly one snapshot is appended to the history, both in
/// one step; for anyone else the state does not change.
pub open spec fn spec_post_song_state(
    state: StateView,
    user: Identity,
    song: SongView,
    now: i64,
) -> StateView {
    if spec_can_write(state.config, user) {
        StateView {
            current_song: song,
            history: state.history.push(spec_history_of(song, now)),
            config: state.config,
        }
    } else {
        state
    }
}

/// The confirmation text of an accepted submit.
pub open spec fn spec_confirmation() -> Seq<char> {
    "Updated Current Song and Added To History"@
}

/// Abstract value of one returned history page.
#[verifier::ext_equal]
pub ghost struct PageView {
    pub songs: Seq<HistView>,
    pub page: u32,
    pub total_pages: u32,
    pub has_more: bool,
}

/// Abstract value of a `PaginatedSongs`.
pub open spec fn page_view(p: PaginatedSongs) -> PageView {
    PageView {
        songs: p.songs.deep_view(),
        page: p.page,
        total_pages: p.total_pages,
        has_more: p.has_more,
    }
}

/// Listing recent history: `Unauthorized` without read privilege; the
/// requested page of the bounded recent window, most recent first, when it
/// holds at least one entry; `NotFound` beyond the window (or on an empty
/// one).
pub open spec fn spec_recently_played(state: StateView, user: Identity, page: u32) -> Result<
    PageView,
    ApiError,
> {
    if !spec_can_read(state.config, user) {
        Err(ApiError::Unauthorized)
    } else {
        let window = spec_recent(state.history, RECENT_WINDOW as int);
        if spec_page_out_of_range(window.len() as int, page) {
            Err(ApiError::NotFound)
        } else {
            Ok(
                PageView {
                    songs: spec_page_songs(window, page),
                    page,
                    total_pages: spec_total_pages(window.len() as int) as u32,
                    has_more: spec_has_more(window.len() as int, page),
                },
            )
        }
    }
}

impl AppState {
    /// Start the service state: the placeholder record, an empty history,
    /// and the given configuration.
    pub fn new(config: Config) -> (r: Self)
        ensures
            r@.current_song == spec_initial_song(),
            r@.history == Seq::<HistView>::empty(),
            r@.config == config@,
    {
        AppState {
            current_song: CurrentSongStore::new(initial_song()),
            history: HistoryLog::new(),
            config,
        }
    }

    /// Return a value copy of the current record to a read-authorized
    /// caller; `Unauthorized` otherwise.  The state never changes.
    pub fn fetch_current_song(&self, user: AuthenticatedUser) -> (r: Result<
        SongsFromClient,
        ApiError,
    >)
        ensures
            (match r {
                Ok(s) => spec_fetch_current_song(self@, user.uuid) == Ok::<SongView, ApiError>(s@),
                Err(e) => spec_fetch_current_song(self@, user.uuid) == Err::<SongView, ApiError>(e),
            }),
    {
        if self.config.can_read(user.uuid) {
            Ok(self.current_song.read())
        } else {
            Err(ApiError::Unauthorized)
        }
    }

    /// Accept a new record from the owner: replace the current record and
    /// append exactly one snapshot stamped `now`, then confirm.  Any other
    /// caller gets `Unauthorized` and the state does not change.  The two
    /// effects of an accepted write happen in the same step: no outcome
    /// updates one and not the other.
    pub fn post_song(&mut self, user: AuthenticatedUser, req: SongsFromClient, now: i64) -> (r:
        Result<String, ApiError>)
        ensures
            final(self)@ == spec_post_song_state(old(self)@, user.uuid, req@, now),
            (match r {
                Ok(m) => spec_can_write(old(self)@.config, user.uuid) && m@ == spec_confirmation(),
                Err(e) => !spec_can_write(old(self)@.config, user.uuid) && e
                    == ApiError::Unauthorized,
            }),
    {
        if self.config.can_write(user.uuid) {
            let entry = SongHistory::of_song(&req, now);
            self.current_song.write(req);
            self.history.append(entry);
            proof {
                assert(self@ =~= spec_post_song_state(old(self)@, user.uuid, req@, now));
            }
            Ok(String::from_str("Updated Current Song and Added To History"))
        } else {
            Err(ApiError::Unauthorized)
        }
    }

    /// Return one page of the recent-history window to a read-authorized
    /// caller, most recent first.  The state never changes.
    pub fn recently_played(&self, user: AuthenticatedUser, page: u32) -> (r: Result<
        PaginatedSongs,
        ApiError,
    >)
        ensures
            (match r {
                Ok(p) => spec_recently_played(self@, user.uuid, page) == Ok::<
                    PageView,
                    ApiError,
                >(page_view(p)),
                Err(e) => spec_recently_played(self@, user.uuid, page) == Err::<
                    PageView,
                    ApiError,
                >(e),
            }),
    {
        if !self.config.can_read(user.uuid) {
            return Err(ApiError::Unauthorized);
        }
        let all = self.history.fetch_recent_song_history(RECENT_WINDOW);
        let ghost window = spec_recent(self@.history, RECENT_WINDOW as int);
        proof {
            assert(all.deep_view() == window);
            assert(all@.len() == window.len());
        }
        let total_songs = all.len();
        let total_pages = (total_songs + PAGE_SIZE - 1) / PAGE_SIZE;
        let start_wide: u64 = if page == 0 {
            0
        } else {
            ((page - 1) as u64) * (PAGE_SIZE as u64)
        };
        if start_wide >= total_songs as u64 {
            return Err(ApiError::NotFound);
        }
        let start = start_wide as usize;
        let end = if start + PAGE_SIZE <= total_songs {
            start + PAGE_SIZE
        } else {
            total_songs
        };
        let mut songs: Vec<SongHistory> = Vec::new();
        let mut m: usize = 0;
        while m < end - start
            invariant
                start < end <= all@.len(),
                m <= end - start,
                songs@.len() == m,
                forall|k: int| 0 <= k < m ==> songs@[k]@ == all@[start + k]@,
            decreases end - start - m,
        {
            let ghost prev = songs@;
            let d = all[start + m].duplicate();
            songs.push(d);
            proof {
                assert forall|k: int| 0 <= k < m + 1 implies songs@[k]@ == all@[start + k]@ by {
                    assert(songs@ == prev.push(d));
                    if k < m {
                        assert(songs@[k] == prev[k]);
                    } else {
                        assert(songs@[k] == d);
                    }
                }
            }
            m += 1;
        }
        let r = PaginatedSongs {
            songs,
            page,
            total_pages: total_pages as u32,
            has_more: (page as usize) < total_pages,
        };
        proof {
            let expected = spec_page_songs(window, page);
            assert forall|k: int| 0 <= k < r.songs@.len() implies r.songs.deep_view()[k]
                == expected[k] by {
                assert(r.songs.deep_view()[k] == r.songs@[k]@);
                assert(expected[k] == window[start + k]);
                assert(window[start + k] == all.deep_view()[start + k]);
            }
            assert(r.songs.deep_view() =~= expected);
            assert(page_view(r) =~= spec_recently_played(self@, user.uuid, page)->Ok_0);
        }
        Ok(r)
    }
}

/// One inbound request's operation, after its body has been read.
#[derive(Debug, Clone, PartialEq)]
pub enum Operation {
    FetchCurrentSong,
    PostSong(SongsFromClient),
    RecentlyPlayed(u32),
}

/// Abstract value of an operation.
#[verifier::ext_equal]
pub ghost enum OpView {
    FetchCurrentSong,
    PostSong(SongView),
    RecentlyPlayed(u32),
}

impl View for Operation {
    type V = OpView;

    open spec fn view(&self) -> OpView {
        match self {
            Operation::FetchCurrentSong => OpView::FetchCurrentSong,
            Operation::PostSong(song) => OpView::PostSong(song@),
            Operation::RecentlyPlayed(page) => OpView::RecentlyPlayed(*page),
        }
    }
}

/// One successful response.
#[derive(Debug, Clone, PartialEq)]
pub enum ApiResponse {
    CurrentSong(SongsFromClient),
    Posted(String),
    RecentlyPlayed(PaginatedSongs),
}

/// Abstract value of a response.
#[verifier::ext_equal]
pub ghost enum ResponseView {
    CurrentSong(SongView),
    Posted(Seq<char>),
    RecentlyPlayed(PageView),
}

impl View for ApiResponse {
    type V = ResponseView;

    open spec fn view(&self) -> ResponseView {
        match self {
            ApiResponse::CurrentSong(s) => ResponseView::CurrentSong(s@),
            ApiResponse::Posted(m) => ResponseView::Posted(m@),
            ApiResponse::RecentlyPlayed(p) => ResponseView::RecentlyPlayed(page_view(*p)),
        }
    }
}

/// The whole pipeline for one request: the verdict on the credential, then
/// the operation.  Any verification failure — malformed token, bad
/// signature, expiry in the past, ill-shaped subject — is `Unauthorized`,
/// whatever the operation and whatever subject the token claims, and
/// leaves the state unchanged.
pub open spec fn spec_handle(state: StateView, token: Seq<char>, now: i64, op: OpView) -> (
    StateView,
    Result<ResponseView, ApiError>,
) {
    match spec_token_user(token, state.config.jwt_secret, now) {
        None => (state, Err(ApiError::Unauthorized)),
        Some(user) => match op {
            OpView::FetchCurrentSong => (
                state,
                match spec_fetch_current_song(state, user.uuid) {
                    Ok(s) => Ok(ResponseView::CurrentSong(s)),
                    Err(e) => Err(e),
                },
            ),
            OpView::PostSong(song) => (
                spec_post_song_state(state, user.uuid, song, now),
                if spec_can_write(state.config, user.uuid) {
                    Ok(ResponseView::Posted(spec_confirmation()))
                } else {
                    Err(ApiError::Unauthorized)
                },
            ),
            OpView::RecentlyPlayed(page) => (
                state,
                match spec_recently_played(state, user.uuid, page) {
                    Ok(p) => Ok(ResponseView::RecentlyPlayed(p)),
                    Err(e) => Err(e),
                },
            ),
        },
    }
}

impl AppState {
    /// Handle one request end to end: verify the bearer token at time
    /// `now`, then dispatch the operation.
    pub fn handle_request(&mut self, token: &str, now: i64, op: Operation) -> (r: Result<
        ApiResponse,
        ApiError,
    >)
        ensures
            final(self)@ == spec_handle(old(self)@, token@, now, op@).0,
            (match (r, spec_handle(old(self)@, token@, now, op@).1) {
                (Ok(a), Ok(b)) => a@ == b,
                (Err(a), Err(b)) => a == b,
                _ => false,
            }),
    {
        let user = match jwt_auth(token, self.config.jwt_secret.as_str(), now) {
            Err(_) => return Err(ApiError::Unauthorized),
            Ok(u) => u,
        };
        match op {
            Operation::FetchCurrentSong => match self.fetch_current_song(user) {
                Ok(s) => Ok(ApiResponse::CurrentSong(s)),
                Err(e) => Err(e),
            },
            Operation::PostSong(song) => match self.post_song(user, song, now) {
                Ok(m) => Ok(ApiResponse::Posted(m)),
                Err(e) => Err(e),
            },
            Operation::RecentlyPlayed(page) => match self.recently_played(user, page) {
                Ok(p) => Ok(ApiResponse::RecentlyPlayed(p)),
                Err(e) => Err(e),
            },
        }
    }
}

} // verus!
