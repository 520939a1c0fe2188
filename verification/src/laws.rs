//! The service's laws: what holds across operations, proved once for every
//! state, every record, and every credential.

use vstd::prelude::*;
use vstd::arithmetic::div_mod::{lemma_fundamental_div_mod, lemma_mod_bound};
use crate::auth::{hs256_claims, spec_token_user, AuthenticatedUser};
use crate::config::{spec_can_read, spec_can_write};
use crate::history::{
    spec_has_more, spec_page_out_of_range, spec_page_songs, spec_recent, spec_total_pages,
    PAGE_SIZE, RECENT_WINDOW,
};
use crate::identity::Identity;
use crate::service::{
    spec_fetch_current_song, spec_handle, spec_post_song_state, spec_recently_played, ApiError,
    OpView, ResponseView, StateView,
};
use crate::songs::{spec_history_of, HistView, SongView};

verus! {

/// After any accepted write, a fetch by any read-authorized identity
/// returns exactly the submitted record, field for field.
pub proof fn lemma_read_after_accepted_write(
    state: StateView,
    writer: Identity,
    reader: Identity,
    song: SongView,
    now: i64,
)
    requires
        spec_can_write(state.config, writer),
        spec_can_read(state.config, reader),
    ensures
        spec_fetch_current_song(spec_post_song_state(state, writer, song, now), reader) == Ok::<
            SongView,
            ApiError,
        >(song),
{
}

/// A read interleaved with one accepted write observes the record wholly
/// before or wholly after the replace — never a mix of old and new fields.
/// The store serializes each read against writes, so a concurrent read's
/// observation point is one of the two sides modelled by `after`.
pub proof fn lemma_no_torn_read(
    state: StateView,
    writer: Identity,
    reader: Identity,
    song: SongView,
    now: i64,
    after: bool,
)
    requires
        spec_can_write(state.config, writer),
        spec_can_read(state.config, reader),
    ensures
        ({
            let observed = if after {
                spec_fetch_current_song(spec_post_song_state(state, writer, song, now), reader)
            } else {
                spec_fetch_current_song(state, reader)
            };
            observed == Ok::<SongView, ApiError>(
                if after {
                    song
                } else {
                    state.current_song
                },
            )
        }),
{
}

/// An accepted write appends exactly one history entry: every earlier
/// entry stays, one snapshot of the submitted record appears, and it is
/// the head of the first recent page, stamped no earlier than any time
/// taken before the call.
pub proof fn lemma_accepted_write_appends_head(
    state: StateView,
    writer: Identity,
    reader: Identity,
    song: SongView,
    now: i64,
    t0: i64,
)
    requires
        spec_can_write(state.config, writer),
        spec_can_read(state.config, reader),
        t0 <= now,
    ensures
        ({
            let post = spec_post_song_state(state, writer, song, now);
            &&& post.history.len() == state.history.len() + 1
            &&& forall|i: int|
                0 <= i < state.history.len() ==> post.history[i] == state.history[i]
            &&& post.history.last() == spec_history_of(song, now)
            &&& post.history.last().played_at >= t0
            &&& spec_recently_played(post, reader, 1) is Ok
            &&& spec_recently_played(post, reader, 1)->Ok_0.songs[0] == spec_history_of(song, now)
        }),
{
    let post = spec_post_song_state(state, writer, song, now);
    let window = spec_recent(post.history, RECENT_WINDOW as int);
    assert(window.len() >= 1);
    assert(!spec_page_out_of_range(window.len() as int, 1));
    assert(spec_page_songs(window, 1)[0] == window[0]);
    assert(window[0] == post.history.last());
}

/// Submitting the same record twice produces two distinct history entries
/// — appended at two distinct positions, never deduplicated — while the
/// current record's content is the same after either call.
pub proof fn lemma_resubmit_same_payload(
    state: StateView,
    writer: Identity,
    song: SongView,
    now1: i64,
    now2: i64,
)
    requires
        spec_can_write(state.config, writer),
    ensures
        ({
            let once = spec_post_song_state(state, writer, song, now1);
            let twice = spec_post_song_state(once, writer, song, now2);
            &&& once.current_song == song
            &&& twice.current_song == once.current_song
            &&& twice.history.len() == state.history.len() + 2
            &&& twice.history[state.history.len() as int] == spec_history_of(song, now1)
            &&& twice.history[state.history.len() as int + 1] == spec_history_of(song, now2)
        }),
{
}

/// A credential bearing the viewer identity succeeds on the two read
/// operations (listing may still be out of range, but is never refused for
/// privilege) and is refused the write, which leaves the state unchanged.
pub proof fn lemma_viewer_reads_not_writes(
    state: StateView,
    token: Seq<char>,
    now: i64,
    song: SongView,
    page: u32,
)
    requires
        spec_token_user(token, state.config.jwt_secret, now) == Some(
            AuthenticatedUser { uuid: state.config.trin_id },
        ),
        state.config.trin_id != state.config.devin_id,
    ensures
        spec_handle(state, token, now, OpView::FetchCurrentSong).1 == Ok::<ResponseView, ApiError>(
            ResponseView::CurrentSong(state.current_song),
        ),
        spec_handle(state, token, now, OpView::RecentlyPlayed(page)).1 != Err::<
            ResponseView,
            ApiError,
        >(ApiError::Unauthorized),
        spec_handle(state, token, now, OpView::PostSong(song)) == (
            state,
            Err::<ResponseView, ApiError>(ApiError::Unauthorized),
        ),
{
}

/// A credential bearing neither privileged identity is refused every
/// operation, and no operation changes the state.
pub proof fn lemma_stranger_denied(
    state: StateView,
    token: Seq<char>,
    now: i64,
    op: OpView,
    id: Identity,
)
    requires
        spec_token_user(token, state.config.jwt_secret, now) == Some(
            AuthenticatedUser { uuid: id },
        ),
        id != state.config.devin_id,
        id != state.config.trin_id,
    ensures
        spec_handle(state, token, now, op) == (
            state,
            Err::<ResponseView, ApiError>(ApiError::Unauthorized),
        ),
{
}

/// Whenever credential verification fails — malformed token, bad
/// signature, expiry in the past, ill-shaped subject — every operation is
/// refused as unauthorized and the state does not change, regardless of
/// what subject the token claims.
pub proof fn lemma_bad_credential_denied(state: StateView, token: Seq<char>, now: i64, op: OpView)
    requires
        spec_token_user(token, state.config.jwt_secret, now) is None,
    ensures
        spec_handle(state, token, now, op) == (
            state,
            Err::<ResponseView, ApiError>(ApiError::Unauthorized),
        ),
{
}

/// A decoded token whose expiry lies in the past is refused everywhere,
/// whatever its claims say.
pub proof fn lemma_expired_token_denied(state: StateView, token: Seq<char>, now: i64, op: OpView)
    requires
        hs256_claims(token, state.config.jwt_secret) matches Some(c) && c.exp < now,
    ensures
        spec_handle(state, token, now, op) == (
            state,
            Err::<ResponseView, ApiError>(ApiError::Unauthorized),
        ),
{
}

/// A token that does not decode — malformed, or its signature does not
/// verify under the secret — is refused everywhere, whatever subject it
/// claims.
pub proof fn lemma_undecodable_token_denied(state: StateView, token: Seq<char>, now: i64, op: OpView)
    requires
        hs256_claims(token, state.config.jwt_secret) is None,
    ensures
        spec_handle(state, token, now, op) == (
            state,
            Err::<ResponseView, ApiError>(ApiError::Unauthorized),
        ),
{
}

/// The two read operations never change the state, whoever calls them and
/// however they turn out: only an accepted write does.
pub proof fn lemma_reads_change_nothing(state: StateView, token: Seq<char>, now: i64, page: u32)
    ensures
        spec_handle(state, token, now, OpView::FetchCurrentSong).0 == state,
        spec_handle(state, token, now, OpView::RecentlyPlayed(page)).0 == state,
{
}

/// The pagination policy over any window: the page count is the least
/// number of pages covering the window, a 1-indexed page is available
/// exactly when it is at most that count, and `has_more` holds exactly of
/// the pages before the last.  Each page but the last holds `PAGE_SIZE`
/// entries; the last holds the remainder.
pub proof fn lemma_pagination_policy(window: Seq<HistView>, page: u32)
    requires
        window.len() > 0,
    ensures
        ({
            let count = window.len() as int;
            let tp = spec_total_pages(count);
            &&& (tp - 1) * (PAGE_SIZE as int) < count <= tp * (PAGE_SIZE as int)
            &&& (1 <= (page as int) && (page as int) <= tp ==> !spec_page_out_of_range(count, page))
            &&& ((page as int) > tp ==> spec_page_out_of_range(count, page))
            &&& spec_has_more(count, page) == ((page as int) < tp)
            &&& (1 <= (page as int) && (page as int) < tp ==> spec_page_songs(window, page).len() == PAGE_SIZE as int)
            &&& ((page as int) == tp ==> spec_page_songs(window, page).len() == count - (tp - 1) * (
            PAGE_SIZE as int))
        }),
{
    let count = window.len() as int;
    let p = PAGE_SIZE as int;
    let tp = spec_total_pages(count);
    lemma_fundamental_div_mod(count + p - 1, p);
    lemma_mod_bound(count + p - 1, p);
}

} // verus!
