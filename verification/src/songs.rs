//! The media data model: the current "now playing" record and the immutable
//! history snapshots taken from it.

use vstd::prelude::*;

verus! {

/// Abstract value of a now-playing record: every field down to plain
/// mathematical values.
#[verifier::ext_equal]
pub ghost struct SongView {
    pub title: Seq<char>,
    pub alternative_title: Seq<char>,
    pub artist: Seq<char>,
    pub artist_url: Seq<char>,
    pub views: u64,
    pub image_src: Seq<char>,
    pub is_paused: bool,
    pub song_duration: u64,
    pub elapsed_seconds: u64,
    pub url: Seq<char>,
    pub album: Option<Seq<char>>,
    pub video_id: Seq<char>,
    pub playlist_id: Seq<char>,
    pub media_type: Seq<char>,
    pub tags: Seq<Seq<char>>,
}

/// The currently playing item, exactly as a writer reports it.
///
/// `elapsed_seconds <= song_duration` is not enforced: the record is accepted
/// as reported.  `album` may be absent.
#[derive(Debug, Clone, PartialEq)]
pub struct SongsFromClient {
    pub title: String,
    pub alternative_title: String,
    pub artist: String,
    pub artist_url: String,
    pub views: u64,
    pub image_src: String,
    pub is_paused: bool,
    pub song_duration: u64,
    pub elapsed_seconds: u64,
    pub url: String,
    pub album: Option<String>,
    pub video_id: String,
    pub playlist_id: String,
    pub media_type: String,
    pub tags: Vec<String>,
}

impl View for SongsFromClient {
    type V = SongView;

    open spec fn view(&self) -> SongView {
        SongView {
            title: self.title@,
            alternative_title: self.alternative_title@,
            artist: self.artist@,
            artist_url: self.artist_url@,
            views: self.views,
            image_src: self.image_src@,
            is_paused: self.is_paused,
            song_duration: self.song_duration,
            elapsed_seconds: self.elapsed_seconds,
            url: self.url@,
            album: match self.album {
                Some(a) => Some(a@),
                None => None,
            },
            video_id: self.video_id@,
            playlist_id: self.playlist_id@,
            media_type: self.media_type@,
            tags: self.tags.deep_view(),
        }
    }
}

impl DeepView for SongsFromClient {
    type V = SongView;

    open spec fn deep_view(&self) -> SongView {
        self.view()
    }
}

/// Abstract value of one history snapshot.
#[verifier::ext_equal]
pub ghost struct HistView {
    pub title: Seq<char>,
    pub alternative_title: Seq<char>,
    pub artist: Seq<char>,
    pub artist_url: Seq<char>,
    pub image_src: Seq<char>,
    pub song_duration: i64,
    pub url: Seq<char>,
    pub album: Option<Seq<char>>,
    pub video_id: Seq<char>,
    pub playlist_id: Seq<char>,
    pub media_type: Seq<char>,
    pub tags: Seq<Seq<char>>,
    pub played_at: i64,
}

/// An immutable snapshot of a now-playing record at the moment it was
/// accepted, stamped with the acceptance time in seconds since the epoch.
/// Once created it is never changed.
#[derive(Debug, Clone, PartialEq)]
pub struct SongHistory {
    pub title: String,
    pub alternative_title: String,
    pub artist: String,
    pub artist_url: String,
    pub image_src: String,
    pub song_duration: i64,
    pub url: String,
    pub album: Option<String>,
    pub video_id: String,
    pub playlist_id: String,
    pub media_type: String,
    pub tags: Vec<String>,
    pub played_at: i64,
}

impl View for SongHistory {
    type V = HistView;

    open spec fn view(&self) -> HistView {
        HistView {
            title: self.title@,
            alternative_title: self.alternative_title@,
            artist: self.artist@,
            artist_url: self.artist_url@,
            image_src: self.image_src@,
            song_duration: self.song_duration,
            url: self.url@,
            album: match self.album {
                Some(a) => Some(a@),
                None => None,
            },
            video_id: self.video_id@,
            playlist_id: self.playlist_id@,
            media_type: self.media_type@,
            tags: self.tags.deep_view(),
            played_at: self.played_at,
        }
    }
}

impl DeepView for SongHistory {
    type V = HistView;

    open spec fn deep_view(&self) -> HistView {
        self.view()
    }
}

/// The snapshot taken when `song` is accepted at time `played_at`: the same
/// fields, minus the volatile ones (`views`, `is_paused`, `elapsed_seconds`),
/// with the duration carried over into a signed column.
pub open spec fn spec_history_of(song: SongView, played_at: i64) -> HistView {
    HistView {
        title: song.title,
        alternative_title: song.alternative_title,
        artist: song.artist,
        artist_url: song.artist_url,
        image_src: song.image_src,
        song_duration: song.song_duration as i64,
        url: song.url,
        album: song.album,
        video_id: song.video_id,
        playlist_id: song.playlist_id,
        media_type: song.media_type,
        tags: song.tags,
        played_at,
    }
}

fn clone_tags(tags: &Vec<String>) -> (r: Vec<String>)
    ensures
        r.deep_view() == tags.deep_view(),
{
    let r = tags.clone();
    proof {
        assert forall|i: int| 0 <= i < tags@.len() implies r@[i] == tags@[i] by {
            assert(cloned(tags@[i], r@[i]));
        }
        assert(r.deep_view() =~= tags.deep_view());
    }
    r
}

fn clone_album(album: &Option<String>) -> (r: Option<String>)
    ensures
        (match (r, album) {
            (Some(a), Some(b)) => a@ == b@,
            (None, None) => true,
            _ => false,
        }),
{
    match album {
        Some(a) => Some(a.clone()),
        None => None,
    }
}

impl SongsFromClient {
    /// A value copy: the same record, field for field.
    pub fn duplicate(&self) -> (r: Self)
        ensures
            r@ == self@,
    {
        let r = SongsFromClient {
            title: self.title.clone(),
            alternative_title: self.alternative_title.clone(),
            artist: self.artist.clone(),
            artist_url: self.artist_url.clone(),
            views: self.views,
            image_src: self.image_src.clone(),
            is_paused: self.is_paused,
            song_duration: self.song_duration,
            elapsed_seconds: self.elapsed_seconds,
            url: self.url.clone(),
            album: clone_album(&self.album),
            video_id: self.video_id.clone(),
            playlist_id: self.playlist_id.clone(),
            media_type: self.media_type.clone(),
            tags: clone_tags(&self.tags),
        };
        proof {
            assert(r@ =~= self@);
        }
        r
    }
}

impl SongHistory {
    /// The snapshot of `song` accepted at `played_at`.
    pub fn of_song(song: &SongsFromClient, played_at: i64) -> (r: Self)
        ensures
            r@ == spec_history_of(song@, played_at),
    {
        let r = SongHistory {
            title: song.title.clone(),
            alternative_title: song.alternative_title.clone(),
            artist: song.artist.clone(),
            artist_url: song.artist_url.clone(),
            image_src: song.image_src.clone(),
            song_duration: #[verifier::truncate] (song.song_duration as i64),
            url: song.url.clone(),
            album: clone_album(&song.album),
            video_id: song.video_id.clone(),
            playlist_id: song.playlist_id.clone(),
            media_type: song.media_type.clone(),
            tags: clone_tags(&song.tags),
            played_at,
        };
        proof {
            assert(r@ =~= spec_history_of(song@, played_at));
        }
        r
    }

    /// A value copy: the same snapshot, field for field.
    pub fn duplicate(&self) -> (r: Self)
        ensures
            r@ == self@,
    {
        let r = SongHistory {
            title: self.title.clone(),
            alternative_title: self.alternative_title.clone(),
            artist: self.artist.clone(),
            artist_url: self.artist_url.clone(),
            image_src: self.image_src.clone(),
            song_duration: self.song_duration,
            url: self.url.clone(),
            album: clone_album(&self.album),
            video_id: self.video_id.clone(),
            playlist_id: self.playlist_id.clone(),
            media_type: self.media_type.clone(),
            tags: clone_tags(&self.tags),
            played_at: self.played_at,
        };
        proof {
            assert(r@ =~= self@);
        }
        r
    }
}

/// The placeholder record held at process start, before the first accepted
/// write: a fixed "service is alive" sentinel.
pub open spec fn spec_initial_song() -> SongView {
    SongView {
        title: "App Started"@,
        alternative_title: "Hi there"@,
        artist: "Devin Little"@,
        artist_url: "https://devinlittle.net"@,
        views: 112918002,
        image_src: "https://devinlittle.net/proimgs/beatuifulpicture.png"@,
        is_paused: false,
        song_duration: 181,
        elapsed_seconds: 160,
        url: "https://devinlittle.net"@,
        album: None,
        video_id: "Devin Kirk"@,
        playlist_id: "hi ther"@,
        media_type: "CP"@,
        tags: seq![
            "Devin Litte"@,
            "デヴィン・リトル"@,
            "Thank You"@,
            "For looking at the source code"@,
        ],
    }
}

/// Build the placeholder record held at process start.
pub fn initial_song() -> (r: SongsFromClient)
    ensures
        r@ == spec_initial_song(),
{
    let mut tags: Vec<String> = Vec::new();
    tags.push(String::from_str("Devin Litte"));
    tags.push(String::from_str("デヴィン・リトル"));
    tags.push(String::from_str("Thank You"));
    tags.push(String::from_str("For looking at the source code"));
    let r = SongsFromClient {
        title: String::from_str("App Started"),
        alternative_title: String::from_str("Hi there"),
        artist: String::from_str("Devin Little"),
        artist_url: String::from_str("https://devinlittle.net"),
        views: 112918002,
        image_src: String::from_str("https://devinlittle.net/proimgs/beatuifulpicture.png"),
        is_paused: false,
        song_duration: 181,
        elapsed_seconds: 160,
        url: String::from_str("https://devinlittle.net"),
        album: None,
        video_id: String::from_str("Devin Kirk"),
        playlist_id: String::from_str("hi ther"),
        media_type: String::from_str("CP"),
        tags,
    };
    proof {
        assert(r@.tags =~= spec_initial_song().tags);
        assert(r@ =~= spec_initial_song());
    }
    r
}

} // verus!
