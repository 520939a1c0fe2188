//! The relay's decision logic.
//!
//! A companion process subscribes to a local media player's event stream
//! and forwards state changes to the service's write endpoint.  Which
//! messages warrant a post is a pure decision over the tagged message;
//! only the subscription and the posting themselves are left to the
//! process around this library.

use vstd::prelude::*;
use crate::songs::SongView;

verus! {

/// A full track snapshot as the media player reports it.
#[derive(Debug, Clone, PartialEq)]
pub struct Song {
    pub title: String,
    pub alternative_title: String,
    pub artist: String,
    pub artist_url: String,
    pub views: u64,
    pub image_src: String,
    pub is_paused: bool,
    pub song_duration: u64,
    pub elapsed_seconds: u64,
    pub url: String,
    pub album: Option<String>,
    pub video_id: String,
    pub playlist_id: String,
    pub media_type: String,
    pub tags: Vec<String>,
}

impl View for Song {
    type V = SongView;

    open spec fn view(&self) -> SongView {
        SongView {
            title: self.title@,
            alternative_title: self.alternative_title@,
            artist: self.artist@,
            artist_url: self.artist_url@,
            views: self.views,
            image_src: self.image_src@,
            is_paused: self.is_paused,
            song_duration: self.song_duration,
            elapsed_seconds: self.elapsed_seconds,
            url: self.url@,
            album: match self.album {
                Some(a) => Some(a@),
                None => None,
            },
            video_id: self.video_id@,
            playlist_id: self.playlist_id@,
            media_type: self.media_type@,
            tags: self.tags.deep_view(),
        }
    }
}

/// One message of the player's event stream, tagged by type.  The position
/// update carries only a fractional play position, which the relay never
/// reads, so it is not modelled here.
#[derive(Debug, Clone, PartialEq)]
pub enum WsMessage {
    PlayerInfo {
        song: Song,
        is_playing: bool,
        muted: bool,
        position: u64,
        volume: u8,
        repeat: String,
        shuffle: bool,
    },
    PositionChanged,
    PlayerStateChanged { is_playing: bool, position: u64 },
    VideoChanged { song: Song, position: u64 },
    VolumeChanged { volume: u8, muted: bool },
}

/// Decide what to relay: the track snapshot to post, exactly when the
/// message carries a full one (a player-info snapshot or a track change);
/// nothing on every other message.
pub fn song_to_post(msg: WsMessage) -> (r: Option<Song>)
    ensures
        (match msg {
            WsMessage::PlayerInfo { song, .. } => r == Some(song),
            WsMessage::VideoChanged { song, .. } => r == Some(song),
            _ => r == None::<Song>,
        }),
{
    match msg {
        WsMessage::PlayerInfo { song, .. } => Some(song),
        WsMessage::VideoChanged { song, .. } => Some(song),
        WsMessage::PositionChanged => None,
        WsMessage::PlayerStateChanged { .. } => None,
        WsMessage::VolumeChanged { .. } => None,
    }
}

} // verus!
