use airtips::relay::{song_to_post, Song, WsMessage};

fn sample_song(title: &str) -> Song {
    Song {
        title: title.to_string(),
        alternative_title: "alt".to_string(),
        artist: "artist".to_string(),
        artist_url: "https://example.net/artist".to_string(),
        views: 7,
        image_src: "https://example.net/cover.png".to_string(),
        is_paused: false,
        song_duration: 200,
        elapsed_seconds: 12,
        url: "https://example.net/track".to_string(),
        album: None,
        video_id: "vid".to_string(),
        playlist_id: "pl".to_string(),
        media_type: "AUDIO".to_string(),
        tags: vec!["one".to_string(), "two".to_string()],
    }
}

#[test]
fn player_info_snapshot_is_posted() {
    let msg = WsMessage::PlayerInfo {
        song: sample_song("a"),
        is_playing: true,
        muted: false,
        position: 3,
        volume: 50,
        repeat: "NONE".to_string(),
        shuffle: false,
    };
    let out = song_to_post(msg).unwrap();
    assert_eq!(out.title, "a");
}

#[test]
fn video_changed_is_posted() {
    let msg = WsMessage::VideoChanged { song: sample_song("b"), position: 9 };
    let out = song_to_post(msg).unwrap();
    assert_eq!(out.title, "b");
}

#[test]
fn position_change_is_ignored() {
    assert!(song_to_post(WsMessage::PositionChanged).is_none());
}

#[test]
fn player_state_change_is_ignored() {
    let msg = WsMessage::PlayerStateChanged { is_playing: false, position: 4 };
    assert!(song_to_post(msg).is_none());
}

#[test]
fn volume_change_is_ignored() {
    let msg = WsMessage::VolumeChanged { volume: 10, muted: true };
    assert!(song_to_post(msg).is_none());
}
