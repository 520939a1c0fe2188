use airtips::config::Config;
use airtips::identity::parse_identity;
use airtips::service::{ApiError, ApiResponse, AppState, Operation};
use airtips::songs::SongsFromClient;

const SECRET: &str = "service-test-secret";
const NOW: i64 = 1_700_000_000;
const OWNER: &str = "11111111-1111-1111-1111-111111111111";
const VIEWER: &str = "22222222-2222-2222-2222-222222222222";
const STRANGER: &str = "33333333-3333-3333-3333-333333333333";

fn make_token(sub: &str, secret: &str, exp: i64) -> String {
    let mut claims = serde_json::Map::new();
    claims.insert(
        "sub".to_string(),
        serde_json::Value::String(sub.to_string()),
    );
    claims.insert(
        "username".to_string(),
        serde_json::Value::String("someone".to_string()),
    );
    claims.insert(
        "iat".to_string(),
        serde_json::Value::Number(serde_json::Number::from(NOW - 1000)),
    );
    claims.insert(
        "exp".to_string(),
        serde_json::Value::Number(serde_json::Number::from(exp)),
    );
    jsonwebtoken::encode(
        &jsonwebtoken::Header::new(jsonwebtoken::Algorithm::HS256),
        &serde_json::Value::Object(claims),
        &jsonwebtoken::EncodingKey::from_secret(secret.as_bytes()),
    )
    .unwrap()
}

fn fresh_state() -> AppState {
    AppState::new(Config {
        jwt_secret: SECRET.to_string(),
        devin_id: parse_identity(OWNER).unwrap(),
        trin_id: parse_identity(VIEWER).unwrap(),
    })
}

fn sample_song(title: &str, duration: u64) -> SongsFromClient {
    SongsFromClient {
        title: title.to_string(),
        alternative_title: format!("{} (alt)", title),
        artist: "an artist".to_string(),
        artist_url: "https://example.net/artist".to_string(),
        views: 41,
        image_src: "https://example.net/cover.png".to_string(),
        is_paused: false,
        song_duration: duration,
        elapsed_seconds: 5,
        url: "https://example.net/track".to_string(),
        album: Some("an album".to_string()),
        video_id: "vid-1".to_string(),
        playlist_id: "pl-1".to_string(),
        media_type: "AUDIO".to_string(),
        tags: vec!["tag-a".to_string(), "tag-b".to_string()],
    }
}

fn fetch(state: &mut AppState, token: &str) -> Result<SongsFromClient, ApiError> {
    match state.handle_request(token, NOW, Operation::FetchCurrentSong) {
        Ok(ApiResponse::CurrentSong(s)) => Ok(s),
        Ok(other) => panic!("unexpected response: {:?}", other),
        Err(e) => Err(e),
    }
}

#[test]
fn initial_record_is_the_placeholder() {
    let mut state = fresh_state();
    let viewer = make_token(VIEWER, SECRET, NOW + 3600);
    let song = fetch(&mut state, &viewer).unwrap();
    assert_eq!(song.title, "App Started");
    assert_eq!(song.artist, "Devin Little");
    assert_eq!(song.views, 112918002);
    assert_eq!(song.album, None);
    assert_eq!(song.tags.len(), 4);
    assert_eq!(song.tags[1], "デヴィン・リトル");
}

#[test]
fn accepted_write_is_read_back_field_for_field() {
    let mut state = fresh_state();
    let owner = make_token(OWNER, SECRET, NOW + 3600);
    let viewer = make_token(VIEWER, SECRET, NOW + 3600);
    let song = sample_song("First", 200);
    let posted = state
        .handle_request(&owner, NOW, Operation::PostSong(song.clone()))
        .unwrap();
    assert_eq!(
        posted,
        ApiResponse::Posted("Updated Current Song and Added To History".to_string())
    );
    assert_eq!(fetch(&mut state, &viewer).unwrap(), song);
    assert_eq!(fetch(&mut state, &owner).unwrap(), song);
}

#[test]
fn accepted_write_heads_the_first_page() {
    let mut state = fresh_state();
    let owner = make_token(OWNER, SECRET, NOW + 3600);
    let viewer = make_token(VIEWER, SECRET, NOW + 3600);
    let t0 = NOW;
    state
        .handle_request(&owner, NOW, Operation::PostSong(sample_song("Only", 90)))
        .unwrap();
    let page = match state
        .handle_request(&viewer, NOW, Operation::RecentlyPlayed(1))
        .unwrap()
    {
        ApiResponse::RecentlyPlayed(p) => p,
        other => panic!("unexpected response: {:?}", other),
    };
    assert_eq!(page.songs.len(), 1);
    assert_eq!(page.songs[0].title, "Only");
    assert_eq!(page.songs[0].song_duration, 90);
    assert!(page.songs[0].played_at >= t0);
    assert_eq!(page.total_pages, 1);
    assert!(!page.has_more);
}

#[test]
fn resubmitting_keeps_current_and_appends_twice() {
    let mut state = fresh_state();
    let owner = make_token(OWNER, SECRET, NOW + 3600);
    let song = sample_song("Same", 100);
    state
        .handle_request(&owner, NOW, Operation::PostSong(song.clone()))
        .unwrap();
    let between = fetch(&mut state, &owner).unwrap();
    assert_eq!(between, song);
    state
        .handle_request(&owner, NOW + 10, Operation::PostSong(song.clone()))
        .unwrap();
    assert_eq!(fetch(&mut state, &owner).unwrap(), song);
    let page = match state
        .handle_request(&owner, NOW + 10, Operation::RecentlyPlayed(1))
        .unwrap()
    {
        ApiResponse::RecentlyPlayed(p) => p,
        other => panic!("unexpected response: {:?}", other),
    };
    assert_eq!(page.songs.len(), 2);
    assert_eq!(page.songs[0].title, "Same");
    assert_eq!(page.songs[1].title, "Same");
    assert_eq!(page.songs[0].played_at, NOW + 10);
    assert_eq!(page.songs[1].played_at, NOW);
}

#[test]
fn viewer_reads_but_cannot_write() {
    let mut state = fresh_state();
    let viewer = make_token(VIEWER, SECRET, NOW + 3600);
    assert!(fetch(&mut state, &viewer).is_ok());
    assert_eq!(
        state.handle_request(&viewer, NOW, Operation::PostSong(sample_song("No", 1))),
        Err(ApiError::Unauthorized)
    );
    // The refused write left nothing behind: no history entry, same record.
    assert_eq!(
        state.handle_request(&viewer, NOW, Operation::RecentlyPlayed(1)),
        Err(ApiError::NotFound)
    );
    assert_eq!(fetch(&mut state, &viewer).unwrap().title, "App Started");
}

#[test]
fn stranger_is_denied_everything() {
    let mut state = fresh_state();
    let stranger = make_token(STRANGER, SECRET, NOW + 3600);
    assert_eq!(fetch(&mut state, &stranger), Err(ApiError::Unauthorized));
    assert_eq!(
        state.handle_request(&stranger, NOW, Operation::PostSong(sample_song("No", 1))),
        Err(ApiError::Unauthorized)
    );
    assert_eq!(
        state.handle_request(&stranger, NOW, Operation::RecentlyPlayed(1)),
        Err(ApiError::Unauthorized)
    );
}

#[test]
fn expired_token_fails_every_endpoint() {
    let mut state = fresh_state();
    let expired = make_token(OWNER, SECRET, NOW - 10);
    assert_eq!(fetch(&mut state, &expired), Err(ApiError::Unauthorized));
    assert_eq!(
        state.handle_request(&expired, NOW, Operation::PostSong(sample_song("No", 1))),
        Err(ApiError::Unauthorized)
    );
    assert_eq!(
        state.handle_request(&expired, NOW, Operation::RecentlyPlayed(1)),
        Err(ApiError::Unauthorized)
    );
}

#[test]
fn foreign_signature_fails_every_endpoint() {
    let mut state = fresh_state();
    // Signed by someone without the real secret, claiming the owner.
    let forged = make_token(OWNER, "guessed-secret", NOW + 3600);
    assert_eq!(fetch(&mut state, &forged), Err(ApiError::Unauthorized));
    assert_eq!(
        state.handle_request(&forged, NOW, Operation::PostSong(sample_song("No", 1))),
        Err(ApiError::Unauthorized)
    );
    assert_eq!(
        state.handle_request(&forged, NOW, Operation::RecentlyPlayed(1)),
        Err(ApiError::Unauthorized)
    );
}

#[test]
fn empty_history_has_no_first_page() {
    let mut state = fresh_state();
    let viewer = make_token(VIEWER, SECRET, NOW + 3600);
    assert_eq!(
        state.handle_request(&viewer, NOW, Operation::RecentlyPlayed(1)),
        Err(ApiError::NotFound)
    );
}

#[test]
fn huge_duration_wraps_into_the_signed_column() {
    let mut state = fresh_state();
    let owner = make_token(OWNER, SECRET, NOW + 3600);
    state
        .handle_request(
            &owner,
            NOW,
            Operation::PostSong(sample_song("Long", u64::MAX)),
        )
        .unwrap();
    let page = match state
        .handle_request(&owner, NOW, Operation::RecentlyPlayed(1))
        .unwrap()
    {
        ApiResponse::RecentlyPlayed(p) => p,
        other => panic!("unexpected response: {:?}", other),
    };
    assert_eq!(page.songs[0].song_duration, -1);
}
