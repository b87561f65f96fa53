use piped_playlist_importer::{
    Action, PipedGetPlaylistResponse, PipedPlaylistImporterError, Playlist, Playlists, SyncEngine,
    SyncResult,
};

fn playlist(name: &str, urls: &[&str]) -> Playlist {
    let mut p = Playlist::new(name.to_string());
    for u in urls {
        p.push(u.to_string());
    }
    p
}

fn remote(id: &str, name: &str) -> PipedGetPlaylistResponse {
    PipedGetPlaylistResponse { id: id.to_string(), name: name.to_string() }
}

fn is_add(a: &Action, video: &str, list: &str) -> bool {
    matches!(a, Action::AddVideo(v, p) if v == video && p == list)
}

#[test]
fn new_playlist_is_created_then_filled() {
    let mut e = SyncEngine::new(vec![playlist("Rock", &["https://x?v=AAA", "https://x?v=BBB"])], false);
    assert!(matches!(e.start(), Action::ListPlaylists));
    let a = e.on_playlists(Ok(vec![]));
    assert!(matches!(&a, Action::CreatePlaylist(n) if n == "Rock"));
    let a = e.on_created(Ok("p1".to_string()));
    assert!(is_add(&a, "AAA", "p1"));
    let a = e.on_added(Ok("ok".to_string()));
    assert!(is_add(&a, "BBB", "p1"));
    let a = e.on_added(Ok("ok".to_string()));
    assert!(matches!(a, Action::Finished));
    assert!(matches!(e.outcomes[0], SyncResult::Created));
    assert!(matches!(e.outcomes[1], SyncResult::Appended));
    assert!(e.failures.is_empty());
}

#[test]
fn existing_playlist_is_skipped() {
    let mut e = SyncEngine::new(vec![playlist("Rock", &["https://x?v=AAA", "https://x?v=BBB"])], false);
    e.start();
    let a = e.on_playlists(Ok(vec![remote("r1", "Rock")]));
    assert!(matches!(a, Action::Finished));
    assert_eq!(e.outcomes.len(), 2);
    assert!(e.outcomes.iter().all(|o| matches!(o, SyncResult::SkippedExisting)));
    assert!(e.failures.is_empty());
}

#[test]
fn append_skips_known_video() {
    let mut e = SyncEngine::new(vec![playlist("Rock", &["https://x?v=AAA", "https://x?v=BBB"])], true);
    e.start();
    let a = e.on_playlists(Ok(vec![remote("r1", "Rock")]));
    assert!(matches!(&a, Action::ListVideos(id) if id == "r1"));
    let a = e.on_videos(Ok(vec!["AAA".to_string()]));
    assert!(is_add(&a, "BBB", "r1"));
    assert!(matches!(e.outcomes[0], SyncResult::SkippedDuplicate));
    let a = e.on_added(Ok("ok".to_string()));
    assert!(matches!(a, Action::Finished));
    assert!(matches!(e.outcomes[1], SyncResult::Appended));
    assert!(e.failures.is_empty());
}

#[test]
fn service_error_is_recorded_and_run_goes_on() {
    let mut e = SyncEngine::new(vec![playlist("Rock", &["https://x?v=AAA", "https://x?v=BBB"])], false);
    e.start();
    e.on_playlists(Ok(vec![]));
    e.on_created(Ok("p1".to_string()));
    let err = piped_playlist_importer::check_response(
        403,
        "https://i/user/playlists/add",
        "{\"message\":\"quota exceeded\"}".to_string(),
    )
    .unwrap_err();
    let a = e.on_added(Err(err));
    assert!(is_add(&a, "BBB", "p1"));
    assert!(matches!(&e.outcomes[0], SyncResult::Failed(m) if m == "quota exceeded"));
    assert_eq!(
        e.failures[0],
        ("p1".to_string(), "AAA".to_string(), "quota exceeded".to_string())
    );
}

#[test]
fn listing_failure_aborts() {
    let mut e = SyncEngine::new(vec![playlist("Rock", &["https://x?v=AAA"])], false);
    e.start();
    let err = piped_playlist_importer::check_response(
        500,
        "https://i/user/playlists",
        "Internal Server Error".to_string(),
    )
    .unwrap_err();
    assert!(matches!(&err, PipedPlaylistImporterError::Request(500, _, b) if b == "Internal Server Error"));
    let a = e.on_playlists(Err(err));
    assert!(matches!(a, Action::Aborted(PipedPlaylistImporterError::Request(500, _, _))));
    assert!(e.outcomes.is_empty());
}

#[test]
fn fatal_add_error_aborts() {
    let mut e = SyncEngine::new(vec![playlist("Rock", &["https://x?v=AAA", "https://x?v=BBB"])], false);
    e.start();
    e.on_playlists(Ok(vec![]));
    e.on_created(Ok("p1".to_string()));
    let a = e.on_added(Err(PipedPlaylistImporterError::ContactApi("reset".to_string(), "u".to_string())));
    assert!(matches!(a, Action::Aborted(PipedPlaylistImporterError::ContactApi(_, _))));
    assert!(e.outcomes.is_empty());
}

#[test]
fn soft_failure_message_is_recorded_empty() {
    let mut e = SyncEngine::new(vec![playlist("Rock", &["https://x?v=AAA", "https://x?v=BBB"])], false);
    e.start();
    e.on_playlists(Ok(vec![]));
    e.on_created(Ok("p1".to_string()));
    let a = e.on_added(Ok("already there".to_string()));
    assert!(is_add(&a, "BBB", "p1"));
    assert!(matches!(&e.outcomes[0], SyncResult::Failed(m) if m.is_empty()));
    assert_eq!(e.failures, vec![("p1".to_string(), "AAA".to_string(), String::new())]);
    // the first success after a soft failure still counts as the creation
    e.on_added(Ok("ok".to_string()));
    assert!(matches!(e.outcomes[1], SyncResult::Created));
}

#[test]
fn malformed_url_is_recorded_not_sent() {
    let mut e = SyncEngine::new(vec![playlist("Rock", &["no-id-here", "https://x?v=BBB"])], false);
    e.start();
    e.on_playlists(Ok(vec![]));
    let a = e.on_created(Ok("p1".to_string()));
    assert!(is_add(&a, "BBB", "p1"));
    assert!(matches!(&e.outcomes[0], SyncResult::Failed(m) if m == "no video id in url"));
    assert_eq!(
        e.failures,
        vec![("p1".to_string(), "no-id-here".to_string(), "no video id in url".to_string())]
    );
}

#[test]
fn rerun_in_append_mode_adds_nothing() {
    let pls = vec![playlist("Rock", &["https://x?v=AAA", "https://x?v=BBB"])];
    let mut e = SyncEngine::new(pls, true);
    e.start();
    e.on_playlists(Ok(vec![remote("r1", "Rock")]));
    let a = e.on_videos(Ok(vec!["BBB".to_string(), "AAA".to_string()]));
    assert!(matches!(a, Action::Finished));
    assert!(e.outcomes.iter().all(|o| matches!(o, SyncResult::SkippedDuplicate)));
    assert_eq!(e.outcomes.len(), 2);
}

#[test]
fn playlists_in_order_with_mixed_counterparts() {
    let pls = vec![
        playlist("Jazz", &["https://x?v=J1"]),
        playlist("Rock", &["https://x?v=R1", "https://x?v=R2"]),
        playlist("Pop", &["https://x?v=P1"]),
    ];
    let mut e = SyncEngine::new(pls, false);
    e.start();
    let a = e.on_playlists(Ok(vec![remote("r1", "Jazz"), remote("r2", "Rock")]));
    assert!(matches!(&a, Action::CreatePlaylist(n) if n == "Pop"));
    assert_eq!(e.outcomes.len(), 3);
    let a = e.on_created(Ok("p9".to_string()));
    assert!(is_add(&a, "P1", "p9"));
    let a = e.on_added(Err(PipedPlaylistImporterError::PipedError("bad".to_string())));
    assert!(matches!(a, Action::Finished));
}

#[test]
fn empty_directory_finishes_at_once() {
    let mut e = SyncEngine::new(Playlists::new(vec![]), true);
    e.start();
    assert!(matches!(e.on_playlists(Ok(vec![remote("r1", "Rock")])), Action::Finished));
    assert!(e.outcomes.is_empty());
}
