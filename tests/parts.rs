use piped_playlist_importer::{
    check_response, classify_response, extract_video_id, video_ids, PipedClient,
    PipedPlaylistImporterError, Playlists,
};

#[test]
fn video_id_is_text_after_first_equals() {
    assert_eq!(extract_video_id("https://x?v=AAA"), Some("AAA".to_string()));
    assert_eq!(extract_video_id("a=b=c"), Some("b=c".to_string()));
    assert_eq!(extract_video_id("="), Some(String::new()));
    assert_eq!(extract_video_id("https://x/watch"), None);
}

#[test]
fn instance_gets_scheme_and_loses_trailing_slash() {
    assert_eq!(PipedClient::new("pipedapi.kavin.rocks", "t").instance, "https://pipedapi.kavin.rocks");
    assert_eq!(PipedClient::new("http://host/", "t").instance, "http://host");
    assert_eq!(PipedClient::new("https://host//", "t").instance, "https://host/");
    assert_eq!(PipedClient::new("", "t").instance, "https:/");
    assert_eq!(PipedClient::new("h", "tok").authorization, "tok");
    assert_eq!(PipedClient::new("httpbin.org", "t").instance, "https://httpbin.org");
    assert_eq!(PipedClient::new("https://a.b/", "t").instance, "https://a.b");
}

#[test]
fn endpoints_are_built_on_instance() {
    let c = PipedClient::new("https://i/", "t");
    assert_eq!(c.playlists_url(), "https://i/user/playlists");
    assert_eq!(c.playlist_url("r1"), "https://i/playlists/r1");
    assert_eq!(c.create_playlist_url(), "https://i/user/playlists/create");
    assert_eq!(c.add_video_url(), "https://i/user/playlists/add");
}

#[test]
fn success_body_passes_through() {
    assert_eq!(classify_response(200, "u", "[]".to_string(), None), Ok("[]".to_string()));
    assert_eq!(check_response(204, "u", "{\"message\":\"x\"}".to_string()), Ok("{\"message\":\"x\"}".to_string()));
}

#[test]
fn structured_error_becomes_service_error() {
    assert_eq!(
        classify_response(403, "u", "b".to_string(), Some("m".to_string())),
        Err(PipedPlaylistImporterError::PipedError("m".to_string()))
    );
    assert_eq!(
        check_response(401, "u", "{\"message\": \"bad token\", \"code\": 1}".to_string()),
        Err(PipedPlaylistImporterError::PipedError("bad token".to_string()))
    );
}

#[test]
fn unstructured_error_becomes_request_failure() {
    assert_eq!(
        classify_response(500, "u", "b".to_string(), None),
        Err(PipedPlaylistImporterError::Request(500, "u".to_string(), "b".to_string()))
    );
    assert_eq!(
        check_response(404, "u", "{\"error\":\"x\"}".to_string()),
        Err(PipedPlaylistImporterError::Request(404, "u".to_string(), "{\"error\":\"x\"}".to_string()))
    );
}

#[test]
fn stream_urls_give_ids_in_order() {
    let urls = vec!["/watch?v=A1".to_string(), "/watch?v=B2".to_string()];
    assert_eq!(video_ids(&urls), Ok(vec!["A1".to_string(), "B2".to_string()]));
    let bad = vec!["/watch?v=A1".to_string(), "/channel/x".to_string()];
    assert!(matches!(video_ids(&bad), Err(PipedPlaylistImporterError::Deserialize(_))));
}

#[test]
fn loader_keeps_order_and_drops_empty_lines() {
    let entries = vec![
        ("Rock".to_string(), vec!["u1".to_string(), "".to_string(), "u2".to_string()]),
        ("Empty".to_string(), vec![]),
    ];
    let pls = Playlists::new(entries);
    assert_eq!(pls.len(), 2);
    assert_eq!(pls[0].name, "Rock");
    assert_eq!(pls[0].urls, vec!["u1".to_string(), "u2".to_string()]);
    assert_eq!(pls[1].name, "Empty");
    assert!(pls[1].urls.is_empty());
}

#[test]
fn only_service_errors_are_recoverable() {
    assert!(PipedPlaylistImporterError::PipedError("m".to_string()).is_recoverable());
    assert!(!PipedPlaylistImporterError::Deserialize("m".to_string()).is_recoverable());
    assert!(!PipedPlaylistImporterError::Request(500, "u".to_string(), "b".to_string()).is_recoverable());
}

#[test]
fn global_count_sums_all_urls() {
    let pls = Playlists::new(vec![
        ("A".to_string(), vec!["u1".to_string(), "u2".to_string()]),
        ("B".to_string(), vec!["u3".to_string()]),
        ("C".to_string(), vec![]),
    ]);
    assert_eq!(piped_playlist_importer::global_count(&pls), 3);
    assert_eq!(piped_playlist_importer::global_count(&vec![]), 0);
}
