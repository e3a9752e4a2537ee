use obs_reminder::http_server::{
    audio_response_with, content_type, handle_audio_request, handle_request, page_response_with,
    route_request, AudioOutcome, HttpResponse, HttpServer, Route,
};

fn header<'a>(response: &'a HttpResponse, name: &str) -> Option<&'a str> {
    response.headers.iter().find(|h| h.0 == name).map(|h| h.1.as_str())
}

fn pairs(response: &HttpResponse) -> Vec<(&str, &str)> {
    response.headers.iter().map(|h| (h.0.as_str(), h.1.as_str())).collect()
}

#[test]
fn the_server_remembers_its_port() {
    assert_eq!(HttpServer::new(8080).port(), 8080);
}

#[test]
fn audio_paths_are_routed_to_the_cache() {
    match route_request("/audio/3f2b") {
        Route::Audio(id) => assert_eq!(id, "3f2b"),
        Route::Asset(_) => panic!("routed to the bundle"),
    }
    match route_request("/audio/") {
        Route::Audio(id) => assert_eq!(id, ""),
        Route::Asset(_) => panic!("routed to the bundle"),
    }
    match route_request("/audio/a/b.mp3") {
        Route::Audio(id) => assert_eq!(id, "a/b.mp3"),
        Route::Asset(_) => panic!("routed to the bundle"),
    }
}

#[test]
fn other_paths_are_routed_to_the_bundle() {
    for (path, file) in [
        ("/", "index.html"),
        ("", "index.html"),
        ("/index.html", "index.html"),
        ("/assets/app.js", "assets/app.js"),
        ("/audio", "audio"),
        ("/audiox/1", "audiox/1"),
        ("//", "/"),
        ("*", ""),
    ] {
        match route_request(path) {
            Route::Asset(found) => assert_eq!(found, file),
            Route::Audio(_) => panic!("routed to the cache"),
        }
    }
}

#[test]
fn an_unknown_sound_is_not_found() {
    let response = handle_audio_request(AudioOutcome::Missing);
    assert_eq!(response.status, 404);
    assert!(response.headers.is_empty());
    assert_eq!(response.body, b"Audio file not found".to_vec());
}

#[test]
fn a_known_sound_is_served_with_its_media_type() {
    for (path, media_type) in [
        ("audio_cache/a.wav", "audio/wav"),
        ("audio_cache/a.mp3", "audio/mpeg"),
        ("audio_cache/a.ogg", "audio/ogg"),
        ("audio_cache/a.m4a", "audio/m4a"),
    ] {
        let response = handle_audio_request(AudioOutcome::Loaded {
            path: path.to_string(),
            content: vec![1, 2, 3],
        });
        assert_eq!(response.status, 200);
        assert_eq!(header(&response, "content-type"), Some(media_type));
        assert_eq!(response.body, vec![1, 2, 3]);
    }
}

#[test]
fn a_served_sound_may_be_cached_and_fetched_from_anywhere() {
    let response = handle_audio_request(AudioOutcome::Loaded {
        path: "audio_cache/a.wav".to_string(),
        content: Vec::new(),
    });
    assert_eq!(
        pairs(&response),
        vec![
            ("content-type", "audio/wav"),
            ("accept-ranges", "bytes"),
            ("cache-control", "public, max-age=3600"),
            ("access-control-allow-origin", "*"),
        ]
    );
}

#[test]
fn failures_of_the_cache_are_server_errors() {
    let response = handle_audio_request(AudioOutcome::Unreadable);
    assert_eq!(response.status, 500);
    assert_eq!(response.body, b"Failed to read audio file".to_vec());
    let response = handle_audio_request(AudioOutcome::ManagerFailed);
    assert_eq!(response.status, 500);
    assert_eq!(response.body, b"Audio manager error".to_vec());
}

#[test]
fn media_types_go_by_the_extension() {
    assert_eq!(content_type("index.html"), "text/html");
    assert_eq!(content_type("assets/app.js"), "text/javascript");
    assert_eq!(content_type("style.CSS"), "text/css");
    assert_eq!(content_type("a.b/c.png"), "image/png");
    assert_eq!(content_type("wav"), "application/octet-stream");
    assert_eq!(content_type("a.b/c"), "application/octet-stream");
    assert_eq!(content_type(".wav"), "application/octet-stream");
    assert_eq!(content_type("x.no-such-extension"), "application/octet-stream");
    assert_eq!(content_type(""), "application/octet-stream");
    assert_eq!(content_type("sounds/ding.mp3/"), "audio/mpeg");
    assert_eq!(content_type("sounds/ding.mp3/."), "audio/mpeg");
    assert_eq!(content_type("sounds/ding.mp3/.."), "application/octet-stream");
    assert_eq!(content_type(".."), "application/octet-stream");
}

#[test]
fn a_look_up_ends_in_one_of_four_ways() {
    let failure = obs_reminder::audio_manager::AudioError::IoError("denied".to_string());
    assert_eq!(AudioOutcome::of_lookup(Err(failure), Some(vec![1])), AudioOutcome::ManagerFailed);
    assert_eq!(AudioOutcome::of_lookup(Ok(None), None), AudioOutcome::Missing);
    assert_eq!(AudioOutcome::of_lookup(Ok(None), Some(vec![1])), AudioOutcome::Missing);
    assert_eq!(
        AudioOutcome::of_lookup(Ok(Some("audio_cache/a.wav".to_string())), None),
        AudioOutcome::Unreadable
    );
    assert_eq!(
        AudioOutcome::of_lookup(Ok(Some("audio_cache/a.wav".to_string())), Some(vec![1, 2])),
        AudioOutcome::Loaded { path: "audio_cache/a.wav".to_string(), content: vec![1, 2] }
    );
    let unreadable =
        handle_audio_request(AudioOutcome::of_lookup(Ok(Some("x".to_string())), None));
    assert_eq!(unreadable.status, 500);
}
