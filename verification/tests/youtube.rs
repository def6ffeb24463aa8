use livechat::media::MediaKind;
use livechat::youtube::{
    download_args, fetch_reaction, fetch_step, is_served_file, make_request, message_downloads,
    probe_args, youtube_video_id, FetchAction, FetchEvent, Reaction, MAX_DURATION_SECS,
    MAX_SIZE_BYTES, VIDEO_FORMAT,
};

#[test]
fn recognises_youtube_links() {
    let id = |w: &str| youtube_video_id(w);
    assert_eq!(id("https://www.youtube.com/watch?v=dQw4w9WgXcQ"), Some("dQw4w9WgXcQ".into()));
    assert_eq!(id("https://youtube.com/watch?v=abc_-9&t=10s"), Some("abc_-9".into()));
    assert_eq!(id("https://m.youtube.com/watch?v=XyZ#x"), Some("XyZ".into()));
    assert_eq!(id("https://youtu.be/abc123?si=q"), Some("abc123".into()));
    assert_eq!(id("https://www.youtube.com/shorts/s0rt/"), Some("s0rt".into()));
    assert_eq!(id("http://www.youtube.com/watch?v=abc"), None);
    assert_eq!(id("https://www.youtube.com/watch?v="), None);
    assert_eq!(id("https://www.youtube.com/channel/abc"), None);
    assert_eq!(id("https://notyoutube.com/watch?v=abc"), None);
    assert_eq!(id("https://youtu.be/"), None);
}

#[test]
fn downloads_need_public_url() {
    let text = "regarde https://youtu.be/abc123 et https://x.io/a.png";
    assert!(message_downloads(false, 1, 1, text, None).is_empty());
    assert!(message_downloads(false, 1, 1, text, Some("   ")).is_empty());
    assert!(message_downloads(true, 1, 1, text, Some("http://h:9000")).is_empty());
    assert!(message_downloads(false, 2, 1, text, Some("http://h:9000")).is_empty());
    let r = message_downloads(false, 1, 1, text, Some(" http://h:9000/ "));
    assert_eq!(r.len(), 1);
    assert_eq!(r[0].video_id, "abc123");
    assert_eq!(r[0].source_url, "https://www.youtube.com/watch?v=abc123");
    assert_eq!(r[0].file_name, "abc123.mp4");
    assert_eq!(r[0].public_url, "http://h:9000/media/abc123.mp4");
}

#[test]
fn several_links_in_order() {
    let text = "https://youtu.be/one https://www.youtube.com/watch?v=two";
    let r = message_downloads(false, 1, 1, text, Some("https://pub.example"));
    let ids: Vec<&str> = r.iter().map(|q| q.video_id.as_str()).collect();
    assert_eq!(ids, vec!["one", "two"]);
}

#[test]
fn downloader_arguments() {
    let req = make_request("abc", "http://h");
    assert_eq!(
        probe_args(&req),
        vec!["--no-playlist", "--skip-download", "--print", "duration", "https://www.youtube.com/watch?v=abc"]
    );
    assert_eq!(
        download_args(&req, "/tmp/abc.mp4"),
        vec![
            "--no-playlist",
            "-f",
            VIDEO_FORMAT,
            "--merge-output-format",
            "mp4",
            "--max-filesize",
            "150M",
            "-o",
            "/tmp/abc.mp4",
            "https://www.youtube.com/watch?v=abc"
        ]
    );
}

#[test]
fn duration_and_size_limits() {
    assert_eq!(MAX_DURATION_SECS, 30 * 60);
    assert_eq!(MAX_SIZE_BYTES, 150 * 1024 * 1024);
    let req = make_request("abc", "http://h");
    assert!(matches!(fetch_step(&req, "Alex", FetchEvent::Probed(Some(1800))), FetchAction::Download));
    assert!(matches!(fetch_step(&req, "Alex", FetchEvent::Probed(Some(1801))), FetchAction::Refuse));
    assert!(matches!(fetch_step(&req, "Alex", FetchEvent::Probed(None)), FetchAction::Refuse));
    assert!(matches!(fetch_step(&req, "Alex", FetchEvent::Unavailable), FetchAction::Refuse));
    assert!(matches!(
        fetch_step(&req, "Alex", FetchEvent::Downloaded(MAX_SIZE_BYTES + 1)),
        FetchAction::Refuse
    ));
    match fetch_step(&req, "Alex", FetchEvent::Downloaded(MAX_SIZE_BYTES)) {
        FetchAction::Relay(e) => {
            assert_eq!(e.kind, MediaKind::Video);
            assert_eq!(e.url, "http://h/media/abc.mp4");
            assert_eq!(e.filename, "abc.mp4");
            assert_eq!(e.sender, "Alex");
            assert_eq!(e.caption, "");
        }
        _ => panic!("expected a relay"),
    }
}

#[test]
fn reactions() {
    assert_eq!(Reaction::Downloading.emoji(), '⏳');
    assert_eq!(Reaction::Relayed.emoji(), '📺');
    assert_eq!(Reaction::Refused.emoji(), '🚫');
    assert_eq!(fetch_reaction(&FetchAction::Download), None);
    assert_eq!(fetch_reaction(&FetchAction::Refuse), Some(Reaction::Refused));
}

#[test]
fn served_file_names() {
    assert!(is_served_file("abc_-9.mp4"));
    assert!(!is_served_file(".mp4"));
    assert!(!is_served_file("../x.mp4"));
    assert!(!is_served_file("a/b.mp4"));
    assert!(!is_served_file("abc.mp3"));
    assert!(!is_served_file("abc.mp4.part"));
    let req = make_request("Zz9", "http://h");
    assert!(is_served_file(&req.file_name));
}
