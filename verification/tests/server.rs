use livechat::media::{
    should_react, kind_from_attachment, kind_from_extension, kind_from_url, message_media, Attachment,
    MediaKind,
};
use livechat::server::{
    channel_id_from_raw, check_startup, client_step, config_from_vars, default_bind, parse_u64,
    token_accepted, ClientAction, ClientEvent, Config, IntError, RawChannelId,
};
use livechat::server::{
    from_environment, ConfigSearch, SearchAction, SearchEvent, KEEPALIVE_SECS, NO_CONFIG_MSG,
};

fn s(v: &str) -> Option<String> {
    Some(v.to_string())
}

#[test]
fn extensions_decide_kinds() {
    assert_eq!(kind_from_extension("cat.GIF"), Some(MediaKind::Gif));
    assert_eq!(kind_from_extension("a.b.JpEg"), Some(MediaKind::Image));
    assert_eq!(kind_from_extension("clip.webm"), Some(MediaKind::Video));
    assert_eq!(kind_from_extension("song.opus"), Some(MediaKind::Audio));
    assert_eq!(kind_from_extension("notes.txt"), None);
    assert_eq!(kind_from_extension("noextension"), None);
    assert_eq!(kind_from_extension("trailing."), None);
}

#[test]
fn content_type_takes_precedence() {
    assert_eq!(
        kind_from_attachment(Some("image/gif; charset=x"), "a.png"),
        Some(MediaKind::Gif)
    );
    assert_eq!(kind_from_attachment(Some(" image/png "), "a.txt"), Some(MediaKind::Image));
    assert_eq!(kind_from_attachment(Some("video/mp4"), "a"), Some(MediaKind::Video));
    assert_eq!(
        kind_from_attachment(Some("application/octet-stream"), "a.mov"),
        Some(MediaKind::Video)
    );
    assert_eq!(kind_from_attachment(None, "voice.ogg"), Some(MediaKind::Audio));
    assert_eq!(kind_from_attachment(Some("text/plain"), "a.txt"), None);
}

#[test]
fn url_kind_uses_last_segment() {
    assert_eq!(
        kind_from_url("https://cdn.example/x/y/photo.PNG?width=20#frag"),
        Some(MediaKind::Image)
    );
    assert_eq!(kind_from_url("https://cdn.example/video.mp4/"), Some(MediaKind::Video));
    assert_eq!(kind_from_url("https://example.com/page"), None);
    assert_eq!(kind_from_url("https://example.com/a.gif#x.txt"), Some(MediaKind::Gif));
}

fn att(ct: Option<&str>, name: &str, url: &str) -> Attachment {
    Attachment {
        content_type: ct.map(|c| c.to_string()),
        filename: name.to_string(),
        url: url.to_string(),
    }
}

#[test]
fn message_attachments_then_links() {
    let atts = vec![
        att(Some("image/png"), "a.png", "https://cdn/a.png"),
        att(None, "doc.pdf", "https://cdn/doc.pdf"),
    ];
    let content = "look https://x.io/b.mp4\thttp://x.io/c.png  https://x.io/page";
    let ev = message_media(false, 7, 7, "Alex", content, &atts);
    assert_eq!(ev.len(), 2);
    assert_eq!(ev[0].kind, MediaKind::Image);
    assert_eq!(ev[0].url, "https://cdn/a.png");
    assert_eq!(ev[0].filename, "a.png");
    assert_eq!(ev[0].sender, "Alex");
    assert_eq!(ev[0].caption, content);
    assert_eq!(ev[1].kind, MediaKind::Video);
    assert_eq!(ev[1].url, "https://x.io/b.mp4");
    assert_eq!(ev[1].filename, "");
    assert_eq!(ev[1].caption, "");
}

#[test]
fn bots_and_other_channels_are_ignored() {
    let atts = vec![att(Some("image/png"), "a.png", "https://cdn/a.png")];
    assert!(message_media(true, 7, 7, "Bot", "", &atts).is_empty());
    assert!(message_media(false, 8, 7, "Alex", "", &atts).is_empty());
}

#[test]
fn parse_follows_std() {
    for text in ["0", "42", "+7", "18446744073709551615", "-1", "", "+", "-", "1a", "18446744073709551616", " 1", "٣"] {
        let expected = text.parse::<u64>().map_err(|e| e.to_string());
        let got = parse_u64(text).map_err(|e| e.describe().to_string());
        assert_eq!(got, expected, "on {:?}", text);
    }
    assert_eq!(parse_u64(""), Err(IntError::Empty));
    assert_eq!(parse_u64("99999999999999999999x"), Err(IntError::PosOverflow));
}

#[test]
fn channel_id_number_or_string() {
    assert_eq!(channel_id_from_raw(RawChannelId::Num(123)), Ok(123));
    assert_eq!(
        channel_id_from_raw(RawChannelId::Str(" 1234567890123456789 ".into())),
        Ok(1234567890123456789)
    );
    assert_eq!(
        channel_id_from_raw(RawChannelId::Str("12x".into())),
        Err("channel_id invalide : invalid digit found in string".to_string())
    );
}

#[test]
fn environment_settings() {
    assert!(config_from_vars(None, None, None, s("b"), s("1"), s("https://p")).unwrap().is_none());
    assert_eq!(
        config_from_vars(s("t"), None, None, None, None, None).err().unwrap(),
        "Variables d'environnement manquantes : CHANNEL_ID, SECRET"
    );
    assert_eq!(
        config_from_vars(None, s("1"), None, None, None, None).err().unwrap(),
        "Variables d'environnement manquantes : DISCORD_TOKEN, SECRET"
    );
    assert_eq!(
        config_from_vars(s("t"), s("abc"), s("x"), None, None, None).err().unwrap(),
        "CHANNEL_ID invalide : invalid digit found in string"
    );
    let c = config_from_vars(s("t"), s(" 99 "), s("x"), None, None, None).unwrap().unwrap();
    assert_eq!(c.channel_id, 99);
    assert_eq!(c.bind, "0.0.0.0:3000");
    let c = config_from_vars(s("t"), s("1"), s("x"), None, s("8080"), None).unwrap().unwrap();
    assert_eq!(c.bind, "0.0.0.0:8080");
    let c = config_from_vars(s("t"), s("1"), s("x"), s("127.0.0.1:1"), s("8080"), s("http://h:9000")).unwrap().unwrap();
    assert_eq!(c.bind, "127.0.0.1:1");
    assert_eq!(c.discord_token, "t");
    assert_eq!(c.secret, "x");
    assert_eq!(c.public_url.as_deref(), Some("http://h:9000"));
}

fn server_config(token: &str, secret: &str) -> Config {
    Config {
        discord_token: token.into(),
        channel_id: 1,
        bind: default_bind(),
        secret: secret.into(),
        public_url: None,
    }
}

#[test]
fn startup_checks() {
    assert_eq!(default_bind(), "0.0.0.0:9000");
    assert!(check_startup(&server_config("tok", "pw")).is_ok());
    assert_eq!(
        check_startup(&server_config("tok", "change-moi")).unwrap_err(),
        "`secret` est vide ou laissé à la valeur d'exemple « change-moi » : choisis un vrai mot de passe partagé."
    );
    assert!(check_startup(&server_config("", "  ")).unwrap_err().starts_with("`secret`"));
    assert_eq!(
        check_startup(&server_config("COLLE_TON_TOKEN_ICI", "pw")).unwrap_err(),
        "`discord_token` est vide ou laissé à la valeur d'exemple."
    );
}

#[test]
fn token_must_match_secret() {
    assert!(token_accepted("pw", "pw"));
    assert!(!token_accepted("", "pw"));
    assert!(!token_accepted("PW", "pw"));
}

#[test]
fn send_loop_steps() {
    assert!(matches!(client_step(ClientEvent::Received), ClientAction::Listen));
    assert!(matches!(client_step(ClientEvent::Broadcast("m".into())), ClientAction::Send(ref m) if m == "m"));
    assert!(matches!(client_step(ClientEvent::Lagged(3)), ClientAction::WarnLagged(3)));
    assert!(matches!(client_step(ClientEvent::Tick), ClientAction::Ping));
    assert!(matches!(client_step(ClientEvent::SocketEnded), ClientAction::Stop));
    assert!(matches!(client_step(ClientEvent::ChannelClosed), ClientAction::Stop));
    assert!(matches!(client_step(ClientEvent::SendFailed), ClientAction::Stop));
}

#[test]
fn channel_id_forms_agree() {
    for n in [0u64, 7, 1234567890123456789, u64::MAX] {
        assert_eq!(
            channel_id_from_raw(RawChannelId::Str(n.to_string())),
            channel_id_from_raw(RawChannelId::Num(n))
        );
    }
}

#[test]
fn kinds_ignore_case_and_query() {
    assert_eq!(kind_from_extension("A.MP4"), kind_from_extension("a.mp4"));
    assert_eq!(
        kind_from_url("https://h/p/a.webp?x=1.txt"),
        kind_from_url("https://h/p/a.webp")
    );
    assert_eq!(kind_from_url("https://h/p/a.webp#b.txt"), Some(MediaKind::Image));
}

#[test]
fn react_only_after_relaying() {
    assert!(should_react(1));
    assert!(!should_react(0));
}

#[test]
fn keepalive_period() {
    assert_eq!(KEEPALIVE_SECS, 30);
}

fn expect_read(a: SearchAction, i: usize) -> ConfigSearch {
    match a {
        SearchAction::Read { next, index } => {
            assert_eq!(index, i);
            next
        }
        _ => panic!("expected a read"),
    }
}

#[test]
fn first_readable_file_decides() {
    let s = expect_read(ConfigSearch::start(2), 0);
    let s = expect_read(s.step(SearchEvent::Unreadable), 1);
    match s.step(SearchEvent::Parsed(server_config("tok", "pw"))) {
        SearchAction::Use(c) => assert_eq!(c.secret, "pw"),
        _ => panic!("expected settings"),
    }
}

#[test]
fn broken_file_stops_the_server() {
    let s = expect_read(ConfigSearch::start(2), 0);
    match s.step(SearchEvent::ParseFailed { path: "config.toml".into(), error: "bad key".into() }) {
        SearchAction::Exit(m) => assert_eq!(m, "Erreur dans config.toml : bad key"),
        _ => panic!("expected an exit"),
    }
}

#[test]
fn environment_when_no_file() {
    assert!(matches!(ConfigSearch::start(0), SearchAction::UseEnvironment));
    let s = expect_read(ConfigSearch::start(1), 0);
    assert!(matches!(s.step(SearchEvent::Unreadable), SearchAction::UseEnvironment));
    assert_eq!(from_environment(Ok(None)).err().unwrap(), NO_CONFIG_MSG);
    assert!(NO_CONFIG_MSG.starts_with("Aucune configuration trouvée.\nSoit : copie"));
    assert_eq!(from_environment(Err("x".into())).err().unwrap(), "x");
    assert_eq!(from_environment(Ok(Some(server_config("t", "s")))).unwrap().discord_token, "t");
}
