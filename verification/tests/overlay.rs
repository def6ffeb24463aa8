use livechat::config::{
    default_connection_mode, default_hosted_server, default_icon_variant, ensure_settings,
    layout_config, needs_reconnect, restart_needed, normalize_config, prepare_saved_config, render_config, tray_icon, Config,
    TrayIcon,
};
use livechat::link::Link;
use livechat::media::{test_media, MediaKind};
use livechat::startup::{
    should_connect, startup_report, ConfigLoader, ConfigStatus, LoadAction, LoadEvent, SavePath,
};

fn self_host(server: &str, secret: &str) -> Config {
    Config {
        server: server.into(),
        secret: secret.into(),
        ..Config::default()
    }
}

fn hosted(token: &str, guild: &str) -> Config {
    Config {
        connection_mode: "hosted".into(),
        hosted_token: token.into(),
        hosted_guild_id: guild.into(),
        ..Config::default()
    }
}

#[test]
fn default_config_does_not_connect() {
    assert!(!Config::default().can_connect());
}

#[test]
fn self_host_config_can_connect() {
    let config = Config {
        server: "wss://example.com/ws".into(),
        secret: "real-secret".into(),
        ..Config::default()
    };
    assert!(config.can_connect());
}

#[test]
fn defaults_are_the_documented_ones() {
    assert_eq!(default_icon_variant(), "color");
    assert_eq!(default_connection_mode(), "self-host");
    assert_eq!(default_hosted_server(), "https://livechat.zaaap.it");
    let c = Config::default();
    assert_eq!(c.connection_mode, "self-host");
    assert_eq!(c.position, "center");
    assert_eq!(c.icon_variant, "color");
    assert_eq!(c.hosted_server, "https://livechat.zaaap.it");
    assert_eq!(c.server, "");
    assert_eq!(c.secret, "");
}

#[test]
fn placeholder_or_blank_secret_does_not_connect() {
    assert!(!self_host("wss://example.com/ws", "change-moi").can_connect());
    assert!(!self_host("wss://example.com/ws", "   ").can_connect());
    assert!(!self_host("https://example.com/ws", "real").can_connect());
    assert!(self_host("  ws://10.0.0.2:9000/ws ", "real").can_connect());
}

#[test]
fn self_host_url_appends_encoded_token() {
    let c = self_host("ws://10.0.0.2:9000/ws", "a b&c");
    assert_eq!(
        c.websocket_url().unwrap(),
        "ws://10.0.0.2:9000/ws?token=a%20b%26c"
    );
    let c = self_host("wss://x.example/ws?room=1", "s3cret");
    assert_eq!(
        c.websocket_url().unwrap(),
        "wss://x.example/ws?room=1&token=s3cret"
    );
}

#[test]
fn non_ascii_secret_is_utf8_percent_encoded() {
    let c = self_host("ws://h/ws", "é");
    assert_eq!(c.websocket_url().unwrap(), "ws://h/ws?token=%C3%A9");
}

#[test]
fn hosted_url_uses_fixed_service() {
    let c = hosted(" tok-1 ", "1234");
    assert!(c.can_connect());
    assert_eq!(
        c.websocket_url().unwrap(),
        "wss://livechat.zaaap.it/ws?guild_id=1234&token=tok%2D1"
    );
}

#[test]
fn hosted_http_and_trailing_slashes() {
    let mut c = hosted("t", "g");
    c.hosted_server = " http://localhost:8080// ".into();
    assert_eq!(
        c.hosted_websocket_url().unwrap(),
        "ws://localhost:8080/ws?guild_id=g&token=t"
    );
    c.hosted_server = "ftp://x".into();
    assert_eq!(c.hosted_websocket_url(), None);
}

#[test]
fn hosted_without_session_cannot_connect() {
    assert!(!hosted("", "123").can_connect());
    assert!(!hosted("tok", "  ").can_connect());
    assert_eq!(hosted("tok", "").websocket_url(), None);
}

#[test]
fn normalize_forces_hosted_service() {
    let mut c = Config::default();
    c.hosted_server = "https://evil.example".into();
    c.secret = "kept".into();
    let n = normalize_config(c);
    assert_eq!(n.hosted_server, "https://livechat.zaaap.it");
    assert_eq!(n.secret, "kept");
}

#[test]
fn save_rejects_bad_address() {
    let r = prepare_saved_config(self_host("http://x/ws", "s"));
    assert_eq!(
        r.unwrap_err(),
        "L'adresse du serveur doit commencer par ws:// ou wss://"
    );
}

#[test]
fn save_rejects_blank_secret() {
    let r = prepare_saved_config(self_host("ws://x/ws", "  "));
    assert_eq!(r.unwrap_err(), "Le mot de passe partagé est vide.");
}

#[test]
fn save_rejects_incomplete_hosted() {
    let r = prepare_saved_config(hosted("tok", " "));
    assert_eq!(
        r.unwrap_err(),
        "Connecte Discord puis choisis un serveur avant d'enregistrer."
    );
}

#[test]
fn save_tidies_settings() {
    let mut c = self_host("  wss://x/ws  ", " pw ");
    c.connection_mode = "weird".into();
    c.position = "middle".into();
    c.icon_variant = "neon".into();
    c.hosted_server = "https://other".into();
    c.hosted_token = " t ".into();
    let p = prepare_saved_config(c).unwrap();
    assert_eq!(p.connection_mode, "self-host");
    assert_eq!(p.server, "wss://x/ws");
    assert_eq!(p.secret, "pw");
    assert_eq!(p.position, "center");
    assert_eq!(p.icon_variant, "color");
    assert_eq!(p.hosted_server, "https://livechat.zaaap.it");
    assert_eq!(p.hosted_token, "t");
}

#[test]
fn save_is_stable() {
    let mut c = hosted(" tok ", " 42 ");
    c.position = "top-left".into();
    c.icon_variant = "dark".into();
    let p = prepare_saved_config(c).unwrap();
    let q = prepare_saved_config(p.clone()).unwrap();
    assert_eq!(p.hosted_token, q.hosted_token);
    assert_eq!(p.hosted_guild_id, q.hosted_guild_id);
    assert_eq!(p.position, "top-left");
    assert_eq!(q.icon_variant, "dark");
    assert!(q.can_connect());
}

#[test]
fn reconnect_only_when_url_changes() {
    let a = self_host("ws://x/ws", "one");
    let mut b = self_host("ws://x/ws", "one");
    b.position = "top-right".into();
    assert!(!needs_reconnect(&a, &b));
    let c = self_host("ws://x/ws", "two");
    assert!(needs_reconnect(&a, &c));
}

#[test]
fn only_settings_window_is_trusted() {
    assert!(ensure_settings("settings").is_ok());
    assert_eq!(ensure_settings("main").unwrap_err(), "accès refusé");
}

#[test]
fn tray_icon_variants() {
    assert_eq!(tray_icon("dark"), TrayIcon::Dark);
    assert_eq!(tray_icon("light"), TrayIcon::Light);
    assert_eq!(tray_icon("color"), TrayIcon::Color);
    assert_eq!(tray_icon("purple"), TrayIcon::Color);
}

#[test]
fn render_default_config() {
    let text = render_config(&Config::default(), "8.0", "60.0", "0.5", "45.0");
    assert!(text.starts_with("# Configuration de l'overlay LiveChat.\n"));
    assert!(text.contains("\nconnection_mode = \"self-host\"\n"));
    assert!(text.contains("\nserver = \"\"\n"));
    assert!(text.contains("\nhosted_server = \"https://livechat.zaaap.it\"\n"));
    assert!(text.contains("\ndisplay_seconds = 8.0\n"));
    assert!(text.contains("\nvolume = 0.5\n"));
    assert!(text.ends_with("icon_variant = \"color\"\n"));
}

#[test]
fn render_quotes_special_strings() {
    let c = self_host("ws://x/ws", "a\"b");
    let text = render_config(&c, "1.0", "1.0", "1.0", "10.0");
    let line = text.lines().find(|l| l.starts_with("secret = ")).unwrap();
    assert_ne!(line, "secret = a\"b");
    assert!(line.len() > "secret = a\"b".len());
}

fn expect_read(a: LoadAction, i: usize) -> ConfigLoader {
    match a {
        LoadAction::Read { next, index } => {
            assert_eq!(index, i);
            next
        }
        _ => panic!("expected a read"),
    }
}

fn expect_write(a: LoadAction, j: usize) -> ConfigLoader {
    match a {
        LoadAction::Write { next, index } => {
            assert_eq!(index, j);
            next
        }
        _ => panic!("expected a write"),
    }
}

#[test]
fn loader_takes_first_readable_file() {
    let l = expect_read(ConfigLoader::start(3, 2), 0);
    let l = expect_read(l.step(LoadEvent::Unreadable), 1);
    let mut parsed = self_host("ws://x/ws", "pw");
    parsed.hosted_server = "https://elsewhere".into();
    match l.step(LoadEvent::Parsed(parsed)) {
        LoadAction::Finish(o) => {
            assert!(matches!(o.status, ConfigStatus::Loaded));
            assert_eq!(o.path, SavePath::Searched(1));
            assert_eq!(o.config.secret, "pw");
            assert_eq!(o.config.hosted_server, "https://livechat.zaaap.it");
            assert!(should_connect(&o.status, &o.config));
        }
        _ => panic!("expected the end"),
    }
}

#[test]
fn loader_reports_broken_file() {
    let l = expect_read(ConfigLoader::start(2, 1), 0);
    match l.step(LoadEvent::ParseFailed("bad".into())) {
        LoadAction::Finish(o) => {
            match &o.status {
                ConfigStatus::Invalid(e) => assert_eq!(e, "bad"),
                _ => panic!("expected invalid"),
            }
            assert_eq!(o.path, SavePath::Searched(0));
            assert_eq!(o.config.server, "");
            assert!(!should_connect(&o.status, &o.config));
        }
        _ => panic!("expected the end"),
    }
}

#[test]
fn loader_creates_template_when_nothing_exists() {
    let l = expect_read(ConfigLoader::start(1, 2), 0);
    let l = expect_write(l.step(LoadEvent::Unreadable), 0);
    let l = expect_write(l.step(LoadEvent::WriteFailed("denied".into())), 1);
    match l.step(LoadEvent::Written) {
        LoadAction::Finish(o) => {
            assert!(matches!(o.status, ConfigStatus::Created));
            assert_eq!(o.path, SavePath::Candidate(1));
        }
        _ => panic!("expected the end"),
    }
}

#[test]
fn loader_reports_last_write_error() {
    let l = expect_read(ConfigLoader::start(1, 2), 0);
    let l = expect_write(l.step(LoadEvent::Unreadable), 0);
    let l = expect_write(l.step(LoadEvent::WriteFailed("first".into())), 1);
    match l.step(LoadEvent::WriteFailed("second".into())) {
        LoadAction::Finish(o) => {
            match &o.status {
                ConfigStatus::CreateFailed(e) => assert_eq!(e, "second"),
                _ => panic!("expected a failure"),
            }
            assert_eq!(o.path, SavePath::Candidate(0));
        }
        _ => panic!("expected the end"),
    }
}

#[test]
fn loader_without_candidates_falls_back() {
    let l = expect_read(ConfigLoader::start(1, 0), 0);
    match l.step(LoadEvent::Unreadable) {
        LoadAction::Finish(o) => {
            assert!(matches!(o.status, ConfigStatus::CreateFailed(ref e) if e.is_empty()));
            assert_eq!(o.path, SavePath::Fallback);
        }
        _ => panic!("expected the end"),
    }
}

#[test]
fn loader_repeats_action_on_unrelated_event() {
    let l = expect_read(ConfigLoader::start(1, 1), 0);
    let l = expect_read(l.step(LoadEvent::Written), 0);
    let l = expect_write(l.step(LoadEvent::Unreadable), 0);
    let _ = expect_write(l.step(LoadEvent::Unreadable), 0);
}

#[test]
fn startup_report_texts() {
    assert_eq!(startup_report(&ConfigStatus::Loaded, "p"), (None, None));
    assert_eq!(
        startup_report(&ConfigStatus::Created, "C:\\cfg.toml"),
        (Some("config-created".to_string()), Some("C:\\cfg.toml".to_string()))
    );
    assert_eq!(
        startup_report(&ConfigStatus::Invalid("line 2".into()), "cfg.toml"),
        (
            Some("config-invalid".to_string()),
            Some("cfg.toml — line 2".to_string())
        )
    );
    assert_eq!(
        startup_report(&ConfigStatus::CreateFailed("denied".into()), "x"),
        (
            Some("config-create-failed".to_string()),
            Some("x — denied".to_string())
        )
    );
}

#[test]
fn created_config_does_not_connect() {
    assert!(!should_connect(&ConfigStatus::Created, &self_host("ws://x/ws", "pw")));
}

#[test]
fn test_media_is_encoded_svg() {
    let m = test_media();
    assert_eq!(m.kind, MediaKind::Image);
    assert_eq!(m.kind.name(), "image");
    assert!(m.url.starts_with("data:image/svg+xml,%3Csvg%20xmlns%3D%27http%3A%2F%2F"));
    assert!(!m.url.contains('<'));
    assert_eq!(m.filename, "test.svg");
    assert_eq!(m.sender, "Test local");
    assert_eq!(m.caption, "");
}

#[test]
fn layout_writes_values_as_given() {
    let q = Config {
        connection_mode: "M".into(),
        server: "S".into(),
        secret: "K".into(),
        position: "P".into(),
        icon_variant: "I".into(),
        hosted_server: "H".into(),
        hosted_token: "T".into(),
        hosted_guild_id: "G".into(),
    };
    let text = layout_config(&q, "1.0", "2.0", "0.3", "40.0");
    let expected = "# Configuration de l'overlay LiveChat.\n\
# Modifiable ici ou via la fenêtre Paramètres (icône de la zone de notification).\n\
\n\
# Mode de connexion : self-host ou hosted.\n\
connection_mode = M\n\
\n\
# Adresse du serveur self-host (wss://domaine/ws, ou ws://IP:9000/ws en local).\n\
server = S\n\
\n\
# Mot de passe partagé (le même que côté serveur).\n\
secret = K\n\
\n\
# Offre hébergée : service fixe (livechat.zaaap.it), session Discord et serveur choisi.\n\
hosted_server = H\n\
hosted_token = T\n\
hosted_guild_id = G\n\
\n\
# Durée d'affichage des images, en secondes.\n\
display_seconds = 1.0\n\
\n\
# Durée maximale des vidéos et des sons, en secondes.\n\
max_video_seconds = 2.0\n\
\n\
# Volume, de 0.0 (muet) à 1.0.\n\
volume = 0.3\n\
\n\
# Position : center, top-left, top-right, bottom-left ou bottom-right.\n\
position = P\n\
\n\
# Taille maximale du média, en % de l'écran.\n\
max_size_percent = 40.0\n\
\n\
# Icône de zone de notification : color, dark ou light.\n\
icon_variant = I\n";
    assert_eq!(text, expected);
}

#[test]
fn restart_advised_when_address_or_secret_changes() {
    let a = self_host("ws://x/ws", "one");
    let mut b = self_host("ws://x/ws", "one");
    b.position = "bottom-left".into();
    assert!(!restart_needed(&a, &b));
    assert!(restart_needed(&a, &self_host("ws://y/ws", "one")));
    assert!(restart_needed(&a, &self_host("ws://x/ws", "two")));
}

#[test]
fn link_opens_only_with_a_url() {
    assert!(Link::open(&hosted("", "")).is_none());
    let (link, url) = Link::open(&self_host("ws://x/ws", "pw")).unwrap();
    assert_eq!(url, "ws://x/ws?token=pw");
    assert_eq!(link.backoff_secs(), 2);
}
