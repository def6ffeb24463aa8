//! The overlay's connection settings: defaults, when a connection can be
//! attempted, the WebSocket URL it connects to, and the checks that a saved
//! configuration goes through.
use vstd::prelude::*;
use vstd::string::*;
use crate::encode::{percent_encode_text, percent_encoded_text, toml_quote, toml_string_literal};
use crate::text::{
    lemma_trim_idempotent, has_prefix, is_blank, owned, push, push_str, starts_with, str_eq, strip_prefix, strip_trailing,
    trim, trim_end, trim_end_char, trim_start, trim_str,
};

verus! {

/// The overlay's settings, but for the display durations, volume and size,
/// which are floating-point numbers and stay with the application.
#[derive(Clone, Debug)]
pub struct Config {
    /// `self-host` or `hosted`.
    pub connection_mode: String,
    /// Self-hosted server address, such as `wss://example.org/ws`.
    pub server: String,
    /// Shared password, the same as the server's.
    pub secret: String,
    /// `center`, `top-left`, `top-right`, `bottom-left` or `bottom-right`.
    pub position: String,
    /// Tray icon: `color`, `dark` or `light`.
    pub icon_variant: String,
    /// HTTPS base of the hosted service.
    pub hosted_server: String,
    /// Short Discord session of the hosted service.
    pub hosted_token: String,
    /// Discord guild chosen for the hosted service.
    pub hosted_guild_id: String,
}

/// The text of each setting.
pub struct ConfigView {
    pub connection_mode: Seq<char>,
    pub server: Seq<char>,
    pub secret: Seq<char>,
    pub position: Seq<char>,
    pub icon_variant: Seq<char>,
    pub hosted_server: Seq<char>,
    pub hosted_token: Seq<char>,
    pub hosted_guild_id: Seq<char>,
}

impl View for Config {
    type V = ConfigView;

    open spec fn view(&self) -> ConfigView {
        ConfigView {
            connection_mode: self.connection_mode@,
            server: self.server@,
            secret: self.secret@,
            position: self.position@,
            icon_variant: self.icon_variant@,
            hosted_server: self.hosted_server@,
            hosted_token: self.hosted_token@,
            hosted_guild_id: self.hosted_guild_id@,
        }
    }
}

/// The address of the hosted service, which is not configurable.
pub open spec fn hosted_service() -> Seq<char> {
    "https://livechat.zaaap.it"@
}

/// The value that the server's example configuration ships as its secret.
pub open spec fn placeholder_secret() -> Seq<char> {
    "change-moi"@
}

/// The settings of a fresh installation.
pub open spec fn default_view() -> ConfigView {
    ConfigView {
        connection_mode: "self-host"@,
        server: Seq::empty(),
        secret: Seq::empty(),
        position: "center"@,
        icon_variant: "color"@,
        hosted_server: hosted_service(),
        hosted_token: Seq::empty(),
        hosted_guild_id: Seq::empty(),
    }
}

/// Default tray icon variant.
pub fn default_icon_variant() -> (r: String)
    ensures
        r@ == "color"@,
{
    owned("color")
}

/// Default connection mode.
pub fn default_connection_mode() -> (r: String)
    ensures
        r@ == "self-host"@,
{
    owned("self-host")
}

/// Address of the hosted service.
pub fn default_hosted_server() -> (r: String)
    ensures
        r@ == hosted_service(),
{
    owned("https://livechat.zaaap.it")
}

impl Default for Config {
    fn default() -> (r: Config)
        ensures
            r@ == default_view(),
    {
        Config {
            connection_mode: default_connection_mode(),
            server: String::new(),
            secret: String::new(),
            position: owned("center"),
            icon_variant: default_icon_variant(),
            hosted_server: default_hosted_server(),
            hosted_token: String::new(),
            hosted_guild_id: String::new(),
        }
    }
}

/// The hosted WebSocket URL: `wss://` (or `ws://`) and the trimmed service
/// address without trailing slashes, then `/ws?guild_id=` and `&token=` with
/// the trimmed, percent-encoded guild and session; none when the session or
/// the guild is blank or the address is neither `https://` nor `http://`.
pub open spec fn hosted_url(v: ConfigView) -> Option<Seq<char>> {
    let server = strip_trailing(trim(v.hosted_server), '/');
    let guild = trim(v.hosted_guild_id);
    let token = trim(v.hosted_token);
    let query = "/ws?guild_id="@ + percent_encoded_text(guild) + "&token="@ + percent_encoded_text(
        token,
    );
    if token.len() == 0 || guild.len() == 0 {
        None
    } else if has_prefix(server, "https://"@) {
        Some("wss://"@ + server.subrange("https://"@.len() as int, server.len() as int) + query)
    } else if has_prefix(server, "http://"@) {
        Some("ws://"@ + server.subrange("http://"@.len() as int, server.len() as int) + query)
    } else {
        None
    }
}

/// The URL the overlay connects to: the hosted one in hosted mode, else the
/// server address followed by `?token=` (or `&token=` when the address
/// already has a query) and the percent-encoded secret.
pub open spec fn websocket_url(v: ConfigView) -> Option<Seq<char>> {
    if v.connection_mode == "hosted"@ {
        hosted_url(v)
    } else {
        let sep = if v.server.contains('?') {
            '&'
        } else {
            '?'
        };
        Some(v.server.push(sep) + "token="@ + percent_encoded_text(v.secret))
    }
}

/// Whether a connection can be attempted: in hosted mode, when the hosted URL
/// exists; otherwise when the trimmed secret is not blank, the secret is not
/// the placeholder, and the trimmed address starts with `ws://` or `wss://`.
pub open spec fn can_connect(v: ConfigView) -> bool {
    if v.connection_mode == "hosted"@ {
        hosted_url(v) is Some
    } else {
        let server = trim(v.server);
        &&& trim(v.secret).len() > 0
        &&& v.secret != placeholder_secret()
        &&& (has_prefix(server, "ws://"@) || has_prefix(server, "wss://"@))
    }
}

/// The view of an optional string.
pub open spec fn opt_view(o: Option<String>) -> Option<Seq<char>> {
    match o {
        Some(s) => Some(s@),
        None => None,
    }
}

impl Config {
    /// Whether a connection can be attempted with these settings.
    pub fn can_connect(&self) -> (r: bool)
        ensures
            r == can_connect(self@),
    {
        if str_eq(self.connection_mode.as_str(), "hosted") {
            self.hosted_websocket_url().is_some()
        } else {
            let server = trim_str(self.server.as_str());
            !is_blank(self.secret.as_str()) && !str_eq(self.secret.as_str(), "change-moi") && (
            starts_with(server.as_str(), "ws://") || starts_with(server.as_str(), "wss://"))
        }
    }

    /// The hosted WebSocket URL, when the hosted settings allow one.
    pub fn hosted_websocket_url(&self) -> (r: Option<String>)
        ensures
            opt_view(r) == hosted_url(self@),
    {
        let trimmed = trim_str(self.hosted_server.as_str());
        let server = trim_end_char(trimmed.as_str(), '/');
        if is_blank(self.hosted_token.as_str()) || is_blank(self.hosted_guild_id.as_str()) {
            return None;
        }
        let mut url = match strip_prefix(server.as_str(), "https://") {
            Some(rest) => {
                let mut u = owned("wss://");
                push_str(&mut u, rest.as_str());
                u
            },
            None => match strip_prefix(server.as_str(), "http://") {
                Some(rest) => {
                    let mut u = owned("ws://");
                    push_str(&mut u, rest.as_str());
                    u
                },
                None => {
                    return None;
                },
            },
        };
        let guild = trim_str(self.hosted_guild_id.as_str());
        let token = trim_str(self.hosted_token.as_str());
        let guild_enc = percent_encode_text(guild.as_str());
        let token_enc = percent_encode_text(token.as_str());
        push_str(&mut url, "/ws?guild_id=");
        push_str(&mut url, guild_enc.as_str());
        push_str(&mut url, "&token=");
        push_str(&mut url, token_enc.as_str());
        Some(url)
    }

    /// The URL to connect to.
    pub fn websocket_url(&self) -> (r: Option<String>)
        ensures
            opt_view(r) == websocket_url(self@),
    {
        if str_eq(self.connection_mode.as_str(), "hosted") {
            return self.hosted_websocket_url();
        }
        let token = percent_encode_text(self.secret.as_str());
        let sep = if crate::text::contains_char(self.server.as_str(), '?') {
            '&'
        } else {
            '?'
        };
        let mut url = owned(self.server.as_str());
        push(&mut url, sep);
        push_str(&mut url, "token=");
        push_str(&mut url, token.as_str());
        Some(url)
    }
}


// ---------------------------------------------------------------- saving

/// Known screen positions.
pub open spec fn is_position(s: Seq<char>) -> bool {
    ||| s == "center"@
    ||| s == "top-left"@
    ||| s == "top-right"@
    ||| s == "bottom-left"@
    ||| s == "bottom-right"@
}

/// Known tray icon variants.
pub open spec fn is_icon_variant(s: Seq<char>) -> bool {
    s == "color"@ || s == "dark"@ || s == "light"@
}

/// Known connection modes.
pub open spec fn is_connection_mode(s: Seq<char>) -> bool {
    s == "self-host"@ || s == "hosted"@
}

/// Refusal of a self-hosted address that is not a WebSocket URL.
pub open spec fn bad_address_msg() -> Seq<char> {
    "L'adresse du serveur doit commencer par ws:// ou wss://"@
}

/// Refusal of a blank shared password.
pub open spec fn blank_secret_msg() -> Seq<char> {
    "Le mot de passe partagé est vide."@
}

/// Refusal of hosted settings without a session or guild.
pub open spec fn hosted_incomplete_msg() -> Seq<char> {
    "Connecte Discord puis choisis un serveur avant d'enregistrer."@
}

/// What saving the settings `v` keeps, or why it refuses them: an unknown
/// mode becomes `self-host`; the address, secret, session and guild are
/// trimmed; the hosted address is the fixed service; a self-hosted address
/// must start with `ws://` or `wss://` and the secret must not be blank; a
/// hosted session and guild must not be blank; an unknown position becomes
/// `center` and an unknown icon variant `color`.
pub open spec fn saved(v: ConfigView) -> Result<ConfigView, Seq<char>> {
    let mode = if is_connection_mode(v.connection_mode) {
        v.connection_mode
    } else {
        "self-host"@
    };
    let server = trim(v.server);
    let secret = trim(v.secret);
    let token = trim(v.hosted_token);
    let guild = trim(v.hosted_guild_id);
    if mode == "self-host"@ && !(has_prefix(server, "ws://"@) || has_prefix(server, "wss://"@)) {
        Err(bad_address_msg())
    } else if mode == "self-host"@ && secret.len() == 0 {
        Err(blank_secret_msg())
    } else if mode != "self-host"@ && (token.len() == 0 || guild.len() == 0) {
        Err(hosted_incomplete_msg())
    } else {
        Ok(
            ConfigView {
                connection_mode: mode,
                server,
                secret,
                position: if is_position(v.position) {
                    v.position
                } else {
                    "center"@
                },
                icon_variant: if is_icon_variant(v.icon_variant) {
                    v.icon_variant
                } else {
                    "color"@
                },
                hosted_server: hosted_service(),
                hosted_token: token,
                hosted_guild_id: guild,
            },
        )
    }
}

/// The view of a result that carries settings or a message.
pub open spec fn saved_view(r: Result<Config, String>) -> Result<ConfigView, Seq<char>> {
    match r {
        Ok(c) => Ok(c@),
        Err(e) => Err(e@),
    }
}

fn is_position_str(s: &str) -> (r: bool)
    ensures
        r == is_position(s@),
{
    str_eq(s, "center") || str_eq(s, "top-left") || str_eq(s, "top-right") || str_eq(
        s,
        "bottom-left",
    ) || str_eq(s, "bottom-right")
}

fn is_icon_variant_str(s: &str) -> (r: bool)
    ensures
        r == is_icon_variant(s@),
{
    str_eq(s, "color") || str_eq(s, "dark") || str_eq(s, "light")
}

/// Checks and tidies settings about to be saved from the settings window;
/// the display numbers are clamped by the caller.
pub fn prepare_saved_config(new_config: Config) -> (r: Result<Config, String>)
    ensures
        saved_view(r) == saved(new_config@),
{
    let c = new_config;
    let mode = if str_eq(c.connection_mode.as_str(), "self-host") || str_eq(
        c.connection_mode.as_str(),
        "hosted",
    ) {
        c.connection_mode
    } else {
        default_connection_mode()
    };
    let server = trim_str(c.server.as_str());
    let secret = trim_str(c.secret.as_str());
    let token = trim_str(c.hosted_token.as_str());
    let guild = trim_str(c.hosted_guild_id.as_str());
    let self_host = str_eq(mode.as_str(), "self-host");
    if self_host {
        if !(starts_with(server.as_str(), "ws://") || starts_with(server.as_str(), "wss://")) {
            return Err(owned("L'adresse du serveur doit commencer par ws:// ou wss://"));
        }
        if secret.as_str().is_empty() {
            return Err(owned("Le mot de passe partagé est vide."));
        }
    } else if token.as_str().is_empty() || guild.as_str().is_empty() {
        return Err(owned("Connecte Discord puis choisis un serveur avant d'enregistrer."));
    }
    let position = if is_position_str(c.position.as_str()) {
        c.position
    } else {
        owned("center")
    };
    let icon_variant = if is_icon_variant_str(c.icon_variant.as_str()) {
        c.icon_variant
    } else {
        default_icon_variant()
    };
    Ok(
        Config {
            connection_mode: mode,
            server,
            secret,
            position,
            icon_variant,
            hosted_server: default_hosted_server(),
            hosted_token: token,
            hosted_guild_id: guild,
        },
    )
}

/// Settings as loaded from disk: the hosted address is always the fixed
/// service.
pub fn normalize_config(c: Config) -> (r: Config)
    ensures
        r@ == (ConfigView { hosted_server: hosted_service(), ..c@ }),
{
    let mut c = c;
    c.hosted_server = default_hosted_server();
    c
}

fn same_url(a: &Option<String>, b: &Option<String>) -> (r: bool)
    ensures
        r == (opt_view(*a) == opt_view(*b)),
{
    match (a, b) {
        (Some(x), Some(y)) => str_eq(x.as_str(), y.as_str()),
        (None, None) => true,
        _ => false,
    }
}

/// Whether replacing `old` by `new` changes the URL to connect to, so that the
/// connection must be replaced.
pub fn needs_reconnect(old: &Config, new: &Config) -> (r: bool)
    ensures
        r == (websocket_url(old@) != websocket_url(new@)),
{
    let a = old.websocket_url();
    let b = new.websocket_url();
    !same_url(&a, &b)
}

/// What saving answers the settings window: a restart is advised when the
/// server address or the secret changed.
pub fn restart_needed(old: &Config, new: &Config) -> (r: bool)
    ensures
        r == (old.server@ != new.server@ || old.secret@ != new.secret@),
{
    !str_eq(old.server.as_str(), new.server.as_str()) || !str_eq(
        old.secret.as_str(),
        new.secret.as_str(),
    )
}

/// The refusal that a window other than the settings window gets.
pub open spec fn denied_msg() -> Seq<char> {
    "accès refusé"@
}

/// Only the window labelled `settings` may call the commands that show the
/// secret, write to disk or restart the application.
pub fn ensure_settings(label: &str) -> (r: Result<(), String>)
    ensures
        r is Ok <==> label@ == "settings"@,
        r matches Err(e) ==> e@ == denied_msg(),
{
    if str_eq(label, "settings") {
        Ok(())
    } else {
        Err(owned("accès refusé"))
    }
}

/// The tray icon picture.
#[derive(PartialEq, Eq, Structural, Clone, Copy, Debug)]
pub enum TrayIcon {
    Color,
    Dark,
    Light,
}

/// The tray icon for a variant: `dark` and `light` have their own picture,
/// every other value shows the colour one.
pub fn tray_icon(variant: &str) -> (r: TrayIcon)
    ensures
        r == (if variant@ == "dark"@ {
            TrayIcon::Dark
        } else if variant@ == "light"@ {
            TrayIcon::Light
        } else {
            TrayIcon::Color
        }),
{
    if str_eq(variant, "dark") {
        TrayIcon::Dark
    } else if str_eq(variant, "light") {
        TrayIcon::Light
    } else {
        TrayIcon::Color
    }
}

// ---------------------------------------------------------------- config.toml

/// The lines of `config.toml` before the connection mode.
pub const RENDER_HEAD: &'static str = "# Configuration de l'overlay LiveChat.\n# Modifiable ici ou via la fenêtre Paramètres (icône de la zone de notification).\n\n# Mode de connexion : self-host ou hosted.\nconnection_mode = ";
/// Before the server address.
pub const RENDER_SERVER: &'static str = "\n\n# Adresse du serveur self-host (wss://domaine/ws, ou ws://IP:9000/ws en local).\nserver = ";
/// Before the secret.
pub const RENDER_SECRET: &'static str = "\n\n# Mot de passe partagé (le même que côté serveur).\nsecret = ";
/// Before the hosted address.
pub const RENDER_HOSTED: &'static str = "\n\n# Offre hébergée : service fixe (livechat.zaaap.it), session Discord et serveur choisi.\nhosted_server = ";
/// Before the hosted session.
pub const RENDER_TOKEN: &'static str = "\nhosted_token = ";
/// Before the hosted guild.
pub const RENDER_GUILD: &'static str = "\nhosted_guild_id = ";
/// Before the image display duration.
pub const RENDER_DISPLAY: &'static str = "\n\n# Durée d'affichage des images, en secondes.\ndisplay_seconds = ";
/// Before the video duration.
pub const RENDER_VIDEO: &'static str = "\n\n# Durée maximale des vidéos et des sons, en secondes.\nmax_video_seconds = ";
/// Before the volume.
pub const RENDER_VOLUME: &'static str = "\n\n# Volume, de 0.0 (muet) à 1.0.\nvolume = ";
/// Before the position.
pub const RENDER_POSITION: &'static str = "\n\n# Position : center, top-left, top-right, bottom-left ou bottom-right.\nposition = ";
/// Before the media size.
pub const RENDER_SIZE: &'static str = "\n\n# Taille maximale du média, en % de l'écran.\nmax_size_percent = ";
/// Before the icon variant.
pub const RENDER_ICON: &'static str = "\n\n# Icône de zone de notification : color, dark ou light.\nicon_variant = ";

/// The commented `config.toml` whose values are the texts of `q`, written
/// as they stand, and the four display numbers.
pub open spec fn laid_out(
    q: ConfigView,
    display: Seq<char>,
    video: Seq<char>,
    volume: Seq<char>,
    size: Seq<char>,
) -> Seq<char> {
    RENDER_HEAD@ + q.connection_mode + RENDER_SERVER@ + q.server + RENDER_SECRET@ + q.secret
        + RENDER_HOSTED@ + q.hosted_server + RENDER_TOKEN@ + q.hosted_token + RENDER_GUILD@
        + q.hosted_guild_id + RENDER_DISPLAY@ + display + RENDER_VIDEO@ + video + RENDER_VOLUME@
        + volume + RENDER_POSITION@ + q.position + RENDER_SIZE@ + size + RENDER_ICON@
        + q.icon_variant + "\n"@
}

/// Every setting as a TOML string literal.
pub open spec fn quoted(v: ConfigView) -> ConfigView {
    ConfigView {
        connection_mode: toml_string_literal(v.connection_mode),
        server: toml_string_literal(v.server),
        secret: toml_string_literal(v.secret),
        position: toml_string_literal(v.position),
        icon_variant: toml_string_literal(v.icon_variant),
        hosted_server: toml_string_literal(v.hosted_server),
        hosted_token: toml_string_literal(v.hosted_token),
        hosted_guild_id: toml_string_literal(v.hosted_guild_id),
    }
}

/// The commented `config.toml` for the settings `v`, with the four display
/// numbers already written as `display`, `video`, `volume` and `size`.
pub open spec fn rendered(
    v: ConfigView,
    display: Seq<char>,
    video: Seq<char>,
    volume: Seq<char>,
    size: Seq<char>,
) -> Seq<char> {
    laid_out(quoted(v), display, video, volume, size)
}

/// Lays out `config.toml` from settings already written as TOML values
/// (`q`) and the display numbers.
pub fn layout_config(
    q: &Config,
    display_seconds: &str,
    max_video_seconds: &str,
    volume: &str,
    max_size_percent: &str,
) -> (r: String)
    ensures
        r@ == laid_out(q@, display_seconds@, max_video_seconds@, volume@, max_size_percent@),
{
    let mut out = owned(RENDER_HEAD);
    push_str(&mut out, q.connection_mode.as_str());
    push_str(&mut out, RENDER_SERVER);
    push_str(&mut out, q.server.as_str());
    push_str(&mut out, RENDER_SECRET);
    push_str(&mut out, q.secret.as_str());
    push_str(&mut out, RENDER_HOSTED);
    push_str(&mut out, q.hosted_server.as_str());
    push_str(&mut out, RENDER_TOKEN);
    push_str(&mut out, q.hosted_token.as_str());
    push_str(&mut out, RENDER_GUILD);
    push_str(&mut out, q.hosted_guild_id.as_str());
    push_str(&mut out, RENDER_DISPLAY);
    push_str(&mut out, display_seconds);
    push_str(&mut out, RENDER_VIDEO);
    push_str(&mut out, max_video_seconds);
    push_str(&mut out, RENDER_VOLUME);
    push_str(&mut out, volume);
    push_str(&mut out, RENDER_POSITION);
    push_str(&mut out, q.position.as_str());
    push_str(&mut out, RENDER_SIZE);
    push_str(&mut out, max_size_percent);
    push_str(&mut out, RENDER_ICON);
    push_str(&mut out, q.icon_variant.as_str());
    push_str(&mut out, "\n");
    out
}

/// Writes the settings as a commented `config.toml`; the display numbers
/// come already written in Rust's `{:?}` form of their `f64` values.
pub fn render_config(
    c: &Config,
    display_seconds: &str,
    max_video_seconds: &str,
    volume: &str,
    max_size_percent: &str,
) -> (r: String)
    ensures
        r@ == rendered(c@, display_seconds@, max_video_seconds@, volume@, max_size_percent@),
{
    let q = Config {
        connection_mode: toml_quote(c.connection_mode.as_str()),
        server: toml_quote(c.server.as_str()),
        secret: toml_quote(c.secret.as_str()),
        position: toml_quote(c.position.as_str()),
        icon_variant: toml_quote(c.icon_variant.as_str()),
        hosted_server: toml_quote(c.hosted_server.as_str()),
        hosted_token: toml_quote(c.hosted_token.as_str()),
        hosted_guild_id: toml_quote(c.hosted_guild_id.as_str()),
    };
    layout_config(&q, display_seconds, max_video_seconds, volume, max_size_percent)
}

// ---------------------------------------------------------------- laws

/// Saving is stable: settings that saving kept are kept unchanged when they
/// are saved again.
pub proof fn lemma_saved_is_stable(v: ConfigView)
    requires
        saved(v) is Ok,
    ensures
        saved(saved(v)->Ok_0) == saved(v),
{
    let p = saved(v)->Ok_0;
    lemma_trim_idempotent(v.server);
    lemma_trim_idempotent(v.secret);
    lemma_trim_idempotent(v.hosted_token);
    lemma_trim_idempotent(v.hosted_guild_id);
    assert(saved(p) =~= saved(v));
}

/// Settings that saving kept can connect, unless their secret is the
/// placeholder that the server refuses too.
pub proof fn lemma_saved_can_connect(v: ConfigView)
    requires
        saved(v) is Ok,
        saved(v)->Ok_0.secret != placeholder_secret(),
    ensures
        can_connect(saved(v)->Ok_0),
{
    let p = saved(v)->Ok_0;
    reveal_strlit("hosted");
    reveal_strlit("self-host");
    reveal_strlit("https://livechat.zaaap.it");
    reveal_strlit("https://");
    assert("hosted"@ != "self-host"@) by {
        assert("hosted"@.len() != "self-host"@.len());
    }
    lemma_trim_idempotent(v.server);
    lemma_trim_idempotent(v.secret);
    lemma_trim_idempotent(v.hosted_token);
    lemma_trim_idempotent(v.hosted_guild_id);
    if p.connection_mode == "hosted"@ {
        let h = hosted_service();
        assert(!crate::text::is_ws(h[0]));
        assert(trim_start(h) == h);
        assert(!crate::text::is_ws(h.last()));
        assert(trim_end(h) == h);
        assert(strip_trailing(h, '/') == h);
        assert(has_prefix(h, "https://"@)) by {
            assert(h.subrange(0, 8) =~= "https://"@);
        }
        assert(trim(p.hosted_token).len() > 0);
        assert(trim(p.hosted_guild_id).len() > 0);
        assert(hosted_url(p) is Some);
    } else {
        assert(p.connection_mode == "self-host"@);
        assert(trim(p.secret).len() > 0);
        assert(has_prefix(trim(p.server), "ws://"@) || has_prefix(trim(p.server), "wss://"@));
    }
}

/// Changing only the display settings (position, icon) keeps the
/// connection: two settings that agree on everything the URL is made of
/// need no reconnection.
pub proof fn lemma_display_changes_keep_connection(old: ConfigView, new: ConfigView)
    requires
        old.connection_mode == new.connection_mode,
        old.server == new.server,
        old.secret == new.secret,
        old.hosted_server == new.hosted_server,
        old.hosted_token == new.hosted_token,
        old.hosted_guild_id == new.hosted_guild_id,
    ensures
        websocket_url(old) == websocket_url(new),
{
}

/// Saving keeps every documented choice: a position among center,
/// top-left, top-right, bottom-left and bottom-right, an icon among color,
/// dark and light, and a mode among self-host and hosted stay as chosen;
/// only other values fall back to center, color and self-host.
pub proof fn lemma_saving_keeps_documented_choices(v: ConfigView)
    requires
        saved(v) is Ok,
    ensures
        ({
            let p = saved(v)->Ok_0;
            &&& (v.position == "center"@ || v.position == "top-left"@ || v.position == "top-right"@
                || v.position == "bottom-left"@ || v.position == "bottom-right"@) ==> p.position
                == v.position
            &&& (v.icon_variant == "color"@ || v.icon_variant == "dark"@ || v.icon_variant
                == "light"@) ==> p.icon_variant == v.icon_variant
            &&& (v.connection_mode == "self-host"@ || v.connection_mode == "hosted"@)
                ==> p.connection_mode == v.connection_mode
            &&& !(v.position == "center"@ || v.position == "top-left"@ || v.position
                == "top-right"@ || v.position == "bottom-left"@ || v.position == "bottom-right"@)
                ==> p.position == "center"@
            &&& !(v.icon_variant == "color"@ || v.icon_variant == "dark"@ || v.icon_variant
                == "light"@) ==> p.icon_variant == "color"@
            &&& !(v.connection_mode == "self-host"@ || v.connection_mode == "hosted"@)
                ==> p.connection_mode == "self-host"@
        }),
{
}

} // verus!
