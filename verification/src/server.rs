//! The relay server's settings and decisions: the Discord channel id, the
//! settings from environment variables, the start-up checks, who may
//! subscribe, and the per-overlay send loop.
use vstd::prelude::*;
use crate::config::placeholder_secret;
use crate::text::{chars_of, is_blank, owned, push_str, str_eq, trim, trim_str};

verus! {

/// The server's settings.
pub struct Config {
    /// Bot token from the Discord developer portal.
    pub discord_token: String,
    /// The channel to listen to.
    pub channel_id: u64,
    /// Address the WebSocket server listens on.
    pub bind: String,
    /// Password shared with the overlays.
    pub secret: String,
    /// Public URL of the server; when set, YouTube links are downloaded and
    /// served under it.
    pub public_url: Option<String>,
}

/// Default listening address of the configuration file.
pub fn default_bind() -> (r: String)
    ensures
        r@ == "0.0.0.0:9000"@,
{
    owned("0.0.0.0:9000")
}

// ---------------------------------------------------------------- integers

/// Why a decimal integer did not parse, as `core::num::IntErrorKind` says.
#[derive(PartialEq, Eq, Structural, Clone, Copy, Debug)]
pub enum IntError {
    /// The text is empty.
    Empty,
    /// A character is not a digit.
    InvalidDigit,
    /// The value is larger than `u64::MAX`.
    PosOverflow,
}

/// The message that `ParseIntError` displays for each kind.
pub open spec fn int_error_message(e: IntError) -> Seq<char> {
    match e {
        IntError::Empty => "cannot parse integer from empty string"@,
        IntError::InvalidDigit => "invalid digit found in string"@,
        IntError::PosOverflow => "number too large to fit in target type"@,
    }
}

impl IntError {
    /// The displayed message.
    pub fn describe(&self) -> (r: &'static str)
        ensures
            r@ == int_error_message(*self),
    {
        match self {
            IntError::Empty => "cannot parse integer from empty string",
            IntError::InvalidDigit => "invalid digit found in string",
            IntError::PosOverflow => "number too large to fit in target type",
        }
    }
}

/// Reading the digits `ds` left to right: the value so far, or the first
/// failure (a non-digit, or a value beyond `u64::MAX`).
pub open spec fn read_digits(ds: Seq<char>) -> Result<u64, IntError>
    decreases ds.len(),
{
    if ds.len() == 0 {
        Ok(0)
    } else {
        match read_digits(ds.drop_last()) {
            Err(e) => Err(e),
            Ok(n) => {
                let c = ds.last();
                if !('0' <= c <= '9') {
                    Err(IntError::InvalidDigit)
                } else if n * 10 + (c as u32 - '0' as u32) > u64::MAX {
                    Err(IntError::PosOverflow)
                } else {
                    Ok((n * 10 + (c as u32 - '0' as u32)) as u64)
                }
            },
        }
    }
}

/// What `str::parse::<u64>` returns: empty text is `Empty`; a lone sign is
/// an invalid digit; one leading `+` is allowed; then the digits are read.
pub open spec fn decimal_u64(s: Seq<char>) -> Result<u64, IntError> {
    if s.len() == 0 {
        Err(IntError::Empty)
    } else if s.len() == 1 && (s[0] == '+' || s[0] == '-') {
        Err(IntError::InvalidDigit)
    } else if s[0] == '+' {
        read_digits(s.drop_first())
    } else {
        read_digits(s)
    }
}

/// `str::parse::<u64>`.
pub fn parse_u64(s: &str) -> (r: Result<u64, IntError>)
    ensures
        r == decimal_u64(s@),
{
    let v = chars_of(s);
    if v.len() == 0 {
        return Err(IntError::Empty);
    }
    if v.len() == 1 && (v[0] == '+' || v[0] == '-') {
        return Err(IntError::InvalidDigit);
    }
    let start: usize = if v[0] == '+' {
        1
    } else {
        0
    };
    let ghost ds = v@.subrange(start as int, v.len() as int);
    assert(start == 1 ==> ds =~= s@.drop_first());
    assert(start == 0 ==> ds =~= s@);
    let mut n: u64 = 0;
    let mut i: usize = start;
    assert(v@.subrange(start as int, start as int) =~= Seq::<char>::empty());
    while i < v.len()
        invariant
            start <= i <= v.len(),
            ds == v@.subrange(start as int, v.len() as int),
            read_digits(v@.subrange(start as int, i as int)) == Ok::<u64, IntError>(n),
            decimal_u64(s@) == read_digits(ds),
        decreases v.len() - i,
    {
        let c = v[i];
        let ghost pre = v@.subrange(start as int, i as int);
        let ghost cur = v@.subrange(start as int, i + 1);
        assert(cur.drop_last() =~= pre);
        assert(cur.last() == c);
        assert(ds.subrange(0, (i - start) + 1) =~= cur);
        if !('0' <= c && c <= '9') {
            assert(read_digits(cur) == Err::<u64, IntError>(IntError::InvalidDigit));
            proof {
                lemma_read_digits_stops(ds, (i - start) as int);
            }
            return Err(IntError::InvalidDigit);
        }
        let d = ((c as u32) - ('0' as u32)) as u64;
        assert(d == c as u32 - '0' as u32);
        if n > 1844674407370955161 || (n == 1844674407370955161 && d > 5) {
            assert(n * 10 + d > u64::MAX) by (nonlinear_arith)
                requires
                    n > 1844674407370955161 || (n == 1844674407370955161 && d > 5),
            ;
            assert(read_digits(cur) == Err::<u64, IntError>(IntError::PosOverflow));
            proof {
                lemma_read_digits_stops(ds, (i - start) as int);
            }
            return Err(IntError::PosOverflow);
        }
        assert(n * 10 + d <= u64::MAX) by (nonlinear_arith)
            requires
                !(n > 1844674407370955161 || (n == 1844674407370955161 && d > 5)),
                d <= 9,
        ;
        n = n * 10 + d;
        i = i + 1;
    }
    assert(v@.subrange(start as int, v.len() as int) == ds);
    Ok(n)
}

/// Once reading the first `k + 1` digits fails, reading them all fails the
/// same way.
proof fn lemma_read_digits_stops(ds: Seq<char>, k: int)
    requires
        0 <= k < ds.len(),
        read_digits(ds.subrange(0, k + 1)) is Err,
    ensures
        read_digits(ds) == read_digits(ds.subrange(0, k + 1)),
    decreases ds.len(),
{
    if k + 1 < ds.len() {
        assert(ds.drop_last().subrange(0, k + 1) =~= ds.subrange(0, k + 1));
        lemma_read_digits_stops(ds.drop_last(), k);
    } else {
        assert(ds.subrange(0, k + 1) =~= ds);
    }
}

// ---------------------------------------------------------------- channel id

/// A `channel_id` as written in `config.toml`: a number or a string.
pub enum RawChannelId {
    Num(u64),
    Str(String),
}

/// Prefix of the error for a `channel_id` string that is not a number.
pub open spec fn bad_channel_prefix() -> Seq<char> {
    "channel_id invalide : "@
}

/// Discord ids are large, so `channel_id` is accepted as a number or as a
/// string holding one (trimmed); a string that does not parse is refused with
/// the parse error.
pub open spec fn channel_id_of(raw_num: Option<u64>, raw_str: Seq<char>) -> Result<u64, Seq<char>> {
    match raw_num {
        Some(n) => Ok(n),
        None => match decimal_u64(trim(raw_str)) {
            Ok(n) => Ok(n),
            Err(e) => Err(bad_channel_prefix() + int_error_message(e)),
        },
    }
}

/// The channel id from its `config.toml` form.
pub fn channel_id_from_raw(raw: RawChannelId) -> (r: Result<u64, String>)
    ensures
        match raw {
            RawChannelId::Num(n) => r == Ok::<u64, String>(n),
            RawChannelId::Str(s) => match channel_id_of(None, s@) {
                Ok(n) => r == Ok::<u64, String>(n),
                Err(m) => r matches Err(e) && e@ == m,
            },
        },
{
    match raw {
        RawChannelId::Num(n) => Ok(n),
        RawChannelId::Str(s) => {
            let t = trim_str(s.as_str());
            match parse_u64(t.as_str()) {
                Ok(n) => Ok(n),
                Err(e) => {
                    let mut m = owned("channel_id invalide : ");
                    push_str(&mut m, e.describe());
                    Err(m)
                },
            }
        },
    }
}

/// The decimal digits of `n`, without sign or leading zeros.
pub open spec fn decimal(n: nat) -> Seq<char>
    decreases n,
{
    if n < 10 {
        seq![(n + '0' as u32) as char]
    } else {
        decimal(n / 10).push(((n % 10) + '0' as u32) as char)
    }
}

proof fn lemma_read_decimal(n: nat)
    requires
        n <= u64::MAX,
    ensures
        read_digits(decimal(n)) == Ok::<u64, IntError>(n as u64),
        decimal(n).len() > 0,
        forall|i: int| 0 <= i < decimal(n).len() ==> '0' <= #[trigger] decimal(n)[i] <= '9',
    decreases n,
{
    let c = decimal(n).last();
    assert(c as u32 == n % 10 + '0' as u32);
    if n < 10 {
        assert(decimal(n).drop_last() =~= Seq::<char>::empty());
        assert('0' <= c <= '9');
    } else {
        lemma_read_decimal(n / 10);
        assert(decimal(n).drop_last() =~= decimal(n / 10));
        assert((n / 10) * 10 + n % 10 == n) by (nonlinear_arith);
        assert('0' <= c <= '9');
        assert((n / 10) * 10 + (c as u32 - '0' as u32) == n);
        assert(read_digits(decimal(n).drop_last()) == Ok::<u64, IntError>((n / 10) as u64));
    }
}

/// The two forms of `channel_id` agree: a string holding the decimal digits
/// of a number gives that number, as the number itself does.
pub proof fn lemma_channel_id_forms_agree(n: u64)
    ensures
        channel_id_of(None, decimal(n as nat)) == channel_id_of(Some(n), Seq::empty()),
{
    let d = decimal(n as nat);
    lemma_read_decimal(n as nat);
    assert(!crate::text::is_ws(d[0]));
    assert(crate::text::trim_start(d) == d);
    assert(!crate::text::is_ws(d.last()));
    assert(crate::text::trim_end(d) == d);
    assert(d[0] != '+' && d[0] != '-');
}

// ---------------------------------------------------------------- environment

/// The error listing missing variables, in the order `DISCORD_TOKEN`,
/// `CHANNEL_ID`, `SECRET`, separated by `, `.
pub open spec fn missing_message(token: bool, channel: bool, secret: bool) -> Seq<char> {
    let names = seq!["DISCORD_TOKEN"@, "CHANNEL_ID"@, "SECRET"@];
    let present = seq![token, channel, secret];
    "Variables d'environnement manquantes : "@ + join_missing(names, present)
}

/// The names whose flag is false, joined by `, `.
pub open spec fn join_missing(names: Seq<Seq<char>>, present: Seq<bool>) -> Seq<char>
    decreases names.len(),
{
    if names.len() == 0 || present.len() == 0 {
        Seq::empty()
    } else {
        let rest = join_missing(names.drop_first(), present.drop_first());
        if present[0] {
            rest
        } else if rest.len() == 0 {
            names[0]
        } else {
            names[0] + ", "@ + rest
        }
    }
}

/// Settings from the environment (`DISCORD_TOKEN`, `CHANNEL_ID`, `SECRET`,
/// `BIND` or `PORT`, and `PUBLIC_URL`): none when none of the first three
/// is set; an error naming the missing ones when only some are; an error
/// when `CHANNEL_ID`, trimmed, is not a number; else the settings, listening
/// on `BIND`, or on `0.0.0.0:` and `PORT` (by default `3000`), with
/// `PUBLIC_URL` as the public URL when it is set.
pub open spec fn env_config(
    token: Option<Seq<char>>,
    channel: Option<Seq<char>>,
    secret: Option<Seq<char>>,
    bind: Option<Seq<char>>,
    port: Option<Seq<char>>,
    public_url: Option<Seq<char>>,
) -> Result<Option<(Seq<char>, u64, Seq<char>, Seq<char>, Option<Seq<char>>)>, Seq<char>> {
    if token is None && channel is None && secret is None {
        Ok(None)
    } else if token is None || channel is None || secret is None {
        Err(missing_message(token is Some, channel is Some, secret is Some))
    } else {
        match decimal_u64(trim(channel->Some_0)) {
            Err(e) => Err("CHANNEL_ID invalide : "@ + int_error_message(e)),
            Ok(id) => Ok(
                Some(
                    (
                        token->Some_0,
                        id,
                        match bind {
                            Some(b) => b,
                            None => "0.0.0.0:"@ + match port {
                                Some(p) => p,
                                None => "3000"@,
                            },
                        },
                        secret->Some_0,
                        public_url,
                    ),
                ),
            ),
        }
    }
}

/// The content of settings: token, channel, listening address, secret,
/// public URL.
pub open spec fn config_tuple(c: Config) -> (Seq<char>, u64, Seq<char>, Seq<char>, Option<Seq<char>>) {
    (c.discord_token@, c.channel_id, c.bind@, c.secret@, crate::config::opt_view(c.public_url))
}

/// The view of an outcome of reading the environment.
pub open spec fn env_view(r: Result<Option<Config>, String>) -> Result<
    Option<(Seq<char>, u64, Seq<char>, Seq<char>, Option<Seq<char>>)>,
    Seq<char>,
> {
    match r {
        Ok(Some(c)) => Ok(Some(config_tuple(c))),
        Ok(None) => Ok(None),
        Err(e) => Err(e@),
    }
}

/// `name` in front of the joined `rest` when `present` is false.
fn join_one(name: &str, present: bool, rest: String) -> (r: String)
    ensures
        r@ == (if present {
            rest@
        } else if rest@.len() == 0 {
            name@
        } else {
            name@ + ", "@ + rest@
        }),
{
    if present {
        rest
    } else if rest.as_str().is_empty() {
        owned(name)
    } else {
        let mut r = owned(name);
        push_str(&mut r, ", ");
        push_str(&mut r, rest.as_str());
        r
    }
}

fn missing_list(token: bool, channel: bool, secret: bool) -> (r: String)
    ensures
        r@ == missing_message(token, channel, secret),
{
    let ghost names = seq!["DISCORD_TOKEN"@, "CHANNEL_ID"@, "SECRET"@];
    let ghost present = seq![token, channel, secret];
    assert(names.drop_first() =~= seq!["CHANNEL_ID"@, "SECRET"@]);
    assert(present.drop_first() =~= seq![channel, secret]);
    assert(names.drop_first().drop_first() =~= seq!["SECRET"@]);
    assert(present.drop_first().drop_first() =~= seq![secret]);
    assert(names.drop_first().drop_first().drop_first().len() == 0);
    assert(join_missing(
        names.drop_first().drop_first().drop_first(),
        present.drop_first().drop_first().drop_first(),
    ) == Seq::<char>::empty());
    let r3 = join_one("SECRET", secret, String::new());
    assert(r3@ == join_missing(names.drop_first().drop_first(), present.drop_first().drop_first()));
    let r2 = join_one("CHANNEL_ID", channel, r3);
    assert(r2@ == join_missing(names.drop_first(), present.drop_first()));
    let r1 = join_one("DISCORD_TOKEN", token, r2);
    assert(r1@ == join_missing(names, present));
    let mut m = owned("Variables d'environnement manquantes : ");
    push_str(&mut m, r1.as_str());
    m
}

/// Settings from the values of the environment variables, `None` standing
/// for an unset one.
pub fn config_from_vars(
    token: Option<String>,
    channel: Option<String>,
    secret: Option<String>,
    bind: Option<String>,
    port: Option<String>,
    public_url: Option<String>,
) -> (r: Result<Option<Config>, String>)
    ensures
        env_view(r) == env_config(
            crate::config::opt_view(token),
            crate::config::opt_view(channel),
            crate::config::opt_view(secret),
            crate::config::opt_view(bind),
            crate::config::opt_view(port),
            crate::config::opt_view(public_url),
        ),
{
    if token.is_none() && channel.is_none() && secret.is_none() {
        return Ok(None);
    }
    match (token, channel, secret) {
        (Some(token), Some(channel), Some(secret)) => {
            let t = trim_str(channel.as_str());
            match parse_u64(t.as_str()) {
                Err(e) => {
                    let mut m = owned("CHANNEL_ID invalide : ");
                    push_str(&mut m, e.describe());
                    Err(m)
                },
                Ok(id) => {
                    let bind = match bind {
                        Some(b) => b,
                        None => {
                            let mut b = owned("0.0.0.0:");
                            match port {
                                Some(p) => push_str(&mut b, p.as_str()),
                                None => push_str(&mut b, "3000"),
                            }
                            b
                        },
                    };
                    Ok(Some(Config { discord_token: token, channel_id: id, bind, secret, public_url }))
                },
            }
        },
        (token, channel, secret) => Err(
            missing_list(token.is_some(), channel.is_some(), secret.is_some()),
        ),
    }
}

// ---------------------------------------------------------------- finding the settings

/// What the server prints when it finds no settings at all.
pub const NO_CONFIG_MSG: &'static str = "Aucune configuration trouvée.\nSoit : copie server/config.example.toml vers config.toml (à côté de l'exe ou dans le dossier courant) et remplis-le.\nSoit : définis les variables d'environnement DISCORD_TOKEN, CHANNEL_ID et SECRET (hébergement type AtlasFlow/Railway).";

/// The search for the server's `config.toml` among `paths` places (the
/// working directory, then next to the executable): the first readable file
/// decides; a file that does not parse stops the server; when none is
/// readable, the environment decides.
pub struct ConfigSearch {
    paths: usize,
    index: usize,
}

/// What happened to the last read.
pub enum SearchEvent {
    /// The file could not be read.
    Unreadable,
    /// The file was read and parsed into these settings.
    Parsed(Config),
    /// The file at `path` (as displayed) was read but did not parse.
    ParseFailed { path: String, error: String },
}

/// What to do next.
pub enum SearchAction {
    /// Read place `index`, then step `next` with the result.
    Read { next: ConfigSearch, index: usize },
    /// No file was readable: take the settings from the environment.
    UseEnvironment,
    /// Run with these settings.
    Use(Config),
    /// Print this message and stop with a failure status.
    Exit(String),
}

/// `a` reads place `i` next out of `n`.
pub open spec fn reads_place(a: SearchAction, i: int, n: nat) -> bool {
    a matches SearchAction::Read { next, index } && index == i && next.index() == i
        && next.paths() == n
}

/// The message for a file that did not parse.
pub open spec fn parse_failed_msg(path: Seq<char>, error: Seq<char>) -> Seq<char> {
    "Erreur dans "@ + path + " : "@ + error
}

impl ConfigSearch {
    #[verifier::type_invariant]
    closed spec fn inv(self) -> bool {
        self.index < self.paths
    }

    /// Number of places.
    pub closed spec fn paths(&self) -> nat {
        self.paths as nat
    }

    /// The place being read.
    pub closed spec fn index(&self) -> int {
        self.index as int
    }

    /// Starts the search over `paths` places.
    pub fn start(paths: usize) -> (r: SearchAction)
        ensures
            paths > 0 ==> reads_place(r, 0, paths as nat),
            paths == 0 ==> r is UseEnvironment,
    {
        if paths > 0 {
            SearchAction::Read { next: ConfigSearch { paths, index: 0 }, index: 0 }
        } else {
            SearchAction::UseEnvironment
        }
    }

    /// Takes the result of reading the pending place.
    pub fn step(self, event: SearchEvent) -> (r: SearchAction)
        ensures
            match event {
                SearchEvent::Unreadable => if self.index() + 1 < self.paths() {
                    reads_place(r, self.index() + 1, self.paths())
                } else {
                    r is UseEnvironment
                },
                SearchEvent::Parsed(c) => r matches SearchAction::Use(d) && config_tuple(d)
                    == config_tuple(c),
                SearchEvent::ParseFailed { path, error } => r matches SearchAction::Exit(m)
                    && m@ == parse_failed_msg(path@, error@),
            },
    {
        proof {
            use_type_invariant(&self);
        }
        match event {
            SearchEvent::Unreadable => {
                if self.index + 1 < self.paths {
                    let i = self.index + 1;
                    SearchAction::Read { next: ConfigSearch { paths: self.paths, index: i }, index: i }
                } else {
                    SearchAction::UseEnvironment
                }
            },
            SearchEvent::Parsed(c) => SearchAction::Use(c),
            SearchEvent::ParseFailed { path, error } => {
                let mut m = owned("Erreur dans ");
                push_str(&mut m, path.as_str());
                push_str(&mut m, " : ");
                push_str(&mut m, error.as_str());
                SearchAction::Exit(m)
            },
        }
    }
}

/// The settings when no file was readable: those of the environment, the
/// environment's error, or, when the environment sets nothing, a failure
/// that says how to configure the server.
pub fn from_environment(env: Result<Option<Config>, String>) -> (r: Result<Config, String>)
    ensures
        match env {
            Ok(Some(c)) => r matches Ok(d) && config_tuple(d) == config_tuple(c),
            Ok(None) => r matches Err(m) && m@ == NO_CONFIG_MSG@,
            Err(e) => r matches Err(m) && m@ == e@,
        },
{
    match env {
        Ok(Some(c)) => Ok(c),
        Ok(None) => Err(owned(NO_CONFIG_MSG)),
        Err(e) => Err(e),
    }
}

// ---------------------------------------------------------------- start-up

/// The value that the example configuration ships as the bot token.
pub open spec fn placeholder_token() -> Seq<char> {
    "COLLE_TON_TOKEN_ICI"@
}

/// Refusal of a blank or placeholder secret.
pub open spec fn weak_secret_msg() -> Seq<char> {
    "`secret` est vide ou laissé à la valeur d'exemple « change-moi » : choisis un vrai mot de passe partagé."@
}

/// Refusal of a blank or placeholder bot token.
pub open spec fn weak_token_msg() -> Seq<char> {
    "`discord_token` est vide ou laissé à la valeur d'exemple."@
}

/// A server reachable from the internet must not start with a blank or
/// placeholder secret, which would leave it open, nor with a blank or
/// placeholder token; the secret is checked first.
pub fn check_startup(c: &Config) -> (r: Result<(), String>)
    ensures
        (trim(c.secret@).len() == 0 || c.secret@ == placeholder_secret()) ==> (r matches Err(e)
            && e@ == weak_secret_msg()),
        !(trim(c.secret@).len() == 0 || c.secret@ == placeholder_secret()) && (trim(
            c.discord_token@,
        ).len() == 0 || c.discord_token@ == placeholder_token()) ==> (r matches Err(e) && e@
            == weak_token_msg()),
        r is Ok <==> !(trim(c.secret@).len() == 0 || c.secret@ == placeholder_secret()) && !(trim(
            c.discord_token@,
        ).len() == 0 || c.discord_token@ == placeholder_token()),
{
    if is_blank(c.secret.as_str()) || str_eq(c.secret.as_str(), "change-moi") {
        return Err(
            owned(
                "`secret` est vide ou laissé à la valeur d'exemple « change-moi » : choisis un vrai mot de passe partagé.",
            ),
        );
    }
    if is_blank(c.discord_token.as_str()) || str_eq(c.discord_token.as_str(), "COLLE_TON_TOKEN_ICI") {
        return Err(owned("`discord_token` est vide ou laissé à la valeur d'exemple."));
    }
    Ok(())
}

/// An overlay may subscribe only with the shared secret as its token.
pub fn token_accepted(token: &str, secret: &str) -> (r: bool)
    ensures
        r == (token@ == secret@),
{
    str_eq(token, secret)
}

// ---------------------------------------------------------------- send loop

/// Seconds between keep-alive pings to each overlay.
pub const KEEPALIVE_SECS: u64 = 30;

/// What happened on an overlay's connection.
pub enum ClientEvent {
    /// The overlay sent something (nothing is expected from it).
    Received,
    /// The overlay's socket closed or failed.
    SocketEnded,
    /// A media message to relay.
    Broadcast(String),
    /// The overlay fell behind and this many messages were dropped.
    Lagged(u64),
    /// The broadcast channel closed.
    ChannelClosed,
    /// The keep-alive tick, every [`KEEPALIVE_SECS`].
    Tick,
    /// Sending to the overlay failed.
    SendFailed,
}

/// What to do next on that connection.
pub enum ClientAction {
    /// Wait for the next event.
    Listen,
    /// Send this text message.
    Send(String),
    /// Send a ping so that routers keep the connection open.
    Ping,
    /// Log that this many messages were dropped, then wait.
    WarnLagged(u64),
    /// Close the connection.
    Stop,
}

/// One step of an overlay's send loop: relay each message, ping on each
/// tick, note dropped messages, and stop when the socket or the channel ends
/// or a send fails.
pub fn client_step(event: ClientEvent) -> (r: ClientAction)
    ensures
        match event {
            ClientEvent::Received => r is Listen,
            ClientEvent::Broadcast(m) => r matches ClientAction::Send(x) && x@ == m@,
            ClientEvent::Lagged(n) => r matches ClientAction::WarnLagged(k) && k == n,
            ClientEvent::Tick => r is Ping,
            _ => r is Stop,
        },
{
    match event {
        ClientEvent::Received => ClientAction::Listen,
        ClientEvent::Broadcast(m) => ClientAction::Send(m),
        ClientEvent::Lagged(n) => ClientAction::WarnLagged(n),
        ClientEvent::Tick => ClientAction::Ping,
        _ => ClientAction::Stop,
    }
}

} // verus!
