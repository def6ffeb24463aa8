//! YouTube links, when the server has a public URL: the server downloads
//! the video (at most 720p, H.264) and relays it as an ordinary `video`
//! event whose URL is under the public URL. The bot reacts ⏳ while it
//! downloads, 📺 once the video is relayed, and 🚫 when the video is
//! unavailable, longer than 30 minutes or larger than 150 MB.
//!
//! Running the downloader and serving the files is the caller's work; this
//! module recognises the links, says what to run, and decides from what the
//! downloader reported.
use vstd::prelude::*;
use crate::media::{relayed_link, MediaEvent, MediaEventView, MediaKind};
use crate::text::{
    chars_of, first_index, has_prefix, lemma_first_index, lemma_first_index_prefix, owned, push_str, split_whitespace,
    starts_with, string_from_range, strip_prefix, strip_trailing, trim, trim_end_char, trim_str,
    views, words,
};

verus! {

/// Longest video relayed, in seconds (30 minutes).
pub const MAX_DURATION_SECS: u64 = 1800;

/// Largest video relayed, in bytes (150 MB as the downloader counts them:
/// 150 × 1024 × 1024).
pub const MAX_SIZE_BYTES: u64 = 157286400;

/// How long a downloaded file stays served, in seconds (30 minutes).
pub const KEEP_SECS: u64 = 1800;

/// The characters of a YouTube video id.
pub open spec fn is_id_char(c: char) -> bool {
    ||| 'a' <= c <= 'z'
    ||| 'A' <= c <= 'Z'
    ||| '0' <= c <= '9'
    ||| c == '-'
    ||| c == '_'
}

/// The characters that end a video id.
pub open spec fn ends_id() -> spec_fn(char) -> bool {
    |c: char| !is_id_char(c)
}

/// The video id at the start of `s`: its longest prefix of id characters,
/// when that is not empty.
pub open spec fn id_at(s: Seq<char>) -> Option<Seq<char>> {
    let k = first_index(s, ends_id());
    if k == 0 {
        None
    } else {
        Some(s.subrange(0, k))
    }
}

/// The path of a URL (without `https://`) on a YouTube host:
/// `www.youtube.com/`, `m.youtube.com/` or `youtube.com/`.
pub open spec fn youtube_path(rest: Seq<char>) -> Option<Seq<char>> {
    if has_prefix(rest, "www.youtube.com/"@) {
        Some(rest.subrange("www.youtube.com/"@.len() as int, rest.len() as int))
    } else if has_prefix(rest, "m.youtube.com/"@) {
        Some(rest.subrange("m.youtube.com/"@.len() as int, rest.len() as int))
    } else if has_prefix(rest, "youtube.com/"@) {
        Some(rest.subrange("youtube.com/"@.len() as int, rest.len() as int))
    } else {
        None
    }
}

/// The video id of a YouTube link: `https://youtu.be/ID`, or
/// `https://` and a YouTube host followed by `watch?v=ID` or `shorts/ID`;
/// the id ends at the first character that cannot be part of one.
pub open spec fn youtube_id(w: Seq<char>) -> Option<Seq<char>> {
    if !has_prefix(w, "https://"@) {
        None
    } else {
        let rest = w.subrange("https://"@.len() as int, w.len() as int);
        if has_prefix(rest, "youtu.be/"@) {
            id_at(rest.subrange("youtu.be/"@.len() as int, rest.len() as int))
        } else {
            match youtube_path(rest) {
                Some(p) => if has_prefix(p, "watch?v="@) {
                    id_at(p.subrange("watch?v="@.len() as int, p.len() as int))
                } else if has_prefix(p, "shorts/"@) {
                    id_at(p.subrange("shorts/"@.len() as int, p.len() as int))
                } else {
                    None
                },
                None => None,
            }
        }
    }
}

fn is_id_char_exec(c: char) -> (r: bool)
    ensures
        r == is_id_char(c),
{
    ('a' <= c && c <= 'z') || ('A' <= c && c <= 'Z') || ('0' <= c && c <= '9') || c == '-' || c
        == '_'
}

fn id_at_exec(s: &str) -> (r: Option<String>)
    ensures
        crate::config::opt_view(r) == id_at(s@),
{
    let v = chars_of(s);
    let mut i: usize = 0;
    while i < v.len() && is_id_char_exec(v[i])
        invariant
            v@ == s@,
            i <= v.len(),
            forall|k: int| 0 <= k < i ==> !ends_id()(#[trigger] v@[k]),
        decreases v.len() - i,
    {
        i = i + 1;
    }
    proof {
        lemma_first_index(v@, ends_id(), i as int);
    }
    if i == 0 {
        None
    } else {
        Some(string_from_range(&v, 0, i))
    }
}

fn youtube_path_exec(rest: &str) -> (r: Option<String>)
    ensures
        crate::config::opt_view(r) == youtube_path(rest@),
{
    match strip_prefix(rest, "www.youtube.com/") {
        Some(p) => Some(p),
        None => match strip_prefix(rest, "m.youtube.com/") {
            Some(p) => Some(p),
            None => strip_prefix(rest, "youtube.com/"),
        },
    }
}

/// The video id of a YouTube link, when `w` is one.
pub fn youtube_video_id(w: &str) -> (r: Option<String>)
    ensures
        crate::config::opt_view(r) == youtube_id(w@),
{
    let rest = match strip_prefix(w, "https://") {
        Some(rest) => rest,
        None => {
            return None;
        },
    };
    match strip_prefix(rest.as_str(), "youtu.be/") {
        Some(tail) => id_at_exec(tail.as_str()),
        None => match youtube_path_exec(rest.as_str()) {
            Some(p) => match strip_prefix(p.as_str(), "watch?v=") {
                Some(tail) => id_at_exec(tail.as_str()),
                None => match strip_prefix(p.as_str(), "shorts/") {
                    Some(tail) => id_at_exec(tail.as_str()),
                    None => None,
                },
            },
            None => None,
        },
    }
}

// ---------------------------------------------------------------- requests

/// The base of the served files: the trimmed public URL without trailing
/// slashes, when the public URL is set and not blank.
pub open spec fn public_base(public_url: Option<Seq<char>>) -> Option<Seq<char>> {
    match public_url {
        Some(p) => if trim(p).len() == 0 {
            None
        } else {
            Some(strip_trailing(trim(p), '/'))
        },
        None => None,
    }
}

/// What to download for one link and where it will be served.
pub struct DownloadRequest {
    /// The video id.
    pub video_id: String,
    /// The canonical watch URL handed to the downloader.
    pub source_url: String,
    /// Name of the downloaded file: the id and `.mp4`.
    pub file_name: String,
    /// URL of the file for the overlays: the base, `/media/` and the file name.
    pub public_url: String,
}

/// The content of a request.
pub struct RequestView {
    pub video_id: Seq<char>,
    pub source_url: Seq<char>,
    pub file_name: Seq<char>,
    pub public_url: Seq<char>,
}

impl View for DownloadRequest {
    type V = RequestView;

    open spec fn view(&self) -> RequestView {
        RequestView {
            video_id: self.video_id@,
            source_url: self.source_url@,
            file_name: self.file_name@,
            public_url: self.public_url@,
        }
    }
}

/// The request for video `id` served under `base`.
pub open spec fn request_for(id: Seq<char>, base: Seq<char>) -> RequestView {
    RequestView {
        video_id: id,
        source_url: "https://www.youtube.com/watch?v="@ + id,
        file_name: id + ".mp4"@,
        public_url: base + "/media/"@ + id + ".mp4"@,
    }
}

/// The views of a list of requests.
pub open spec fn request_views(v: Seq<DownloadRequest>) -> Seq<RequestView> {
    v.map_values(|r: DownloadRequest| r@)
}

/// Whether a word of a message is a YouTube link to download: a YouTube
/// link that is not already relayed as a direct media link.
pub open spec fn downloaded_link(w: Seq<char>) -> bool {
    youtube_id(w) is Some && !relayed_link(w)
}

/// One request per YouTube link among the words, in order.
pub open spec fn download_requests(ws: Seq<Seq<char>>, base: Seq<char>) -> Seq<RequestView>
    decreases ws.len(),
{
    if ws.len() == 0 {
        Seq::empty()
    } else {
        let prev = download_requests(ws.drop_last(), base);
        let w = ws.last();
        if downloaded_link(w) {
            prev.push(request_for(youtube_id(w)->Some_0, base))
        } else {
            prev
        }
    }
}

/// The downloads a message asks for: none when a bot posted it, when it is
/// in another channel than the listened one, or when no public URL is set;
/// else one per YouTube link among its whitespace-separated words.
pub open spec fn downloads_of_message(
    from_bot: bool,
    channel: u64,
    listened: u64,
    content: Seq<char>,
    public_url: Option<Seq<char>>,
) -> Seq<RequestView> {
    if from_bot || channel != listened {
        Seq::empty()
    } else {
        match public_base(public_url) {
            Some(base) => download_requests(words(content), base),
            None => Seq::empty(),
        }
    }
}

fn public_base_exec(public_url: Option<&str>) -> (r: Option<String>)
    ensures
        crate::config::opt_view(r) == public_base(crate::media::opt_str_view(public_url)),
{
    match public_url {
        Some(p) => {
            let t = trim_str(p);
            if t.as_str().is_empty() {
                None
            } else {
                Some(trim_end_char(t.as_str(), '/'))
            }
        },
        None => None,
    }
}

/// The request for video `id` served under `base`.
pub fn make_request(id: &str, base: &str) -> (r: DownloadRequest)
    ensures
        r@ == request_for(id@, base@),
{
    let mut source_url = owned("https://www.youtube.com/watch?v=");
    push_str(&mut source_url, id);
    let mut file_name = owned(id);
    push_str(&mut file_name, ".mp4");
    let mut public_url = owned(base);
    push_str(&mut public_url, "/media/");
    push_str(&mut public_url, file_name.as_str());
    proof {
        assert(public_url@ =~= base@ + "/media/"@ + id@ + ".mp4"@);
    }
    DownloadRequest { video_id: owned(id), source_url, file_name, public_url }
}

/// The downloads to start for a message, given the server's public URL.
pub fn message_downloads(
    from_bot: bool,
    channel: u64,
    listened: u64,
    content: &str,
    public_url: Option<&str>,
) -> (r: Vec<DownloadRequest>)
    ensures
        request_views(r@) == downloads_of_message(
            from_bot,
            channel,
            listened,
            content@,
            crate::media::opt_str_view(public_url),
        ),
{
    let mut out: Vec<DownloadRequest> = Vec::new();
    if from_bot || channel != listened {
        assert(request_views(out@) =~= Seq::<RequestView>::empty());
        return out;
    }
    let base = match public_base_exec(public_url) {
        Some(b) => b,
        None => {
            assert(request_views(out@) =~= Seq::<RequestView>::empty());
            return out;
        },
    };
    let ws = split_whitespace(content);
    let ghost wv = views(ws@);
    let mut j: usize = 0;
    assert(request_views(out@) =~= download_requests(wv.subrange(0, 0), base@));
    while j < ws.len()
        invariant
            j <= ws.len(),
            wv == views(ws@),
            request_views(out@) == download_requests(wv.subrange(0, j as int), base@),
        decreases ws.len() - j,
    {
        let w = ws[j].as_str();
        assert(wv.subrange(0, j + 1).drop_last() =~= wv.subrange(0, j as int));
        assert(wv[j as int] == w@);
        let direct = starts_with(w, "https://") && crate::media::kind_from_url(w).is_some();
        assert(direct == relayed_link(w@));
        if !direct {
            match youtube_video_id(w) {
                Some(id) => {
                    let ghost before = request_views(out@);
                    out.push(make_request(id.as_str(), base.as_str()));
                    assert(request_views(out@) =~= before.push(out@.last()@));
                },
                None => {},
            }
        }
        assert(request_views(out@) =~= download_requests(wv.subrange(0, j + 1), base@));
        j = j + 1;
    }
    assert(wv.subrange(0, ws.len() as int) =~= wv);
    out
}

// ---------------------------------------------------------------- downloader

/// The downloader's video format: at most 720 lines, H.264 video with
/// AAC audio, else the best single file of at most 720 lines in H.264.
pub const VIDEO_FORMAT: &'static str = "bv*[height<=720][vcodec^=avc1]+ba[ext=m4a]/b[height<=720][vcodec^=avc1]";

/// Arguments of `yt-dlp` that print the video's duration in seconds.
pub open spec fn probe_args_of(r: RequestView) -> Seq<Seq<char>> {
    seq!["--no-playlist"@, "--skip-download"@, "--print"@, "duration"@, r.source_url]
}

/// Arguments of `yt-dlp` that download the video into `out_path` as MP4,
/// in [`VIDEO_FORMAT`] and at most 150 MB.
pub open spec fn download_args_of(r: RequestView, out_path: Seq<char>) -> Seq<Seq<char>> {
    seq![
        "--no-playlist"@,
        "-f"@,
        VIDEO_FORMAT@,
        "--merge-output-format"@,
        "mp4"@,
        "--max-filesize"@,
        "150M"@,
        "-o"@,
        out_path,
        r.source_url,
    ]
}

/// Arguments of `yt-dlp` that print the video's duration.
pub fn probe_args(req: &DownloadRequest) -> (r: Vec<String>)
    ensures
        views(r@) == probe_args_of(req@),
{
    let r = vec![
        owned("--no-playlist"),
        owned("--skip-download"),
        owned("--print"),
        owned("duration"),
        owned(req.source_url.as_str()),
    ];
    assert(views(r@) =~= probe_args_of(req@));
    r
}

/// Arguments of `yt-dlp` that download the video into `out_path`.
pub fn download_args(req: &DownloadRequest, out_path: &str) -> (r: Vec<String>)
    ensures
        views(r@) == download_args_of(req@, out_path@),
{
    let r = vec![
        owned("--no-playlist"),
        owned("-f"),
        owned(VIDEO_FORMAT),
        owned("--merge-output-format"),
        owned("mp4"),
        owned("--max-filesize"),
        owned("150M"),
        owned("-o"),
        owned(out_path),
        owned(req.source_url.as_str()),
    ];
    assert(views(r@) =~= download_args_of(req@, out_path@));
    r
}

/// What the downloader reported.
pub enum FetchEvent {
    /// The duration in seconds, or `None` when it gave none (a live stream).
    Probed(Option<u64>),
    /// The video could not be fetched.
    Unavailable,
    /// The file was downloaded; its size in bytes.
    Downloaded(u64),
}

/// What to do next with one download.
pub enum FetchAction {
    /// Download the video.
    Download,
    /// Relay this event, react 📺, and delete the file after [`KEEP_SECS`].
    Relay(MediaEvent),
    /// React 🚫 and delete any downloaded file.
    Refuse,
}

/// The `video` event for a downloaded video, posted by `sender`.
pub open spec fn video_event(r: RequestView, sender: Seq<char>) -> MediaEventView {
    MediaEventView {
        kind: MediaKind::Video,
        url: r.public_url,
        filename: r.file_name,
        sender,
        caption: Seq::empty(),
    }
}

/// One step of a download: a known duration of at most 30 minutes leads to
/// the download, any other duration to a refusal; an unavailable video is
/// refused; a downloaded file of at most 150 MB is relayed as a `video`
/// event served under the public URL, a larger one is refused.
pub fn fetch_step(req: &DownloadRequest, sender: &str, event: FetchEvent) -> (r: FetchAction)
    ensures
        match event {
            FetchEvent::Probed(Some(d)) => if d <= MAX_DURATION_SECS {
                r is Download
            } else {
                r is Refuse
            },
            FetchEvent::Probed(None) => r is Refuse,
            FetchEvent::Unavailable => r is Refuse,
            FetchEvent::Downloaded(size) => if size <= MAX_SIZE_BYTES {
                r matches FetchAction::Relay(e) && e@ == video_event(req@, sender@)
            } else {
                r is Refuse
            },
        },
{
    match event {
        FetchEvent::Probed(Some(d)) => {
            if d <= MAX_DURATION_SECS {
                FetchAction::Download
            } else {
                FetchAction::Refuse
            }
        },
        FetchEvent::Probed(None) => FetchAction::Refuse,
        FetchEvent::Unavailable => FetchAction::Refuse,
        FetchEvent::Downloaded(size) => {
            if size <= MAX_SIZE_BYTES {
                FetchAction::Relay(
                    MediaEvent {
                        kind: MediaKind::Video,
                        url: owned(req.public_url.as_str()),
                        filename: owned(req.file_name.as_str()),
                        sender: owned(sender),
                        caption: String::new(),
                    },
                )
            } else {
                FetchAction::Refuse
            }
        },
    }
}

/// The reactions of the bot to a message.
#[derive(PartialEq, Eq, Structural, Clone, Copy, Debug)]
pub enum Reaction {
    /// ⏳: a video is being downloaded.
    Downloading,
    /// 📺: media was relayed.
    Relayed,
    /// 🚫: a video could not be relayed.
    Refused,
}

/// The emoji of a reaction.
pub open spec fn emoji_of(r: Reaction) -> char {
    match r {
        Reaction::Downloading => '\u{23F3}',
        Reaction::Relayed => '\u{1F4FA}',
        Reaction::Refused => '\u{1F6AB}',
    }
}

impl Reaction {
    /// The emoji.
    pub fn emoji(&self) -> (r: char)
        ensures
            r == emoji_of(*self),
    {
        match self {
            Reaction::Downloading => '\u{23F3}',
            Reaction::Relayed => '\u{1F4FA}',
            Reaction::Refused => '\u{1F6AB}',
        }
    }
}

/// The reaction that goes with a download step: none while downloading,
/// 📺 when relayed, 🚫 when refused.
pub fn fetch_reaction(action: &FetchAction) -> (r: Option<Reaction>)
    ensures
        match action {
            FetchAction::Download => r is None,
            FetchAction::Relay(_) => r == Some(Reaction::Relayed),
            FetchAction::Refuse => r == Some(Reaction::Refused),
        },
{
    match action {
        FetchAction::Download => None,
        FetchAction::Relay(_) => Some(Reaction::Relayed),
        FetchAction::Refuse => Some(Reaction::Refused),
    }
}

// ---------------------------------------------------------------- serving

/// Names of the files the server serves: a non-empty video id and `.mp4`.
pub open spec fn is_served_name(n: Seq<char>) -> bool {
    let k = n.len() - ".mp4"@.len();
    &&& k > 0
    &&& n.subrange(k, n.len() as int) == ".mp4"@
    &&& forall|i: int| 0 <= i < k ==> is_id_char(#[trigger] n[i])
}

/// Whether the server serves a file of this name from its download folder.
pub fn is_served_file(name: &str) -> (r: bool)
    ensures
        r == is_served_name(name@),
{
    proof {
        reveal_strlit(".mp4");
    }
    let v = chars_of(name);
    let suffix = chars_of(".mp4");
    if v.len() <= suffix.len() {
        return false;
    }
    let k = v.len() - suffix.len();
    let mut i: usize = 0;
    while i < suffix.len()
        invariant
            v@ == name@,
            suffix@ == ".mp4"@,
            k == v.len() - suffix.len(),
            i <= suffix.len(),
            forall|m: int| 0 <= m < i ==> v@[k + m] == suffix@[m],
        decreases suffix.len() - i,
    {
        if v[k + i] != suffix[i] {
            assert(v@.subrange(k as int, v.len() as int)[i as int] != suffix@[i as int]);
            return false;
        }
        i = i + 1;
    }
    assert(v@.subrange(k as int, v.len() as int) =~= ".mp4"@);
    let mut j: usize = 0;
    while j < k
        invariant
            v@ == name@,
            k < v.len(),
            k == name@.len() - ".mp4"@.len(),
            j <= k,
            forall|m: int| 0 <= m < j ==> is_id_char(#[trigger] v@[m]),
        decreases k - j,
    {
        if !is_id_char_exec(v[j]) {
            assert(!is_id_char(name@[j as int]));
            return false;
        }
        j = j + 1;
    }
    true
}

// ---------------------------------------------------------------- laws

/// The file a request downloads is one the server serves, and its public
/// URL ends with that file name.
pub proof fn lemma_requested_file_is_served(id: Seq<char>, base: Seq<char>)
    requires
        id_at(id) == Some(id),
    ensures
        is_served_name(request_for(id, base).file_name),
        has_suffix(request_for(id, base).public_url, request_for(id, base).file_name),
{
    let n = id + ".mp4"@;
    lemma_id_chars(id);
    assert(n.subrange(id.len() as int, n.len() as int) =~= ".mp4"@);
    let u = base + "/media/"@ + id + ".mp4"@;
    assert(u.subrange(u.len() - n.len(), u.len() as int) =~= n);
}

/// `s` ends with `t`.
pub open spec fn has_suffix(s: Seq<char>, t: Seq<char>) -> bool {
    t.len() <= s.len() && s.subrange(s.len() - t.len(), s.len() as int) == t
}

proof fn lemma_id_chars(s: Seq<char>)
    requires
        id_at(s) is Some,
    ensures
        forall|i: int| 0 <= i < id_at(s)->Some_0.len() ==> is_id_char(#[trigger] id_at(s)->Some_0[i]),
        id_at(s)->Some_0.len() > 0,
{
    lemma_first_index_prefix(s, ends_id());
}

/// Every recognised video id is a non-empty run of id characters, so the
/// file it names holds no `/` and no `..`.
pub proof fn lemma_video_id_is_plain(w: Seq<char>)
    requires
        youtube_id(w) is Some,
    ensures
        id_at(youtube_id(w)->Some_0) == youtube_id(w),
        is_served_name(youtube_id(w)->Some_0 + ".mp4"@),
{
    let rest = w.subrange("https://"@.len() as int, w.len() as int);
    let s = if has_prefix(rest, "youtu.be/"@) {
        rest.subrange("youtu.be/"@.len() as int, rest.len() as int)
    } else {
        let p = youtube_path(rest)->Some_0;
        if has_prefix(p, "watch?v="@) {
            p.subrange("watch?v="@.len() as int, p.len() as int)
        } else {
            p.subrange("shorts/"@.len() as int, p.len() as int)
        }
    };
    assert(youtube_id(w) == id_at(s));
    lemma_id_chars(s);
    let id = id_at(s)->Some_0;
    lemma_first_index_prefix(s, ends_id());
    assert forall|i: int| 0 <= i < id.len() implies !ends_id()(#[trigger] id[i]) by {
        assert(is_id_char(id[i]));
    }
    lemma_first_index(id, ends_id(), id.len() as int);
    assert(id.subrange(0, id.len() as int) =~= id);
    lemma_requested_file_is_served(id, Seq::empty());
}

/// `a + b` starts with `a`, and what follows `a` is `b`.
proof fn lemma_prefix_of_concat(a: Seq<char>, b: Seq<char>)
    ensures
        has_prefix(a + b, a),
        (a + b).subrange(a.len() as int, (a + b).len() as int) == b,
{
    assert((a + b).subrange(0, a.len() as int) =~= a);
    assert((a + b).subrange(a.len() as int, (a + b).len() as int) =~= b);
}

/// A text that differs from `p` at position `i` does not start with `p`.
proof fn lemma_not_prefix(x: Seq<char>, p: Seq<char>, i: int)
    requires
        0 <= i < p.len(),
        i < x.len(),
        x[i] != p[i],
    ensures
        !has_prefix(x, p),
{
    if has_prefix(x, p) {
        assert(x.subrange(0, p.len() as int)[i] == x[i]);
    }
}

/// A non-empty run of id characters followed by something that is not one
/// is read as that id.
proof fn lemma_id_then_other(id: Seq<char>, t: Seq<char>)
    requires
        id.len() > 0,
        forall|i: int| 0 <= i < id.len() ==> is_id_char(#[trigger] id[i]),
        t.len() == 0 || !is_id_char(t[0]),
    ensures
        id_at(id + t) == Some(id),
{
    let s = id + t;
    assert forall|k: int| 0 <= k < id.len() implies !ends_id()(#[trigger] s[k]) by {
        assert(s[k] == id[k]);
    }
    if t.len() > 0 {
        assert(s[id.len() as int] == t[0]);
    }
    lemma_first_index(s, ends_id(), id.len() as int);
    assert(s.subrange(0, id.len() as int) =~= id);
}

/// After a YouTube host, the path is what follows it.
proof fn lemma_host_path(host: Seq<char>, p: Seq<char>)
    requires
        host == "www.youtube.com/"@ || host == "m.youtube.com/"@ || host == "youtube.com/"@,
    ensures
        youtube_path(host + p) == Some(p),
        !has_prefix(host + p, "youtu.be/"@),
{
    reveal_strlit("www.youtube.com/");
    reveal_strlit("m.youtube.com/");
    reveal_strlit("youtube.com/");
    reveal_strlit("youtu.be/");
    let rest = host + p;
    lemma_prefix_of_concat(host, p);
    if host == "www.youtube.com/"@ {
        lemma_not_prefix(rest, "youtu.be/"@, 0);
    } else if host == "m.youtube.com/"@ {
        lemma_not_prefix(rest, "youtu.be/"@, 0);
        lemma_not_prefix(rest, "www.youtube.com/"@, 0);
    } else {
        lemma_not_prefix(rest, "youtu.be/"@, 5);
        lemma_not_prefix(rest, "www.youtube.com/"@, 0);
        lemma_not_prefix(rest, "m.youtube.com/"@, 0);
    }
}

/// `https://` and `rest` give what `rest` gives after the scheme.
proof fn lemma_after_scheme(rest: Seq<char>)
    ensures
        has_prefix("https://"@ + rest, "https://"@),
        ("https://"@ + rest).subrange("https://"@.len() as int, ("https://"@ + rest).len() as int)
            == rest,
{
    lemma_prefix_of_concat("https://"@, rest);
}

/// The watch form on a YouTube host.
proof fn lemma_watch_form(host: Seq<char>, tail: Seq<char>)
    requires
        host == "www.youtube.com/"@ || host == "m.youtube.com/"@ || host == "youtube.com/"@,
    ensures
        youtube_id("https://"@ + (host + ("watch?v="@ + tail))) == id_at(tail),
{
    let p = "watch?v="@ + tail;
    lemma_after_scheme(host + p);
    lemma_host_path(host, p);
    lemma_prefix_of_concat("watch?v="@, tail);
}

/// The shorts form on a YouTube host.
proof fn lemma_shorts_form(host: Seq<char>, tail: Seq<char>)
    requires
        host == "www.youtube.com/"@ || host == "m.youtube.com/"@ || host == "youtube.com/"@,
    ensures
        youtube_id("https://"@ + (host + ("shorts/"@ + tail))) == id_at(tail),
{
    reveal_strlit("watch?v=");
    reveal_strlit("shorts/");
    let p = "shorts/"@ + tail;
    lemma_after_scheme(host + p);
    lemma_host_path(host, p);
    lemma_prefix_of_concat("shorts/"@, tail);
    lemma_not_prefix(p, "watch?v="@, 0);
}

/// The link forms do not depend on the YouTube host: on `www.youtube.com`,
/// `m.youtube.com` and `youtube.com` alike, `https://HOST/watch?v=ID` and
/// `https://HOST/shorts/ID` give `ID`, as does `https://youtu.be/ID`; the id
/// ends where a character that cannot be part of one starts (`?`, `&`, `#`,
/// `/`) or with the link.
pub proof fn lemma_youtube_link_forms(host: Seq<char>, id: Seq<char>, t: Seq<char>)
    requires
        host == "www.youtube.com/"@ || host == "m.youtube.com/"@ || host == "youtube.com/"@,
        id.len() > 0,
        forall|i: int| 0 <= i < id.len() ==> is_id_char(#[trigger] id[i]),
        t.len() == 0 || !is_id_char(t[0]),
    ensures
        youtube_id("https://"@ + host + "watch?v="@ + id + t) == Some(id),
        youtube_id("https://"@ + host + "shorts/"@ + id + t) == Some(id),
        youtube_id("https://"@ + "youtu.be/"@ + id + t) == Some(id),
{
    lemma_id_then_other(id, t);
    lemma_watch_link(host, id, t);
    lemma_shorts_link(host, id, t);
    lemma_short_host_link(id, t);
}

proof fn lemma_watch_link(host: Seq<char>, id: Seq<char>, t: Seq<char>)
    requires
        host == "www.youtube.com/"@ || host == "m.youtube.com/"@ || host == "youtube.com/"@,
    ensures
        youtube_id("https://"@ + host + "watch?v="@ + id + t) == id_at(id + t),
{
    lemma_watch_form(host, id + t);
    assert("https://"@ + host + "watch?v="@ + id + t =~= "https://"@ + (host + ("watch?v="@ + (id
        + t))));
}

proof fn lemma_shorts_link(host: Seq<char>, id: Seq<char>, t: Seq<char>)
    requires
        host == "www.youtube.com/"@ || host == "m.youtube.com/"@ || host == "youtube.com/"@,
    ensures
        youtube_id("https://"@ + host + "shorts/"@ + id + t) == id_at(id + t),
{
    lemma_shorts_form(host, id + t);
    assert("https://"@ + host + "shorts/"@ + id + t =~= "https://"@ + (host + ("shorts/"@ + (id
        + t))));
}

proof fn lemma_short_host_link(id: Seq<char>, t: Seq<char>)
    ensures
        youtube_id("https://"@ + "youtu.be/"@ + id + t) == id_at(id + t),
{
    let rest = "youtu.be/"@ + (id + t);
    assert("https://"@ + "youtu.be/"@ + id + t =~= "https://"@ + rest);
    lemma_after_scheme(rest);
    lemma_prefix_of_concat("youtu.be/"@, id + t);
}

/// The word is a YouTube link to download.
pub open spec fn is_downloaded_link() -> spec_fn(Seq<char>) -> bool {
    |w: Seq<char>| downloaded_link(w)
}

/// Every YouTube link of a message is downloaded once and in order, when a
/// public URL is set: the requests are as many as those links among the
/// words, and the j-th asks for the j-th link's video, served as
/// `BASE/media/ID.mp4`.
pub proof fn lemma_every_youtube_link_downloaded(ws: Seq<Seq<char>>, base: Seq<char>)
    ensures
        download_requests(ws, base).len() == ws.filter(is_downloaded_link()).len(),
        forall|j: int|
            0 <= j < ws.filter(is_downloaded_link()).len() ==> {
                let id = youtube_id(ws.filter(is_downloaded_link())[j])->Some_0;
                &&& (#[trigger] download_requests(ws, base)[j]).video_id == id
                &&& download_requests(ws, base)[j].file_name == id + ".mp4"@
                &&& download_requests(ws, base)[j].public_url == base + "/media/"@ + id + ".mp4"@
                &&& download_requests(ws, base)[j].source_url == "https://www.youtube.com/watch?v="@ + id
            },
    decreases ws.len(),
{
    reveal(Seq::filter);
    if ws.len() > 0 {
        lemma_every_youtube_link_downloaded(ws.drop_last(), base);
    }
}

} // verus!
