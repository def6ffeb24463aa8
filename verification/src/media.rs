//! The media events relayed from a Discord channel to the overlays: which
//! attachments and links are media, of which kind, and the events that a
//! message gives.
use vstd::prelude::*;
use crate::encode::{percent_encode_text, percent_encoded_text};
use crate::text::{
    after_last, ascii_lower, before_first, chars_of, find_first, find_last_end, has_prefix,
    is_either, last_index, lower_chars, owned, push_str, split_whitespace, starts_with, str_eq,
    string_from_range, strip_trailing, trim, trim_end_char, trim_str, views, words,
};

verus! {

/// The kind of a medium, as the overlay protocol names it.
#[derive(PartialEq, Eq, Structural, Clone, Copy, Debug)]
pub enum MediaKind {
    Image,
    Gif,
    Video,
    Audio,
}

/// The protocol name of a kind.
pub open spec fn kind_name(k: MediaKind) -> Seq<char> {
    match k {
        MediaKind::Image => "image"@,
        MediaKind::Gif => "gif"@,
        MediaKind::Video => "video"@,
        MediaKind::Audio => "audio"@,
    }
}

impl MediaKind {
    /// The protocol name: `image`, `gif`, `video` or `audio`.
    pub fn name(&self) -> (r: &'static str)
        ensures
            r@ == kind_name(*self),
    {
        match self {
            MediaKind::Image => "image",
            MediaKind::Gif => "gif",
            MediaKind::Video => "video",
            MediaKind::Audio => "audio",
        }
    }
}

/// Picture extensions.
pub open spec fn is_image_ext(e: Seq<char>) -> bool {
    ||| e == "png"@
    ||| e == "jpg"@
    ||| e == "jpeg"@
    ||| e == "webp"@
    ||| e == "bmp"@
    ||| e == "avif"@
}

/// Video extensions.
pub open spec fn is_video_ext(e: Seq<char>) -> bool {
    e == "mp4"@ || e == "webm"@ || e == "mov"@ || e == "m4v"@
}

/// Sound extensions.
pub open spec fn is_audio_ext(e: Seq<char>) -> bool {
    ||| e == "mp3"@
    ||| e == "wav"@
    ||| e == "ogg"@
    ||| e == "m4a"@
    ||| e == "flac"@
    ||| e == "opus"@
}

/// The kind that a lower-case extension stands for.
pub open spec fn kind_of_ext(e: Seq<char>) -> Option<MediaKind> {
    if e == "gif"@ {
        Some(MediaKind::Gif)
    } else if is_image_ext(e) {
        Some(MediaKind::Image)
    } else if is_video_ext(e) {
        Some(MediaKind::Video)
    } else if is_audio_ext(e) {
        Some(MediaKind::Audio)
    } else {
        None
    }
}

/// The lower-cased text after the last `.` of a name, when it has one.
pub open spec fn extension(name: Seq<char>) -> Option<Seq<char>> {
    let lower = ascii_lower(name);
    let k = last_index(lower, is_either('.', '.'));
    if k < 0 {
        None
    } else {
        Some(lower.subrange(k + 1, lower.len() as int))
    }
}

/// The kind of a file by the extension of its name.
pub open spec fn ext_kind(name: Seq<char>) -> Option<MediaKind> {
    match extension(name) {
        Some(e) => kind_of_ext(e),
        None => None,
    }
}

/// The media type of a `Content-Type` value: the part before any `;`,
/// trimmed.
pub open spec fn media_type(ct: Seq<char>) -> Seq<char> {
    trim(before_first(ct, is_either(';', ';')))
}

/// The kind of an attachment: by its content type when that is `image/gif`,
/// `image/…` or `video/…`, else by the extension of its file name.
pub open spec fn attachment_kind(content_type: Option<Seq<char>>, filename: Seq<char>) -> Option<
    MediaKind,
> {
    match content_type {
        Some(ct) => {
            let m = media_type(ct);
            if m == "image/gif"@ {
                Some(MediaKind::Gif)
            } else if has_prefix(m, "image/"@) {
                Some(MediaKind::Image)
            } else if has_prefix(m, "video/"@) {
                Some(MediaKind::Video)
            } else {
                ext_kind(filename)
            }
        },
        None => ext_kind(filename),
    }
}

/// The last segment of a URL's path: the part before any `?` or `#`,
/// without trailing slashes, after its last `/`.
pub open spec fn last_segment(url: Seq<char>) -> Seq<char> {
    let path = strip_trailing(before_first(url, is_either('?', '#')), '/');
    after_last(path, is_either('/', '/'))
}

/// The kind of a linked file, by the extension of the last path segment.
pub open spec fn url_kind(url: Seq<char>) -> Option<MediaKind> {
    ext_kind(last_segment(url))
}

fn kind_of_ext_str(e: &str) -> (r: Option<MediaKind>)
    ensures
        r == kind_of_ext(e@),
{
    if str_eq(e, "gif") {
        Some(MediaKind::Gif)
    } else if str_eq(e, "png") || str_eq(e, "jpg") || str_eq(e, "jpeg") || str_eq(e, "webp")
        || str_eq(e, "bmp") || str_eq(e, "avif") {
        Some(MediaKind::Image)
    } else if str_eq(e, "mp4") || str_eq(e, "webm") || str_eq(e, "mov") || str_eq(e, "m4v") {
        Some(MediaKind::Video)
    } else if str_eq(e, "mp3") || str_eq(e, "wav") || str_eq(e, "ogg") || str_eq(e, "m4a")
        || str_eq(e, "flac") || str_eq(e, "opus") {
        Some(MediaKind::Audio)
    } else {
        None
    }
}

/// The kind of a file by the extension of its name.
pub fn kind_from_extension(name: &str) -> (r: Option<MediaKind>)
    ensures
        r == ext_kind(name@),
{
    let lower = lower_chars(&chars_of(name));
    let end = find_last_end(&lower, '.', '.');
    if end == 0 {
        None
    } else {
        let ext = string_from_range(&lower, end, lower.len());
        kind_of_ext_str(ext.as_str())
    }
}

/// The view of an optional string slice.
pub open spec fn opt_str_view(o: Option<&str>) -> Option<Seq<char>> {
    match o {
        Some(s) => Some(s@),
        None => None,
    }
}

/// The kind of an attachment from its content type and file name.
pub fn kind_from_attachment(content_type: Option<&str>, filename: &str) -> (r: Option<MediaKind>)
    ensures
        r == attachment_kind(opt_str_view(content_type), filename@),
{
    if let Some(ct) = content_type {
        let v = chars_of(ct);
        let cut = find_first(&v, ';', ';');
        let head = string_from_range(&v, 0, cut);
        let m = trim_str(head.as_str());
        if str_eq(m.as_str(), "image/gif") {
            return Some(MediaKind::Gif);
        }
        if starts_with(m.as_str(), "image/") {
            return Some(MediaKind::Image);
        }
        if starts_with(m.as_str(), "video/") {
            return Some(MediaKind::Video);
        }
    }
    kind_from_extension(filename)
}

/// The kind of a file linked by `url`.
pub fn kind_from_url(url: &str) -> (r: Option<MediaKind>)
    ensures
        r == url_kind(url@),
{
    let v = chars_of(url);
    let cut = find_first(&v, '?', '#');
    let no_query = string_from_range(&v, 0, cut);
    let path = trim_end_char(no_query.as_str(), '/');
    let p = chars_of(path.as_str());
    let start = find_last_end(&p, '/', '/');
    let last = string_from_range(&p, start, p.len());
    kind_from_extension(last.as_str())
}


// ---------------------------------------------------------------- events

/// An attachment of a Discord message.
pub struct Attachment {
    /// Its `Content-Type`, when Discord gives one.
    pub content_type: Option<String>,
    pub filename: String,
    pub url: String,
}

/// The text of an attachment.
pub struct AttachmentView {
    pub content_type: Option<Seq<char>>,
    pub filename: Seq<char>,
    pub url: Seq<char>,
}

impl View for Attachment {
    type V = AttachmentView;

    open spec fn view(&self) -> AttachmentView {
        AttachmentView {
            content_type: crate::config::opt_view(self.content_type),
            filename: self.filename@,
            url: self.url@,
        }
    }
}

/// A `media` message of the overlay protocol.
pub struct MediaEvent {
    pub kind: MediaKind,
    /// Direct URL of the medium.
    pub url: String,
    /// File name, possibly empty.
    pub filename: String,
    /// Display name of the poster.
    pub sender: String,
    /// Message text, possibly empty.
    pub caption: String,
}

/// The content of a media event.
pub struct MediaEventView {
    pub kind: MediaKind,
    pub url: Seq<char>,
    pub filename: Seq<char>,
    pub sender: Seq<char>,
    pub caption: Seq<char>,
}

impl View for MediaEvent {
    type V = MediaEventView;

    open spec fn view(&self) -> MediaEventView {
        MediaEventView {
            kind: self.kind,
            url: self.url@,
            filename: self.filename@,
            sender: self.sender@,
            caption: self.caption@,
        }
    }
}

/// The views of a list of events.
pub open spec fn event_views(v: Seq<MediaEvent>) -> Seq<MediaEventView> {
    v.map_values(|e: MediaEvent| e@)
}

/// The views of a list of attachments.
pub open spec fn attachment_views(v: Seq<Attachment>) -> Seq<AttachmentView> {
    v.map_values(|a: Attachment| a@)
}

/// One event per attachment that is a medium, in order, captioned with the
/// message text.
pub open spec fn attachment_media(
    atts: Seq<AttachmentView>,
    sender: Seq<char>,
    caption: Seq<char>,
) -> Seq<MediaEventView>
    decreases atts.len(),
{
    if atts.len() == 0 {
        Seq::empty()
    } else {
        let prev = attachment_media(atts.drop_last(), sender, caption);
        let a = atts.last();
        match attachment_kind(a.content_type, a.filename) {
            Some(k) => prev.push(
                MediaEventView { kind: k, url: a.url, filename: a.filename, sender, caption },
            ),
            None => prev,
        }
    }
}

/// Whether a word of a message is a link that is relayed: an `https://` URL
/// whose last path segment has a media extension.
pub open spec fn relayed_link(w: Seq<char>) -> bool {
    has_prefix(w, "https://"@) && url_kind(w) is Some
}

/// One event per relayed link among the words, in order, with no file name
/// and no caption.
pub open spec fn link_media(ws: Seq<Seq<char>>, sender: Seq<char>) -> Seq<MediaEventView>
    decreases ws.len(),
{
    if ws.len() == 0 {
        Seq::empty()
    } else {
        let prev = link_media(ws.drop_last(), sender);
        let w = ws.last();
        if relayed_link(w) {
            prev.push(
                MediaEventView {
                    kind: url_kind(w)->Some_0,
                    url: w,
                    filename: Seq::empty(),
                    sender,
                    caption: Seq::empty(),
                },
            )
        } else {
            prev
        }
    }
}

/// The events of a message: none when a bot posted it or it is in another
/// channel than the listened one; else those of its media attachments,
/// then those of the media links among its whitespace-separated words.
pub open spec fn media_of_message(
    from_bot: bool,
    channel: u64,
    listened: u64,
    sender: Seq<char>,
    content: Seq<char>,
    atts: Seq<AttachmentView>,
) -> Seq<MediaEventView> {
    if from_bot || channel != listened {
        Seq::empty()
    } else {
        attachment_media(atts, sender, content) + link_media(words(content), sender)
    }
}

/// The media events to relay for a message.
pub fn message_media(
    from_bot: bool,
    channel: u64,
    listened: u64,
    sender: &str,
    content: &str,
    attachments: &Vec<Attachment>,
) -> (r: Vec<MediaEvent>)
    ensures
        event_views(r@) == media_of_message(
            from_bot,
            channel,
            listened,
            sender@,
            content@,
            attachment_views(attachments@),
        ),
{
    let mut out: Vec<MediaEvent> = Vec::new();
    if from_bot || channel != listened {
        assert(event_views(out@) =~= Seq::<MediaEventView>::empty());
        return out;
    }
    let ghost atts = attachment_views(attachments@);
    let mut i: usize = 0;
    while i < attachments.len()
        invariant
            i <= attachments.len(),
            atts == attachment_views(attachments@),
            event_views(out@) == attachment_media(atts.subrange(0, i as int), sender@, content@),
        decreases attachments.len() - i,
    {
        let a = &attachments[i];
        let ct: Option<&str> = match &a.content_type {
            Some(t) => Some(t.as_str()),
            None => None,
        };
        let kind = kind_from_attachment(ct, a.filename.as_str());
        assert(atts.subrange(0, i + 1).drop_last() =~= atts.subrange(0, i as int));
        assert(opt_str_view(ct) == atts[i as int].content_type);
        match kind {
            Some(k) => {
                out.push(
                    MediaEvent {
                        kind: k,
                        url: owned(a.url.as_str()),
                        filename: owned(a.filename.as_str()),
                        sender: owned(sender),
                        caption: owned(content),
                    },
                );
                assert(event_views(out@) =~= attachment_media(
                    atts.subrange(0, i + 1),
                    sender@,
                    content@,
                ));
            },
            None => {},
        }
        i = i + 1;
    }
    assert(atts.subrange(0, attachments.len() as int) =~= atts);
    let ghost head = event_views(out@);
    let ws = split_whitespace(content);
    let ghost wv = views(ws@);
    let mut j: usize = 0;
    while j < ws.len()
        invariant
            j <= ws.len(),
            wv == views(ws@),
            head == attachment_media(atts, sender@, content@),
            event_views(out@) == head + link_media(wv.subrange(0, j as int), sender@),
        decreases ws.len() - j,
    {
        let w = ws[j].as_str();
        assert(wv.subrange(0, j + 1).drop_last() =~= wv.subrange(0, j as int));
        assert(wv[j as int] == w@);
        if starts_with(w, "https://") {
            match kind_from_url(w) {
                Some(k) => {
                    let ghost before = event_views(out@);
                    out.push(
                        MediaEvent {
                            kind: k,
                            url: owned(w),
                            filename: String::new(),
                            sender: owned(sender),
                            caption: String::new(),
                        },
                    );
                    assert(event_views(out@) =~= before.push(out@.last()@));
                    assert(relayed_link(wv[j as int]));
                    assert(wv.subrange(0, j + 1).last() == wv[j as int]);
                    assert(link_media(wv.subrange(0, j + 1), sender@) =~= link_media(
                        wv.subrange(0, j as int),
                        sender@,
                    ).push(out@.last()@));
                    assert(event_views(out@) =~= head + link_media(
                        wv.subrange(0, j + 1),
                        sender@,
                    ));
                },
                None => {
                    assert(event_views(out@) =~= head + link_media(
                        wv.subrange(0, j + 1),
                        sender@,
                    ));
                },
            }
        } else {
            assert(event_views(out@) =~= head + link_media(wv.subrange(0, j + 1), sender@));
        }
        j = j + 1;
    }
    assert(wv.subrange(0, ws.len() as int) =~= wv);
    out
}

/// The bot reacts 📺 to a message when it relayed at least one medium of it.
pub fn should_react(relayed: usize) -> (r: bool)
    ensures
        r == (relayed > 0),
{
    relayed > 0
}

/// The picture that the "test display" button shows.
pub const TEST_SVG: &'static str = r##"<svg xmlns='http://www.w3.org/2000/svg' width='520' height='300'><rect width='100%' height='100%' rx='24' fill='#5865F2'/><text x='50%' y='42%' font-family='Segoe UI, sans-serif' font-size='44' font-weight='bold' fill='white' text-anchor='middle'>LiveChat</text><text x='50%' y='66%' font-family='Segoe UI, sans-serif' font-size='26' fill='white' text-anchor='middle'>L'overlay fonctionne !</text></svg>"##;

/// A local test medium: the test picture as a percent-encoded SVG data URL.
pub fn test_media() -> (r: MediaEvent)
    ensures
        r@ == (MediaEventView {
            kind: MediaKind::Image,
            url: "data:image/svg+xml,"@ + percent_encoded_text(TEST_SVG@),
            filename: "test.svg"@,
            sender: "Test local"@,
            caption: Seq::empty(),
        }),
{
    let mut url = owned("data:image/svg+xml,");
    push_str(&mut url, percent_encode_text(TEST_SVG).as_str());
    MediaEvent {
        kind: MediaKind::Image,
        url,
        filename: owned("test.svg"),
        sender: owned("Test local"),
        caption: String::new(),
    }
}

// ---------------------------------------------------------------- laws

/// File kinds ignore letter case: a name and its lower-cased form have the
/// same kind.
pub proof fn lemma_ext_kind_ignores_case(name: Seq<char>)
    ensures
        ext_kind(name) == ext_kind(ascii_lower(name)),
{
    crate::text::lemma_ascii_lower_idempotent(name);
}

/// Every relayed link is an `https://` URL.
pub proof fn lemma_links_are_https(ws: Seq<Seq<char>>, sender: Seq<char>)
    ensures
        forall|i: int|
            0 <= i < link_media(ws, sender).len() ==> has_prefix(
                #[trigger] link_media(ws, sender)[i].url,
                "https://"@,
            ),
    decreases ws.len(),
{
    if ws.len() > 0 {
        lemma_links_are_https(ws.drop_last(), sender);
    }
}

/// A query or fragment does not change the kind of a link: for a URL
/// without `?` or `#`, adding `?` or `#` and anything after it keeps its kind.
pub proof fn lemma_url_kind_ignores_query(url: Seq<char>, sep: char, rest: Seq<char>)
    requires
        sep == '?' || sep == '#',
        !url.contains('?'),
        !url.contains('#'),
    ensures
        url_kind(url + seq![sep] + rest) == url_kind(url),
{
    let f = is_either('?', '#');
    let full = url + seq![sep] + rest;
    assert forall|k: int| 0 <= k < url.len() implies !f(#[trigger] full[k]) by {
        assert(full[k] == url[k]);
        if url[k] == '?' || url[k] == '#' {
            assert(url.contains(url[k]));
        }
    }
    assert(full[url.len() as int] == sep);
    crate::text::lemma_first_index(full, f, url.len() as int);
    assert forall|k: int| 0 <= k < url.len() implies !f(#[trigger] url[k]) by {
        if url[k] == '?' || url[k] == '#' {
            assert(url.contains(url[k]));
        }
    }
    crate::text::lemma_first_index(url, f, url.len() as int);
    assert(before_first(full, f) =~= before_first(url, f));
}

/// An attachment is a medium when its kind is known.
pub open spec fn is_media_attachment() -> spec_fn(AttachmentView) -> bool {
    |a: AttachmentView| attachment_kind(a.content_type, a.filename) is Some
}

/// The event that a media attachment gives.
pub open spec fn attachment_event(a: AttachmentView, sender: Seq<char>, caption: Seq<char>) -> MediaEventView {
    MediaEventView {
        kind: attachment_kind(a.content_type, a.filename)->Some_0,
        url: a.url,
        filename: a.filename,
        sender,
        caption,
    }
}

/// The event that a relayed link gives.
pub open spec fn link_event(w: Seq<char>, sender: Seq<char>) -> MediaEventView {
    MediaEventView {
        kind: url_kind(w)->Some_0,
        url: w,
        filename: Seq::empty(),
        sender,
        caption: Seq::empty(),
    }
}

/// The word is a relayed link.
pub open spec fn is_relayed_link() -> spec_fn(Seq<char>) -> bool {
    |w: Seq<char>| relayed_link(w)
}

/// Every media attachment is relayed, each once and in order: the
/// attachment events are as many as the media attachments, and the i-th
/// carries the kind, URL and file name of the i-th media attachment.
pub proof fn lemma_every_media_attachment_relayed(
    atts: Seq<AttachmentView>,
    sender: Seq<char>,
    caption: Seq<char>,
)
    ensures
        attachment_media(atts, sender, caption).len() == atts.filter(is_media_attachment()).len(),
        forall|i: int|
            0 <= i < atts.filter(is_media_attachment()).len() ==> #[trigger] attachment_media(
                atts,
                sender,
                caption,
            )[i] == attachment_event(atts.filter(is_media_attachment())[i], sender, caption),
    decreases atts.len(),
{
    reveal(Seq::filter);
    if atts.len() > 0 {
        lemma_every_media_attachment_relayed(atts.drop_last(), sender, caption);
    }
}

/// Every relayed link is relayed once and in order: the link events are as
/// many as the relayed links among the words, and the j-th carries the j-th
/// such link.
pub proof fn lemma_every_relayed_link_relayed(ws: Seq<Seq<char>>, sender: Seq<char>)
    ensures
        link_media(ws, sender).len() == ws.filter(is_relayed_link()).len(),
        forall|j: int|
            0 <= j < ws.filter(is_relayed_link()).len() ==> #[trigger] link_media(ws, sender)[j]
                == link_event(ws.filter(is_relayed_link())[j], sender),
    decreases ws.len(),
{
    reveal(Seq::filter);
    if ws.len() > 0 {
        lemma_every_relayed_link_relayed(ws.drop_last(), sender);
    }
}

/// A message posted by a person in the listened channel gives one event per
/// media attachment, in order and captioned with the message, then one per
/// relayed link among its words, in order; a bot's message, or one in
/// another channel, gives none.
pub proof fn lemma_message_events(
    from_bot: bool,
    channel: u64,
    listened: u64,
    sender: Seq<char>,
    content: Seq<char>,
    atts: Seq<AttachmentView>,
)
    ensures
        ({
            let m = media_of_message(from_bot, channel, listened, sender, content, atts);
            let f = atts.filter(is_media_attachment());
            let g = words(content).filter(is_relayed_link());
            &&& (from_bot || channel != listened) ==> m.len() == 0
            &&& (!from_bot && channel == listened) ==> {
                &&& m.len() == f.len() + g.len()
                &&& forall|i: int| 0 <= i < f.len() ==> #[trigger] m[i] == attachment_event(f[i], sender, content)
                &&& forall|j: int| 0 <= j < g.len() ==> #[trigger] m[f.len() + j] == link_event(g[j], sender)
            }
        }),
{
    lemma_every_media_attachment_relayed(atts, sender, content);
    lemma_every_relayed_link_relayed(words(content), sender);
    let m = media_of_message(from_bot, channel, listened, sender, content, atts);
    let f = atts.filter(is_media_attachment());
    let g = words(content).filter(is_relayed_link());
    if !from_bot && channel == listened {
        let a = attachment_media(atts, sender, content);
        let l = link_media(words(content), sender);
        assert forall|i: int| 0 <= i < f.len() implies #[trigger] m[i] == attachment_event(f[i], sender, content) by {
            assert(m[i] == a[i]);
        }
        assert forall|j: int| 0 <= j < g.len() implies #[trigger] m[f.len() + j] == link_event(g[j], sender) by {
            assert(m[f.len() + j] == l[j]);
        }
    }
}

/// A lower-case extension: no `.` and no ASCII upper-case letter.
pub open spec fn is_plain_ext(e: Seq<char>) -> bool {
    forall|i: int| 0 <= i < e.len() ==> #[trigger] e[i] != '.' && !('A' <= e[i] <= 'Z')
}

/// The extension of `n.e` is `e`, whatever `n` holds (dots, capitals).
pub proof fn lemma_extension_after_last_dot(n: Seq<char>, e: Seq<char>)
    requires
        is_plain_ext(e),
    ensures
        extension(n + seq!['.'] + e) == Some(e),
{
    let full = n + seq!['.'] + e;
    let lower = ascii_lower(full);
    assert(lower.len() == full.len());
    assert forall|k: int| n.len() < k < lower.len() implies !is_either('.', '.')(#[trigger] lower[k]) by {
        assert(full[k] == e[k - n.len() - 1]);
        assert(lower[k] == crate::text::ascii_lower_char(full[k]));
    }
    assert(full[n.len() as int] == '.');
    assert(lower[n.len() as int] == '.');
    crate::text::lemma_last_index(lower, is_either('.', '.'), n.len() as int);
    assert forall|k: int| 0 <= k < e.len() implies #[trigger] lower.subrange(n.len() + 1int, lower.len() as int)[k] == e[k] by {
        assert(full[n.len() + 1 + k] == e[k]);
    }
    assert(lower.subrange(n.len() + 1int, lower.len() as int) =~= e);
}

/// Every documented picture extension makes an image, whatever the name
/// before it: png, jpg, jpeg, webp, bmp and avif.
pub proof fn lemma_picture_extensions(n: Seq<char>, e: Seq<char>)
    requires
        e == "png"@ || e == "jpg"@ || e == "jpeg"@ || e == "webp"@ || e == "bmp"@ || e == "avif"@,
    ensures
        ext_kind(n + seq!['.'] + e) == Some(MediaKind::Image),
{
    reveal_strlit("png");
    reveal_strlit("jpg");
    reveal_strlit("jpeg");
    reveal_strlit("webp");
    reveal_strlit("bmp");
    reveal_strlit("avif");
    reveal_strlit("gif");
    assert(is_plain_ext(e));
    assert(e != "gif"@) by {
        if e.len() == 3 {
            assert(e[0] != 'g');
        }
    }
    lemma_extension_after_last_dot(n, e);
}

/// `.gif` makes a gif, whatever the name before it.
pub proof fn lemma_gif_extension(n: Seq<char>)
    ensures
        ext_kind(n + seq!['.'] + "gif"@) == Some(MediaKind::Gif),
{
    reveal_strlit("gif");
    assert(is_plain_ext("gif"@));
    lemma_extension_after_last_dot(n, "gif"@);
}

/// Every documented video extension makes a video, whatever the name
/// before it: mp4, webm, mov and m4v.
pub proof fn lemma_video_extensions(n: Seq<char>, e: Seq<char>)
    requires
        e == "mp4"@ || e == "webm"@ || e == "mov"@ || e == "m4v"@,
    ensures
        ext_kind(n + seq!['.'] + e) == Some(MediaKind::Video),
{
    reveal_strlit("mp4");
    reveal_strlit("webm");
    reveal_strlit("mov");
    reveal_strlit("m4v");
    reveal_strlit("gif");
    reveal_strlit("png");
    reveal_strlit("jpg");
    reveal_strlit("jpeg");
    reveal_strlit("webp");
    reveal_strlit("bmp");
    reveal_strlit("avif");
    assert(is_plain_ext(e));
    assert(!is_image_ext(e) && e != "gif"@) by {
        if e.len() == 3 || e.len() == 4 {
            assert(e[0] != 'g' && e[0] != 'p' && e[0] != 'j' && e[0] != 'b' && e[0] != 'a'
                && (e[0] == 'w' ==> e[1] != 'e' || e[2] != 'b' || e[3] != 'p'));
        }
    }
    lemma_extension_after_last_dot(n, e);
}

/// Every documented sound extension makes a sound, whatever the name
/// before it: mp3, wav, ogg, m4a, flac and opus.
pub proof fn lemma_sound_extensions(n: Seq<char>, e: Seq<char>)
    requires
        e == "mp3"@ || e == "wav"@ || e == "ogg"@ || e == "m4a"@ || e == "flac"@ || e == "opus"@,
    ensures
        ext_kind(n + seq!['.'] + e) == Some(MediaKind::Audio),
{
    reveal_strlit("mp3");
    reveal_strlit("wav");
    reveal_strlit("ogg");
    reveal_strlit("m4a");
    reveal_strlit("flac");
    reveal_strlit("opus");
    reveal_strlit("gif");
    reveal_strlit("png");
    reveal_strlit("jpg");
    reveal_strlit("jpeg");
    reveal_strlit("webp");
    reveal_strlit("bmp");
    reveal_strlit("avif");
    reveal_strlit("mp4");
    reveal_strlit("webm");
    reveal_strlit("mov");
    reveal_strlit("m4v");
    assert(is_plain_ext(e));
    assert(!is_image_ext(e) && !is_video_ext(e) && e != "gif"@) by {
        if e.len() == 3 {
            assert(e[0] != 'g' && e[0] != 'p' && e[0] != 'j' && e[0] != 'b');
            assert(e[0] == 'm' ==> e[2] != '4' && e[2] != 'v' && e[1] != 'o');
        }
    }
    lemma_extension_after_last_dot(n, e);
}

} // verus!
