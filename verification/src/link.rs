//! The overlay's connection loop: connect, read, forward `media` messages,
//! and reconnect after a pause that doubles from 2 s up to 60 s and goes
//! back to 2 s once a connection succeeds.
//!
//! The network work is the caller's: [`Link::step`] takes what happened and
//! says what to show and what to do next.
use vstd::prelude::*;
use crate::encode::{json_string_member, json_member_tag, tag_view};
use crate::status::{opt_status, Status, StatusSpec};

verus! {

/// The first pause, in seconds.
pub const FIRST_BACKOFF: u64 = 2;

/// The longest pause, in seconds.
pub const MAX_BACKOFF: u64 = 60;

/// Seconds without any frame after which the link counts as dead: the
/// server pings every 30 s.
pub const READ_TIMEOUT_SECS: u64 = 90;

/// The pause after `b`: twice as long, at most [`MAX_BACKOFF`].
pub open spec fn next_backoff(b: u64) -> u64 {
    if 2 * b < MAX_BACKOFF {
        (2 * b) as u64
    } else {
        MAX_BACKOFF
    }
}

/// The connection loop's state: the pause before the next attempt.
pub struct Link {
    backoff: u64,
}

/// What happened.
pub enum LinkEvent {
    /// The loop (re)starts an attempt.
    Begin,
    /// The WebSocket connection is open.
    Connected,
    /// The connection attempt failed; the error.
    ConnectFailed(String),
    /// A text frame arrived; the overlay waits at most
    /// [`READ_TIMEOUT_SECS`] for each frame.
    Text(String),
    /// A ping, pong or binary frame arrived.
    Other,
    /// A close frame arrived.
    Closed,
    /// Reading failed.
    ReadFailed,
    /// Nothing arrived for the read timeout.
    TimedOut,
    /// The stream ended.
    Ended,
}

/// What to do next.
#[derive(PartialEq, Eq, Structural, Clone, Copy, Debug)]
pub enum LinkNext {
    /// Open the WebSocket connection.
    Connect,
    /// Read the next frame.
    Read,
    /// Pass the text frame just read to the overlay as a `media` event, then
    /// read the next frame.
    Forward,
    /// Wait this many seconds, then begin again.
    Sleep(u64),
}

/// The answer to an event.
pub struct LinkReaction {
    pub status: Option<Status>,
    pub next: LinkNext,
}

/// Whether a JSON `type` member, as read from a text frame, marks a message
/// to forward: the text parsed and its `type` is the string `media`.
pub open spec fn is_media_member(tag: Option<Option<Seq<char>>>) -> bool {
    tag == Some(Some("media"@))
}

/// Whether a frame with this `type` member is forwarded to the overlay.
pub fn is_media_tag(tag: &Option<Option<String>>) -> (r: bool)
    ensures
        r == is_media_member(tag_view(*tag)),
{
    match tag {
        Some(Some(t)) => crate::text::str_eq(t.as_str(), "media"),
        _ => false,
    }
}

impl Link {
    #[verifier::type_invariant]
    closed spec fn inv(self) -> bool {
        FIRST_BACKOFF <= self.backoff <= MAX_BACKOFF
    }

    /// The pause before the next attempt, in seconds.
    pub closed spec fn backoff(&self) -> u64 {
        self.backoff
    }

    /// A fresh loop.
    pub fn new() -> (r: Link)
        ensures
            r.backoff() == FIRST_BACKOFF,
    {
        Link { backoff: FIRST_BACKOFF }
    }

    /// The loop for the settings `c`: none when they give no URL to connect
    /// to, else a fresh loop and that URL.
    pub fn open(c: &crate::config::Config) -> (r: Option<(Link, String)>)
        ensures
            r is None <==> crate::config::websocket_url(c@) is None,
            r matches Some((link, url)) ==> link.backoff() == FIRST_BACKOFF && Some(url@)
                == crate::config::websocket_url(c@),
    {
        match c.websocket_url() {
            Some(url) => Some((Link::new(), url)),
            None => None,
        }
    }

    /// The current pause, in seconds; always between 2 and 60.
    pub fn backoff_secs(&self) -> (r: u64)
        ensures
            r == self.backoff(),
            FIRST_BACKOFF <= r <= MAX_BACKOFF,
    {
        proof {
            use_type_invariant(self);
        }
        self.backoff
    }

    fn pause(&mut self) -> (r: u64)
        ensures
            r == old(self).backoff(),
            final(self).backoff() == next_backoff(old(self).backoff()),
    {
        proof {
            use_type_invariant(&*self);
        }
        let b = self.backoff;
        self.backoff = if 2 * b < MAX_BACKOFF {
            2 * b
        } else {
            MAX_BACKOFF
        };
        b
    }

    /// One step of the loop. An attempt shows `connecting` and connects; an
    /// open connection resets the pause, shows `connected` and reads; a
    /// failed attempt shows `error` with its message and pauses; a text frame
    /// is forwarded when it is JSON whose `type` is `media`, and skipped
    /// otherwise, as are other frames; a close frame, a read error, a timeout
    /// or the end of the stream show `disconnected` and pause. Each pause is
    /// the current one, and the next is twice as long, at most 60 s.
    pub fn step(&mut self, event: LinkEvent) -> (r: LinkReaction)
        ensures
            match event {
                LinkEvent::Begin => opt_status(r.status) == Some(StatusSpec::Connecting) && r.next
                    == LinkNext::Connect && final(self).backoff() == old(self).backoff(),
                LinkEvent::Connected => opt_status(r.status) == Some(StatusSpec::Connected)
                    && r.next == LinkNext::Read && final(self).backoff() == FIRST_BACKOFF,
                LinkEvent::ConnectFailed(e) => opt_status(r.status) == Some(StatusSpec::Error(e@))
                    && r.next == LinkNext::Sleep(old(self).backoff()) && final(self).backoff()
                    == next_backoff(old(self).backoff()),
                LinkEvent::Text(t) => r.status is None && r.next == (if is_media_member(
                    json_string_member(t@, "type"@),
                ) {
                    LinkNext::Forward
                } else {
                    LinkNext::Read
                }) && final(self).backoff() == old(self).backoff(),
                LinkEvent::Other => r.status is None && r.next == LinkNext::Read
                    && final(self).backoff() == old(self).backoff(),
                _ => opt_status(r.status) == Some(StatusSpec::Disconnected) && r.next
                    == LinkNext::Sleep(old(self).backoff()) && final(self).backoff()
                    == next_backoff(old(self).backoff()),
            },
    {
        match event {
            LinkEvent::Begin => LinkReaction { status: Some(Status::Connecting), next: LinkNext::Connect },
            LinkEvent::Connected => {
                self.backoff = FIRST_BACKOFF;
                LinkReaction { status: Some(Status::Connected), next: LinkNext::Read }
            },
            LinkEvent::ConnectFailed(e) => {
                let b = self.pause();
                LinkReaction { status: Some(Status::Error(e)), next: LinkNext::Sleep(b) }
            },
            LinkEvent::Text(t) => {
                let tag = json_member_tag(t.as_str(), "type");
                if is_media_tag(&tag) {
                    LinkReaction { status: None, next: LinkNext::Forward }
                } else {
                    LinkReaction { status: None, next: LinkNext::Read }
                }
            },
            LinkEvent::Other => LinkReaction { status: None, next: LinkNext::Read },
            _ => {
                let b = self.pause();
                LinkReaction { status: Some(Status::Disconnected), next: LinkNext::Sleep(b) }
            },
        }
    }
}

/// The pauses after `k` failed attempts in a row from a fresh loop.
pub open spec fn pause_after(k: nat) -> u64
    decreases k,
{
    if k == 0 {
        FIRST_BACKOFF
    } else {
        next_backoff(pause_after((k - 1) as nat))
    }
}

/// Pauses grow and are bounded: each is at least 2 s, at most 60 s, and
/// never shorter than the one before.
pub proof fn lemma_pauses_bounded(k: nat)
    ensures
        FIRST_BACKOFF <= pause_after(k) <= MAX_BACKOFF,
        pause_after(k) <= pause_after(k + 1),
    decreases k,
{
    if k > 0 {
        lemma_pauses_bounded((k - 1) as nat);
    }
}

/// The pauses double until they reach 60 s: 2, 4, 8, 16, 32, 60, 60, …
pub proof fn lemma_pause_sequence()
    ensures
        pause_after(0) == 2,
        pause_after(1) == 4,
        pause_after(2) == 8,
        pause_after(3) == 16,
        pause_after(4) == 32,
        pause_after(5) == 60,
        pause_after(6) == 60,
{
    reveal_with_fuel(pause_after, 7);
}

} // verus!
