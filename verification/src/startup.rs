//! Finding, or else creating, the overlay's `config.toml` at start-up, and
//! what start-up then reports and does.
//!
//! The search goes through the places to read in order (next to the
//! executable, the working directory, the user's application data); the
//! first readable file decides: its settings when they parse, else the
//! defaults and the parse error. When no file is readable, a template is
//! written to the first place among the candidates that accepts it. The file
//! system work is the caller's: [`ConfigLoader`] says what to do next and
//! takes back what happened.
use vstd::prelude::*;
use crate::config::{can_connect, default_view, hosted_service, normalize_config, Config, ConfigView};
use crate::text::{owned, push_str};

verus! {

/// Seconds between reassertions that the overlay stays on top, since some
/// games reorder windows when they go full screen.
pub const ON_TOP_PERIOD_SECS: u64 = 2;

/// How the settings were obtained.
pub enum ConfigStatus {
    /// Read and parsed from an existing file.
    Loaded,
    /// No file existed; a template was written.
    Created,
    /// No file existed and none could be written; the last write error.
    CreateFailed(String),
    /// The first readable file did not parse; the parse error.
    Invalid(String),
}

/// The view of a status.
pub enum StatusView {
    Loaded,
    Created,
    CreateFailed(Seq<char>),
    Invalid(Seq<char>),
}

impl View for ConfigStatus {
    type V = StatusView;

    open spec fn view(&self) -> StatusView {
        match self {
            ConfigStatus::Loaded => StatusView::Loaded,
            ConfigStatus::Created => StatusView::Created,
            ConfigStatus::CreateFailed(e) => StatusView::CreateFailed(e@),
            ConfigStatus::Invalid(e) => StatusView::Invalid(e@),
        }
    }
}

/// Which path later saves go to.
#[derive(PartialEq, Eq, Structural, Clone, Copy, Debug)]
pub enum SavePath {
    /// The searched path with this index (the one that was read).
    Searched(usize),
    /// The creation candidate with this index.
    Candidate(usize),
    /// `config.toml` in the working directory, when there is no candidate.
    Fallback,
}

/// The end of the search.
pub struct LoadOutcome {
    pub config: Config,
    pub status: ConfigStatus,
    pub path: SavePath,
}

/// What happened to the last action.
pub enum LoadEvent {
    /// The file could not be read.
    Unreadable,
    /// The file was read and parsed into these settings.
    Parsed(Config),
    /// The file was read but did not parse; the error message.
    ParseFailed(String),
    /// The template was written.
    Written,
    /// The template could not be written; the error message.
    WriteFailed(String),
}

/// Where the search stands.
#[derive(PartialEq, Eq, Structural, Clone, Copy, Debug)]
pub enum LoadPhase {
    /// Reading the searched path with this index.
    Reading(usize),
    /// Writing the template to the candidate with this index.
    Writing(usize),
}

/// The state of the search: how many paths to read, how many places to
/// create the file in, and the pending action.
pub struct ConfigLoader {
    searched: usize,
    candidates: usize,
    phase: LoadPhase,
}

/// What to do next.
pub enum LoadAction {
    /// Read the searched path `index`, then step `next` with the result.
    Read { next: ConfigLoader, index: usize },
    /// Write the template to candidate `index`, then step `next`.
    Write { next: ConfigLoader, index: usize },
    /// Done.
    Finish(LoadOutcome),
}

/// `r` reads searched path `i` next, with the same counts `s` and `c`.
pub open spec fn reads(r: LoadAction, i: int, s: nat, c: nat) -> bool {
    r matches LoadAction::Read { next, index } && index == i && next.phase() == LoadPhase::Reading(
        index,
    ) && next.searched() == s && next.candidates() == c
}

/// `r` writes to candidate `j` next, with the same counts `s` and `c`.
pub open spec fn writes(r: LoadAction, j: int, s: nat, c: nat) -> bool {
    r matches LoadAction::Write { next, index } && index == j && next.phase()
        == LoadPhase::Writing(index) && next.searched() == s && next.candidates() == c
}

/// `r` ends the search with these settings, status and path.
pub open spec fn finishes(r: LoadAction, config: ConfigView, status: StatusView, path: SavePath) -> bool {
    r matches LoadAction::Finish(o) && o.config@ == config && o.status@ == status && o.path == path
}

impl ConfigLoader {
    #[verifier::type_invariant]
    closed spec fn inv(self) -> bool {
        match self.phase {
            LoadPhase::Reading(i) => i < self.searched,
            LoadPhase::Writing(j) => j < self.candidates,
        }
    }

    /// Number of paths to read.
    pub closed spec fn searched(&self) -> nat {
        self.searched as nat
    }

    /// Number of places to create the file in.
    pub closed spec fn candidates(&self) -> nat {
        self.candidates as nat
    }

    /// The pending action.
    pub closed spec fn phase(&self) -> LoadPhase {
        self.phase
    }

    /// Starts the search over `searched` paths to read, then `candidates`
    /// places to create the file in.
    pub fn start(searched: usize, candidates: usize) -> (r: LoadAction)
        ensures
            searched > 0 ==> reads(r, 0, searched as nat, candidates as nat),
            searched == 0 && candidates > 0 ==> writes(r, 0, searched as nat, candidates as nat),
            searched == 0 && candidates == 0 ==> finishes(
                r,
                default_view(),
                StatusView::CreateFailed(Seq::empty()),
                SavePath::Fallback,
            ),
    {
        if searched > 0 {
            LoadAction::Read {
                next: ConfigLoader { searched, candidates, phase: LoadPhase::Reading(0) },
                index: 0,
            }
        } else {
            Self::begin_writing(searched, candidates, String::new())
        }
    }

    fn begin_writing(searched: usize, candidates: usize, last_error: String) -> (r: LoadAction)
        ensures
            candidates > 0 ==> writes(r, 0, searched as nat, candidates as nat),
            candidates == 0 ==> finishes(
                r,
                default_view(),
                StatusView::CreateFailed(last_error@),
                SavePath::Fallback,
            ),
    {
        if candidates > 0 {
            LoadAction::Write {
                next: ConfigLoader { searched, candidates, phase: LoadPhase::Writing(0) },
                index: 0,
            }
        } else {
            LoadAction::Finish(
                LoadOutcome {
                    config: Config::default(),
                    status: ConfigStatus::CreateFailed(last_error),
                    path: SavePath::Fallback,
                },
            )
        }
    }

    /// Takes what happened to the pending action and says what to do next.
    /// An event that does not answer the pending action (a write result
    /// while reading, a read result while writing) repeats that action.
    pub fn step(self, event: LoadEvent) -> (r: LoadAction)
        ensures
            ({
                let (s, c) = (self.searched(), self.candidates());
                match self.phase() {
                    LoadPhase::Reading(i) => match event {
                        LoadEvent::Unreadable => if i + 1 < s {
                            reads(r, i + 1, s, c)
                        } else if c > 0 {
                            writes(r, 0, s, c)
                        } else {
                            finishes(
                                r,
                                default_view(),
                                StatusView::CreateFailed(Seq::empty()),
                                SavePath::Fallback,
                            )
                        },
                        LoadEvent::Parsed(cfg) => finishes(
                            r,
                            ConfigView { hosted_server: hosted_service(), ..cfg@ },
                            StatusView::Loaded,
                            SavePath::Searched(i),
                        ),
                        LoadEvent::ParseFailed(e) => finishes(
                            r,
                            default_view(),
                            StatusView::Invalid(e@),
                            SavePath::Searched(i),
                        ),
                        _ => reads(r, i as int, s, c),
                    },
                    LoadPhase::Writing(j) => match event {
                        LoadEvent::Written => finishes(
                            r,
                            default_view(),
                            StatusView::Created,
                            SavePath::Candidate(j),
                        ),
                        LoadEvent::WriteFailed(e) => if j + 1 < c {
                            writes(r, j + 1, s, c)
                        } else {
                            finishes(
                                r,
                                default_view(),
                                StatusView::CreateFailed(e@),
                                SavePath::Candidate(0),
                            )
                        },
                        _ => writes(r, j as int, s, c),
                    },
                }
            }),
    {
        proof {
            use_type_invariant(&self);
        }
        let searched = self.searched;
        let candidates = self.candidates;
        match self.phase {
            LoadPhase::Reading(i) => match event {
                LoadEvent::Unreadable => {
                    if i + 1 < searched {
                        LoadAction::Read {
                            next: ConfigLoader {
                                searched,
                                candidates,
                                phase: LoadPhase::Reading(i + 1),
                            },
                            index: i + 1,
                        }
                    } else {
                        Self::begin_writing(searched, candidates, String::new())
                    }
                },
                LoadEvent::Parsed(c) => LoadAction::Finish(
                    LoadOutcome {
                        config: normalize_config(c),
                        status: ConfigStatus::Loaded,
                        path: SavePath::Searched(i),
                    },
                ),
                LoadEvent::ParseFailed(e) => LoadAction::Finish(
                    LoadOutcome {
                        config: Config::default(),
                        status: ConfigStatus::Invalid(e),
                        path: SavePath::Searched(i),
                    },
                ),
                _ => LoadAction::Read { next: self, index: i },
            },
            LoadPhase::Writing(j) => match event {
                LoadEvent::Written => LoadAction::Finish(
                    LoadOutcome {
                        config: Config::default(),
                        status: ConfigStatus::Created,
                        path: SavePath::Candidate(j),
                    },
                ),
                LoadEvent::WriteFailed(e) => {
                    if j + 1 < candidates {
                        LoadAction::Write {
                            next: ConfigLoader {
                                searched,
                                candidates,
                                phase: LoadPhase::Writing(j + 1),
                            },
                            index: j + 1,
                        }
                    } else {
                        LoadAction::Finish(
                            LoadOutcome {
                                config: Config::default(),
                                status: ConfigStatus::CreateFailed(e),
                                path: SavePath::Candidate(0),
                            },
                        )
                    }
                },
                _ => LoadAction::Write { next: self, index: j },
            },
        }
    }
}

/// The start-up state shown by the overlay for a status: none when the file
/// was loaded, else `config-created`, `config-create-failed` or
/// `config-invalid`.
pub open spec fn startup_state(s: StatusView) -> Option<Seq<char>> {
    match s {
        StatusView::Loaded => None,
        StatusView::Created => Some("config-created"@),
        StatusView::CreateFailed(_) => Some("config-create-failed"@),
        StatusView::Invalid(_) => Some("config-invalid"@),
    }
}

/// The detail shown with it: the path, followed by ` — ` and the error when
/// there is one.
pub open spec fn startup_detail(s: StatusView, path: Seq<char>) -> Option<Seq<char>> {
    match s {
        StatusView::Loaded => None,
        StatusView::Created => Some(path),
        StatusView::CreateFailed(e) => Some(path + " — "@ + e),
        StatusView::Invalid(e) => Some(path + " — "@ + e),
    }
}

/// The start-up state and detail for a status, `path` being the displayed
/// path of the file.
pub fn startup_report(status: &ConfigStatus, path: &str) -> (r: (Option<String>, Option<String>))
    ensures
        crate::config::opt_view(r.0) == startup_state(status@),
        crate::config::opt_view(r.1) == startup_detail(status@, path@),
{
    match status {
        ConfigStatus::Loaded => (None, None),
        ConfigStatus::Created => (Some(owned("config-created")), Some(owned(path))),
        ConfigStatus::CreateFailed(e) => {
            let mut d = owned(path);
            push_str(&mut d, " — ");
            push_str(&mut d, e.as_str());
            (Some(owned("config-create-failed")), Some(d))
        },
        ConfigStatus::Invalid(e) => {
            let mut d = owned(path);
            push_str(&mut d, " — ");
            push_str(&mut d, e.as_str());
            (Some(owned("config-invalid")), Some(d))
        },
    }
}

/// The overlay connects at start-up only when the file was loaded and its
/// settings can connect; otherwise it opens the settings window.
pub fn should_connect(status: &ConfigStatus, config: &Config) -> (r: bool)
    ensures
        r == (status@ == StatusView::Loaded && can_connect(config@)),
{
    match status {
        ConfigStatus::Loaded => config.can_connect(),
        _ => false,
    }
}

} // verus!
