//! The decisions of an update run: one run at a time, quiet automatic
//! checks, and no automatic retry of a version whose installation failed.
//!
//! A run goes: request, then check for an update, then download and install
//! it, then restart. The updater calls are the caller's; [`update_step`]
//! takes what each gave and says what to show, what to log and what to do.
use vstd::prelude::*;
use crate::status::{opt_status, Status, StatusSpec};
use crate::text::{owned, push_str};

verus! {

/// Seconds from start-up to the first automatic check.
pub const FIRST_CHECK_DELAY_SECS: u64 = 15;

/// Seconds between automatic checks (4 hours).
pub const CHECK_INTERVAL_SECS: u64 = 14400;

/// Seconds the `update-installed` notice shows before the restart.
pub const RESTART_PAUSE_SECS: u64 = 2;

/// How long to wait before the next automatic check: 15 s before the first,
/// which runs soon after start-up, then 4 hours between checks.
pub fn update_delay(first: bool) -> (secs: u64)
    ensures
        secs == (if first {
            15u64
        } else {
            14400u64
        }),
{
    if first {
        FIRST_CHECK_DELAY_SECS
    } else {
        CHECK_INTERVAL_SECS
    }
}

/// State shared by all runs.
pub struct UpdateGuard {
    /// A run is under way.
    pub running: bool,
    /// The version whose installation failed last, if any.
    pub failed_version: Option<String>,
}

/// The content of the shared state.
pub struct GuardView {
    pub running: bool,
    pub failed_version: Option<Seq<char>>,
}

impl View for UpdateGuard {
    type V = GuardView;

    open spec fn view(&self) -> GuardView {
        GuardView {
            running: self.running,
            failed_version: crate::config::opt_view(self.failed_version),
        }
    }
}

impl UpdateGuard {
    /// No run, no failed version.
    pub fn new() -> (r: UpdateGuard)
        ensures
            r@ == (GuardView { running: false, failed_version: None }),
    {
        UpdateGuard { running: false, failed_version: None }
    }
}

/// What the last step gave.
pub enum UpdateEvent {
    /// A run is asked for.
    Requested,
    /// The updater could not be set up; the error.
    UpdaterUnavailable(String),
    /// The check failed; the error.
    CheckFailed(String),
    /// No newer version is published.
    NoUpdate,
    /// This newer version is published.
    Found(String),
    /// Downloading or installing `version` failed with `detail`.
    InstallFailed { version: String, detail: String },
    /// The update is installed.
    Installed,
}

/// The content of an event.
pub enum UpdateEventSpec {
    Requested,
    UpdaterUnavailable(Seq<char>),
    CheckFailed(Seq<char>),
    NoUpdate,
    Found(Seq<char>),
    InstallFailed { version: Seq<char>, detail: Seq<char> },
    Installed,
}

impl View for UpdateEvent {
    type V = UpdateEventSpec;

    open spec fn view(&self) -> UpdateEventSpec {
        match self {
            UpdateEvent::Requested => UpdateEventSpec::Requested,
            UpdateEvent::UpdaterUnavailable(e) => UpdateEventSpec::UpdaterUnavailable(e@),
            UpdateEvent::CheckFailed(e) => UpdateEventSpec::CheckFailed(e@),
            UpdateEvent::NoUpdate => UpdateEventSpec::NoUpdate,
            UpdateEvent::Found(v) => UpdateEventSpec::Found(v@),
            UpdateEvent::InstallFailed { version, detail } => UpdateEventSpec::InstallFailed {
                version: version@,
                detail: detail@,
            },
            UpdateEvent::Installed => UpdateEventSpec::Installed,
        }
    }
}

/// What to do next.
#[derive(PartialEq, Eq, Structural, Clone, Copy, Debug)]
pub enum UpdateNext {
    /// The run is over.
    Stop,
    /// Set up the updater and check for a newer version.
    Check,
    /// Download and install the version found.
    Download,
    /// Wait [`RESTART_PAUSE_SECS`] so the notice shows, then restart the
    /// application.
    Restart,
}

/// The answer to an event.
pub struct UpdateReaction {
    /// Notice to show, if any.
    pub status: Option<Status>,
    /// Line for the error log, if any.
    pub log: Option<String>,
    pub next: UpdateNext,
}

/// The content of an answer.
pub struct ReactionSpec {
    pub status: Option<StatusSpec>,
    pub log: Option<Seq<char>>,
    pub next: UpdateNext,
}

impl View for UpdateReaction {
    type V = ReactionSpec;

    open spec fn view(&self) -> ReactionSpec {
        ReactionSpec {
            status: opt_status(self.status),
            log: crate::config::opt_view(self.log),
            next: self.next,
        }
    }
}

/// Prefix of the log line of a failed automatic check.
pub open spec fn check_failed_log() -> Seq<char> {
    "vérification de mise à jour impossible : "@
}

/// A notice only when the run was asked for by hand.
pub open spec fn if_manual(manual: bool, s: StatusSpec) -> Option<StatusSpec> {
    if manual {
        Some(s)
    } else {
        None
    }
}

/// The answer to `e` in a manual (`manual`) or automatic run, from the shared
/// state `g`: the new shared state and the answer.
///
/// A request while a run is under way is refused, with an `update-busy`
/// notice when manual, and leaves the state as it is; otherwise it marks a
/// run under way and goes on to the check. A failed setup or check, or no
/// update, ends the run (with a notice when manual; a failed automatic check
/// is logged instead). A found version is downloaded, with an
/// `update-downloading` notice, unless the run is automatic and that version
/// failed before, which ends the run quietly. A failed installation records
/// its version and ends the run with an `update-error` notice. A completed
/// installation shows `update-installed` and restarts, the run staying
/// marked until the process ends.
pub open spec fn update_transition(g: GuardView, manual: bool, e: UpdateEventSpec) -> (
    GuardView,
    ReactionSpec,
) {
    let ended = GuardView { running: false, ..g };
    match e {
        UpdateEventSpec::Requested => if g.running {
            (g, ReactionSpec { status: if_manual(manual, StatusSpec::UpdateBusy), log: None, next: UpdateNext::Stop })
        } else {
            (GuardView { running: true, ..g }, ReactionSpec { status: None, log: None, next: UpdateNext::Check })
        },
        UpdateEventSpec::UpdaterUnavailable(err) => (
            ended,
            ReactionSpec { status: if_manual(manual, StatusSpec::UpdateError(err)), log: None, next: UpdateNext::Stop },
        ),
        UpdateEventSpec::CheckFailed(err) => (
            ended,
            ReactionSpec {
                status: if_manual(manual, StatusSpec::UpdateError(err)),
                log: if manual {
                    None
                } else {
                    Some(check_failed_log() + err)
                },
                next: UpdateNext::Stop,
            },
        ),
        UpdateEventSpec::NoUpdate => (
            ended,
            ReactionSpec { status: if_manual(manual, StatusSpec::UpdateNone), log: None, next: UpdateNext::Stop },
        ),
        UpdateEventSpec::Found(v) => if !manual && g.failed_version == Some(v) {
            (ended, ReactionSpec { status: None, log: None, next: UpdateNext::Stop })
        } else {
            (
                g,
                ReactionSpec {
                    status: Some(StatusSpec::UpdateDownloading(v)),
                    log: None,
                    next: UpdateNext::Download,
                },
            )
        },
        UpdateEventSpec::InstallFailed { version, detail } => (
            GuardView { running: false, failed_version: Some(version) },
            ReactionSpec { status: Some(StatusSpec::UpdateError(detail)), log: None, next: UpdateNext::Stop },
        ),
        UpdateEventSpec::Installed => (
            g,
            ReactionSpec { status: Some(StatusSpec::UpdateInstalled), log: None, next: UpdateNext::Restart },
        ),
    }
}

fn same_text(a: &Option<String>, b: &String) -> (r: bool)
    ensures
        r == (crate::config::opt_view(*a) == Some(b@)),
{
    match a {
        Some(x) => crate::text::str_eq(x.as_str(), b.as_str()),
        None => false,
    }
}

fn manual_notice(manual: bool, s: Status) -> (r: Option<Status>)
    ensures
        opt_status(r) == if_manual(manual, s@),
{
    if manual {
        Some(s)
    } else {
        None
    }
}

/// One step of an update run.
pub fn update_step(guard: &mut UpdateGuard, manual: bool, event: UpdateEvent) -> (r: UpdateReaction)
    ensures
        (final(guard)@, r@) == update_transition(old(guard)@, manual, event@),
{
    match event {
        UpdateEvent::Requested => {
            if guard.running {
                UpdateReaction { status: manual_notice(manual, Status::UpdateBusy), log: None, next: UpdateNext::Stop }
            } else {
                guard.running = true;
                UpdateReaction { status: None, log: None, next: UpdateNext::Check }
            }
        },
        UpdateEvent::UpdaterUnavailable(e) => {
            guard.running = false;
            UpdateReaction { status: manual_notice(manual, Status::UpdateError(e)), log: None, next: UpdateNext::Stop }
        },
        UpdateEvent::CheckFailed(e) => {
            guard.running = false;
            if manual {
                UpdateReaction { status: Some(Status::UpdateError(e)), log: None, next: UpdateNext::Stop }
            } else {
                let mut line = owned("vérification de mise à jour impossible : ");
                push_str(&mut line, e.as_str());
                UpdateReaction { status: None, log: Some(line), next: UpdateNext::Stop }
            }
        },
        UpdateEvent::NoUpdate => {
            guard.running = false;
            UpdateReaction { status: manual_notice(manual, Status::UpdateNone), log: None, next: UpdateNext::Stop }
        },
        UpdateEvent::Found(v) => {
            if !manual && same_text(&guard.failed_version, &v) {
                guard.running = false;
                UpdateReaction { status: None, log: None, next: UpdateNext::Stop }
            } else {
                UpdateReaction { status: Some(Status::UpdateDownloading(v)), log: None, next: UpdateNext::Download }
            }
        },
        UpdateEvent::InstallFailed { version, detail } => {
            guard.failed_version = Some(version);
            guard.running = false;
            UpdateReaction { status: Some(Status::UpdateError(detail)), log: None, next: UpdateNext::Stop }
        },
        UpdateEvent::Installed => {
            UpdateReaction { status: Some(Status::UpdateInstalled), log: None, next: UpdateNext::Restart }
        },
    }
}

// ---------------------------------------------------------------- laws

/// One run at a time: a request while a run is under way starts nothing and
/// leaves the shared state unchanged.
pub proof fn lemma_one_run_at_a_time(g: GuardView, manual: bool)
    requires
        g.running,
    ensures
        update_transition(g, manual, UpdateEventSpec::Requested).0 == g,
        update_transition(g, manual, UpdateEventSpec::Requested).1.next == UpdateNext::Stop,
{
}

/// Every run that ends releases the guard: whatever step ends a run that was
/// started leaves no run marked.
pub proof fn lemma_end_releases(g: GuardView, manual: bool, e: UpdateEventSpec)
    requires
        e != UpdateEventSpec::Requested,
        update_transition(g, manual, e).1.next == UpdateNext::Stop,
    ensures
        !update_transition(g, manual, e).0.running,
{
}

/// A version whose installation failed is not downloaded again by an
/// automatic run: after the failure, any steps other than another failed
/// installation keep it recorded, and finding it again in an automatic run
/// ends that run.
pub proof fn lemma_failed_version_not_retried(
    g: GuardView,
    manual: bool,
    version: Seq<char>,
    detail: Seq<char>,
    later: Seq<(bool, UpdateEventSpec)>,
)
    requires
        forall|i: int|
            0 <= i < later.len() ==> !((#[trigger] later[i]).1 is InstallFailed),
    ensures
        ({
            let g1 = update_transition(
                g,
                manual,
                UpdateEventSpec::InstallFailed { version, detail },
            ).0;
            let g2 = run_all(g1, later);
            &&& g2.failed_version == Some(version)
            &&& update_transition(g2, false, UpdateEventSpec::Found(version)).1.next
                == UpdateNext::Stop
        }),
    decreases later.len(),
{
    let g1 = update_transition(g, manual, UpdateEventSpec::InstallFailed { version, detail }).0;
    lemma_run_keeps_failed(g1, later);
}

/// The shared state after the steps `steps` (each a manual flag and an
/// event), from `g`.
pub open spec fn run_all(g: GuardView, steps: Seq<(bool, UpdateEventSpec)>) -> GuardView
    decreases steps.len(),
{
    if steps.len() == 0 {
        g
    } else {
        let prev = run_all(g, steps.drop_last());
        update_transition(prev, steps.last().0, steps.last().1).0
    }
}

proof fn lemma_run_keeps_failed(g: GuardView, steps: Seq<(bool, UpdateEventSpec)>)
    requires
        forall|i: int| 0 <= i < steps.len() ==> !((#[trigger] steps[i]).1 is InstallFailed),
    ensures
        run_all(g, steps).failed_version == g.failed_version,
    decreases steps.len(),
{
    if steps.len() > 0 {
        assert forall|i: int|
            0 <= i < steps.drop_last().len() implies !((#[trigger] steps.drop_last()[i]).1 is InstallFailed) by {
            assert(steps.drop_last()[i] == steps[i]);
        }
        lemma_run_keeps_failed(g, steps.drop_last());
        assert(!(steps[steps.len() - 1].1 is InstallFailed));
    }
}

/// A request when no run is under way always starts one, manual and
/// automatic alike: the run is marked, the check comes next, nothing is
/// shown, and the recorded failed version stays.
pub proof fn lemma_idle_request_starts_run(g: GuardView, manual: bool)
    requires
        !g.running,
    ensures
        update_transition(g, manual, UpdateEventSpec::Requested).0.running,
        update_transition(g, manual, UpdateEventSpec::Requested).0.failed_version
            == g.failed_version,
        update_transition(g, manual, UpdateEventSpec::Requested).1.next == UpdateNext::Check,
        update_transition(g, manual, UpdateEventSpec::Requested).1.status is None,
{
}

} // verus!
