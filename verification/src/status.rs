//! The `status` notices that the overlay shows: connection and update states.
use vstd::prelude::*;
use crate::text::owned;

verus! {

/// A `status` notice: a state and, for some states, a detail.
pub enum Status {
    Connecting,
    Connected,
    Disconnected,
    /// The connection attempt failed; the error.
    Error(String),
    /// An update check was asked for while one was running.
    UpdateBusy,
    /// An update step failed; the error.
    UpdateError(String),
    /// An update is being downloaded; its version.
    UpdateDownloading(String),
    UpdateInstalled,
    UpdateNone,
}

/// The content of a notice.
pub enum StatusSpec {
    Connecting,
    Connected,
    Disconnected,
    Error(Seq<char>),
    UpdateBusy,
    UpdateError(Seq<char>),
    UpdateDownloading(Seq<char>),
    UpdateInstalled,
    UpdateNone,
}

impl View for Status {
    type V = StatusSpec;

    open spec fn view(&self) -> StatusSpec {
        match self {
            Status::Connecting => StatusSpec::Connecting,
            Status::Connected => StatusSpec::Connected,
            Status::Disconnected => StatusSpec::Disconnected,
            Status::Error(e) => StatusSpec::Error(e@),
            Status::UpdateBusy => StatusSpec::UpdateBusy,
            Status::UpdateError(e) => StatusSpec::UpdateError(e@),
            Status::UpdateDownloading(v) => StatusSpec::UpdateDownloading(v@),
            Status::UpdateInstalled => StatusSpec::UpdateInstalled,
            Status::UpdateNone => StatusSpec::UpdateNone,
        }
    }
}

/// The view of an optional notice.
pub open spec fn opt_status(s: Option<Status>) -> Option<StatusSpec> {
    match s {
        Some(x) => Some(x@),
        None => None,
    }
}

/// The `state` field of a notice.
pub open spec fn state_name(s: StatusSpec) -> Seq<char> {
    match s {
        StatusSpec::Connecting => "connecting"@,
        StatusSpec::Connected => "connected"@,
        StatusSpec::Disconnected => "disconnected"@,
        StatusSpec::Error(_) => "error"@,
        StatusSpec::UpdateBusy => "update-busy"@,
        StatusSpec::UpdateError(_) => "update-error"@,
        StatusSpec::UpdateDownloading(_) => "update-downloading"@,
        StatusSpec::UpdateInstalled => "update-installed"@,
        StatusSpec::UpdateNone => "update-none"@,
    }
}

/// The `detail` field of a notice, for the states that have one.
pub open spec fn detail_of(s: StatusSpec) -> Option<Seq<char>> {
    match s {
        StatusSpec::Error(e) => Some(e),
        StatusSpec::UpdateError(e) => Some(e),
        StatusSpec::UpdateDownloading(v) => Some(v),
        _ => None,
    }
}

impl Status {
    /// The `state` field.
    pub fn state(&self) -> (r: &'static str)
        ensures
            r@ == state_name(self@),
    {
        match self {
            Status::Connecting => "connecting",
            Status::Connected => "connected",
            Status::Disconnected => "disconnected",
            Status::Error(_) => "error",
            Status::UpdateBusy => "update-busy",
            Status::UpdateError(_) => "update-error",
            Status::UpdateDownloading(_) => "update-downloading",
            Status::UpdateInstalled => "update-installed",
            Status::UpdateNone => "update-none",
        }
    }

    /// The `detail` field.
    pub fn detail(&self) -> (r: Option<String>)
        ensures
            crate::config::opt_view(r) == detail_of(self@),
    {
        match self {
            Status::Error(e) => Some(owned(e.as_str())),
            Status::UpdateError(e) => Some(owned(e.as_str())),
            Status::UpdateDownloading(v) => Some(owned(v.as_str())),
            _ => None,
        }
    }
}

} // verus!
