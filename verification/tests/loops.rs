use livechat::link::{is_media_tag, Link, LinkEvent, LinkNext, READ_TIMEOUT_SECS};
use livechat::status::Status;
use livechat::updater::{update_delay, update_step, UpdateEvent, UpdateGuard, UpdateNext, RESTART_PAUSE_SECS};
use livechat::startup::ON_TOP_PERIOD_SECS;

#[test]
fn backoff_doubles_up_to_a_minute() {
    let mut link = Link::new();
    let mut pauses = Vec::new();
    for _ in 0..7 {
        let r = link.step(LinkEvent::ConnectFailed("refused".into()));
        assert!(matches!(r.status, Some(Status::Error(ref e)) if e == "refused"));
        match r.next {
            LinkNext::Sleep(n) => pauses.push(n),
            _ => panic!("expected a pause"),
        }
    }
    assert_eq!(pauses, vec![2, 4, 8, 16, 32, 60, 60]);
}

#[test]
fn connection_resets_backoff() {
    let mut link = Link::new();
    link.step(LinkEvent::ConnectFailed("x".into()));
    link.step(LinkEvent::ConnectFailed("x".into()));
    assert_eq!(link.backoff_secs(), 8);
    let r = link.step(LinkEvent::Begin);
    assert!(matches!(r.status, Some(Status::Connecting)));
    assert_eq!(r.next, LinkNext::Connect);
    let r = link.step(LinkEvent::Connected);
    assert!(matches!(r.status, Some(Status::Connected)));
    assert_eq!(r.next, LinkNext::Read);
    let r = link.step(LinkEvent::TimedOut);
    assert!(matches!(r.status, Some(Status::Disconnected)));
    assert_eq!(r.next, LinkNext::Sleep(2));
    assert_eq!(link.backoff_secs(), 4);
}

#[test]
fn only_media_frames_are_forwarded() {
    let mut link = Link::new();
    let r = link.step(LinkEvent::Text(
        r#"{"type":"media","kind":"image","url":"https://x/a.png","extra":1}"#.into(),
    ));
    assert_eq!(r.next, LinkNext::Forward);
    assert!(r.status.is_none());
    let r = link.step(LinkEvent::Text(r#"{"type":"hello"}"#.into()));
    assert_eq!(r.next, LinkNext::Read);
    let r = link.step(LinkEvent::Text(r#"{"type":1}"#.into()));
    assert_eq!(r.next, LinkNext::Read);
    let r = link.step(LinkEvent::Text("not json".into()));
    assert_eq!(r.next, LinkNext::Read);
    let r = link.step(LinkEvent::Other);
    assert_eq!(r.next, LinkNext::Read);
    let r = link.step(LinkEvent::Closed);
    assert!(matches!(r.next, LinkNext::Sleep(2)));
}

#[test]
fn media_tag_decision() {
    assert!(is_media_tag(&Some(Some("media".into()))));
    assert!(!is_media_tag(&Some(Some("Media".into()))));
    assert!(!is_media_tag(&Some(None)));
    assert!(!is_media_tag(&None));
}

#[test]
fn status_fields() {
    assert_eq!(Status::UpdateBusy.state(), "update-busy");
    assert_eq!(Status::UpdateDownloading("1.2.0".into()).detail(), Some("1.2.0".into()));
    assert_eq!(Status::Connected.detail(), None);
    assert_eq!(Status::Error("e".into()).state(), "error");
}

#[test]
fn update_runs_one_at_a_time() {
    let mut g = UpdateGuard::new();
    let r = update_step(&mut g, false, UpdateEvent::Requested);
    assert_eq!(r.next, UpdateNext::Check);
    assert!(g.running);
    let r = update_step(&mut g, true, UpdateEvent::Requested);
    assert_eq!(r.next, UpdateNext::Stop);
    assert!(matches!(r.status, Some(Status::UpdateBusy)));
    assert!(g.running);
    let r = update_step(&mut g, false, UpdateEvent::Requested);
    assert!(r.status.is_none());
}

#[test]
fn automatic_check_is_quiet() {
    let mut g = UpdateGuard::new();
    update_step(&mut g, false, UpdateEvent::Requested);
    let r = update_step(&mut g, false, UpdateEvent::CheckFailed("offline".into()));
    assert!(r.status.is_none());
    assert_eq!(r.log.as_deref(), Some("vérification de mise à jour impossible : offline"));
    assert!(!g.running);
    update_step(&mut g, false, UpdateEvent::Requested);
    let r = update_step(&mut g, false, UpdateEvent::NoUpdate);
    assert!(r.status.is_none());
    assert!(!g.running);
}

#[test]
fn manual_check_reports() {
    let mut g = UpdateGuard::new();
    update_step(&mut g, true, UpdateEvent::Requested);
    let r = update_step(&mut g, true, UpdateEvent::NoUpdate);
    assert!(matches!(r.status, Some(Status::UpdateNone)));
    update_step(&mut g, true, UpdateEvent::Requested);
    let r = update_step(&mut g, true, UpdateEvent::UpdaterUnavailable("no key".into()));
    assert!(matches!(r.status, Some(Status::UpdateError(ref e)) if e == "no key"));
    assert!(r.log.is_none());
}

#[test]
fn failed_version_is_not_retried_automatically() {
    let mut g = UpdateGuard::new();
    update_step(&mut g, false, UpdateEvent::Requested);
    let r = update_step(&mut g, false, UpdateEvent::Found("0.3.0".into()));
    assert_eq!(r.next, UpdateNext::Download);
    assert!(matches!(r.status, Some(Status::UpdateDownloading(ref v)) if v == "0.3.0"));
    let r = update_step(
        &mut g,
        false,
        UpdateEvent::InstallFailed { version: "0.3.0".into(), detail: "hash".into() },
    );
    assert!(matches!(r.status, Some(Status::UpdateError(ref e)) if e == "hash"));
    assert!(!g.running);
    update_step(&mut g, false, UpdateEvent::Requested);
    let r = update_step(&mut g, false, UpdateEvent::Found("0.3.0".into()));
    assert_eq!(r.next, UpdateNext::Stop);
    assert!(!g.running);
    update_step(&mut g, true, UpdateEvent::Requested);
    let r = update_step(&mut g, true, UpdateEvent::Found("0.3.0".into()));
    assert_eq!(r.next, UpdateNext::Download);
    update_step(&mut g, false, UpdateEvent::Requested);
    let r = update_step(&mut g, false, UpdateEvent::Found("0.3.1".into()));
    assert_eq!(r.next, UpdateNext::Download);
    let r = update_step(&mut g, false, UpdateEvent::Installed);
    assert_eq!(r.next, UpdateNext::Restart);
    assert!(matches!(r.status, Some(Status::UpdateInstalled)));
}

#[test]
fn update_schedule() {
    assert_eq!(update_delay(true), 15);
    assert_eq!(update_delay(false), 4 * 3600);
    assert_eq!(RESTART_PAUSE_SECS, 2);
}

#[test]
fn timing_constants() {
    assert_eq!(READ_TIMEOUT_SECS, 90);
    assert_eq!(ON_TOP_PERIOD_SECS, 2);
}
