use solo2_oath::actor::{Applet, Command, DeviceActor, Intent, Reply, Step};
use solo2_oath::controller::{Acquire, Controller, OpenOutcome};
use solo2_oath::error::ErrorKind;
use solo2_oath::oath::{calculation, check_label, prepare_registration, Calculation};
use solo2_oath::snapshot::{CredentialSummary, Snapshot};
use solo2_oath::ui::Published;

fn s(x: &str) -> String {
    x.to_string()
}

fn snapshot_of(step: Step) -> (Snapshot, bool) {
    match step {
        Step::Answer(Reply::SnapshotChanged { snapshot, duplicate }) => (snapshot, duplicate),
        other => panic!("expected a snapshot, got {:?}", other),
    }
}

/// Runs the open, select and list steps of a refresh that lists `labels`.
fn open_and_list(actor: &mut DeviceActor, labels: Vec<String>) -> Step {
    assert_eq!(actor.on_opened(OpenOutcome::Opened), Step::Run(Command::Select(Applet::Oath)));
    assert_eq!(actor.on_selected(true), Step::Run(Command::List));
    actor.on_listed(Ok(labels))
}

#[test]
fn discover_without_device_reports_no_device() {
    let mut actor = DeviceActor::new(30);
    let mut ui = Published::new(30);
    assert_eq!(actor.start(Intent::Discover, 100), Step::Run(Command::Open));
    let step = actor.on_opened(OpenOutcome::NoTokens);
    assert_eq!(step, Step::Answer(Reply::Failed(ErrorKind::NoDevice)));
    if let Step::Answer(reply) = step {
        assert_eq!(ui.apply(reply, 100), None);
    }
    assert!(!ui.snapshot.device_present);
    assert!(ui.snapshot.credentials.is_empty());
    assert!(ui.snapshot.info.is_none());
    assert_eq!(ui.snapshot.window_remaining_seconds, 30);
    assert_eq!(ui.last_error, Some(ErrorKind::NoDevice));
}

#[test]
fn discover_rejects_other_tokens() {
    let mut actor = DeviceActor::new(30);
    actor.start(Intent::Discover, 0);
    assert_eq!(
        actor.on_opened(OpenOutcome::NotASolo2),
        Step::Answer(Reply::Failed(ErrorKind::NotASolo2))
    );
    assert!(actor.controller.handle.is_none());
}

#[test]
fn discover_then_snapshot_on_empty_device() {
    let mut actor = DeviceActor::new(30);
    assert_eq!(actor.start(Intent::Discover, 10), Step::Run(Command::Open));
    let (snap, dup) = snapshot_of(open_and_list(&mut actor, vec![]));
    assert!(snap.device_present);
    assert!(snap.credentials.is_empty());
    assert!(!dup);
    // The handle stays open: the next snapshot selects on it directly.
    assert_eq!(actor.start(Intent::SnapshotNow, 11), Step::Run(Command::Select(Applet::Oath)));
    assert_eq!(actor.on_selected(true), Step::Run(Command::List));
    let (snap, _) = snapshot_of(actor.on_listed(Ok(vec![])));
    assert!(snap.device_present);
    assert!(snap.credentials.is_empty());
    assert_eq!(snap.window_remaining_seconds, 19);
}

#[test]
fn github_code_request_at_fifty_nine() {
    let mut actor = DeviceActor::new(30);
    actor.start(Intent::Discover, 59);
    let step = open_and_list(&mut actor, vec![s("github")]);
    assert_eq!(
        step,
        Step::Run(Command::Calculate(Calculation { label: s("github"), challenge: 1 }))
    );
    let (snap, _) = snapshot_of(actor.on_code(Ok(s("287082"))));
    assert_eq!(
        snap.credentials,
        vec![CredentialSummary { label: s("github"), code: s("287082") }]
    );
    assert_eq!(snap.window_remaining_seconds, 1);
}

#[test]
fn register_refreshes_on_a_new_handle() {
    let mut actor = DeviceActor::new(30);
    actor.start(Intent::Discover, 100);
    snapshot_of(open_and_list(&mut actor, vec![]));
    let first = actor.controller.handle.unwrap();
    let step = actor.start(
        Intent::Register { label: s("aws"), secret_text: s("JBSWY3DPEHPK3PXP") },
        100,
    );
    assert_eq!(step, Step::Run(Command::Select(Applet::Oath)));
    match actor.on_selected(true) {
        Step::Run(Command::Put(reg)) => {
            assert_eq!(reg.label, "aws");
            assert_eq!(reg.secret, b"JBSWY3DPEHPK3PXP".to_vec());
            assert_eq!(reg.digits, 6);
            assert_eq!(reg.period, 30);
        }
        other => panic!("expected a write, got {:?}", other),
    }
    assert_eq!(actor.on_done(Ok(())), Step::Run(Command::Open));
    assert!(actor.controller.handle.is_none());
    let step = open_and_list(&mut actor, vec![s("aws")]);
    assert!(actor.controller.handle.unwrap() > first);
    assert_eq!(
        step,
        Step::Run(Command::Calculate(Calculation { label: s("aws"), challenge: 3 }))
    );
    let (snap, _) = snapshot_of(actor.on_code(Ok(s("123456"))));
    assert_eq!(snap.credentials, vec![CredentialSummary { label: s("aws"), code: s("123456") }]);
}

#[test]
fn delete_then_snapshot_is_empty() {
    let mut actor = DeviceActor::new(30);
    actor.start(Intent::Discover, 100);
    let step = open_and_list(&mut actor, vec![s("aws")]);
    assert!(matches!(step, Step::Run(Command::Calculate(_))));
    snapshot_of(actor.on_code(Ok(s("123456"))));
    actor.start(Intent::Delete { label: s("aws") }, 101);
    assert_eq!(actor.on_selected(true), Step::Run(Command::Remove(s("aws"))));
    assert_eq!(actor.on_done(Ok(())), Step::Run(Command::Open));
    let (snap, _) = snapshot_of(open_and_list(&mut actor, vec![]));
    assert!(snap.credentials.is_empty());
}

#[test]
fn delete_of_missing_label_keeps_handle() {
    let mut actor = DeviceActor::new(30);
    actor.start(Intent::Discover, 0);
    snapshot_of(open_and_list(&mut actor, vec![]));
    actor.start(Intent::Delete { label: s("nope") }, 1);
    actor.on_selected(true);
    assert_eq!(
        actor.on_done(Err(ErrorKind::UnknownLabel)),
        Step::Answer(Reply::Failed(ErrorKind::UnknownLabel))
    );
    assert!(actor.controller.handle.is_some());
}

#[test]
fn copy_code_across_step_boundary() {
    let mut actor = DeviceActor::new(30);
    let mut ui = Published::new(30);
    actor.start(Intent::Discover, 59);
    snapshot_of(open_and_list(&mut actor, vec![]));
    actor.start(Intent::CopyCode { label: s("github") }, 59);
    assert_eq!(
        actor.on_selected(true),
        Step::Run(Command::Calculate(Calculation { label: s("github"), challenge: 1 }))
    );
    let first = match actor.on_code(Ok(s("287082"))) {
        Step::Answer(reply) => ui.apply(reply, 59),
        other => panic!("expected a reply, got {:?}", other),
    };
    actor.start(Intent::CopyCode { label: s("github") }, 60);
    assert_eq!(
        actor.on_selected(true),
        Step::Run(Command::Calculate(Calculation { label: s("github"), challenge: 2 }))
    );
    let second = match actor.on_code(Ok(s("359152"))) {
        Step::Answer(reply) => ui.apply(reply, 60),
        other => panic!("expected a reply, got {:?}", other),
    };
    assert_eq!(first, Some(s("287082")));
    assert_eq!(second, Some(s("359152")));
    assert_ne!(first, second);
}

#[test]
fn invalid_secret_is_answered_without_device_work() {
    let mut actor = DeviceActor::new(30);
    let step = actor.start(Intent::Register { label: s("x"), secret_text: s("ABC") }, 0);
    assert_eq!(step, Step::Answer(Reply::Failed(ErrorKind::InvalidSecret)));
    assert!(actor.controller.handle.is_none());
}

#[test]
fn invalid_label_is_answered_without_device_work() {
    let mut actor = DeviceActor::new(30);
    let step = actor.start(Intent::Register { label: s(""), secret_text: s("JBSWY3DPEHPK3PXP") }, 0);
    assert_eq!(step, Step::Answer(Reply::Failed(ErrorKind::InvalidLabel)));
    let long = "a".repeat(65);
    assert_eq!(check_label(&long), Err(ErrorKind::InvalidLabel));
    assert_eq!(check_label(&"a".repeat(64)), Ok(()));
    assert!(prepare_registration(&long, &s("JBSWY3DPEHPK3PXP")).is_err());
}

#[test]
fn transport_error_forces_a_fresh_handle() {
    let mut actor = DeviceActor::new(30);
    actor.start(Intent::Discover, 0);
    snapshot_of(open_and_list(&mut actor, vec![]));
    let first = actor.controller.handle.unwrap();
    actor.start(Intent::SnapshotNow, 1);
    actor.on_selected(true);
    assert_eq!(
        actor.on_listed(Err(ErrorKind::Transport)),
        Step::Answer(Reply::Failed(ErrorKind::Transport))
    );
    assert_eq!(actor.controller.acquire(), Acquire::Open);
    assert_eq!(actor.start(Intent::SnapshotNow, 2), Step::Run(Command::Open));
    actor.on_opened(OpenOutcome::Opened);
    assert!(actor.controller.handle.unwrap() > first);
}

#[test]
fn timeout_while_computing_drops_handle_and_keeps_snapshot() {
    let mut actor = DeviceActor::new(30);
    actor.start(Intent::Discover, 0);
    open_and_list(&mut actor, vec![s("a"), s("b"), s("c")]);
    assert_eq!(
        actor.on_code(Ok(s("111111"))),
        Step::Run(Command::Calculate(Calculation { label: s("b"), challenge: 0 }))
    );
    let (snap, _) = snapshot_of(actor.on_code(Err(ErrorKind::Timeout)));
    let codes: Vec<&str> = snap.credentials.iter().map(|c| c.code.as_str()).collect();
    assert_eq!(codes, vec!["111111", "------", "------"]);
    assert!(actor.controller.handle.is_none());
    assert_eq!(actor.start(Intent::SnapshotNow, 1), Step::Run(Command::Open));
}

#[test]
fn abort_returns_actor_to_idle() {
    let mut actor = DeviceActor::new(30);
    actor.start(Intent::Discover, 0);
    assert_eq!(
        actor.abort(ErrorKind::Transport),
        Step::Answer(Reply::Failed(ErrorKind::Transport))
    );
    assert_eq!(actor.start(Intent::SnapshotNow, 1), Step::Run(Command::Open));
}

#[test]
fn refused_secret_reported_before_label() {
    let mut actor = DeviceActor::new(30);
    let step = actor.start(Intent::Register { label: s(""), secret_text: s("ABC") }, 0);
    assert_eq!(step, Step::Answer(Reply::Failed(ErrorKind::InvalidSecret)));
    assert!(matches!(
        prepare_registration(&"a".repeat(65), &s("ABC")),
        Err(ErrorKind::InvalidSecret)
    ));
}

#[test]
fn failed_code_shows_placeholder_and_duplicates_are_flagged() {
    let mut actor = DeviceActor::new(30);
    actor.start(Intent::Discover, 0);
    let step = open_and_list(&mut actor, vec![s("a"), s("b"), s("a")]);
    assert_eq!(step, Step::Run(Command::Calculate(Calculation { label: s("a"), challenge: 0 })));
    assert_eq!(
        actor.on_code(Ok(s("111111"))),
        Step::Run(Command::Calculate(Calculation { label: s("b"), challenge: 0 }))
    );
    actor.on_code(Err(ErrorKind::UnknownLabel));
    let (snap, dup) = snapshot_of(actor.on_code(Ok(s("333333"))));
    assert!(dup);
    let codes: Vec<&str> = snap.credentials.iter().map(|c| c.code.as_str()).collect();
    assert_eq!(codes, vec!["111111", "------", "333333"]);
    assert_eq!(snap.code_for(&s("a")), Some(s("111111")));
    assert_eq!(snap.code_for(&s("z")), None);
    assert_eq!(snap.count_label(&s("a")), 2);
}

#[test]
fn selecting_applet_failure_is_reported() {
    let mut actor = DeviceActor::new(30);
    actor.start(Intent::Discover, 0);
    actor.on_opened(OpenOutcome::Opened);
    assert_eq!(
        actor.on_selected(false),
        Step::Answer(Reply::Failed(ErrorKind::AppletUnavailable))
    );
}

#[test]
fn wink_and_info_use_admin_applet() {
    let mut actor = DeviceActor::new(30);
    actor.start(Intent::Discover, 0);
    snapshot_of(open_and_list(&mut actor, vec![]));
    assert_eq!(actor.start(Intent::Wink, 1), Step::Run(Command::Select(Applet::Admin)));
    assert_eq!(actor.on_selected(true), Step::Run(Command::Wink));
    assert_eq!(actor.on_done(Ok(())), Step::Answer(Reply::Winked));
    assert_eq!(actor.start(Intent::ReadInfo, 2), Step::Run(Command::Select(Applet::Admin)));
    assert_eq!(actor.on_selected(true), Step::Run(Command::ReadInfo));
}

#[test]
fn controller_numbers_handles() {
    let mut c = Controller::new();
    assert_eq!(c.acquire(), Acquire::Open);
    assert_eq!(c.on_open(OpenOutcome::Opened), Ok(1));
    assert_eq!(c.acquire(), Acquire::Reuse(1));
    c.finish(Some(ErrorKind::UnknownLabel));
    assert_eq!(c.acquire(), Acquire::Reuse(1));
    c.finish(Some(ErrorKind::Timeout));
    assert_eq!(c.acquire(), Acquire::Open);
    assert_eq!(c.on_open(OpenOutcome::NoTokens), Err(ErrorKind::NoDevice));
    assert_eq!(c.on_open(OpenOutcome::Opened), Ok(2));
    c.invalidate();
    assert!(!c.is_present());
}

#[test]
fn same_step_same_request() {
    let a = calculation(&s("github"), 30, 30);
    let b = calculation(&s("github"), 59, 30);
    let c = calculation(&s("github"), 60, 30);
    assert_eq!(a, b);
    assert_ne!(b, c);
}
