use solo2_oath::actor::{Intent, Reply};
use solo2_oath::error::ErrorKind;
use solo2_oath::render::{decimal_text, render_hex, render_version};
use solo2_oath::snapshot::{CredentialSummary, DeviceInfo, Snapshot, Version};
use solo2_oath::ui::{AdminState, Content, OathState, Pane, Published};

fn s(x: &str) -> String {
    x.to_string()
}

fn one_entry() -> Snapshot {
    let labels = vec![s("github")];
    let codes = vec![Ok(s("287082"))];
    Snapshot::build(&labels, &codes, None, 59, 30)
}

#[test]
fn oath_page_lists_snapshot() {
    let page = OathState::new(&one_entry());
    assert_eq!(page.totp_list, vec![(s("github"), s("287082"))]);
    assert!(!page.adding_totp);
    assert!(page.deleting_totp.is_empty());
}

#[test]
fn delete_prompt_toggles() {
    let mut page = OathState::new(&one_entry());
    page.toggle_delete(s("github"));
    assert_eq!(page.deleting_totp, "github");
    page.toggle_delete(s("github"));
    assert_eq!(page.deleting_totp, "");
    assert_eq!(page.confirm_delete(), None);
    page.toggle_delete(s("github"));
    assert_eq!(page.confirm_delete(), Some(Intent::Delete { label: s("github") }));
    assert_eq!(page.deleting_totp, "");
}

#[test]
fn add_form_submits_register() {
    let mut page = OathState::new(&Snapshot::absent(30));
    page.open_add_form();
    assert!(page.adding_totp);
    page.label_input = s("aws");
    page.secret_input = s("jbsw y3dp ehpk 3pxp");
    let intent = page.submit();
    assert_eq!(
        intent,
        Some(Intent::Register { label: s("aws"), secret_text: s("jbsw y3dp ehpk 3pxp") })
    );
    assert!(!page.adding_totp);
    assert!(page.label_input.is_empty());
    assert!(page.secret_input.is_empty());
}

#[test]
fn add_form_flags_bad_secret() {
    let mut page = OathState::new(&Snapshot::absent(30));
    page.open_add_form();
    page.label_input = s("aws");
    page.secret_input = s("short");
    assert_eq!(page.submit(), None);
    assert!(page.invalid_totp_code_length);
    assert!(page.adding_totp);
    assert_eq!(page.secret_input, "short");
    page.cancel_add();
    assert!(!page.invalid_totp_code_length);
    assert!(!page.adding_totp);
    assert!(page.label_input.is_empty());
}

#[test]
fn admin_page_renders_info() {
    let uuid: Vec<u8> = (0u8..16).map(|i| i * 17).collect();
    let info = DeviceInfo::from_parts(&uuid, Version { major: 2, minor: 10, patch: 0 }, true);
    assert_eq!(info.uuid, "00112233445566778899aabbccddeeff");
    let page = AdminState::new(&Some(info));
    assert_eq!(page.version, "2.10.0");
    assert!(page.locked);
    let empty = AdminState::new(&None);
    assert!(empty.uuid.is_empty() && empty.version.is_empty() && !empty.locked);
}

#[test]
fn numbers_and_hex_render() {
    assert_eq!(decimal_text(0), "0");
    assert_eq!(decimal_text(4294967295), "4294967295");
    assert_eq!(render_version(Version { major: 1, minor: 0, patch: 23 }), "1.0.23");
    assert_eq!(render_hex(&vec![0x0f, 0xa0]), "0fa0");
    assert_eq!(render_hex(&vec![]), "");
}

#[test]
fn published_tick_and_replies() {
    let mut ui = Published::new(30);
    assert!(!ui.tick(45));
    assert_eq!(ui.snapshot.window_remaining_seconds, 15);
    let reply = Reply::SnapshotChanged { snapshot: one_entry(), duplicate: false };
    assert_eq!(ui.apply(reply, 59), None);
    assert!(!ui.tick(59));
    assert_eq!(ui.snapshot.window_remaining_seconds, 1);
    assert!(ui.tick(60));
    assert_eq!(ui.snapshot.window_remaining_seconds, 30);
    assert_eq!(ui.apply(Reply::Failed(ErrorKind::UnknownLabel), 61), None);
    assert_eq!(ui.snapshot.credentials.len(), 1);
    assert_eq!(ui.snapshot.credentials[0], CredentialSummary { label: s("github"), code: s("287082") });
    ui.apply(Reply::Failed(ErrorKind::NoDevice), 62);
    assert!(!ui.snapshot.device_present);
    assert!(ui.snapshot.credentials.is_empty());
}

#[test]
fn panes_and_pages() {
    assert_ne!(Pane::AppList, Pane::Content);
    assert_ne!(Content::Oath, Content::Admin);
}

#[test]
fn published_empties_on_wrong_token() {
    let mut ui = Published::new(30);
    ui.apply(Reply::SnapshotChanged { snapshot: one_entry(), duplicate: false }, 59);
    assert!(ui.snapshot.device_present);
    ui.apply(Reply::Failed(ErrorKind::NotASolo2), 60);
    assert!(!ui.snapshot.device_present);
    assert!(ui.snapshot.credentials.is_empty());
    assert_eq!(ui.snapshot.window_remaining_seconds, 30);
    assert_eq!(ui.last_error, Some(ErrorKind::NotASolo2));
}
