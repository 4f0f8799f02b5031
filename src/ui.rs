use vstd::prelude::*;
use vstd::utf8::encode_utf8;
use crate::actor::{Intent, Reply};
use crate::clock::{on_tick, remaining_of, step_of, TickAction};
use crate::error::ErrorKind;
use crate::oath::{check_label, label_ok};
use crate::render::{hex_of, render_hex, render_version, version_text};
use crate::secret::{accepts, check_secret};
use crate::snapshot::{entries, CredentialSummary, DeviceInfo, Snapshot, Version};

verus! {

/// The two panes of the main window.
#[derive(Clone, Copy, Debug, PartialEq, Eq, Structural)]
pub enum Pane {
    /// The list of the token's applets.
    AppList,
    /// The selected applet's content.
    Content,
}

/// The applet page shown in the content pane.
#[derive(Clone, Copy, Debug, PartialEq, Eq, Structural)]
pub enum Content {
    Oath,
    Admin,
}

/// What the OATH page shows and the state of its forms.
#[derive(Debug, PartialEq, Eq)]
pub struct OathState {
    pub adding_totp: bool,
    pub label_input: String,
    pub secret_input: String,
    /// (label, code) of each credential, in device order.
    pub totp_list: Vec<(String, String)>,
    /// The label whose deletion is being confirmed, empty if none.
    pub deleting_totp: String,
    /// Set when the add form's secret or label was refused.
    pub invalid_totp_code_length: bool,
}

/// The (label, code) pairs of a list, as plain values.
pub open spec fn pairs(v: Seq<(String, String)>) -> Seq<(Seq<char>, Seq<char>)> {
    v.map_values(|p: (String, String)| (p.0@, p.1@))
}

fn list_of(credentials: &Vec<CredentialSummary>) -> (r: Vec<(String, String)>)
    ensures
        pairs(r@) == entries(credentials@),
{
    let mut out: Vec<(String, String)> = Vec::new();
    let mut i: usize = 0;
    while i < credentials.len()
        invariant
            0 <= i <= credentials@.len(),
            pairs(out@) == entries(credentials@).subrange(0, i as int),
        decreases credentials@.len() - i,
    {
        let ghost prev = out@;
        let label = credentials[i].label.clone();
        let code = credentials[i].code.clone();
        out.push((label, code));
        proof {
            assert(pairs(out@) =~= pairs(prev).push(credentials@[i as int]@));
            assert(entries(credentials@).subrange(0, i + 1) =~= entries(credentials@).subrange(
                0,
                i as int,
            ).push(credentials@[i as int]@));
        }
        i = i + 1;
    }
    proof {
        assert(entries(credentials@).subrange(0, i as int) =~= entries(credentials@));
    }
    out
}

impl OathState {
    /// The page for a snapshot, with the forms closed and empty.
    pub fn new(snapshot: &Snapshot) -> (r: OathState)
        ensures
            pairs(r.totp_list@) == entries(snapshot.credentials@),
            !r.adding_totp,
            !r.invalid_totp_code_length,
            r.label_input@.len() == 0,
            r.secret_input@.len() == 0,
            r.deleting_totp@.len() == 0,
    {
        OathState {
            adding_totp: false,
            label_input: String::new(),
            secret_input: String::new(),
            totp_list: list_of(&snapshot.credentials),
            deleting_totp: String::new(),
            invalid_totp_code_length: false,
        }
    }

    /// Shows a new snapshot's codes; the forms stay as they are.
    pub fn show_snapshot(&mut self, snapshot: &Snapshot)
        ensures
            pairs(final(self).totp_list@) == entries(snapshot.credentials@),
            final(self).adding_totp == old(self).adding_totp,
            final(self).label_input == old(self).label_input,
            final(self).secret_input == old(self).secret_input,
            final(self).deleting_totp == old(self).deleting_totp,
            final(self).invalid_totp_code_length == old(self).invalid_totp_code_length,
    {
        self.totp_list = list_of(&snapshot.credentials);
    }

    /// Opens the add form with empty inputs and closes any delete prompt.
    pub fn open_add_form(&mut self)
        ensures
            final(self).adding_totp,
            final(self).label_input@.len() == 0,
            final(self).secret_input@.len() == 0,
            final(self).deleting_totp@.len() == 0,
            final(self).totp_list == old(self).totp_list,
            final(self).invalid_totp_code_length == old(self).invalid_totp_code_length,
    {
        self.deleting_totp = String::new();
        self.label_input = String::new();
        self.secret_input = String::new();
        self.adding_totp = true;
    }

    /// Closes the add form and clears it.
    pub fn cancel_add(&mut self)
        ensures
            !final(self).adding_totp,
            !final(self).invalid_totp_code_length,
            final(self).label_input@.len() == 0,
            final(self).secret_input@.len() == 0,
            final(self).deleting_totp == old(self).deleting_totp,
            final(self).totp_list == old(self).totp_list,
    {
        self.adding_totp = false;
        self.invalid_totp_code_length = false;
        self.label_input = String::new();
        self.secret_input = String::new();
    }

    /// A press on a credential's label opens its delete prompt, or closes it
    /// if it was open.
    pub fn toggle_delete(&mut self, label: String)
        ensures
            old(self).deleting_totp@ == label@ ==> final(self).deleting_totp@.len() == 0,
            old(self).deleting_totp@ != label@ ==> final(self).deleting_totp == label,
            final(self).adding_totp == old(self).adding_totp,
            final(self).label_input == old(self).label_input,
            final(self).secret_input == old(self).secret_input,
            final(self).invalid_totp_code_length == old(self).invalid_totp_code_length,
            final(self).totp_list == old(self).totp_list,
    {
        if self.deleting_totp == label {
            self.deleting_totp = String::new();
        } else {
            self.deleting_totp = label;
        }
    }

    /// Submits the add form. A valid label and secret give the register
    /// intent and close the form; otherwise the form stays open, flagged.
    pub fn submit(&mut self) -> (r: Option<Intent>)
        ensures
            (label_ok(old(self).label_input@) && accepts(encode_utf8(old(self).secret_input@)))
                ==> {
                &&& r == Some(
                    Intent::Register {
                        label: old(self).label_input,
                        secret_text: old(self).secret_input,
                    },
                )
                &&& !final(self).adding_totp
                &&& !final(self).invalid_totp_code_length
                &&& final(self).label_input@.len() == 0
                &&& final(self).secret_input@.len() == 0
            },
            !(label_ok(old(self).label_input@) && accepts(encode_utf8(old(self).secret_input@)))
                ==> {
                &&& r.is_none()
                &&& final(self).invalid_totp_code_length
                &&& final(self).adding_totp == old(self).adding_totp
                &&& final(self).label_input == old(self).label_input
                &&& final(self).secret_input == old(self).secret_input
            },
            final(self).totp_list == old(self).totp_list,
            final(self).deleting_totp == old(self).deleting_totp,
    {
        let ok = match check_label(&self.label_input) {
            Ok(()) => check_secret(self.secret_input.as_str()).is_ok(),
            Err(_) => false,
        };
        if !ok {
            self.invalid_totp_code_length = true;
            return None;
        }
        let label = self.label_input.clone();
        self.label_input = String::new();
        let secret_text = self.secret_input.clone();
        self.secret_input = String::new();
        self.invalid_totp_code_length = false;
        self.adding_totp = false;
        Some(Intent::Register { label, secret_text })
    }

    /// Confirms the open delete prompt: gives the delete intent and closes
    /// the prompt; with no prompt open gives nothing.
    pub fn confirm_delete(&mut self) -> (r: Option<Intent>)
        ensures
            old(self).deleting_totp@.len() == 0 ==> r.is_none() && final(self).deleting_totp
                == old(self).deleting_totp,
            old(self).deleting_totp@.len() > 0 ==> r == Some(
                Intent::Delete { label: old(self).deleting_totp },
            ) && final(self).deleting_totp@.len() == 0,
            final(self).totp_list == old(self).totp_list,
            final(self).adding_totp == old(self).adding_totp,
            final(self).label_input == old(self).label_input,
            final(self).secret_input == old(self).secret_input,
            final(self).invalid_totp_code_length == old(self).invalid_totp_code_length,
    {
        if self.deleting_totp.as_str().is_empty() {
            return None;
        }
        let label = self.deleting_totp.clone();
        self.deleting_totp = String::new();
        Some(Intent::Delete { label })
    }
}

/// What the Admin page shows.
#[derive(Debug, PartialEq, Eq)]
pub struct AdminState {
    pub locked: bool,
    pub uuid: String,
    pub version: String,
}

impl AdminState {
    /// The page for what the Admin applet reported; empty without a report.
    pub fn new(info: &Option<DeviceInfo>) -> (r: AdminState)
        ensures
            match info {
                Some(i) => r.locked == i.locked && r.uuid@ == i.uuid@ && r.version@
                    == version_text(i.version),
                None => !r.locked && r.uuid@.len() == 0 && r.version@.len() == 0,
            },
    {
        match info {
            Some(i) => AdminState {
                locked: i.locked,
                uuid: i.uuid.clone(),
                version: render_version(i.version),
            },
            None => AdminState { locked: false, uuid: String::new(), version: String::new() },
        }
    }
}

impl DeviceInfo {
    /// The report for a token with these 16 UUID bytes.
    pub fn from_parts(uuid: &Vec<u8>, version: Version, locked: bool) -> (r: DeviceInfo)
        requires
            uuid@.len() == 16,
        ensures
            r.uuid@ == hex_of(uuid@),
            r.version == version,
            r.locked == locked,
    {
        DeviceInfo { uuid: render_hex(uuid), version, locked }
    }
}

/// The user interface's copy of the last published snapshot.
#[derive(Debug, PartialEq, Eq)]
pub struct Published {
    pub snapshot: Snapshot,
    /// When the shown codes were computed.
    pub refreshed_at: u64,
    pub period: u64,
    /// The last snapshot's listing held a label twice.
    pub duplicate_warning: bool,
    pub last_error: Option<ErrorKind>,
}

/// `b` is `a` but for, at most, the snapshot's device report.
pub open spec fn unchanged_but_snapshot_info(a: Published, b: Published) -> bool {
    &&& b.snapshot.device_present == a.snapshot.device_present
    &&& b.snapshot.credentials == a.snapshot.credentials
    &&& b.snapshot.window_remaining_seconds == a.snapshot.window_remaining_seconds
    &&& b.refreshed_at == a.refreshed_at
    &&& b.period == a.period
    &&& b.duplicate_warning == a.duplicate_warning
    &&& b.last_error == a.last_error
}

impl Published {
    /// Nothing published yet: no device.
    pub fn new(period: u64) -> (r: Published)
        requires
            period > 0,
        ensures
            !r.snapshot.device_present,
            r.snapshot.credentials@.len() == 0,
            r.snapshot.info.is_none(),
            r.snapshot.window_remaining_seconds == period,
            r.period == period,
            r.last_error.is_none(),
    {
        Published {
            snapshot: Snapshot::absent(period),
            refreshed_at: 0,
            period,
            duplicate_warning: false,
            last_error: None,
        }
    }

    /// Takes the device actor's reply at Unix time `now`. A new snapshot
    /// replaces the old one whole; `NoDevice` and `NotASolo2` empty it, as no
    /// usable token is then present; other failures leave it. Returns the
    /// code to put on the clipboard, if the reply carries one.
    pub fn apply(&mut self, reply: Reply, now: u64) -> (r: Option<String>)
        requires
            old(self).period > 0,
        ensures
            final(self).period == old(self).period,
            match reply {
                Reply::SnapshotChanged { snapshot, duplicate } => {
                    &&& final(self).snapshot == snapshot
                    &&& final(self).refreshed_at == now
                    &&& final(self).duplicate_warning == duplicate
                    &&& final(self).last_error.is_none()
                    &&& r.is_none()
                },
                Reply::CodeForCopy(c) => r == Some(c) && unchanged_but_snapshot_info(
                    *old(self),
                    *final(self),
                ) && final(self).snapshot.info == old(self).snapshot.info,
                Reply::InfoChanged(i) => r.is_none() && unchanged_but_snapshot_info(
                    *old(self),
                    *final(self),
                ) && final(self).snapshot.info == Some(i),
                Reply::Winked => r.is_none() && unchanged_but_snapshot_info(
                    *old(self),
                    *final(self),
                ) && final(self).snapshot.info == old(self).snapshot.info,
                Reply::Failed(k) => {
                    &&& r.is_none()
                    &&& final(self).last_error == Some(k)
                    &&& final(self).refreshed_at == old(self).refreshed_at
                    &&& final(self).duplicate_warning == old(self).duplicate_warning
                    &&& (k == ErrorKind::NoDevice || k == ErrorKind::NotASolo2 ==> {
                        &&& !final(self).snapshot.device_present
                        &&& final(self).snapshot.credentials@.len() == 0
                        &&& final(self).snapshot.info.is_none()
                        &&& final(self).snapshot.window_remaining_seconds == old(self).period
                    })
                    &&& (k != ErrorKind::NoDevice && k != ErrorKind::NotASolo2
                        ==> final(self).snapshot == old(self).snapshot)
                },
            },
    {
        match reply {
            Reply::SnapshotChanged { snapshot, duplicate } => {
                self.snapshot = snapshot;
                self.refreshed_at = now;
                self.duplicate_warning = duplicate;
                self.last_error = None;
                None
            },
            Reply::CodeForCopy(c) => Some(c),
            Reply::InfoChanged(i) => {
                self.snapshot.info = Some(i);
                None
            },
            Reply::Winked => None,
            Reply::Failed(k) => {
                if k == ErrorKind::NoDevice || k == ErrorKind::NotASolo2 {
                    self.snapshot = Snapshot::absent(self.period);
                }
                self.last_error = Some(k);
                None
            },
        }
    }

    /// The one-second tick at Unix time `now`: updates the remaining
    /// lifetime and tells whether the codes must be refreshed, which is when
    /// a device is present and a new time step began since they were computed.
    pub fn tick(&mut self, now: u64) -> (r: bool)
        requires
            old(self).period > 0,
        ensures
            final(self).snapshot.window_remaining_seconds as int == remaining_of(
                now as int,
                old(self).period as int,
            ),
            final(self).snapshot.credentials == old(self).snapshot.credentials,
            final(self).snapshot.device_present == old(self).snapshot.device_present,
            final(self).snapshot.info == old(self).snapshot.info,
            final(self).period == old(self).period,
            final(self).refreshed_at == old(self).refreshed_at,
            final(self).duplicate_warning == old(self).duplicate_warning,
            final(self).last_error == old(self).last_error,
            r == (old(self).snapshot.device_present && step_of(now as int, old(self).period as int)
                != step_of(old(self).refreshed_at as int, old(self).period as int)),
    {
        match on_tick(self.refreshed_at, now, self.period) {
            TickAction::Refresh { remaining } => {
                self.snapshot.window_remaining_seconds = remaining;
                self.snapshot.device_present
            },
            TickAction::Redraw { remaining } => {
                self.snapshot.window_remaining_seconds = remaining;
                false
            },
        }
    }
}

} // verus!
