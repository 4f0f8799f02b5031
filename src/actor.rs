use vstd::prelude::*;
use vstd::utf8::encode_utf8;
use crate::clock::step_of;
use crate::controller::{Acquire, Controller, OpenOutcome};
use crate::error::{ErrorKind, poisons_handle};
use crate::oath::{
    calculation, label_ok, prepare_registration, Calculation, Registration, DEFAULT_DIGITS,
    DEFAULT_PERIOD,
};
use crate::secret::{accepts, canonical};
use crate::snapshot::{entries, entries_from, has_duplicate_label, has_repeat, DeviceInfo, Snapshot};

verus! {

/// The applets of the token that the controller uses.
#[derive(Clone, Copy, Debug, PartialEq, Eq, Structural)]
pub enum Applet {
    Oath,
    Admin,
}

/// What the user interface asks of the device actor.
#[derive(Clone, Debug, PartialEq, Eq)]
pub enum Intent {
    Discover,
    SnapshotNow,
    Register { label: String, secret_text: String },
    Delete { label: String },
    CopyCode { label: String },
    Wink,
    ReadInfo,
}

/// Device work that the actor hands to the transport side.
#[derive(Debug, PartialEq, Eq)]
pub enum Command {
    /// Enumerate the tokens, open the first and check that it is a Solo 2.
    Open,
    /// Select an applet on the open handle.
    Select(Applet),
    /// List the OATH credentials' labels.
    List,
    /// Compute one code.
    Calculate(Calculation),
    /// Write a credential.
    Put(Registration),
    /// Delete the credential with this label.
    Remove(String),
    /// Read UUID, firmware version and lock state.
    ReadInfo,
    /// Make the token blink.
    Wink,
}

/// What the device actor answers to an intent.
#[derive(Debug, PartialEq, Eq)]
pub enum Reply {
    /// A new snapshot; `duplicate` tells that the token listed a label twice.
    SnapshotChanged { snapshot: Snapshot, duplicate: bool },
    /// The code to put on the clipboard.
    CodeForCopy(String),
    /// What the Admin applet reported.
    InfoChanged(DeviceInfo),
    /// The token was asked to blink.
    Winked,
    /// The intent failed.
    Failed(ErrorKind),
}

/// The actor's next move: device work to perform, or the answer.
#[derive(Debug, PartialEq, Eq)]
pub enum Step {
    Run(Command),
    Answer(Reply),
}

/// Where the current intent stands.
#[derive(Clone, Copy, Debug, PartialEq, Eq, Structural)]
pub enum Phase {
    Idle,
    Opening,
    Selecting,
    Listing,
    Calculating,
    Mutating,
    Copying,
    Reading,
    Winking,
}

/// The device actor: it owns the controller and turns each intent into a
/// sequence of device commands, then a reply. The transport side performs
/// each command and reports its result through the matching `on_*` method.
pub struct DeviceActor {
    pub controller: Controller,
    pub period: u64,
    pub phase: Phase,
    pub intent: Intent,
    pub now: u64,
    /// Set once a register or delete has been written to the token.
    pub mutated: bool,
    pub registration: Option<Registration>,
    pub labels: Vec<String>,
    pub codes: Vec<Result<String, ErrorKind>>,
}

/// The applet an intent works in.
pub open spec fn applet_of(i: Intent) -> Applet {
    match i {
        Intent::Wink | Intent::ReadInfo => Applet::Admin,
        _ => Applet::Oath,
    }
}

/// Whether the intent writes to the token.
pub open spec fn is_mutation(i: Intent) -> bool {
    match i {
        Intent::Register { .. } | Intent::Delete { .. } => true,
        _ => false,
    }
}

/// The snapshot reply built from a listing and one result per label.
pub open spec fn snapshot_reply(
    s: Step,
    labels: Seq<String>,
    codes: Seq<Result<String, ErrorKind>>,
    now: u64,
    period: u64,
) -> bool {
    match s {
        Step::Answer(Reply::SnapshotChanged { snapshot, duplicate }) => {
            &&& snapshot.device_present
            &&& entries(snapshot.credentials@) == entries_from(labels, codes)
            &&& snapshot.info.is_none()
            &&& snapshot.window_remaining_seconds as int == crate::clock::remaining_of(
                now as int,
                period as int,
            )
            &&& duplicate == has_repeat(labels.map_values(|l: String| l@))
        },
        _ => false,
    }
}

/// The request for the code of `l` at `now`.
pub open spec fn calculates(s: Step, l: Seq<char>, now: u64, period: u64) -> bool {
    match s {
        Step::Run(Command::Calculate(c)) => c.label@ == l && c.challenge as int == step_of(
            now as int,
            period as int,
        ),
        _ => false,
    }
}

/// The parts of the current job that a step leaves as they were.
pub open spec fn keeps_job(a: DeviceActor, b: DeviceActor) -> bool {
    &&& b.period == a.period
    &&& b.intent == a.intent
    &&& b.now == a.now
    &&& b.mutated == a.mutated
    &&& b.labels == a.labels
    &&& b.codes == a.codes
}

/// `b` has taken `intent` at `now` from the idle `a` and asked for a handle:
/// the applet's select on the open one, or else a new one.
pub open spec fn started(a: DeviceActor, b: DeviceActor, intent: Intent, now: u64, r: Step) -> bool {
    &&& b.controller == a.controller
    &&& b.period == a.period
    &&& b.intent == intent
    &&& b.now == now
    &&& !b.mutated
    &&& b.labels@.len() == 0
    &&& b.codes@.len() == 0
    &&& (a.controller.handle.is_some() ==> r == Step::Run(Command::Select(applet_of(intent)))
        && b.phase == Phase::Selecting)
    &&& (a.controller.handle.is_none() ==> r == Step::Run(Command::Open) && b.phase
        == Phase::Opening)
}

/// Once an error has dropped the handle, the next intent that gets past its
/// form checks never reuses the old handle: it opens a new one first, and
/// the controller's count of opened handles is where it was, so the new
/// handle's number exceeds every earlier one.
pub proof fn lemma_next_intent_reopens(a: DeviceActor, b: DeviceActor, intent: Intent, now: u64, r: Step)
    requires
        a.controller.handle.is_none(),
        started(a, b, intent, now, r),
    ensures
        r == Step::Run(Command::Open),
        b.phase == Phase::Opening,
        b.controller.handle.is_none(),
        b.controller.opened == a.controller.opened,
{
}

/// The results of a pass in which the labels from `codes.len()` on all fail
/// with `k`.
pub open spec fn filled(codes: Seq<Result<String, ErrorKind>>, n: nat, k: ErrorKind) -> Seq<
    Result<String, ErrorKind>,
> {
    codes + Seq::new((n - codes.len()) as nat, |i: int| Err::<String, ErrorKind>(k))
}

impl DeviceActor {
    /// The actor's invariant.
    pub open spec fn wf(&self) -> bool {
        &&& self.controller.wf()
        &&& self.period > 0
        &&& (self.phase == Phase::Opening ==> self.controller.handle.is_none())
        &&& (self.phase != Phase::Idle && self.phase != Phase::Opening
            ==> self.controller.handle.is_some())
        &&& (self.phase == Phase::Calculating ==> self.codes@.len() < self.labels@.len())
        &&& (self.phase == Phase::Listing ==> applet_of(self.intent) == Applet::Oath)
        &&& (self.phase == Phase::Mutating ==> is_mutation(self.intent) && !self.mutated)
        &&& (self.phase == Phase::Copying ==> self.intent is CopyCode)
        &&& (self.mutated ==> is_mutation(self.intent))
        &&& ((self.intent is Register && !self.mutated && (self.phase == Phase::Opening
            || self.phase == Phase::Selecting)) ==> self.registration.is_some())
        &&& (self.phase == Phase::Winking ==> self.intent is Wink)
        &&& (self.phase == Phase::Reading ==> self.intent is ReadInfo)
    }

    /// An idle actor with no device handle, which has opened none yet.
    pub fn new(period: u64) -> (r: DeviceActor)
        requires
            period > 0,
        ensures
            r.wf(),
            r.phase == Phase::Idle,
            r.controller.handle.is_none(),
            r.controller.opened == 0,
            r.period == period,
            !r.mutated,
            r.registration.is_none(),
            r.labels@.len() == 0,
            r.codes@.len() == 0,
    {
        DeviceActor {
            controller: Controller::new(),
            period,
            phase: Phase::Idle,
            intent: Intent::Discover,
            now: 0,
            mutated: false,
            registration: None,
            labels: Vec::new(),
            codes: Vec::new(),
        }
    }

    fn applet(&self) -> (r: Applet)
        ensures
            r == applet_of(self.intent),
    {
        match &self.intent {
            Intent::Wink | Intent::ReadInfo => Applet::Admin,
            _ => Applet::Oath,
        }
    }

    /// Gets a handle for the current intent: selects the applet on the open
    /// handle, or opens a new one first.
    fn acquire_step(&mut self) -> (r: Step)
        requires
            old(self).wf(),
            old(self).phase == Phase::Idle,
            old(self).intent is Register ==> old(self).registration.is_some(),
            !old(self).mutated,
        ensures
            final(self).wf(),
            keeps_job(*old(self), *final(self)),
            final(self).controller == old(self).controller,
            final(self).registration == old(self).registration,
            old(self).controller.handle.is_some() ==> final(self).phase == Phase::Selecting
                && r == Step::Run(Command::Select(applet_of(old(self).intent))),
            old(self).controller.handle.is_none() ==> final(self).phase == Phase::Opening
                && r == Step::Run(Command::Open),
    {
        match self.controller.acquire() {
            Acquire::Reuse(_) => {
                self.phase = Phase::Selecting;
                Step::Run(Command::Select(self.applet()))
            },
            Acquire::Open => {
                self.phase = Phase::Opening;
                Step::Run(Command::Open)
            },
        }
    }

    /// Takes a new intent at Unix time `now`. A register whose form is not
    /// valid is answered at once and touches nothing: the secret is checked
    /// first, then the label. `Discover` always drops the handle and opens
    /// anew.
    pub fn start(&mut self, intent: Intent, now: u64) -> (r: Step)
        requires
            old(self).wf(),
            old(self).phase == Phase::Idle,
        ensures
            final(self).wf(),
            final(self).period == old(self).period,
            final(self).controller.opened == old(self).controller.opened,
            match intent {
                Intent::Register { label, secret_text } => if !accepts(
                    encode_utf8(secret_text@),
                ) {
                    r == Step::Answer(Reply::Failed(ErrorKind::InvalidSecret))
                        && final(self).phase == Phase::Idle
                        && final(self).controller == old(self).controller
                } else if !label_ok(label@) {
                    r == Step::Answer(Reply::Failed(ErrorKind::InvalidLabel))
                        && final(self).phase == Phase::Idle
                        && final(self).controller == old(self).controller
                } else {
                    &&& final(self).registration matches Some(reg)
                    &&& reg.label@ == label@
                    &&& reg.secret@ == canonical(encode_utf8(secret_text@))
                    &&& reg.digits == DEFAULT_DIGITS
                    &&& reg.period == DEFAULT_PERIOD
                    &&& started(*old(self), *final(self), intent, now, r)
                },
                Intent::Discover => {
                    &&& final(self).controller.handle.is_none()
                    &&& r == Step::Run(Command::Open)
                    &&& final(self).phase == Phase::Opening
                    &&& final(self).intent == intent
                    &&& final(self).now == now
                    &&& !final(self).mutated
                    &&& final(self).labels@.len() == 0
                    &&& final(self).codes@.len() == 0
                },
                _ => started(*old(self), *final(self), intent, now, r),
            },
    {
        self.now = now;
        self.mutated = false;
        self.registration = None;
        self.labels = Vec::new();
        self.codes = Vec::new();
        match &intent {
            Intent::Register { label, secret_text } => {
                match prepare_registration(label, secret_text) {
                    Err(e) => {
                        self.intent = Intent::SnapshotNow;
                        return Step::Answer(Reply::Failed(e));
                    },
                    Ok(reg) => {
                        self.registration = Some(reg);
                    },
                }
            },
            Intent::Discover => {
                self.controller.invalidate();
            },
            _ => {},
        }
        self.intent = intent;
        self.acquire_step()
    }

    /// Ends the current intent with an error; a transport failure or a
    /// timeout also drops the handle. The transport side calls this when it
    /// cannot perform the command it was given.
    pub fn abort(&mut self, e: ErrorKind) -> (r: Step)
        requires
            old(self).wf(),
        ensures
            final(self).wf(),
            final(self).phase == Phase::Idle,
            keeps_job(*old(self), *final(self)),
            final(self).controller == old(self).controller.after_spec(Some(e)),
            r == Step::Answer(Reply::Failed(e)),
    {
        self.controller.finish(Some(e));
        self.phase = Phase::Idle;
        Step::Answer(Reply::Failed(e))
    }

    /// Ends a snapshot pass: every listed label has its result.
    fn finish_snapshot(&mut self) -> (r: Step)
        requires
            old(self).wf(),
            old(self).labels@.len() == old(self).codes@.len(),
        ensures
            final(self).wf(),
            final(self).phase == Phase::Idle,
            keeps_job(*old(self), *final(self)),
            final(self).controller == old(self).controller,
            snapshot_reply(r, old(self).labels@, old(self).codes@, old(self).now, old(self).period),
    {
        let duplicate = has_duplicate_label(&self.labels);
        let snapshot = Snapshot::build(&self.labels, &self.codes, None, self.now, self.period);
        self.phase = Phase::Idle;
        Step::Answer(Reply::SnapshotChanged { snapshot, duplicate })
    }

    /// Records what enumerating and opening gave.
    pub fn on_opened(&mut self, outcome: OpenOutcome) -> (r: Step)
        requires
            old(self).wf(),
            old(self).phase == Phase::Opening,
            old(self).controller.opened < u64::MAX,
        ensures
            final(self).wf(),
            keeps_job(*old(self), *final(self)),
            final(self).registration == old(self).registration,
            final(self).controller == old(self).controller.on_open_spec(outcome).0,
            match old(self).controller.on_open_spec(outcome).1 {
                Err(k) => r == Step::Answer(Reply::Failed(k)) && final(self).phase == Phase::Idle,
                Ok(_) => r == Step::Run(Command::Select(applet_of(old(self).intent)))
                    && final(self).phase == Phase::Selecting,
            },
    {
        match self.controller.on_open(outcome) {
            Err(k) => {
                self.phase = Phase::Idle;
                Step::Answer(Reply::Failed(k))
            },
            Ok(_) => {
                self.phase = Phase::Selecting;
                Step::Run(Command::Select(self.applet()))
            },
        }
    }

    /// Records whether selecting the applet worked, and goes on with the
    /// intent's own work: a write first for a register or delete, then the
    /// listing that refreshes the snapshot.
    pub fn on_selected(&mut self, ok: bool) -> (r: Step)
        requires
            old(self).wf(),
            old(self).phase == Phase::Selecting,
        ensures
            final(self).wf(),
            keeps_job(*old(self), *final(self)),
            final(self).controller == old(self).controller,
            !ok ==> r == Step::Answer(Reply::Failed(ErrorKind::AppletUnavailable))
                && final(self).phase == Phase::Idle,
            ok ==> match old(self).intent {
                Intent::Register { .. } => if old(self).mutated {
                    r == Step::Run(Command::List) && final(self).phase == Phase::Listing
                } else {
                    r == Step::Run(Command::Put(old(self).registration->Some_0))
                        && final(self).phase == Phase::Mutating
                },
                Intent::Delete { label } => if old(self).mutated {
                    r == Step::Run(Command::List) && final(self).phase == Phase::Listing
                } else {
                    r == Step::Run(Command::Remove(label)) && final(self).phase == Phase::Mutating
                },
                Intent::CopyCode { label } => calculates(r, label@, old(self).now, old(self).period)
                    && final(self).phase == Phase::Copying,
                Intent::Wink => r == Step::Run(Command::Wink) && final(self).phase == Phase::Winking,
                Intent::ReadInfo => r == Step::Run(Command::ReadInfo) && final(self).phase
                    == Phase::Reading,
                _ => r == Step::Run(Command::List) && final(self).phase == Phase::Listing,
            },
    {
        if !ok {
            self.phase = Phase::Idle;
            return Step::Answer(Reply::Failed(ErrorKind::AppletUnavailable));
        }
        let mutated = self.mutated;
        match &self.intent {
            Intent::Register { .. } if !mutated => {
                let reg = self.registration.take();
                self.phase = Phase::Mutating;
                Step::Run(Command::Put(reg.unwrap()))
            },
            Intent::Delete { label } if !mutated => {
                let label = label.clone();
                self.phase = Phase::Mutating;
                Step::Run(Command::Remove(label))
            },
            Intent::CopyCode { label } => {
                let c = calculation(label, self.now, self.period);
                self.phase = Phase::Copying;
                Step::Run(Command::Calculate(c))
            },
            Intent::Wink => {
                self.phase = Phase::Winking;
                Step::Run(Command::Wink)
            },
            Intent::ReadInfo => {
                self.phase = Phase::Reading;
                Step::Run(Command::ReadInfo)
            },
            _ => {
                self.phase = Phase::Listing;
                Step::Run(Command::List)
            },
        }
    }

    /// Records the token's listing, then asks for the first code, or answers
    /// with an empty snapshot.
    pub fn on_listed(&mut self, listed: Result<Vec<String>, ErrorKind>) -> (r: Step)
        requires
            old(self).wf(),
            old(self).phase == Phase::Listing,
        ensures
            final(self).wf(),
            final(self).period == old(self).period,
            final(self).intent == old(self).intent,
            final(self).now == old(self).now,
            final(self).mutated == old(self).mutated,
            match listed {
                Err(k) => r == Step::Answer(Reply::Failed(k)) && final(self).phase == Phase::Idle
                    && final(self).controller == old(self).controller.after_spec(Some(k)),
                Ok(ls) => {
                    &&& final(self).controller == old(self).controller
                    &&& final(self).labels@ == ls@
                    &&& final(self).codes@.len() == 0
                    &&& (ls@.len() == 0 ==> snapshot_reply(
                        r,
                        ls@,
                        seq![],
                        old(self).now,
                        old(self).period,
                    ) && final(self).phase == Phase::Idle)
                    &&& (ls@.len() > 0 ==> calculates(r, ls@[0]@, old(self).now, old(self).period)
                        && final(self).phase == Phase::Calculating)
                },
            },
    {
        match listed {
            Err(k) => self.abort(k),
            Ok(ls) => {
                self.labels = ls;
                self.codes = Vec::new();
                if self.labels.len() == 0 {
                    self.finish_snapshot()
                } else {
                    let c = calculation(&self.labels[0], self.now, self.period);
                    self.phase = Phase::Calculating;
                    Step::Run(Command::Calculate(c))
                }
            },
        }
    }

    /// Records one computed code. While refreshing, a failed code shows as
    /// the placeholder and the next label is asked for; after the last one
    /// the snapshot is answered. A transport failure or a timeout drops the
    /// handle, so it ends the pass: that label and those after it show the
    /// placeholder. For a copy, the code itself is answered.
    pub fn on_code(&mut self, code: Result<String, ErrorKind>) -> (r: Step)
        requires
            old(self).wf(),
            old(self).phase == Phase::Calculating || old(self).phase == Phase::Copying,
        ensures
            final(self).wf(),
            final(self).period == old(self).period,
            final(self).intent == old(self).intent,
            final(self).now == old(self).now,
            final(self).mutated == old(self).mutated,
            final(self).labels == old(self).labels,
            old(self).phase == Phase::Copying ==> match code {
                Ok(c) => r == Step::Answer(Reply::CodeForCopy(c)) && final(self).phase
                    == Phase::Idle && final(self).controller == old(self).controller,
                Err(k) => r == Step::Answer(Reply::Failed(k)) && final(self).phase == Phase::Idle
                    && final(self).controller == old(self).controller.after_spec(Some(k)),
            },
            old(self).phase == Phase::Calculating ==> if code is Err && poisons_handle(
                code->Err_0,
            ) {
                let codes = filled(old(self).codes@, old(self).labels@.len(), code->Err_0);
                &&& snapshot_reply(r, old(self).labels@, codes, old(self).now, old(self).period)
                &&& final(self).codes@ == codes
                &&& final(self).phase == Phase::Idle
                &&& final(self).controller == old(self).controller.after_spec(Some(code->Err_0))
                &&& final(self).controller.handle.is_none()
            } else {
                let codes = old(self).codes@.push(code);
                &&& final(self).controller == old(self).controller
                &&& final(self).codes@ == codes
                &&& (codes.len() == old(self).labels@.len() ==> snapshot_reply(
                    r,
                    old(self).labels@,
                    codes,
                    old(self).now,
                    old(self).period,
                ) && final(self).phase == Phase::Idle)
                &&& (codes.len() < old(self).labels@.len() ==> calculates(
                    r,
                    old(self).labels@[codes.len() as int]@,
                    old(self).now,
                    old(self).period,
                ) && final(self).phase == Phase::Calculating)
            },
    {
        if self.phase == Phase::Copying {
            return match code {
                Ok(c) => {
                    self.phase = Phase::Idle;
                    Step::Answer(Reply::CodeForCopy(c))
                },
                Err(k) => self.abort(k),
            };
        }
        if let Err(k) = &code {
            let k = *k;
            if k.invalidates_handle() {
                self.controller.finish(Some(k));
                self.phase = Phase::Idle;
                let ghost base = self.codes@;
                while self.codes.len() < self.labels.len()
                    invariant
                        self.wf(),
                        self.phase == Phase::Idle,
                        self.period == old(self).period,
                        self.intent == old(self).intent,
                        self.now == old(self).now,
                        self.mutated == old(self).mutated,
                        self.labels == old(self).labels,
                        self.controller == old(self).controller.after_spec(Some(k)),
                        base == old(self).codes@,
                        base.len() <= self.codes@.len() <= self.labels@.len(),
                        self.codes@ == filled(base, self.codes@.len(), k),
                    decreases self.labels@.len() - self.codes@.len(),
                {
                    self.codes.push(Err(k));
                    proof {
                        assert(self.codes@ =~= filled(base, self.codes@.len(), k));
                    }
                }
                return self.finish_snapshot();
            }
        }
        self.codes.push(code);
        if self.codes.len() == self.labels.len() {
            self.phase = Phase::Idle;
            self.finish_snapshot()
        } else {
            let c = calculation(&self.labels[self.codes.len()], self.now, self.period);
            Step::Run(Command::Calculate(c))
        }
    }

    /// Records how a write or a wink ended. A successful write drops the
    /// handle and starts the refresh on a newly opened one.
    pub fn on_done(&mut self, done: Result<(), ErrorKind>) -> (r: Step)
        requires
            old(self).wf(),
            old(self).phase == Phase::Mutating || old(self).phase == Phase::Winking,
        ensures
            final(self).wf(),
            final(self).period == old(self).period,
            final(self).intent == old(self).intent,
            final(self).now == old(self).now,
            final(self).labels == old(self).labels,
            final(self).codes == old(self).codes,
            match done {
                Err(k) => r == Step::Answer(Reply::Failed(k)) && final(self).phase == Phase::Idle
                    && final(self).controller == old(self).controller.after_spec(Some(k))
                    && final(self).mutated == old(self).mutated,
                Ok(()) => if old(self).phase == Phase::Mutating {
                    &&& r == Step::Run(Command::Open)
                    &&& final(self).phase == Phase::Opening
                    &&& final(self).mutated
                    &&& final(self).controller.handle.is_none()
                    &&& final(self).controller.opened == old(self).controller.opened
                } else {
                    r == Step::Answer(Reply::Winked) && final(self).phase == Phase::Idle
                        && final(self).controller == old(self).controller
                        && final(self).mutated == old(self).mutated
                },
            },
    {
        match done {
            Err(k) => self.abort(k),
            Ok(()) => {
                if self.phase == Phase::Mutating {
                    self.controller.invalidate();
                    self.mutated = true;
                    self.phase = Phase::Opening;
                    Step::Run(Command::Open)
                } else {
                    self.phase = Phase::Idle;
                    Step::Answer(Reply::Winked)
                }
            },
        }
    }

    /// Records what the Admin applet reported.
    pub fn on_info(&mut self, info: Result<DeviceInfo, ErrorKind>) -> (r: Step)
        requires
            old(self).wf(),
            old(self).phase == Phase::Reading,
        ensures
            final(self).wf(),
            keeps_job(*old(self), *final(self)),
            final(self).phase == Phase::Idle,
            match info {
                Ok(i) => r == Step::Answer(Reply::InfoChanged(i)) && final(self).controller
                    == old(self).controller,
                Err(k) => r == Step::Answer(Reply::Failed(k)) && final(self).controller == old(
                    self).controller.after_spec(Some(k)),
            },
    {
        match info {
            Ok(i) => {
                self.phase = Phase::Idle;
                Step::Answer(Reply::InfoChanged(i))
            },
            Err(k) => self.abort(k),
        }
    }
}

} // verus!
