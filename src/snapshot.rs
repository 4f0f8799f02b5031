use vstd::prelude::*;
use crate::clock::{remaining_of, window_remaining_seconds};
use crate::error::ErrorKind;

verus! {

/// The code shown for a credential whose code could not be computed.
pub const CODE_UNAVAILABLE: &'static str = "------";

/// A credential's label and its current code.
#[derive(Clone, Debug, PartialEq, Eq)]
pub struct CredentialSummary {
    pub label: String,
    pub code: String,
}

impl View for CredentialSummary {
    type V = (Seq<char>, Seq<char>);

    open spec fn view(&self) -> (Seq<char>, Seq<char>) {
        (self.label@, self.code@)
    }
}

/// A firmware version as a semantic-version triple.
#[derive(Clone, Copy, Debug, PartialEq, Eq, Structural)]
pub struct Version {
    pub major: u32,
    pub minor: u32,
    pub patch: u32,
}

/// What the Admin applet tells of the token.
#[derive(Clone, Debug, PartialEq, Eq)]
pub struct DeviceInfo {
    /// The 128-bit UUID as 32 lower-case hex digits.
    pub uuid: String,
    pub version: Version,
    pub locked: bool,
}

/// The controller's published view of the token.
#[derive(Clone, Debug, PartialEq, Eq)]
pub struct Snapshot {
    pub device_present: bool,
    pub credentials: Vec<CredentialSummary>,
    pub info: Option<DeviceInfo>,
    pub window_remaining_seconds: u64,
}

/// The (label, code) pairs of a list of summaries.
pub open spec fn entries(v: Seq<CredentialSummary>) -> Seq<(Seq<char>, Seq<char>)> {
    v.map_values(|c: CredentialSummary| c@)
}

/// The labels of a list of summaries.
pub open spec fn labels_of(v: Seq<CredentialSummary>) -> Seq<Seq<char>> {
    v.map_values(|c: CredentialSummary| c.label@)
}

/// The code shown for one computation: the code, or the placeholder.
pub open spec fn shown_code(r: Result<String, ErrorKind>) -> Seq<char> {
    match r {
        Ok(c) => c@,
        Err(_) => CODE_UNAVAILABLE@,
    }
}

/// The entries of a snapshot built from a listing and one result per label.
pub open spec fn entries_from(labels: Seq<String>, codes: Seq<Result<String, ErrorKind>>) -> Seq<
    (Seq<char>, Seq<char>),
> {
    Seq::new(labels.len(), |i: int| (labels[i]@, shown_code(codes[i])))
}

/// How often `l` occurs in `s`.
pub open spec fn count_of(s: Seq<Seq<char>>, l: Seq<char>) -> nat
    decreases s.len(),
{
    if s.len() == 0 {
        0
    } else {
        count_of(s.drop_last(), l) + if s.last() == l {
            1nat
        } else {
            0nat
        }
    }
}

/// Whether some label occurs twice.
pub open spec fn has_repeat(s: Seq<Seq<char>>) -> bool {
    exists|i: int, j: int| 0 <= i < j < s.len() && s[i] == s[j]
}

/// Whether `i` is the position of the first `l` in `s`.
pub open spec fn is_first_index(s: Seq<Seq<char>>, l: Seq<char>, i: int) -> bool {
    0 <= i < s.len() && s[i] == l && forall|k: int| 0 <= k < i ==> s[k] != l
}

impl Snapshot {
    /// The snapshot published while no token is present.
    pub fn absent(period: u64) -> (r: Snapshot)
        ensures
            !r.device_present,
            r.credentials@.len() == 0,
            r.info.is_none(),
            r.window_remaining_seconds == period,
    {
        Snapshot {
            device_present: false,
            credentials: Vec::new(),
            info: None,
            window_remaining_seconds: period,
        }
    }

    /// Builds the snapshot of a present token from its listing, in device
    /// order, and the result of computing each label's code; a failed
    /// computation shows the placeholder code.
    pub fn build(
        labels: &Vec<String>,
        codes: &Vec<Result<String, ErrorKind>>,
        info: Option<DeviceInfo>,
        now: u64,
        period: u64,
    ) -> (r: Snapshot)
        requires
            labels@.len() == codes@.len(),
            period > 0,
        ensures
            r.device_present,
            entries(r.credentials@) == entries_from(labels@, codes@),
            r.info == info,
            r.window_remaining_seconds as int == remaining_of(now as int, period as int),
    {
        let mut credentials: Vec<CredentialSummary> = Vec::new();
        let mut i: usize = 0;
        while i < labels.len()
            invariant
                labels@.len() == codes@.len(),
                0 <= i <= labels@.len(),
                entries(credentials@) == entries_from(labels@, codes@).subrange(0, i as int),
            decreases labels@.len() - i,
        {
            let code = match &codes[i] {
                Ok(c) => c.clone(),
                Err(_) => CODE_UNAVAILABLE.to_owned(),
            };
            let ghost before = credentials@;
            credentials.push(CredentialSummary { label: labels[i].clone(), code });
            proof {
                assert(entries(credentials@) =~= entries(before).push(
                    (labels@[i as int]@, shown_code(codes@[i as int])),
                ));
                assert(entries_from(labels@, codes@).subrange(0, i + 1) =~= entries_from(
                    labels@,
                    codes@,
                ).subrange(0, i as int).push((labels@[i as int]@, shown_code(codes@[i as int]))));
            }
            i = i + 1;
        }
        proof {
            assert(entries_from(labels@, codes@).subrange(0, labels@.len() as int) =~= entries_from(
                labels@,
                codes@,
            ));
        }
        Snapshot {
            device_present: true,
            credentials,
            info,
            window_remaining_seconds: window_remaining_seconds(now, period),
        }
    }

    /// The code of the first credential labelled `label`, for copying.
    pub fn code_for(&self, label: &String) -> (r: Option<String>)
        ensures
            match r {
                Some(c) => exists|i: int|
                    is_first_index(labels_of(self.credentials@), label@, i) && c@
                        == self.credentials@[i].code@,
                None => !labels_of(self.credentials@).contains(label@),
            },
    {
        let mut i: usize = 0;
        while i < self.credentials.len()
            invariant
                0 <= i <= self.credentials@.len(),
                forall|k: int| 0 <= k < i ==> labels_of(self.credentials@)[k] != label@,
            decreases self.credentials@.len() - i,
        {
            if self.credentials[i].label == *label {
                proof {
                    assert(is_first_index(labels_of(self.credentials@), label@, i as int));
                }
                return Some(self.credentials[i].code.clone());
            }
            i = i + 1;
        }
        None
    }

    /// How many entries carry `label`.
    pub fn count_label(&self, label: &String) -> (r: usize)
        ensures
            r == count_of(labels_of(self.credentials@), label@),
    {
        let mut n: usize = 0;
        let mut i: usize = 0;
        while i < self.credentials.len()
            invariant
                0 <= i <= self.credentials@.len(),
                n <= i,
                n == count_of(labels_of(self.credentials@).subrange(0, i as int), label@),
            decreases self.credentials@.len() - i,
        {
            proof {
                assert(labels_of(self.credentials@).subrange(0, i + 1).drop_last()
                    =~= labels_of(self.credentials@).subrange(0, i as int));
            }
            if self.credentials[i].label == *label {
                n = n + 1;
            }
            i = i + 1;
        }
        proof {
            assert(labels_of(self.credentials@).subrange(0, i as int) =~= labels_of(
                self.credentials@,
            ));
        }
        n
    }
}

/// Whether a device listing holds some label twice.
pub fn has_duplicate_label(labels: &Vec<String>) -> (r: bool)
    ensures
        r == has_repeat(labels@.map_values(|s: String| s@)),
{
    let ghost ls = labels@.map_values(|s: String| s@);
    let mut j: usize = 0;
    while j < labels.len()
        invariant
            ls == labels@.map_values(|s: String| s@),
            0 <= j <= labels@.len(),
            forall|a: int, b: int| 0 <= a < b < j ==> ls[a] != ls[b],
        decreases labels@.len() - j,
    {
        let mut i: usize = 0;
        while i < j
            invariant
                ls == labels@.map_values(|s: String| s@),
                0 <= i <= j < labels@.len(),
                forall|a: int, b: int| 0 <= a < b < j ==> ls[a] != ls[b],
                forall|a: int| 0 <= a < i ==> ls[a] != ls[j as int],
            decreases j - i,
        {
            if labels[i] == labels[j] {
                proof {
                    assert(ls[i as int] == ls[j as int]);
                }
                return true;
            }
            i = i + 1;
        }
        j = j + 1;
    }
    false
}

} // verus!
