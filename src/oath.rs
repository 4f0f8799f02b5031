use vstd::prelude::*;
use vstd::utf8::encode_utf8;
use crate::clock::{step_of, time_step};
use crate::error::ErrorKind;
use crate::secret::{accepts, canonical, check_secret};
use crate::snapshot::{count_of, entries, entries_from, labels_of, CredentialSummary};

verus! {

/// The longest label, in UTF-8 bytes, that the applet takes.
pub const MAX_LABEL_BYTES: usize = 64;

/// The TOTP period, in seconds, of the credentials this library registers.
pub const DEFAULT_PERIOD: u64 = 30;

/// The number of digits of the codes of the credentials it registers.
pub const DEFAULT_DIGITS: u8 = 6;

/// Whether the applet takes `l` as a label: 1 to 64 bytes of UTF-8.
pub open spec fn label_ok(l: Seq<char>) -> bool {
    let n = encode_utf8(l).len();
    1 <= n <= MAX_LABEL_BYTES
}

/// A TOTP credential to write to the token: SHA-1, six digits, thirty
/// seconds, with the secret as canonical padded base32 text.
#[derive(Debug, PartialEq, Eq)]
pub struct Registration {
    pub label: String,
    pub secret: Vec<u8>,
    pub digits: u8,
    pub period: u64,
}

/// A request to compute the code of `label` for the time step `challenge`.
#[derive(Clone, Debug, PartialEq, Eq)]
pub struct Calculation {
    pub label: String,
    pub challenge: u64,
}

/// Checks a label against the applet's limits.
pub fn check_label(label: &String) -> (r: Result<(), ErrorKind>)
    ensures
        label_ok(label@) ==> r == Ok::<(), ErrorKind>(()),
        !label_ok(label@) ==> r == Err::<(), ErrorKind>(ErrorKind::InvalidLabel),
{
    let n = label.as_str().as_bytes().len();
    if 1 <= n && n <= MAX_LABEL_BYTES {
        Ok(())
    } else {
        Err(ErrorKind::InvalidLabel)
    }
}

/// Turns the add-credential form into a registration. The secret is checked
/// first, then the label; neither check touches the device.
pub fn prepare_registration(label: &String, secret_text: &String) -> (r: Result<
    Registration,
    ErrorKind,
>)
    ensures
        match r {
            Ok(reg) => {
                &&& label_ok(label@)
                &&& accepts(encode_utf8(secret_text@))
                &&& reg.label@ == label@
                &&& reg.secret@ == canonical(encode_utf8(secret_text@))
                &&& reg.digits == DEFAULT_DIGITS
                &&& reg.period == DEFAULT_PERIOD
            },
            Err(e) => if !accepts(encode_utf8(secret_text@)) {
                e == ErrorKind::InvalidSecret
            } else {
                !label_ok(label@) && e == ErrorKind::InvalidLabel
            },
        },
{
    match check_secret(secret_text.as_str()) {
        Err(e) => Err(e),
        Ok(secret) => match check_label(label) {
            Err(e) => Err(e),
            Ok(()) => Ok(
                Registration {
                    label: label.clone(),
                    secret,
                    digits: DEFAULT_DIGITS,
                    period: DEFAULT_PERIOD,
                },
            ),
        },
    }
}

/// The request for the code of `label` at Unix time `now`, as plain values:
/// the label and the time step.
pub open spec fn request_of(label: Seq<char>, now: int, period: int) -> (Seq<char>, int) {
    (label, step_of(now, period))
}

/// The request that computes the code of `label` at Unix time `now`.
pub fn calculation(label: &String, now: u64, period: u64) -> (r: Calculation)
    requires
        period > 0,
    ensures
        r.label@ == label@,
        r.challenge as int == step_of(now as int, period as int),
        (r.label@, r.challenge as int) == request_of(label@, now as int, period as int),
{
    Calculation { label: label.clone(), challenge: time_step(now, period) }
}

/// Within one time step the request for a label's code is the same, so the
/// token computes the same code: `authenticate(l, t1) == authenticate(l, t2)`
/// whenever `floor(t1 / period) == floor(t2 / period)`.
pub proof fn lemma_same_step_same_request(l: Seq<char>, t1: int, t2: int, period: int)
    requires
        t1 >= 0,
        t2 >= 0,
        period > 0,
        step_of(t1, period) == step_of(t2, period),
    ensures
        request_of(l, t1, period) == request_of(l, t2, period),
{
}

/// How the token's credential list is taken to change when `l` is
/// registered: a new label is added at the end, and registering a label that
/// is there replaces that credential in place. This models the OATH applet;
/// nothing here checks the token against it.
pub open spec fn after_register(dev: Seq<Seq<char>>, l: Seq<char>) -> Seq<Seq<char>> {
    if dev.contains(l) {
        dev
    } else {
        dev.push(l)
    }
}

/// How the token's credential list is taken to change when `l` is deleted:
/// every credential labelled `l` goes, the others keep their order. This
/// models the OATH applet; nothing here checks the token against it.
pub open spec fn after_delete(dev: Seq<Seq<char>>, l: Seq<char>) -> Seq<Seq<char>>
    decreases dev.len(),
{
    if dev.len() == 0 {
        dev
    } else {
        let rest = after_delete(dev.drop_last(), l);
        if dev.last() == l {
            rest
        } else {
            rest.push(dev.last())
        }
    }
}

proof fn lemma_count_contains(s: Seq<Seq<char>>, l: Seq<char>)
    ensures
        s.contains(l) <==> count_of(s, l) >= 1,
    decreases s.len(),
{
    if s.len() > 0 {
        lemma_count_contains(s.drop_last(), l);
        if s.drop_last().contains(l) {
            let i = choose|i: int| 0 <= i < s.drop_last().len() && s.drop_last()[i] == l;
            assert(s[i] == l);
        }
        if s.contains(l) && s.last() != l {
            let i = choose|i: int| 0 <= i < s.len() && s[i] == l;
            assert(s.drop_last()[i] == l);
        }
    }
}

proof fn lemma_delete_count(dev: Seq<Seq<char>>, l: Seq<char>)
    ensures
        count_of(after_delete(dev, l), l) == 0,
    decreases dev.len(),
{
    if dev.len() > 0 {
        lemma_delete_count(dev.drop_last(), l);
        let rest = after_delete(dev.drop_last(), l);
        if dev.last() != l {
            assert(rest.push(dev.last()).drop_last() =~= rest);
        }
    }
}

proof fn lemma_labels_listed(labels: Seq<String>, codes: Seq<Result<String, ErrorKind>>, creds: Seq<CredentialSummary>)
    requires
        labels.len() == codes.len(),
        entries(creds) == entries_from(labels, codes),
    ensures
        labels_of(creds) == labels.map_values(|s: String| s@),
{
    assert(entries(creds).len() == creds.len());
    assert forall|i: int| 0 <= i < creds.len() implies labels_of(creds)[i] == labels[i]@ by {
        assert(entries(creds)[i] == entries_from(labels, codes)[i]);
    }
    assert(labels_of(creds) =~= labels.map_values(|s: String| s@));
}

/// After `l` is registered on a token that held it at most once, the
/// snapshot built from the token's listing holds exactly one entry `l`.
pub proof fn lemma_registered_label_listed_once(
    dev: Seq<Seq<char>>,
    l: Seq<char>,
    labels: Seq<String>,
    codes: Seq<Result<String, ErrorKind>>,
    creds: Seq<CredentialSummary>,
)
    requires
        count_of(dev, l) <= 1,
        labels.map_values(|s: String| s@) == after_register(dev, l),
        labels.len() == codes.len(),
        entries(creds) == entries_from(labels, codes),
    ensures
        count_of(labels_of(creds), l) == 1,
{
    lemma_labels_listed(labels, codes, creds);
    lemma_count_contains(dev, l);
    if !dev.contains(l) {
        assert(dev.push(l).drop_last() =~= dev);
    }
}

/// After `l` is deleted, the snapshot built from the token's listing holds
/// no entry `l`.
pub proof fn lemma_deleted_label_not_listed(
    dev: Seq<Seq<char>>,
    l: Seq<char>,
    labels: Seq<String>,
    codes: Seq<Result<String, ErrorKind>>,
    creds: Seq<CredentialSummary>,
)
    requires
        labels.map_values(|s: String| s@) == after_delete(dev, l),
        labels.len() == codes.len(),
        entries(creds) == entries_from(labels, codes),
    ensures
        !labels_of(creds).contains(l),
{
    lemma_labels_listed(labels, codes, creds);
    lemma_delete_count(dev, l);
    lemma_count_contains(after_delete(dev, l), l);
}

} // verus!
