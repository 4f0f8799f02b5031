use vstd::prelude::*;
use vstd::string::StringSliceAdditionalSpecFns;
use crate::error::ErrorKind;

verus! {

/// The shortest key, in bytes, that the library registers: 80 bits, the
/// length of the common 16-character base32 secrets.
pub const MIN_SECRET_BYTES: usize = 10;

/// ASCII `=`, the base32 padding byte.
pub const PAD: u8 = 61;

/// Space, tab, line feed and carriage return.
pub open spec fn is_space(b: u8) -> bool {
    b == 32 || b == 9 || b == 10 || b == 13
}

/// ASCII upper case; other bytes are kept.
pub open spec fn to_upper(b: u8) -> u8 {
    if 97 <= b <= 122 {
        (b - 32) as u8
    } else {
        b
    }
}

/// ASCII lower case; other bytes are kept.
pub open spec fn to_lower(b: u8) -> u8 {
    if 65 <= b <= 90 {
        (b + 32) as u8
    } else {
        b
    }
}

/// A byte of the RFC 4648 base32 alphabet: `A`-`Z` and `2`-`7`.
pub open spec fn is_base32(b: u8) -> bool {
    (65 <= b <= 90) || (50 <= b <= 55)
}

/// The text with white space removed and letters in upper case.
pub open spec fn cleaned(s: Seq<u8>) -> Seq<u8>
    decreases s.len(),
{
    if s.len() == 0 {
        seq![]
    } else {
        let rest = cleaned(s.drop_last());
        if is_space(s.last()) {
            rest
        } else {
            rest.push(to_upper(s.last()))
        }
    }
}

/// The text without its trailing padding.
pub open spec fn unpadded(c: Seq<u8>) -> Seq<u8>
    decreases c.len(),
{
    if c.len() > 0 && c.last() == PAD {
        unpadded(c.drop_last())
    } else {
        c
    }
}

/// How many padding bytes complete `n` data characters to a multiple of 8.
pub open spec fn pad_len(n: int) -> int {
    (8 - n % 8) % 8
}

/// How many bytes `n` base32 characters decode to.
pub open spec fn decoded_len(n: int) -> int {
    n * 5 / 8
}

/// Whether `n` data characters can end a base32 text: a final group holds
/// 0, 2, 4, 5 or 7 characters.
pub open spec fn valid_group(n: int) -> bool {
    let r = n % 8;
    r == 0 || r == 2 || r == 4 || r == 5 || r == 7
}

/// The 5-bit value of a base32 byte.
pub open spec fn base32_value(b: u8) -> int {
    if 65 <= b <= 90 {
        b - 65
    } else {
        b - 24
    }
}

/// `2^k`, where `k` is the number of bits that the last of `n` data
/// characters carries beyond the last whole byte.
pub open spec fn tail_modulus(n: int) -> int {
    let r = n % 8;
    if r == 2 {
        4
    } else if r == 4 {
        16
    } else if r == 5 {
        2
    } else if r == 7 {
        8
    } else {
        1
    }
}

/// Whether the bits past the last whole byte are zero, as a canonical
/// encoding has them.
pub open spec fn clean_tail(u: Seq<u8>) -> bool {
    u.len() == 0 || base32_value(u.last()) % tail_modulus(u.len() as int) == 0
}

/// Whether the user's secret text is accepted: after cleaning, base32 data,
/// then either no padding or exactly the padding that completes the last
/// group, with no bits set past the last whole byte, decoding to at least
/// `MIN_SECRET_BYTES` bytes.
pub open spec fn accepts(s: Seq<u8>) -> bool {
    let c = cleaned(s);
    let u = unpadded(c);
    &&& forall|i: int| 0 <= i < u.len() ==> is_base32(#[trigger] u[i])
    &&& valid_group(u.len() as int)
    &&& clean_tail(u)
    &&& (c.len() == u.len() || c.len() == u.len() + pad_len(u.len() as int))
    &&& decoded_len(u.len() as int) >= MIN_SECRET_BYTES
}

/// The canonical, fully padded upper-case form handed to the applet encoder.
pub open spec fn canonical(s: Seq<u8>) -> Seq<u8> {
    let u = unpadded(cleaned(s));
    u + Seq::new(pad_len(u.len() as int) as nat, |i: int| PAD)
}

proof fn lemma_unpadded_prefix(c: Seq<u8>, j: int)
    requires
        0 <= j <= c.len(),
        forall|k: int| j <= k < c.len() ==> c[k] == PAD,
    ensures
        unpadded(c) == unpadded(c.subrange(0, j)),
    decreases c.len() - j,
{
    if j < c.len() {
        assert(c.drop_last().subrange(0, j) =~= c.subrange(0, j));
        lemma_unpadded_prefix(c.drop_last(), j);
    } else {
        assert(c.subrange(0, j) =~= c);
    }
}

/// Checks the secret text that a user typed and returns its canonical form:
/// white space removed, letters in upper case, padding completed.
pub fn check_secret(text: &str) -> (r: Result<Vec<u8>, ErrorKind>)
    ensures
        match r {
            Ok(v) => accepts(text.spec_bytes()) && v@ == canonical(text.spec_bytes()),
            Err(e) => !accepts(text.spec_bytes()) && e == ErrorKind::InvalidSecret,
        },
{
    let bytes = text.as_bytes();
    let ghost s = text.spec_bytes();
    let mut c: Vec<u8> = Vec::new();
    let mut i: usize = 0;
    while i < bytes.len()
        invariant
            s == text.spec_bytes(),
            bytes@ == s,
            0 <= i <= s.len(),
            c@ == cleaned(s.subrange(0, i as int)),
        decreases s.len() - i,
    {
        let b = bytes[i];
        proof {
            assert(s.subrange(0, i + 1).drop_last() =~= s.subrange(0, i as int));
        }
        if b == 32 || b == 9 || b == 10 || b == 13 {
        } else if 97 <= b && b <= 122 {
            c.push(b - 32);
        } else {
            c.push(b);
        }
        i = i + 1;
    }
    proof {
        assert(s.subrange(0, s.len() as int) =~= s);
    }
    let ghost cs = c@;
    let mut j: usize = c.len();
    while j > 0 && c[j - 1] == PAD
        invariant
            s == text.spec_bytes(),
            c@ == cs,
            cs == cleaned(s),
            0 <= j <= cs.len(),
            forall|k: int| j <= k < cs.len() ==> cs[k] == PAD,
        decreases j,
    {
        j = j - 1;
    }
    proof {
        lemma_unpadded_prefix(cs, j as int);
        let p = cs.subrange(0, j as int);
        assert(unpadded(p) == p);
    }
    let mut k: usize = 0;
    while k < j
        invariant
            s == text.spec_bytes(),
            c@ == cs,
            cs == cleaned(s),
            j <= cs.len(),
            unpadded(cs) == cs.subrange(0, j as int),
            0 <= k <= j,
            forall|m: int| 0 <= m < k ==> is_base32(#[trigger] cs[m]),
        decreases j - k,
    {
        let b = c[k];
        if !((65 <= b && b <= 90) || (50 <= b && b <= 55)) {
            proof {
                assert(!is_base32(unpadded(cleaned(s))[k as int]));
            }
            return Err(ErrorKind::InvalidSecret);
        }
        k = k + 1;
    }
    let rem: usize = j % 8;
    if !(rem == 0 || rem == 2 || rem == 4 || rem == 5 || rem == 7) {
        return Err(ErrorKind::InvalidSecret);
    }
    if j > 0 {
        let last = c[j - 1];
        let value: u8 = if 65 <= last && last <= 90 {
            last - 65
        } else {
            last - 24
        };
        let modulus: u8 = if rem == 2 {
            4
        } else if rem == 4 {
            16
        } else if rem == 5 {
            2
        } else if rem == 7 {
            8
        } else {
            1
        };
        proof {
            assert(unpadded(cleaned(s)).last() == last);
        }
        if value % modulus != 0 {
            return Err(ErrorKind::InvalidSecret);
        }
    }
    let pad: usize = (8 - rem) % 8;
    if !(c.len() == j || c.len() - j == pad) {
        return Err(ErrorKind::InvalidSecret);
    }
    let bytes_out: usize = j / 8 * 5 + rem * 5 / 8;
    proof {
        assert(bytes_out == decoded_len(j as int)) by (nonlinear_arith)
            requires
                bytes_out == j / 8 * 5 + rem * 5 / 8,
                rem == j % 8,
        {
        }
    }
    if bytes_out < MIN_SECRET_BYTES {
        return Err(ErrorKind::InvalidSecret);
    }
    let mut out: Vec<u8> = Vec::new();
    let mut m: usize = 0;
    while m < j
        invariant
            s == text.spec_bytes(),
            c@ == cs,
            cs == cleaned(s),
            j <= cs.len(),
            0 <= m <= j,
            out@ == cs.subrange(0, m as int),
        decreases j - m,
    {
        out.push(c[m]);
        proof {
            assert(cs.subrange(0, m + 1) =~= cs.subrange(0, m as int).push(cs[m as int]));
        }
        m = m + 1;
    }
    let mut n: usize = 0;
    while n < pad
        invariant
            s == text.spec_bytes(),
            pad <= 7,
            cs == cleaned(s),
            unpadded(cs) == cs.subrange(0, j as int),
            pad == pad_len(j as int),
            j <= cs.len(),
            0 <= n <= pad,
            out@ == cs.subrange(0, j as int) + Seq::new(n as nat, |i: int| PAD),
        decreases pad - n,
    {
        out.push(PAD);
        proof {
            assert(Seq::new((n + 1) as nat, |i: int| PAD) =~= Seq::new(n as nat, |i: int| PAD).push(
                PAD,
            ));
        }
        n = n + 1;
    }
    proof {
        assert(out@ =~= canonical(s));
    }
    Ok(out)
}

/// The text with every ASCII letter in lower case.
pub open spec fn lowered(s: Seq<u8>) -> Seq<u8> {
    s.map_values(|b: u8| to_lower(b))
}

/// Letter case does not matter: a secret text and its lower-case form are
/// both accepted or both refused, and give the same key.
pub proof fn lemma_case_insensitive(s: Seq<u8>)
    ensures
        cleaned(lowered(s)) == cleaned(s),
        accepts(lowered(s)) == accepts(s),
        canonical(lowered(s)) == canonical(s),
    decreases s.len(),
{
    if s.len() > 0 {
        assert(lowered(s).drop_last() =~= lowered(s.drop_last()));
        lemma_case_insensitive(s.drop_last());
    } else {
        assert(lowered(s) =~= s);
    }
}

/// White space does not matter: a space, tab or line break inserted
/// anywhere in a secret text changes neither whether it is accepted nor the
/// key it gives.
pub proof fn lemma_space_insensitive(s: Seq<u8>, i: int, b: u8)
    requires
        0 <= i <= s.len(),
        is_space(b),
    ensures
        cleaned(s.insert(i, b)) == cleaned(s),
        accepts(s.insert(i, b)) == accepts(s),
        canonical(s.insert(i, b)) == canonical(s),
    decreases s.len(),
{
    if i == s.len() {
        assert(s.insert(i, b).drop_last() =~= s);
    } else {
        assert(s.insert(i, b).drop_last() =~= s.drop_last().insert(i, b));
        assert(s.insert(i, b).last() == s.last());
        lemma_space_insensitive(s.drop_last(), i, b);
    }
}

} // verus!
