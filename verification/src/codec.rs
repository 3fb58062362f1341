//! The claim-token codec. A token is a self-describing wire value of
//! three segments joined by a fixed separator: a header naming the
//! signature scheme, the claims (issue time, audience role, subject),
//! and a signature over the first two segments. Each segment is a hex
//! spelling (see the hex module), so the separator can never occur
//! inside one. Issuing and parsing are verified here; only the
//! HMAC-SHA-256 tag itself comes from an outside crate, behind one
//! trusted wrapper.

use vstd::prelude::*;
use vstd::slice::slice_subrange;
use vstd::slice::slice_to_vec;
use crate::hex::hex_of;
use crate::hex::unhex_of;
use crate::hex::hex_encode;
use crate::hex::hex_decode;
use crate::hex::lemma_hex_of_digits;
use crate::hex::lemma_unhex_hex;
use crate::hex::lemma_hex_unhex;
use crate::hex::lemma_hex_of_injective;
use crate::hex::is_hex_digit;
use crate::role::Role;

verus! {

/// The byte that joins the three token segments.
pub const SEPARATOR: u8 = 46;

/// The fixed content of the header segment: the tag of the signature
/// scheme, "HS256".
pub open spec fn header_bytes() -> Seq<u8> {
    seq![72u8, 83u8, 50u8, 53u8, 54u8]
}

/// What an HMAC-SHA-256 tag is for a message and a key. The tag is
/// computed by an outside crate and depends on message and key alone,
/// so it carries a name that the contracts share; nothing further is
/// assumed about its value.
pub uninterp spec fn mac_of(msg: Seq<u8>, key: Seq<u8>) -> Seq<u8>;

/// Relies on crypto's Hmac over Sha256: the tag depends on the message
/// and the key alone.
#[verifier::external_body]
fn hmac_sha256(key: &Vec<u8>, msg: &Vec<u8>) -> (r: Vec<u8>)
    ensures
        r@ == mac_of(msg@, key@),
{
    let mut mac = crypto::hmac::Hmac::new(crypto::sha2::Sha256::new(), key.as_slice());
    crypto::mac::Mac::input(&mut mac, msg.as_slice());
    crypto::mac::Mac::result(&mut mac).code().to_vec()
}

/// The claim set a token asserts: the subject (a principal id), the
/// audience role, and the time of issue in seconds.
#[derive(Debug, PartialEq)]
pub struct Claims {
    pub subject: Vec<u8>,
    pub audience: Role,
    pub issued_at: u64,
}

/// The mathematical content of a claim set.
pub ghost struct ClaimsView {
    pub subject: Seq<u8>,
    pub audience: Role,
    pub issued_at: u64,
}

impl View for Claims {
    type V = ClaimsView;

    open spec fn view(&self) -> ClaimsView {
        ClaimsView { subject: self.subject@, audience: self.audience, issued_at: self.issued_at }
    }
}

/// Why a wire value was rejected. Each is terminal for its request; no
/// partial trust is granted.
#[derive(Clone, Copy, PartialEq, Eq, Structural, Debug)]
pub enum VerifyError {
    /// Not three separator-joined segments, or a segment that does not
    /// decode to what its place requires.
    MalformedToken,
    /// The signature segment is not the tag recomputed with the given
    /// key over the first two segments.
    SignatureMismatch,
    /// The claims carry an empty subject.
    MissingSubject,
    /// A role was demanded and the audience claim names another.
    AudienceMismatch,
}

/// The issue time as eight big-endian bytes.
pub open spec fn iat_bytes(t: u64) -> Seq<u8> {
    seq![
        ((t >> 56) & 0xff) as u8,
        ((t >> 48) & 0xff) as u8,
        ((t >> 40) & 0xff) as u8,
        ((t >> 32) & 0xff) as u8,
        ((t >> 24) & 0xff) as u8,
        ((t >> 16) & 0xff) as u8,
        ((t >> 8) & 0xff) as u8,
        (t & 0xff) as u8,
    ]
}

/// The issue time spelled by the first eight claim bytes.
pub open spec fn iat_from(b: Seq<u8>) -> u64
    recommends
        b.len() >= 8,
{
    ((b[0] as u64) << 56) | ((b[1] as u64) << 48) | ((b[2] as u64) << 40) | ((b[3] as u64) << 32)
        | ((b[4] as u64) << 24) | ((b[5] as u64) << 16) | ((b[6] as u64) << 8) | (b[7] as u64)
}

/// The claims segment content: issue time, one role byte, then the
/// subject, which may be any bytes.
pub open spec fn claims_bytes(c: ClaimsView) -> Seq<u8> {
    iat_bytes(c.issued_at) + seq![c.audience.wire_byte()] + c.subject
}

/// The claims a segment content spells, if it is well-formed: at least
/// the eight time bytes and a valid role byte.
pub open spec fn claims_from(b: Seq<u8>) -> Option<ClaimsView> {
    if b.len() < 9 {
        None
    } else {
        match Role::from_wire_byte_spec(b[8]) {
            Some(role) => Some(
                ClaimsView { subject: b.skip(9), audience: role, issued_at: iat_from(b) },
            ),
            None => None,
        }
    }
}

/// The bytes a signature covers: the first two wire segments with the
/// separator between them.
pub open spec fn signing_input(sub: Seq<u8>, role: Role, iat: u64) -> Seq<u8> {
    hex_of(header_bytes()) + seq![SEPARATOR] + hex_of(
        claims_bytes(ClaimsView { subject: sub, audience: role, issued_at: iat }),
    )
}

/// The wire value issued for a subject, role, issue time, and key.
pub open spec fn issue_spec(sub: Seq<u8>, role: Role, iat: u64, key: Seq<u8>) -> Seq<u8> {
    signing_input(sub, role, iat) + seq![SEPARATOR] + hex_of(
        mac_of(signing_input(sub, role, iat), key),
    )
}

/// The least index holding the separator, or the length when none does.
pub open spec fn find_sep(t: Seq<u8>) -> int
    decreases t.len(),
{
    if t.len() == 0 {
        0
    } else if t[0] == SEPARATOR {
        0
    } else {
        1 + find_sep(t.skip(1))
    }
}

/// Any index with those properties is the least-separator index.
pub proof fn lemma_find_sep_at(t: Seq<u8>, k: int)
    requires
        0 <= k <= t.len(),
        forall|j: int| 0 <= j < k ==> t[j] != SEPARATOR,
        k < t.len() ==> t[k] == SEPARATOR,
    ensures
        find_sep(t) == k,
    decreases t.len(),
{
    if t.len() > 0 && k > 0 {
        assert forall|j: int| 0 <= j < k - 1 implies t.skip(1)[j] != SEPARATOR by {
            assert(t.skip(1)[j] == t[j + 1]);
        }
        assert(k - 1 < t.skip(1).len() ==> t.skip(1)[k - 1] == SEPARATOR);
        lemma_find_sep_at(t.skip(1), k - 1);
    }
}

/// The full verification outcome for a wire value, a key, and an
/// optionally demanded audience role: the three segments are read back,
/// the header must name the scheme, the claims must parse, the
/// signature must be the tag recomputed with the given key, a demanded
/// role must equal the audience, and the subject must not be empty.
pub open spec fn verify_spec(t: Seq<u8>, key: Seq<u8>, expected: Option<Role>) -> Result<
    ClaimsView,
    VerifyError,
> {
    let i = find_sep(t);
    if i == t.len() {
        Err(VerifyError::MalformedToken)
    } else {
        let s1 = t.take(i);
        let r1 = t.skip(i + 1);
        let j = find_sep(r1);
        if j == r1.len() {
            Err(VerifyError::MalformedToken)
        } else {
            let s2 = r1.take(j);
            let s3 = r1.skip(j + 1);
            if find_sep(s3) != s3.len() {
                Err(VerifyError::MalformedToken)
            } else if unhex_of(s1) != Some(header_bytes()) {
                Err(VerifyError::MalformedToken)
            } else {
                match unhex_of(s2) {
                    None => Err(VerifyError::MalformedToken),
                    Some(cb) => match claims_from(cb) {
                        None => Err(VerifyError::MalformedToken),
                        Some(c) => if s3 != hex_of(mac_of(s1 + seq![SEPARATOR] + s2, key)) {
                            Err(VerifyError::SignatureMismatch)
                        } else if expected matches Some(want) && c.audience != want {
                            Err(VerifyError::AudienceMismatch)
                        } else if c.subject.len() == 0 {
                            Err(VerifyError::MissingSubject)
                        } else {
                            Ok(c)
                        },
                    },
                }
            }
        }
    }
}

/// The header segment content as a vector.
fn header_vec() -> (r: Vec<u8>)
    ensures
        r@ == header_bytes(),
{
    let mut v: Vec<u8> = Vec::new();
    v.push(72);
    v.push(83);
    v.push(50);
    v.push(53);
    v.push(54);
    proof {
        assert(v@ =~= header_bytes());
    }
    v
}

/// Issue a signed token for a subject and role: the self-describing
/// three-segment wire value whose content verify reads back.
pub fn issue(subject: &Vec<u8>, role: Role, issued_at: u64, signing_key: &Vec<u8>) -> (r: Vec<
    u8,
>)
    ensures
        r@ == issue_spec(subject@, role, issued_at, signing_key@),
{
    let ghost cv = ClaimsView { subject: subject@, audience: role, issued_at };
    let mut claims: Vec<u8> = Vec::new();
    claims.push(((issued_at >> 56) & 0xff) as u8);
    claims.push(((issued_at >> 48) & 0xff) as u8);
    claims.push(((issued_at >> 40) & 0xff) as u8);
    claims.push(((issued_at >> 32) & 0xff) as u8);
    claims.push(((issued_at >> 24) & 0xff) as u8);
    claims.push(((issued_at >> 16) & 0xff) as u8);
    claims.push(((issued_at >> 8) & 0xff) as u8);
    claims.push((issued_at & 0xff) as u8);
    claims.push(role.to_wire_byte());
    claims.extend_from_slice(subject.as_slice());
    proof {
        assert(claims@ =~= claims_bytes(cv));
    }
    let header = header_vec();
    let mut si = hex_encode(&header);
    si.push(SEPARATOR);
    let claims_hex = hex_encode(&claims);
    si.extend_from_slice(claims_hex.as_slice());
    proof {
        assert(si@ =~= signing_input(subject@, role, issued_at));
    }
    let tag = hmac_sha256(signing_key, &si);
    let tag_hex = hex_encode(&tag);
    let mut token = si;
    token.push(SEPARATOR);
    token.extend_from_slice(tag_hex.as_slice());
    proof {
        assert(token@ =~= issue_spec(subject@, role, issued_at, signing_key@));
    }
    token
}

/// Bytes equality, stated over the views.
fn bytes_eq(a: &Vec<u8>, b: &Vec<u8>) -> (r: bool)
    ensures
        r == (a@ == b@),
{
    if a.len() != b.len() {
        return false;
    }
    let mut i: usize = 0;
    while i < a.len()
        invariant
            i <= a@.len(),
            a@.len() == b@.len(),
            forall|j: int| 0 <= j < i ==> a@[j] == b@[j],
        decreases a@.len() - i,
    {
        if a[i] != b[i] {
            return false;
        }
        i = i + 1;
    }
    proof {
        assert(a@ =~= b@);
    }
    true
}

/// A copy of part of a byte vector.
fn vec_range(v: &Vec<u8>, start: usize, end: usize) -> (r: Vec<u8>)
    requires
        start <= end <= v@.len(),
    ensures
        r@ == v@.subrange(start as int, end as int),
{
    slice_to_vec(slice_subrange(v.as_slice(), start, end))
}

/// The least index at or past start holding the separator, or the
/// length when none does.
fn find_sep_from(t: &Vec<u8>, start: usize) -> (r: usize)
    requires
        start <= t@.len(),
    ensures
        start <= r <= t@.len(),
        r - start == find_sep(t@.skip(start as int)),
{
    let n = t.len();
    let mut i = start;
    while i < n
        invariant
            start <= i <= n,
            n == t@.len(),
            forall|j: int| start <= j < i ==> t@[j] != SEPARATOR,
        decreases n - i,
    {
        if t[i] == SEPARATOR {
            proof {
                assert forall|j: int| 0 <= j < i - start implies t@.skip(start as int)[j]
                    != SEPARATOR by {
                    assert(t@.skip(start as int)[j] == t@[start + j]);
                }
                assert(t@.skip(start as int)[i - start] == t@[i as int]);
                lemma_find_sep_at(t@.skip(start as int), i - start);
            }
            return i;
        }
        i = i + 1;
    }
    proof {
        assert forall|j: int| 0 <= j < n - start implies t@.skip(start as int)[j] != SEPARATOR by {
            assert(t@.skip(start as int)[j] == t@[start + j]);
        }
        lemma_find_sep_at(t@.skip(start as int), n - start);
    }
    n
}

/// Verify a wire value with a key, demanding an audience role when one
/// is given: the outcome is exactly what the verification model says
/// of it.
pub fn verify(token: &Vec<u8>, signing_key: &Vec<u8>, expected: Option<Role>) -> (r: Result<
    Claims,
    VerifyError,
>)
    ensures
        match verify_spec(token@, signing_key@, expected) {
            Ok(c) => r matches Ok(rc) && rc@ == c,
            Err(e) => r matches Err(re) && re == e,
        },
{
    let ghost gt = token@;
    let n = token.len();
    let i = find_sep_from(token, 0);
    proof {
        assert(gt.skip(0) =~= gt);
    }
    if i == n {
        return Err(VerifyError::MalformedToken);
    }
    let ghost r1 = gt.skip(i + 1);
    let j = find_sep_from(token, i + 1);
    proof {
        assert(find_sep(r1) == j - (i + 1));
    }
    if j == n {
        return Err(VerifyError::MalformedToken);
    }
    let ghost gs3 = r1.skip(j - i);
    let k = find_sep_from(token, j + 1);
    proof {
        assert(gs3 =~= gt.skip(j + 1));
    }
    if k != n {
        proof {
            assert(find_sep(gs3) < gs3.len());
        }
        return Err(VerifyError::MalformedToken);
    }
    proof {
        assert(find_sep(gs3) == gs3.len());
    }
    let s1 = vec_range(token, 0, i);
    let s2 = vec_range(token, i + 1, j);
    let s3 = vec_range(token, j + 1, n);
    proof {
        assert(s1@ =~= gt.take(i as int));
        assert(s2@ =~= r1.take(j - (i + 1)));
        assert(s3@ =~= gs3);
    }
    let header = header_vec();
    let header_hex = hex_encode(&header);
    if !bytes_eq(&s1, &header_hex) {
        proof {
            if unhex_of(s1@) == Some(header_bytes()) {
                lemma_hex_unhex(s1@, header_bytes());
            }
        }
        return Err(VerifyError::MalformedToken);
    }
    proof {
        lemma_unhex_hex(header_bytes());
    }
    let cb = match hex_decode(&s2) {
        None => {
            return Err(VerifyError::MalformedToken);
        },
        Some(cb) => cb,
    };
    if cb.len() < 9 {
        return Err(VerifyError::MalformedToken);
    }
    let role = match Role::from_wire_byte(cb[8]) {
        None => {
            return Err(VerifyError::MalformedToken);
        },
        Some(role) => role,
    };
    let iat: u64 = ((cb[0] as u64) << 56) | ((cb[1] as u64) << 48) | ((cb[2] as u64) << 40) | ((
    cb[3] as u64) << 32) | ((cb[4] as u64) << 24) | ((cb[5] as u64) << 16) | ((cb[6] as u64)
        << 8) | (cb[7] as u64);
    proof {
        assert(iat == iat_from(cb@));
    }
    let subject = vec_range(&cb, 9, cb.len());
    proof {
        assert(subject@ =~= cb@.skip(9));
    }
    let ghost gs1 = s1@;
    let ghost gs2 = s2@;
    let mut si = s1;
    si.push(SEPARATOR);
    si.extend_from_slice(s2.as_slice());
    proof {
        assert(si@ =~= gs1 + seq![SEPARATOR] + gs2);
    }
    let tag = hmac_sha256(signing_key, &si);
    let tag_hex = hex_encode(&tag);
    if !bytes_eq(&tag_hex, &s3) {
        return Err(VerifyError::SignatureMismatch);
    }
    match expected {
        Some(want) => {
            if role != want {
                return Err(VerifyError::AudienceMismatch);
            }
        },
        None => {},
    }
    if subject.len() == 0 {
        return Err(VerifyError::MissingSubject);
    }
    Ok(Claims { subject, audience: role, issued_at: iat })
}

/// The issue time read back from its big-endian bytes is the issue
/// time.
pub proof fn lemma_iat_round_trip(t: u64)
    ensures
        iat_from(iat_bytes(t)) == t,
{
    let b = iat_bytes(t);
    assert((((((t >> 56) & 0xff) as u8) as u64) << 56) | (((((t >> 48) & 0xff) as u8) as u64)
        << 48) | (((((t >> 40) & 0xff) as u8) as u64) << 40) | (((((t >> 32) & 0xff) as u8)
        as u64) << 32) | (((((t >> 24) & 0xff) as u8) as u64) << 24) | (((((t >> 16) & 0xff)
        as u8) as u64) << 16) | (((((t >> 8) & 0xff) as u8) as u64) << 8) | (((t & 0xff) as u8)
        as u64) == t) by (bit_vector);
}

/// The claims read back from a claim set's segment content are that
/// claim set.
pub proof fn lemma_claims_round_trip(c: ClaimsView)
    ensures
        claims_from(claims_bytes(c)) == Some(c),
{
    let b = claims_bytes(c);
    lemma_iat_round_trip(c.issued_at);
    assert(b.len() == 9 + c.subject.len());
    assert(b[8] == c.audience.wire_byte());
    assert(Role::from_wire_byte_spec(c.audience.wire_byte()) == Some(c.audience)) by {
        match c.audience {
            Role::Standard => {},
            Role::Admin => {},
        }
    }
    assert forall|k: int| 0 <= k < 8 implies b[k] == iat_bytes(c.issued_at)[k] by {}
    assert(iat_from(b) == iat_from(iat_bytes(c.issued_at)));
    assert(b.skip(9) =~= c.subject);
}

/// What verification under any key says of an issued token: a
/// signature mismatch where the recomputed tag differs from the
/// issuing one, an audience mismatch where a demanded role is not the
/// issued one, a missing subject where the subject is empty, and
/// otherwise exactly the issued claims.
proof fn lemma_verify_of_issued(
    sub: Seq<u8>,
    role: Role,
    iat: u64,
    key: Seq<u8>,
    vkey: Seq<u8>,
    expected: Option<Role>,
)
    ensures
        ({
            let si = signing_input(sub, role, iat);
            let c = ClaimsView { subject: sub, audience: role, issued_at: iat };
            verify_spec(issue_spec(sub, role, iat, key), vkey, expected) == (if mac_of(si, vkey)
                != mac_of(si, key) {
                Err::<ClaimsView, VerifyError>(VerifyError::SignatureMismatch)
            } else if expected matches Some(want) && role != want {
                Err::<ClaimsView, VerifyError>(VerifyError::AudienceMismatch)
            } else if sub.len() == 0 {
                Err::<ClaimsView, VerifyError>(VerifyError::MissingSubject)
            } else {
                Ok::<ClaimsView, VerifyError>(c)
            })
        }),
{
    let c = ClaimsView { subject: sub, audience: role, issued_at: iat };
    let h1 = hex_of(header_bytes());
    let h2 = hex_of(claims_bytes(c));
    let si = signing_input(sub, role, iat);
    let tag = hex_of(mac_of(si, key));
    let t = issue_spec(sub, role, iat, key);
    assert(t =~= h1 + seq![SEPARATOR] + h2 + seq![SEPARATOR] + tag);
    lemma_hex_of_digits(header_bytes());
    lemma_hex_of_digits(claims_bytes(c));
    lemma_hex_of_digits(mac_of(si, key));
    assert forall|j: int| 0 <= j < h1.len() implies t[j] != SEPARATOR by {
        assert(t[j] == h1[j]);
        assert(is_hex_digit(h1[j]));
    }
    assert(t[h1.len() as int] == SEPARATOR);
    lemma_find_sep_at(t, h1.len() as int);
    let r1 = t.skip(h1.len() as int + 1);
    assert(r1 =~= h2 + seq![SEPARATOR] + tag);
    assert forall|j: int| 0 <= j < h2.len() implies r1[j] != SEPARATOR by {
        assert(r1[j] == h2[j]);
        assert(is_hex_digit(h2[j]));
    }
    assert(r1[h2.len() as int] == SEPARATOR);
    lemma_find_sep_at(r1, h2.len() as int);
    let s3 = r1.skip(h2.len() as int + 1);
    assert(s3 =~= tag);
    assert forall|j: int| 0 <= j < s3.len() implies s3[j] != SEPARATOR by {
        assert(s3[j] == tag[j]);
        assert(is_hex_digit(tag[j]));
    }
    lemma_find_sep_at(s3, s3.len() as int);
    let s1 = t.take(h1.len() as int);
    assert(s1 =~= h1);
    let s2 = r1.take(h2.len() as int);
    assert(s2 =~= h2);
    lemma_unhex_hex(header_bytes());
    lemma_unhex_hex(claims_bytes(c));
    lemma_claims_round_trip(c);
    assert(s1 + seq![SEPARATOR] + s2 =~= si);
    if mac_of(si, vkey) != mac_of(si, key) {
        if hex_of(mac_of(si, vkey)) == hex_of(mac_of(si, key)) {
            lemma_hex_of_injective(mac_of(si, vkey), mac_of(si, key));
        }
        assert(s3 != hex_of(mac_of(s1 + seq![SEPARATOR] + s2, vkey)));
    } else {
        assert(s3 == hex_of(mac_of(s1 + seq![SEPARATOR] + s2, vkey)));
    }
}

/// Round trip: a token issued for a subject and role verifies under
/// the issuing key — with no demanded role, and equally with the
/// issued role demanded — and recovers exactly that subject, role, and
/// issue time. An empty subject is the one input left out: its token
/// is turned away for the missing subject.
pub proof fn lemma_round_trip(sub: Seq<u8>, role: Role, iat: u64, key: Seq<u8>)
    requires
        sub.len() > 0,
    ensures
        verify_spec(issue_spec(sub, role, iat, key), key, None) == Ok::<ClaimsView, VerifyError>(
            ClaimsView { subject: sub, audience: role, issued_at: iat },
        ),
        verify_spec(issue_spec(sub, role, iat, key), key, Some(role)) == Ok::<
            ClaimsView,
            VerifyError,
        >(ClaimsView { subject: sub, audience: role, issued_at: iat }),
{
    lemma_verify_of_issued(sub, role, iat, key, key, None);
    lemma_verify_of_issued(sub, role, iat, key, key, Some(role));
}

/// Key isolation: a token issued under one key is turned away with a
/// signature mismatch by verification under any key whose recomputed
/// tag differs from the issuing one — whatever audience that
/// verification demands. (A pair of keys whose tags coincide on this
/// input is the one case left out: the tag is a named outside result,
/// of which no more is assumed than its arguments.)
pub proof fn lemma_key_isolation(
    sub: Seq<u8>,
    role: Role,
    iat: u64,
    key: Seq<u8>,
    other: Seq<u8>,
    expected: Option<Role>,
)
    ensures
        mac_of(signing_input(sub, role, iat), other) != mac_of(signing_input(sub, role, iat), key)
            ==> verify_spec(issue_spec(sub, role, iat, key), other, expected) == Err::<
            ClaimsView,
            VerifyError,
        >(VerifyError::SignatureMismatch),
{
    lemma_verify_of_issued(sub, role, iat, key, other, expected);
}

/// Role scoping: demanding a role only narrows verification. A token
/// the plain check accepts is accepted by the role-demanding check
/// exactly when its audience is the demanded role, and otherwise
/// turned away as an audience mismatch; so a token issued to one role
/// is never accepted where another role is demanded.
pub proof fn lemma_role_scoping(t: Seq<u8>, key: Seq<u8>, want: Role)
    ensures
        verify_spec(t, key, None) matches Ok(c) ==> verify_spec(t, key, Some(want)) == (if c.audience == want {
            Ok::<ClaimsView, VerifyError>(c)
        } else {
            Err::<ClaimsView, VerifyError>(VerifyError::AudienceMismatch)
        }),
{
}

} // verus!
