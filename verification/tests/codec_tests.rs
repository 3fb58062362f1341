use authcore::codec::{issue, verify, VerifyError};
use authcore::hex::{hex_decode, hex_encode};
use authcore::role::Role;

fn key() -> Vec<u8> {
    b"secret_key".to_vec()
}

#[test]
fn round_trip_standard() {
    let sub = b"user-123".to_vec();
    let t = issue(&sub, Role::Standard, 1700000000, &key());
    let c = verify(&t, &key(), None).unwrap();
    assert_eq!(c.subject, sub);
    assert_eq!(c.audience, Role::Standard);
    assert_eq!(c.issued_at, 1700000000);
}

#[test]
fn round_trip_admin_with_demand() {
    let sub = b"root-7".to_vec();
    let t = issue(&sub, Role::Admin, 42, &key());
    let c = verify(&t, &key(), Some(Role::Admin)).unwrap();
    assert_eq!(c.subject, sub);
    assert_eq!(c.audience, Role::Admin);
    assert_eq!(c.issued_at, 42);
}

#[test]
fn round_trip_extreme_issue_times() {
    let sub = b"user-123".to_vec();
    for iat in [0u64, 1, 255, 256, u64::MAX - 1, u64::MAX] {
        let t = issue(&sub, Role::Standard, iat, &key());
        let c = verify(&t, &key(), None).unwrap();
        assert_eq!(c.issued_at, iat);
    }
}

#[test]
fn subject_may_contain_separators_and_any_bytes() {
    let sub = vec![46u8, 0, 255, 46, 97];
    let t = issue(&sub, Role::Admin, 7, &key());
    let c = verify(&t, &key(), None).unwrap();
    assert_eq!(c.subject, sub);
}

#[test]
fn wrong_key_is_signature_mismatch() {
    let t = issue(&b"user-123".to_vec(), Role::Standard, 5, &key());
    let r = verify(&t, &b"another_key".to_vec(), None);
    assert_eq!(r, Err(VerifyError::SignatureMismatch));
}

#[test]
fn keys_change_the_wire_value() {
    let sub = b"user-123".to_vec();
    let a = issue(&sub, Role::Standard, 5, &key());
    let b = issue(&sub, Role::Standard, 5, &b"another_key".to_vec());
    assert_ne!(a, b);
}

#[test]
fn header_segment_names_the_scheme() {
    let t = issue(&b"s".to_vec(), Role::Standard, 0, &key());
    assert_eq!(&t[..11], b"4853323536.");
    assert_eq!(t.iter().filter(|&&b| b == 46).count(), 2);
}

#[test]
fn no_separator_is_malformed() {
    let r = verify(&b"justonechunk".to_vec(), &key(), None);
    assert_eq!(r, Err(VerifyError::MalformedToken));
}

#[test]
fn two_segments_is_malformed() {
    let r = verify(&b"4853323536.00".to_vec(), &key(), None);
    assert_eq!(r, Err(VerifyError::MalformedToken));
}

#[test]
fn four_segments_is_malformed() {
    let mut t = issue(&b"user".to_vec(), Role::Standard, 0, &key());
    t.push(46);
    t.push(48);
    t.push(48);
    let r = verify(&t, &key(), None);
    assert_eq!(r, Err(VerifyError::MalformedToken));
}

#[test]
fn wrong_header_is_malformed() {
    let t = issue(&b"user".to_vec(), Role::Standard, 0, &key());
    let mut wrong: Vec<u8> = b"ff".to_vec();
    wrong.extend_from_slice(&t[10..]);
    let r = verify(&wrong, &key(), None);
    assert_eq!(r, Err(VerifyError::MalformedToken));
}

#[test]
fn tampered_claims_fail() {
    let t = issue(&b"user".to_vec(), Role::Standard, 0, &key());
    let dots: Vec<usize> = t
        .iter()
        .enumerate()
        .filter_map(|(i, &b)| if b == 46 { Some(i) } else { None })
        .collect();
    let mut tampered = t.clone();
    let idx = dots[0] + 1;
    tampered[idx] = if tampered[idx] == b'0' { b'1' } else { b'0' };
    let r = verify(&tampered, &key(), None);
    assert!(r.is_err());
}

#[test]
fn empty_subject_is_missing_subject() {
    let t = issue(&Vec::new(), Role::Standard, 0, &key());
    let r = verify(&t, &key(), None);
    assert_eq!(r, Err(VerifyError::MissingSubject));
}

#[test]
fn standard_token_fails_admin_demand() {
    let t = issue(&b"user-123".to_vec(), Role::Standard, 0, &key());
    let r = verify(&t, &key(), Some(Role::Admin));
    assert_eq!(r, Err(VerifyError::AudienceMismatch));
}

#[test]
fn hex_encode_exact() {
    assert_eq!(hex_encode(&vec![0x00, 0xab, 0xff]), b"00abff".to_vec());
    assert_eq!(hex_encode(&Vec::new()), Vec::<u8>::new());
}

#[test]
fn hex_decode_round_trip() {
    let bytes = vec![0u8, 1, 15, 16, 127, 128, 255];
    let spelled = hex_encode(&bytes);
    assert_eq!(hex_decode(&spelled), Some(bytes));
}

#[test]
fn hex_decode_rejects_bad_input() {
    assert_eq!(hex_decode(&b"0g".to_vec()), None);
    assert_eq!(hex_decode(&b"abc".to_vec()), None);
    assert_eq!(hex_decode(&b"AB".to_vec()), None);
}
