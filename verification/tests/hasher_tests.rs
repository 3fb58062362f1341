use authcore::hasher::{hash, hash_then_verify, verify};

#[test]
fn fresh_hash_matches_its_secret() {
    let secret = "pw123456".to_string();
    let h = hash(&secret, 4).unwrap();
    assert_eq!(verify(&secret, &h), Ok(true));
}

#[test]
fn other_secret_does_not_match() {
    let h = hash(&"pw123456".to_string(), 4).unwrap();
    assert_eq!(verify(&"pw123457".to_string(), &h), Ok(false));
}

#[test]
fn hash_is_not_the_secret() {
    let secret = "pw123456".to_string();
    let h = hash(&secret, 4).unwrap();
    assert_ne!(h, secret);
}

#[test]
fn two_hashes_of_one_secret_differ_but_both_match() {
    let secret = "pw123456".to_string();
    let h1 = hash(&secret, 4).unwrap();
    let h2 = hash(&secret, 4).unwrap();
    assert_ne!(h1, h2);
    assert_eq!(verify(&secret, &h1), Ok(true));
    assert_eq!(verify(&secret, &h2), Ok(true));
}

#[test]
fn malformed_hash_fails_closed() {
    assert!(verify(&"pw123456".to_string(), &"not-a-hash".to_string()).is_err());
}

#[test]
fn out_of_range_cost_is_refused() {
    assert!(hash(&"pw123456".to_string(), 2).is_err());
}

#[test]
fn hash_then_verify_answers_true() {
    assert_eq!(hash_then_verify(&"pw123456".to_string(), 4), Some(true));
}
