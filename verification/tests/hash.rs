use pam_modules::hash::{
    hash, hash_with_salt, lanes_can_be_used, named_lanes, verify, verify_pin, CostParams, PinHash,
};
use pam_modules::status::{ErrorKind, Status};

const KNOWN_HASH: &str =
    "$argon2d$v=19$m=4096,t=3,p=1$PFRID+hbQKjEFESZWQZMEA$mMpICfZn5N0bV13RJ3nWYfYXesgTJcPl81xwrqzDDLY";

fn small_cost() -> CostParams {
    CostParams { memory: 8, time: 1, parallelism: 1 }
}

#[test]
fn verify_valid_pin() {
    let pin = "pw";
    let hash = KNOWN_HASH;
    let hash = PinHash::new(hash).unwrap();

    verify_pin(&hash, pin.as_bytes()).unwrap();
}

#[test]
fn not_verify_invalid_hash() {
    let hash = "foo";
    PinHash::new(hash).unwrap_err();
}

#[test]
fn not_verify_invalid_pin() {
    let pin = "Pw";
    let hash = KNOWN_HASH;
    let hash = PinHash::new(hash).unwrap();

    let _ = verify_pin(&hash, pin.as_bytes()).unwrap_err();
}

#[test]
fn too_many_lanes_fail_like_a_wrong_pin() {
    let lanes: [u64; 6] = [536870911, 536870912, 536870913, 1073741824, 4294967295, 16777216];
    for count in lanes {
        let text = format!(
            "$argon2d$v=19$m=8,t=1,p={}$PFRID+hbQKjEFESZWQZMEA$mMpICfZn5N0bV13RJ3nWYfYXesgTJcPl81xwrqzDDLY",
            count
        );
        let failure = verify(&text, b"pw").unwrap_err();
        assert_eq!(failure.kind, ErrorKind::CryptoVerifyFailure);
        assert_eq!(failure.status(), Status::AuthError);
        if let Ok(parsed) = PinHash::new(&text) {
            let failure = verify_pin(&parsed, b"pw").unwrap_err();
            assert_eq!(failure.kind, ErrorKind::CryptoVerifyFailure);
            assert_eq!(failure.status(), Status::AuthError);
        }
    }
    let parsed = PinHash::new(
        "$argon2d$v=19$m=8,t=1,p=536870912$PFRID+hbQKjEFESZWQZMEA$mMpICfZn5N0bV13RJ3nWYfYXesgTJcPl81xwrqzDDLY",
    )
    .unwrap();
    let wrong_pin = verify_pin(&PinHash::new(KNOWN_HASH).unwrap(), b"Pw").unwrap_err();
    assert_eq!(verify_pin(&parsed, b"pw").unwrap_err(), wrong_pin);
}

#[test]
fn lanes_are_those_of_the_last_parameter_named_p() {
    let shadowed = "$argon2d$v=19$m=4096,t=3,p=536870912,p=1$PFRID+hbQKjEFESZWQZMEA$mMpICfZn5N0bV13RJ3nWYfYXesgTJcPl81xwrqzDDLY";
    assert_eq!(verify(shadowed, b"pw"), Ok(()));
    assert!(verify(shadowed, b"Pw").is_err());
    let shadowing = "$argon2d$v=19$m=4096,t=3,p=1,p=536870912$PFRID+hbQKjEFESZWQZMEA$mMpICfZn5N0bV13RJ3nWYfYXesgTJcPl81xwrqzDDLY";
    let failure = verify(shadowing, b"pw").unwrap_err();
    assert_eq!(failure.kind, ErrorKind::CryptoVerifyFailure);
    let no_number = "$argon2d$v=19$m=4096,t=3,p=536870912,p=x$PFRID+hbQKjEFESZWQZMEA$mMpICfZn5N0bV13RJ3nWYfYXesgTJcPl81xwrqzDDLY";
    assert!(verify(no_number, b"pw").is_err());
}

#[test]
fn lanes_are_read_from_a_list_of_parameters() {
    let list = |pairs: &[(&str, Option<u32>)]| -> Vec<(String, Option<u32>)> {
        pairs.iter().map(|(name, number)| (name.to_string(), *number)).collect()
    };
    assert_eq!(named_lanes(&[]), None);
    assert!(lanes_can_be_used(&[]));
    let plain = list(&[("m", Some(8)), ("t", Some(1)), ("p", Some(4))]);
    assert_eq!(named_lanes(&plain), Some(4));
    assert!(lanes_can_be_used(&plain));
    let twice = list(&[("p", Some(1)), ("m", Some(8)), ("p", Some(536870912))]);
    assert_eq!(named_lanes(&twice), Some(536870912));
    assert!(!lanes_can_be_used(&twice));
    let back = list(&[("p", Some(536870912)), ("p", Some(536870911)), ("t", Some(9))]);
    assert_eq!(named_lanes(&back), Some(536870911));
    assert!(lanes_can_be_used(&back));
    let no_number = list(&[("p", Some(4294967295)), ("p", None)]);
    assert_eq!(named_lanes(&no_number), None);
    assert!(lanes_can_be_used(&no_number));
    let other_names = list(&[("P", Some(4294967295)), ("pp", Some(4294967295)), ("", Some(7))]);
    assert_eq!(named_lanes(&other_names), None);
    assert!(lanes_can_be_used(&other_names));
}

#[test]
fn hashing_succeeds_on_valid_costs() {
    let long = vec![7u8; 100_000];
    for cost in [small_cost(), CostParams { memory: 16, time: 2, parallelism: 2 }] {
        assert!(hash(b"", &cost).is_ok());
        assert!(hash(&long, &cost).is_ok());
        assert!(hash_with_salt(b"1234", "PFRID+hbQKjEFESZWQZMEA", &cost).is_ok());
    }
}

#[test]
fn parsed_hash_keeps_its_text() {
    let hash = PinHash::new(KNOWN_HASH).unwrap();
    assert_eq!(hash.as_str(), KNOWN_HASH);
    assert_eq!(hash.duplicate(), hash);
}

#[test]
fn hash_then_verify_succeeds() {
    for secret in ["1234", "", "0000", "a much longer secret with spaces", "päss"] {
        let made = hash(secret.as_bytes(), &small_cost()).unwrap();
        assert_eq!(verify_pin(&made, secret.as_bytes()), Ok(()));
        assert_eq!(verify(made.as_str(), secret.as_bytes()), Ok(()));
    }
}

#[test]
fn hash_then_verify_other_secret_fails() {
    let made = hash(b"1234", &small_cost()).unwrap();
    for other in ["0000", "12345", "123", "", "1234 "] {
        let failure = verify_pin(&made, other.as_bytes()).unwrap_err();
        assert_eq!(failure.kind, ErrorKind::CryptoVerifyFailure);
        assert_eq!(failure.status(), Status::AuthError);
    }
}

#[test]
fn hash_is_self_describing() {
    let cost = CostParams { memory: 16, time: 2, parallelism: 2 };
    let made = hash(b"1234", &cost).unwrap();
    assert!(made.as_str().starts_with("$argon2d$v=19$m=16,t=2,p=2$"));
    assert_eq!(made.as_str().split('$').count(), 6);
}

#[test]
fn salt_is_fresh_for_every_hash() {
    let first = hash(b"1234", &small_cost()).unwrap();
    let second = hash(b"1234", &small_cost()).unwrap();
    assert_ne!(first.as_str(), second.as_str());
}

#[test]
fn hash_with_given_salt_is_reproducible() {
    let salt = "PFRID+hbQKjEFESZWQZMEA";
    let cost = CostParams { memory: 4096, time: 3, parallelism: 1 };
    let made = hash_with_salt(b"pw", salt, &cost).unwrap();
    assert_eq!(made.as_str(), KNOWN_HASH);
}

#[test]
fn hash_refuses_bad_cost_and_bad_salt() {
    let salt = "PFRID+hbQKjEFESZWQZMEA";
    let too_little = CostParams { memory: 7, time: 1, parallelism: 1 };
    assert!(hash_with_salt(b"pw", salt, &too_little).is_err());
    let no_time = CostParams { memory: 8, time: 0, parallelism: 1 };
    assert!(hash_with_salt(b"pw", salt, &no_time).is_err());
    let many_lanes = CostParams { memory: u32::MAX, time: 1, parallelism: 0x2000_0000 };
    assert!(hash_with_salt(b"pw", salt, &many_lanes).is_err());
    assert!(hash(b"pw", &many_lanes).is_err());
    let over_lanes = CostParams { memory: u32::MAX, time: 1, parallelism: 0x100_0000 };
    assert!(hash_with_salt(b"pw", salt, &over_lanes).is_err());
    assert!(hash_with_salt(b"pw", "not a salt!", &small_cost()).is_err());
}

#[test]
fn verify_fails_on_malformed_hash_strings() {
    for text in ["", "foo", "argon2d$v=19", "$", "$$", "$argon2d$v=x", " $argon2d", "1234"] {
        let failure = verify(text, b"1234").unwrap_err();
        assert_eq!(failure.kind, ErrorKind::CryptoVerifyFailure);
        assert_eq!(failure.status(), Status::AuthError);
        assert!(failure.causes.is_empty());
    }
}

#[test]
fn malformed_hash_and_wrong_pin_fail_alike() {
    let wrong_pin = verify(KNOWN_HASH, b"Pw").unwrap_err();
    let malformed = verify("foo", b"pw").unwrap_err();
    assert_eq!(wrong_pin, malformed);
}

#[test]
fn refusal_is_a_crypto_failure_and_acceptance_a_success() {
    assert_eq!(pam_modules::hash::settle(true), Ok(()));
    let failure = pam_modules::hash::settle(false).unwrap_err();
    assert_eq!(failure.kind, ErrorKind::CryptoVerifyFailure);
    assert_eq!(failure.tag, None);
}
