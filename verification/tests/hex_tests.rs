use dauth::hexcode::{parse_client_key, wire_key_of};
use dauth::session::SessionRegistry;

#[test]
fn wire_key_round_trips_through_parse() {
    let key: Vec<u8> = (0..64u8).collect();
    let wire = wire_key_of(key.as_slice());
    assert_eq!(&wire[..2], "04");
    assert_eq!(wire.len(), 130);
    let back = parse_client_key(&wire).unwrap();
    assert_eq!(back, key);
}

#[test]
fn wire_key_is_lowercase_hex() {
    let wire = wire_key_of(vec![0xAB; 64].as_slice());
    assert_eq!(wire, format!("04{}", "ab".repeat(64)));
}

#[test]
fn parse_client_key_accepts_both_cases() {
    let upper = format!("04{}", "AB".repeat(64));
    assert_eq!(parse_client_key(&upper).unwrap(), vec![0xab; 64]);
    let mixed = format!("04{}", "aB".repeat(64));
    assert_eq!(parse_client_key(&mixed).unwrap(), vec![0xab; 64]);
}

#[test]
fn parse_client_key_rejects_bad_forms() {
    assert!(parse_client_key("").is_none());
    assert!(parse_client_key("04").is_none());
    assert!(parse_client_key(&format!("40{}", "ab".repeat(64))).is_none());
    assert!(parse_client_key(&format!("04{}", "ab".repeat(63))).is_none());
    assert!(parse_client_key(&format!("04{}g", "ab".repeat(63).as_str())).is_none());
    // A non-ASCII character in an otherwise full-length key.
    assert!(parse_client_key(&format!("04{}\u{00e9}a", "ab".repeat(63))).is_none());
}

#[test]
fn registry_expiry_boundaries() {
    let mut reg = SessionRegistry::new(600);
    let sid = vec![3u8; 32];
    reg.register_session(sid.as_slice(), 1000);
    // Lazy expiry: a check strictly before 1600 keeps the record; one at
    // 1600 removes it.
    assert!(matches!(
        reg.check_session(sid.as_slice(), 1599),
        dauth::session::SessionCheck::Valid
    ));
    assert!(matches!(
        reg.check_session(sid.as_slice(), 1600),
        dauth::session::SessionCheck::Expired
    ));
    assert!(matches!(
        reg.check_session(sid.as_slice(), 1600),
        dauth::session::SessionCheck::Missing
    ));
}

#[test]
fn registry_close_drops_the_record() {
    let mut reg = SessionRegistry::new(600);
    let sid = vec![3u8; 32];
    let other = vec![4u8; 32];
    reg.register_session(sid.as_slice(), 1000);
    reg.register_session(other.as_slice(), 1000);
    reg.close_session(sid.as_slice());
    assert!(matches!(
        reg.check_session(sid.as_slice(), 1001),
        dauth::session::SessionCheck::Missing
    ));
    assert!(matches!(
        reg.check_session(other.as_slice(), 1001),
        dauth::session::SessionCheck::Valid
    ));
}
