use bookstore::config::{effective_port, parse_port, Config};
use bookstore::oid::BookId;

#[test]
fn parse_str_accepts_both_cases_and_renders_lower() {
    let id = BookId::parse_str("53e37d08776f724e42000000").expect("well formed");
    assert_eq!(id.to_hex(), "53e37d08776f724e42000000");
    let id = BookId::parse_str("53E37D08776F724E42000000").expect("well formed");
    assert_eq!(id.to_hex(), "53e37d08776f724e42000000");
}

#[test]
fn parse_str_rejects_malformed_strings() {
    assert!(BookId::parse_str("").is_none());
    assert!(BookId::parse_str("53e37d08776f724e4200000").is_none());
    assert!(BookId::parse_str("53e37d08776f724e420000000").is_none());
    assert!(BookId::parse_str("53e37d08776f724e4200000g").is_none());
    assert!(BookId::parse_str("53e37d08-76f-24e-2000000").is_none());
}

#[test]
fn from_bytes_round_trips_through_hex() {
    let bytes: Vec<u8> = vec![0x53, 0xe3, 0x7d, 0x08, 0x77, 0x6f, 0x72, 0x4e, 0x42, 0x00, 0x00, 0x01];
    let id = BookId::from_bytes(bytes.clone()).expect("twelve bytes");
    assert_eq!(id.as_bytes(), &bytes);
    let hex = id.to_hex();
    assert_eq!(hex, "53e37d08776f724e42000001");
    let back = BookId::parse_str(&hex).expect("well formed");
    assert!(back.same_as(&id));
    assert!(BookId::from_bytes(vec![1, 2, 3]).is_none());
}

#[test]
fn same_as_distinguishes_identifiers() {
    let a = BookId::parse_str("000000000000000000000001").unwrap();
    let b = BookId::parse_str("000000000000000000000002").unwrap();
    assert!(!a.same_as(&b));
    assert!(a.same_as(&a));
}

#[test]
fn config_requires_both_values() {
    let err = Config::from_values(None, Some("library".to_string())).expect_err("no uri");
    assert_eq!(err, "MONGODB_URI not set");
    let err = Config::from_values(Some(String::new()), Some("library".to_string()))
        .expect_err("empty uri");
    assert_eq!(err, "MONGODB_URI not set");
    let err =
        Config::from_values(Some("mongodb://localhost:27017".to_string()), None).expect_err("no db");
    assert_eq!(err, "MONGODB_DB not set");
    let err = Config::from_values(Some("mongodb://localhost:27017".to_string()), Some(String::new()))
        .expect_err("empty db");
    assert_eq!(err, "MONGODB_DB not set");
    let cfg = Config::from_values(
        Some("mongodb://localhost:27017".to_string()),
        Some("library".to_string()),
    )
    .expect("both present");
    assert_eq!(cfg.mongodb_uri, "mongodb://localhost:27017");
    assert_eq!(cfg.mongodb_db, "library");
}

#[test]
fn parse_port_matches_standard_semantics() {
    assert_eq!(parse_port("3000"), Some(3000));
    assert_eq!(parse_port("0"), Some(0));
    assert_eq!(parse_port("+80"), Some(80));
    assert_eq!(parse_port("65535"), Some(65535));
    assert_eq!(parse_port("0065535"), Some(65535));
    assert_eq!(parse_port("65536"), None);
    assert_eq!(parse_port("99999999999999999999"), None);
    assert_eq!(parse_port(""), None);
    assert_eq!(parse_port("+"), None);
    assert_eq!(parse_port("-1"), None);
    assert_eq!(parse_port("80a"), None);
    assert_eq!(parse_port(" 80"), None);
    assert_eq!(parse_port("8080"), "8080".parse::<u16>().ok());
    assert_eq!(parse_port("65536"), "65536".parse::<u16>().ok());
    assert_eq!(parse_port("+443"), "+443".parse::<u16>().ok());
}

#[test]
fn effective_port_falls_back_to_3000() {
    assert_eq!(effective_port(None), 3000);
    assert_eq!(effective_port(Some("not a port".to_string())), 3000);
    assert_eq!(effective_port(Some("70000".to_string())), 3000);
    assert_eq!(effective_port(Some("8080".to_string())), 8080);
}
