use airtips::identity::parse_identity;

#[test]
fn parse_small_value() {
    let id = parse_identity("00000000-0000-0000-0000-000000000001").unwrap();
    assert_eq!(id.value, 1u128);
}

#[test]
fn parse_full_value() {
    let id = parse_identity("ffffffff-ffff-ffff-ffff-ffffffffffff").unwrap();
    assert_eq!(id.value, u128::MAX);
}

#[test]
fn parse_exact_value() {
    let id = parse_identity("12345678-9abc-def0-1234-56789abcdef0").unwrap();
    assert_eq!(id.value, 0x12345678_9abc_def0_1234_56789abcdef0u128);
}

#[test]
fn parse_is_case_insensitive() {
    let lower = parse_identity("abcdef00-1111-2222-3333-444455556666").unwrap();
    let upper = parse_identity("ABCDEF00-1111-2222-3333-444455556666").unwrap();
    assert_eq!(lower, upper);
}

#[test]
fn parse_rejects_missing_hyphens() {
    assert!(parse_identity("123456789abcdef0123456789abcdef0").is_none());
}

#[test]
fn parse_rejects_wrong_length() {
    assert!(parse_identity("").is_none());
    assert!(parse_identity("12345678-9abc-def0-1234-56789abcdef").is_none());
    assert!(parse_identity("12345678-9abc-def0-1234-56789abcdef00").is_none());
}

#[test]
fn parse_rejects_bad_characters() {
    assert!(parse_identity("g2345678-9abc-def0-1234-56789abcdef0").is_none());
    assert!(parse_identity("12345678_9abc_def0_1234_56789abcdef0").is_none());
    assert!(parse_identity("{12345678-9abc-def0-1234-56789abcde}").is_none());
}

#[test]
fn parse_rejects_hyphen_in_wrong_place() {
    assert!(parse_identity("1234567-89abc-def0-1234-56789abcdef0").is_none());
}
