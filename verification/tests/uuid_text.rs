use rat::uid::Uuid;

#[test]
fn parse_matches_the_uuid_crate_on_canonical_text() {
    let text = "67e55044-10b1-426f-9247-bb680e5fe0c8";
    let ours = Uuid::parse(text.as_bytes()).unwrap();
    let theirs = uuid::Uuid::parse_str(text).unwrap();
    assert_eq!(ours.as_bytes().as_slice(), theirs.as_bytes());
}

#[test]
fn format_matches_the_uuid_crate() {
    let bytes: Vec<u8> = (16u8..32u8).collect();
    let ours = Uuid::from_bytes(bytes.clone()).unwrap();
    let theirs = uuid::Uuid::from_slice(&bytes).unwrap();
    assert_eq!(
        String::from_utf8(ours.format_hyphenated()).unwrap(),
        theirs.hyphenated().to_string()
    );
}

#[test]
fn format_emits_lowercase_only() {
    let u = Uuid::from_bytes(vec![0xAB; 16]).unwrap();
    let text = String::from_utf8(u.format_hyphenated()).unwrap();
    assert_eq!(text, text.to_lowercase());
    assert_eq!(text, "abababab-abab-abab-abab-abababababab");
}

#[test]
fn format_then_parse_round_trips() {
    let bytes: Vec<u8> = vec![
        0xff, 0x00, 0xab, 0x12, 0x34, 0x56, 0x78, 0x9a, 0xbc, 0xde, 0xf0, 0x01, 0x02, 0x03, 0x04,
        0x05,
    ];
    let u = Uuid::from_bytes(bytes).unwrap();
    let text = u.format_hyphenated();
    let back = Uuid::parse(&text).unwrap();
    assert_eq!(back, u);
}

#[test]
fn parse_is_newline_insensitive() {
    let with_ws = "  67e55044-10b1-426f-9247-bb680e5fe0c8\n";
    let bare = "67e55044-10b1-426f-9247-bb680e5fe0c8";
    assert_eq!(
        Uuid::parse(with_ws.as_bytes()).unwrap(),
        Uuid::parse(bare.as_bytes()).unwrap()
    );
}

#[test]
fn parse_accepts_uppercase_hex() {
    let upper = "67E55044-10B1-426F-9247-BB680E5FE0C8";
    let lower = "67e55044-10b1-426f-9247-bb680e5fe0c8";
    assert_eq!(
        Uuid::parse(upper.as_bytes()).unwrap(),
        Uuid::parse(lower.as_bytes()).unwrap()
    );
}

#[test]
fn parse_rejects_malformed_text() {
    assert!(Uuid::parse(b"").is_none());
    assert!(Uuid::parse(b"not-a-uuid").is_none());
    // One character short.
    assert!(Uuid::parse(b"67e55044-10b1-426f-9247-bb680e5fe0c").is_none());
    // Hyphen out of place.
    assert!(Uuid::parse(b"67e5504410-b1-426f-9247-bb680e5fe0c8").is_none());
    // Non-hex digit.
    assert!(Uuid::parse(b"67e55044-10b1-426f-9247-bb680e5fe0cg").is_none());
    // Whitespace inside, not around.
    assert!(Uuid::parse(b"67e55044-10b1-426f-9247 bb680e5fe0c8").is_none());
}

#[test]
fn from_bytes_requires_exactly_sixteen() {
    assert!(Uuid::from_bytes(vec![0; 15]).is_none());
    assert!(Uuid::from_bytes(vec![0; 17]).is_none());
    assert!(Uuid::from_bytes(vec![0; 16]).is_some());
}
