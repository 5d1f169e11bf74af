use uuid4::{format_uuid, generate_uuid, is_valid_uuid};

#[test]
fn test_generate_uuid_format() {
    let uuid = generate_uuid();
    assert!(
        is_valid_uuid(&uuid),
        "Generated UUID is not in a valid format"
    );
}

#[test]
fn test_is_valid_uuid_valid_uuid() {
    // A sample valid UUID: version 4, variant a
    let valid_uuid = "123e4567-e89b-42d3-a456-426614174000";
    assert!(is_valid_uuid(valid_uuid), "Expected valid UUID to pass");
}

#[test]
fn test_is_valid_uuid_invalid_uuid_wrong_format() {
    // Invalid UUID (wrong format)
    let invalid_uuid = "12345678-1234-1234-1234-1234567890";
    assert!(!is_valid_uuid(invalid_uuid), "Expected invalid UUID to fail");
}

#[test]
fn test_is_valid_uuid_invalid_uuid_wrong_version() {
    // Invalid UUID (version other than 4)
    let invalid_uuid = "123e4567-e89b-12d3-b456-426614174000";
    assert!(
        !is_valid_uuid(invalid_uuid),
        "Expected invalid UUID to fail due to wrong version"
    );
}

#[test]
fn test_is_valid_uuid_empty_string() {
    let empty_string = "";
    assert!(
        !is_valid_uuid(empty_string),
        "Expected empty string to be invalid UUID"
    );
}

#[test]
fn test_is_valid_uuid_random_strings() {
    let random_strings = vec![
        "not-a-uuid",
        "12345678",
        "abcdefgh-ijkl-mnop-qrst-uvwxyzabcdef",
        "123e4567e89b12d3a456426614174000", // Missing hyphens
    ];

    for random_string in random_strings {
        assert!(
            !is_valid_uuid(random_string),
            "Expected random string '{}' to be invalid UUID",
            random_string
        );
    }
}

#[test]
fn test_generate_multiple_uuids_unique() {
    let uuid1 = generate_uuid();
    let uuid2 = generate_uuid();
    assert_ne!(uuid1, uuid2, "Expected generated UUIDs to be unique");
}

#[test]
fn test_generated_uuid_structure() {
    // Length 36, hyphens at offsets 8, 13, 18, 23, version digit at 14,
    // variant digit at 19, lowercase hex everywhere else.
    let uuid = generate_uuid();
    let chars: Vec<char> = uuid.chars().collect();
    assert_eq!(chars.len(), 36);
    for (i, c) in chars.iter().enumerate() {
        if i == 8 || i == 13 || i == 18 || i == 23 {
            assert_eq!(*c, '-');
        } else if i == 14 {
            assert_eq!(*c, '4');
        } else if i == 19 {
            assert!(*c == '8' || *c == '9' || *c == 'a' || *c == 'b');
        } else {
            assert!(('0'..='9').contains(c) || ('a'..='f').contains(c));
        }
    }
}

#[test]
fn test_thousand_uuids_distinct() {
    let mut seen: Vec<String> = Vec::new();
    for _ in 0..1000 {
        let uuid = generate_uuid();
        assert!(!seen.contains(&uuid), "Expected generated UUIDs to be unique");
        seen.push(uuid);
    }
}

#[test]
fn test_is_valid_uuid_one_digit_short() {
    // 35 characters: the final group lacks one hex digit.
    let short = "123e4567-e89b-42d3-a456-42661417400";
    assert_eq!(short.len(), 35);
    assert!(!is_valid_uuid(short));
}

#[test]
fn test_is_valid_uuid_one_digit_long() {
    // 37 characters: one hex digit too many in the final group.
    let long = "123e4567-e89b-42d3-a456-4266141740000";
    assert_eq!(long.len(), 37);
    assert!(!is_valid_uuid(long));
}

#[test]
fn test_is_valid_uuid_wrong_variant() {
    // Variant digit c is outside {8, 9, a, b}.
    let wrong_variant = "123e4567-e89b-42d3-c456-426614174000";
    assert!(!is_valid_uuid(wrong_variant));
}

#[test]
fn test_is_valid_uuid_missing_hyphens_right_version() {
    // 32 hex digits with correct version and variant but no hyphens.
    let no_hyphens = "123e4567e89b42d3a456426614174000";
    assert!(!is_valid_uuid(no_hyphens));
}

#[test]
fn test_is_valid_uuid_uppercase_rejected() {
    // A well-formed identifier in uppercase is rejected, not normalized.
    let upper = "123E4567-E89B-42D3-A456-426614174000";
    assert!(!is_valid_uuid(upper));
}

#[test]
fn test_is_valid_uuid_displaced_hyphen() {
    // 36 characters, but the first hyphen sits at offset 7 instead of 8.
    let displaced = "123e456-7e89b-42d3-a456-426614174000";
    assert_eq!(displaced.len(), 36);
    assert!(!is_valid_uuid(displaced));
}

#[test]
fn test_format_uuid_exact() {
    let bytes: Vec<u8> = vec![
        0x12, 0x3e, 0x45, 0x67, 0xe8, 0x9b, 0x42, 0xd3, 0xa4, 0x56, 0x42, 0x66, 0x14, 0x17,
        0x40, 0x00,
    ];
    let rendered = format_uuid(&bytes);
    assert_eq!(rendered, "123e4567-e89b-42d3-a456-426614174000");
}

#[test]
fn test_format_uuid_zero_bytes() {
    let bytes: Vec<u8> = vec![0u8; 16];
    let rendered = format_uuid(&bytes);
    assert_eq!(rendered, "00000000-0000-0000-0000-000000000000");
}
