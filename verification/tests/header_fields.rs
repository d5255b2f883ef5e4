use telegram_bot_api_proxy::http::{names_match, push_decimal, set_header, to_lower};

#[test]
fn names_match_without_regard_to_case() {
    assert!(names_match(b"content-length", b"content-length"));
    assert!(names_match(b"Content-Length", b"content-length"));
    assert!(names_match(b"CONTENT-LENGTH", b"content-Length"));
    assert!(names_match(b"", b""));
}

#[test]
fn names_differ_in_letters_or_length() {
    assert!(!names_match(b"content-length", b"content-lengt"));
    assert!(!names_match(b"content-length", b"content_length"));
    assert!(!names_match(b"content-length", b"content-type"));
    assert!(!names_match(b"a", b""));
    assert!(!names_match(b"@", b"`"));
    assert!(!names_match(b"[", b"{"));
}

#[test]
fn to_lower_changes_upper_case_letters_alone() {
    assert_eq!(to_lower(b'A'), b'a');
    assert_eq!(to_lower(b'Z'), b'z');
    assert_eq!(to_lower(b'a'), b'a');
    assert_eq!(to_lower(b'@'), b'@');
    assert_eq!(to_lower(b'['), b'[');
    assert_eq!(to_lower(b'-'), b'-');
    assert_eq!(to_lower(0xc9), 0xc9);
}

#[test]
fn push_decimal_writes_the_numeral() {
    for (n, text) in [
        (0usize, "0"),
        (7, "7"),
        (9, "9"),
        (10, "10"),
        (63, "63"),
        (100, "100"),
        (1234567890, "1234567890"),
    ] {
        let mut out = Vec::new();
        push_decimal(&mut out, n);
        assert_eq!(out, text.as_bytes().to_vec());
    }
    let mut out = Vec::new();
    push_decimal(&mut out, usize::MAX);
    assert_eq!(out, usize::MAX.to_string().into_bytes());
}

#[test]
fn push_decimal_appends() {
    let mut out = b"bytes=".to_vec();
    push_decimal(&mut out, 42);
    assert_eq!(out, b"bytes=42".to_vec());
}

#[test]
fn set_header_replaces_every_field_of_the_name() {
    let headers = vec![
        (b"Content-Length".to_vec(), b"95".to_vec()),
        (b"content-type".to_vec(), b"application/json".to_vec()),
        (b"content-length".to_vec(), b"95".to_vec()),
        (b"server".to_vec(), b"upstream".to_vec()),
    ];
    assert_eq!(
        set_header(headers, b"content-length".to_vec(), b"63".to_vec()),
        vec![
            (b"content-type".to_vec(), b"application/json".to_vec()),
            (b"server".to_vec(), b"upstream".to_vec()),
            (b"content-length".to_vec(), b"63".to_vec()),
        ]
    );
}

#[test]
fn set_header_adds_a_missing_field() {
    assert_eq!(
        set_header(vec![], b"content-length".to_vec(), b"0".to_vec()),
        vec![(b"content-length".to_vec(), b"0".to_vec())]
    );
    assert_eq!(
        set_header(
            vec![(b"a".to_vec(), b"1".to_vec()), (b"a".to_vec(), b"2".to_vec())],
            b"b".to_vec(),
            b"3".to_vec()
        ),
        vec![
            (b"a".to_vec(), b"1".to_vec()),
            (b"a".to_vec(), b"2".to_vec()),
            (b"b".to_vec(), b"3".to_vec()),
        ]
    );
}
