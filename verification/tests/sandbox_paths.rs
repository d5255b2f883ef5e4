use telegram_bot_api_proxy::sandbox::{is_within_root, join, lookup_path};

#[test]
fn join_puts_one_slash_between() {
    assert_eq!(join(b"/data", b"botABC"), b"/data/botABC".to_vec());
    assert_eq!(join(b"/data/", b"botABC"), b"/data/botABC".to_vec());
    assert_eq!(join(b"/", b"etc"), b"/etc".to_vec());
    assert_eq!(join(b"", b"etc"), b"etc".to_vec());
    assert_eq!(join(b"/data", b""), b"/data/".to_vec());
}

#[test]
fn join_lets_an_absolute_part_take_over() {
    assert_eq!(join(b"/data", b"/etc/passwd"), b"/etc/passwd".to_vec());
    assert_eq!(join(b"/data", b"/"), b"/".to_vec());
}

#[test]
fn join_does_not_normalize() {
    assert_eq!(join(b"/data/botABC", b"../../etc/passwd"), b"/data/botABC/../../etc/passwd".to_vec());
    assert_eq!(join(b"/data", b"a//b/./c"), b"/data/a//b/./c".to_vec());
}

#[test]
fn lookup_path_is_root_bot_and_file() {
    assert_eq!(
        lookup_path(b"/data", b"botABC", b"photos/1.jpg"),
        b"/data/botABC/photos/1.jpg".to_vec()
    );
    assert_eq!(lookup_path(b"/data", b"/etc", b"passwd"), b"/etc/passwd".to_vec());
    assert_eq!(lookup_path(b"/data", b"botABC", b"/etc/passwd"), b"/etc/passwd".to_vec());
}

#[test]
fn the_root_and_what_lies_below_are_within() {
    assert!(is_within_root(b"/data", b"/data"));
    assert!(is_within_root(b"/data", b"/data/botABC/photos/1.jpg"));
    assert!(is_within_root(b"/data/", b"/data/x"));
    assert!(is_within_root(b"/", b"/etc/passwd"));
    assert!(is_within_root(b"/", b"/"));
}

#[test]
fn a_sibling_with_the_same_beginning_is_not_within() {
    assert!(!is_within_root(b"/data", b"/database/x"));
    assert!(!is_within_root(b"/data", b"/data2"));
}

#[test]
fn what_lies_elsewhere_is_not_within() {
    assert!(!is_within_root(b"/data", b"/etc/passwd"));
    assert!(!is_within_root(b"/data", b"/"));
    assert!(!is_within_root(b"/data", b"/dat"));
    assert!(!is_within_root(b"/data", b""));
    assert!(!is_within_root(b"/data/bots", b"/data"));
}
