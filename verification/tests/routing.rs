use telegram_bot_api_proxy::route::{
    bot_segment, dispatch, hex_digit, percent_decode, split_at_slash, upstream_uri, Route,
};

#[test]
fn get_below_file_goes_to_the_file_streamer() {
    assert_eq!(
        dispatch(b"GET", b"/file/botABC/photos/1.jpg"),
        Route::ServeFile { bot_id: b"botABC".to_vec(), file_path: b"photos/1.jpg".to_vec() }
    );
}

#[test]
fn the_rest_of_a_file_path_keeps_its_slashes_and_dots() {
    assert_eq!(
        dispatch(b"GET", b"/file/botABC/../../etc/passwd"),
        Route::ServeFile { bot_id: b"botABC".to_vec(), file_path: b"../../etc/passwd".to_vec() }
    );
    assert_eq!(
        dispatch(b"GET", b"/file/botABC//etc/passwd"),
        Route::ServeFile { bot_id: b"botABC".to_vec(), file_path: b"/etc/passwd".to_vec() }
    );
}

#[test]
fn post_get_file_goes_to_the_resolution_rewriter() {
    assert_eq!(
        dispatch(b"POST", b"/botABC/GetFile"),
        Route::PostFile { bot_id: b"botABC".to_vec() }
    );
}

#[test]
fn escapes_are_decoded_in_what_is_handed_on() {
    assert_eq!(
        dispatch(b"GET", b"/file/bot123%3AABC/my%20photos/%2e%2e/1.jpg"),
        Route::ServeFile {
            bot_id: b"bot123:ABC".to_vec(),
            file_path: b"my photos/../1.jpg".to_vec()
        }
    );
    assert_eq!(
        dispatch(b"POST", b"/bot123%3aABC/GetFile"),
        Route::PostFile { bot_id: b"bot123:ABC".to_vec() }
    );
}

#[test]
fn an_escaped_slash_does_not_end_the_bot_segment() {
    assert_eq!(
        dispatch(b"GET", b"/file/botA%2Fb/c"),
        Route::ServeFile { bot_id: b"botA/b".to_vec(), file_path: b"c".to_vec() }
    );
}

#[test]
fn other_methods_go_to_the_forwarder() {
    assert_eq!(dispatch(b"POST", b"/file/botABC/photos/1.jpg"), Route::Proxy);
    assert_eq!(dispatch(b"HEAD", b"/file/botABC/photos/1.jpg"), Route::Proxy);
    assert_eq!(dispatch(b"get", b"/file/botABC/photos/1.jpg"), Route::Proxy);
    assert_eq!(dispatch(b"GET", b"/botABC/GetFile"), Route::Proxy);
    assert_eq!(dispatch(b"PUT", b"/botABC/GetFile"), Route::Proxy);
}

#[test]
fn other_paths_go_to_the_forwarder() {
    assert_eq!(dispatch(b"GET", b"/"), Route::Proxy);
    assert_eq!(dispatch(b"GET", b""), Route::Proxy);
    assert_eq!(dispatch(b"GET", b"/botABC/getMe"), Route::Proxy);
    assert_eq!(dispatch(b"POST", b"/botABC/sendMessage"), Route::Proxy);
    assert_eq!(dispatch(b"POST", b"/botABC/getfile"), Route::Proxy);
    assert_eq!(dispatch(b"POST", b"/botABC/GetFile/"), Route::Proxy);
    assert_eq!(dispatch(b"POST", b"/botABC/GetFileX"), Route::Proxy);
    assert_eq!(dispatch(b"POST", b"/x/botABC/GetFile"), Route::Proxy);
    assert_eq!(dispatch(b"POST", b"botABC/GetFile"), Route::Proxy);
}

#[test]
fn a_file_request_needs_a_bot_and_a_rest() {
    assert_eq!(dispatch(b"GET", b"/file/botABC"), Route::Proxy);
    assert_eq!(dispatch(b"GET", b"/file/botABC/"), Route::Proxy);
    assert_eq!(dispatch(b"GET", b"/file/bot/1.jpg"), Route::Proxy);
    assert_eq!(dispatch(b"GET", b"/file/userABC/1.jpg"), Route::Proxy);
    assert_eq!(dispatch(b"GET", b"/file//1.jpg"), Route::Proxy);
    assert_eq!(dispatch(b"GET", b"/files/botABC/1.jpg"), Route::Proxy);
    assert_eq!(dispatch(b"GET", b"/File/botABC/1.jpg"), Route::Proxy);
}

#[test]
fn a_resolve_call_needs_a_bot() {
    assert_eq!(dispatch(b"POST", b"/bot/GetFile"), Route::Proxy);
    assert_eq!(dispatch(b"POST", b"/ABC/GetFile"), Route::Proxy);
    assert_eq!(dispatch(b"POST", b"//GetFile"), Route::Proxy);
}

#[test]
fn bot_segment_wants_the_prefix_and_more() {
    assert!(bot_segment(b"botA"));
    assert!(!bot_segment(b"bot"));
    assert!(!bot_segment(b"Bot1"));
    assert!(!bot_segment(b"abot"));
    assert!(!bot_segment(b""));
}

#[test]
fn split_at_slash_cuts_at_the_first_slash() {
    let first: &[u8] = b"a";
    let rest: &[u8] = b"b/c";
    assert_eq!(split_at_slash(b"a/b/c"), Some((first, rest)));
    let empty: &[u8] = b"";
    assert_eq!(split_at_slash(b"/"), Some((empty, empty)));
    assert_eq!(split_at_slash(b"abc"), None);
}

#[test]
fn percent_decode_replaces_escapes() {
    assert_eq!(percent_decode(b"a%20b"), b"a b".to_vec());
    assert_eq!(percent_decode(b"%41%42%43"), b"ABC".to_vec());
    assert_eq!(percent_decode(b"%2f%2F"), b"//".to_vec());
    assert_eq!(percent_decode(b"%ff%00"), vec![0xff, 0x00]);
    assert_eq!(percent_decode(b"%c3%A9"), vec![0xc3, 0xa9]);
    assert_eq!(percent_decode(b"plain"), b"plain".to_vec());
    assert_eq!(percent_decode(b""), Vec::<u8>::new());
}

#[test]
fn percent_decode_leaves_what_is_no_escape() {
    assert_eq!(percent_decode(b"100%"), b"100%".to_vec());
    assert_eq!(percent_decode(b"%4"), b"%4".to_vec());
    assert_eq!(percent_decode(b"%zz"), b"%zz".to_vec());
    assert_eq!(percent_decode(b"%4g1"), b"%4g1".to_vec());
    assert_eq!(percent_decode(b"%%41"), b"%A".to_vec());
    assert_eq!(percent_decode(b"%2541"), b"%41".to_vec());
}

#[test]
fn hex_digit_reads_both_cases() {
    assert_eq!(hex_digit(b'0'), Some(0));
    assert_eq!(hex_digit(b'9'), Some(9));
    assert_eq!(hex_digit(b'a'), Some(10));
    assert_eq!(hex_digit(b'f'), Some(15));
    assert_eq!(hex_digit(b'A'), Some(10));
    assert_eq!(hex_digit(b'F'), Some(15));
    assert_eq!(hex_digit(b'g'), None);
    assert_eq!(hex_digit(b'G'), None);
    assert_eq!(hex_digit(b'/'), None);
    assert_eq!(hex_digit(b':'), None);
    assert_eq!(hex_digit(b'@'), None);
    assert_eq!(hex_digit(b'`'), None);
}

#[test]
fn upstream_uri_joins_base_and_target_with_one_slash() {
    assert_eq!(
        upstream_uri(b"http://upstream:8081", b"/botABC/GetFile"),
        b"http://upstream:8081/botABC/GetFile".to_vec()
    );
    assert_eq!(
        upstream_uri(b"http://upstream:8081", b"/botABC/getUpdates?offset=3&x=/y"),
        b"http://upstream:8081/botABC/getUpdates?offset=3&x=/y".to_vec()
    );
}

#[test]
fn upstream_uri_drops_every_leading_slash() {
    assert_eq!(upstream_uri(b"http://u", b"///a//b"), b"http://u/a//b".to_vec());
    assert_eq!(upstream_uri(b"http://u", b"a"), b"http://u/a".to_vec());
    assert_eq!(upstream_uri(b"http://u", b"/"), b"http://u/".to_vec());
    assert_eq!(upstream_uri(b"http://u", b""), b"http://u/".to_vec());
}
