//! The dispatch rule: which handler takes a request, and what it is handed.
//!
//! In precedence order:
//! 1. `GET /file/<bot>/<rest>` goes to the file streamer,
//! 2. `POST /<bot>/GetFile` goes to the resolution rewriter,
//! 3. anything else goes to the generic forwarder,
//!
//! where `<bot>` is one path segment that begins with `bot` and goes on, and
//! `<rest>` is not empty. The bot identifier is that segment. Identifier and
//! rest are handed on with their percent escapes decoded.

use crate::bytes::{
    equal, find, first_occurrence, lemma_find_from, lemma_trim_leading, matches_at, occurs_at,
    skip_leading, trim_leading, SLASH,
};
use vstd::prelude::*;
use vstd::slice::slice_subrange;
use vstd::string::{is_ascii, is_ascii_spec_bytes, StringSliceAdditionalSpecFns};

verus! {

/// The byte `%`, which begins an escape.
pub const PERCENT: u8 = 0x25;

/// The handler that takes a request, with what the path holds for it.
#[derive(Clone, Debug, PartialEq, Eq)]
pub enum Route {
    /// The file streamer: serve `file_path` from the directory of `bot_id`.
    ServeFile { bot_id: Vec<u8>, file_path: Vec<u8> },
    /// The resolution rewriter: forward, and rewrite the answer for `bot_id`.
    PostFile { bot_id: Vec<u8> },
    /// The generic forwarder.
    Proxy,
}

/// A route as a mathematical value.
pub enum RouteView {
    ServeFile { bot_id: Seq<u8>, file_path: Seq<u8> },
    PostFile { bot_id: Seq<u8> },
    Proxy,
}

impl View for Route {
    type V = RouteView;

    open spec fn view(&self) -> RouteView {
        match self {
            Route::ServeFile { bot_id, file_path } => RouteView::ServeFile {
                bot_id: bot_id@,
                file_path: file_path@,
            },
            Route::PostFile { bot_id } => RouteView::PostFile { bot_id: bot_id@ },
            Route::Proxy => RouteView::Proxy,
        }
    }
}

/// The method `GET`.
pub open spec fn get_method() -> Seq<u8> {
    seq!['G' as u8, 'E' as u8, 'T' as u8]
}

/// The method `POST`.
pub open spec fn post_method() -> Seq<u8> {
    seq!['P' as u8, 'O' as u8, 'S' as u8, 'T' as u8]
}

/// The path prefix `/file/`.
pub open spec fn file_prefix() -> Seq<u8> {
    seq!['/' as u8, 'f' as u8, 'i' as u8, 'l' as u8, 'e' as u8, '/' as u8]
}

/// The prefix `bot` of a bot's path segment.
pub open spec fn bot_prefix() -> Seq<u8> {
    seq!['b' as u8, 'o' as u8, 't' as u8]
}

/// The last segment `GetFile` of a resolve-file call.
pub open spec fn get_file_name() -> Seq<u8> {
    seq!['G' as u8, 'e' as u8, 't' as u8, 'F' as u8, 'i' as u8, 'l' as u8, 'e' as u8]
}

/// The value of a hexadecimal digit in either case, `None` for any other byte.
pub open spec fn hex_value(b: u8) -> Option<u8> {
    if '0' as u8 <= b <= '9' as u8 {
        Some((b - '0' as u8) as u8)
    } else if 'a' as u8 <= b <= 'f' as u8 {
        Some((b - 'a' as u8 + 10) as u8)
    } else if 'A' as u8 <= b <= 'F' as u8 {
        Some((b - 'A' as u8 + 10) as u8)
    } else {
        None
    }
}

/// `s` begins with an escape: `%` and two hexadecimal digits.
pub open spec fn begins_with_escape(s: Seq<u8>) -> bool {
    s.len() >= 3 && s[0] == PERCENT && hex_value(s[1]) is Some && hex_value(s[2]) is Some
}

/// `s` with each escape replaced by the byte that it stands for. A `%` that
/// begins no escape stands for itself.
pub open spec fn percent_decoded(s: Seq<u8>) -> Seq<u8>
    decreases s.len(),
{
    if s.len() == 0 {
        s
    } else if begins_with_escape(s) {
        seq![(hex_value(s[1])->0 * 16 + hex_value(s[2])->0) as u8] + percent_decoded(
            s.subrange(3, s.len() as int),
        )
    } else {
        seq![s[0]] + percent_decoded(s.drop_first())
    }
}

/// `s` split at its first slash: what stands before it and what stands behind
/// it. `None` where `s` holds no slash.
pub open spec fn split_segment(s: Seq<u8>) -> Option<(Seq<u8>, Seq<u8>)> {
    match first_occurrence(s, seq![SLASH]) {
        Some(at) => Some((s.subrange(0, at), s.subrange(at + 1, s.len() as int))),
        None => None,
    }
}

/// `segment` is the path segment of a bot: `bot` and at least one byte more.
pub open spec fn is_bot_segment(segment: Seq<u8>) -> bool {
    segment.len() > 3 && segment.subrange(0, 3) == bot_prefix()
}

/// The bot segment and the rest of a path of the form `/file/<bot>/<rest>`,
/// with a rest that is not empty. `None` for a path of any other form.
pub open spec fn file_request(path: Seq<u8>) -> Option<(Seq<u8>, Seq<u8>)> {
    if occurs_at(path, file_prefix(), 0) {
        match split_segment(path.subrange(6, path.len() as int)) {
            Some((segment, rest)) => if is_bot_segment(segment) && rest.len() > 0 {
                Some((segment, rest))
            } else {
                None
            },
            None => None,
        }
    } else {
        None
    }
}

/// The bot segment of a path of the form `/<bot>/GetFile`. `None` for a path
/// of any other form.
pub open spec fn get_file_request(path: Seq<u8>) -> Option<Seq<u8>> {
    if path.len() > 0 && path[0] == SLASH {
        match split_segment(path.subrange(1, path.len() as int)) {
            Some((segment, rest)) => if is_bot_segment(segment) && rest == get_file_name() {
                Some(segment)
            } else {
                None
            },
            None => None,
        }
    } else {
        None
    }
}

/// The route of a request with the method `method` and the path `path`.
pub open spec fn route_of(method: Seq<u8>, path: Seq<u8>) -> RouteView {
    if method == get_method() && file_request(path) is Some {
        match file_request(path) {
            Some((segment, rest)) => RouteView::ServeFile {
                bot_id: percent_decoded(segment),
                file_path: percent_decoded(rest),
            },
            None => RouteView::Proxy,
        }
    } else if method == post_method() && get_file_request(path) is Some {
        match get_file_request(path) {
            Some(segment) => RouteView::PostFile { bot_id: percent_decoded(segment) },
            None => RouteView::Proxy,
        }
    } else {
        RouteView::Proxy
    }
}

/// Where the upstream takes a request for `target`, a path with its query:
/// `base`, a slash, and `target` without its leading slashes.
pub open spec fn upstream_target(base: Seq<u8>, target: Seq<u8>) -> Seq<u8> {
    base + seq![SLASH] + trim_leading(target, SLASH)
}

/// What splitting gives: `s` is cut at a slash before which it holds none.
pub proof fn lemma_split_segment(s: Seq<u8>)
    ensures
        match split_segment(s) {
            Some((segment, rest)) => s == segment + seq![SLASH] + rest && !segment.contains(SLASH),
            None => !s.contains(SLASH),
        },
{
    let slash = seq![SLASH];
    lemma_find_from(s, slash, 0);
    assert forall|j: int| 0 <= j < s.len() implies (occurs_at(s, slash, j) <==> s[j] == SLASH) by {
        if s[j] == SLASH {
            assert(s.subrange(j, j + 1) =~= slash);
        } else {
            assert(s.subrange(j, j + 1)[0] == s[j]);
        }
    }
    match split_segment(s) {
        Some((segment, rest)) => {
            assert(forall|j: int| 0 <= j < segment.len() ==> segment[j] != SLASH);
        },
        None => {
            assert(forall|j: int| 0 <= j < s.len() ==> s[j] != SLASH);
        },
    }
}

/// A string that is cut at a slash before which it holds none splits there.
pub proof fn lemma_split_segment_of(segment: Seq<u8>, rest: Seq<u8>)
    requires
        !segment.contains(SLASH),
    ensures
        split_segment(segment + seq![SLASH] + rest) == Some((segment, rest)),
{
    let s = segment + seq![SLASH] + rest;
    lemma_split_segment(s);
    assert(s[segment.len() as int] == SLASH);
    let (first, second) = split_segment(s)->0;
    assert(first.len() == segment.len()) by {
        if first.len() < segment.len() {
            assert(s[first.len() as int] == SLASH);
        }
    }
    assert(first =~= segment) by {
        assert forall|i: int| 0 <= i < first.len() implies first[i] == segment[i] by {
            assert(s[i] == segment[i]);
        }
    }
    assert(second =~= rest) by {
        assert forall|i: int| 0 <= i < second.len() implies second[i] == rest[i] by {
            assert(s[segment.len() + 1 + i] == rest[i]);
        }
    }
}

/// The paths of file requests: `/file/`, a bot segment, a slash and a rest
/// that is not empty, and no other path, is the path of a file request, and
/// it is read as that segment and that rest.
pub proof fn lemma_file_request(path: Seq<u8>, segment: Seq<u8>, rest: Seq<u8>)
    ensures
        file_request(path) == Some((segment, rest)) <==> {
            &&& path == file_prefix() + segment + seq![SLASH] + rest
            &&& is_bot_segment(segment)
            &&& !segment.contains(SLASH)
            &&& rest.len() > 0
        },
{
    let tail = path.subrange(6, path.len() as int);
    if file_request(path) == Some((segment, rest)) {
        lemma_split_segment(tail);
        assert(path =~= file_prefix() + tail);
        assert(path =~= file_prefix() + segment + seq![SLASH] + rest);
    }
    if path == file_prefix() + segment + seq![SLASH] + rest && is_bot_segment(segment)
        && !segment.contains(SLASH) && rest.len() > 0 {
        assert(path.subrange(0, 6) =~= file_prefix());
        assert(tail =~= segment + seq![SLASH] + rest);
        lemma_split_segment_of(segment, rest);
    }
}

/// The paths of resolve-file calls: a slash, a bot segment and `/GetFile`,
/// and no other path, is the path of a resolve-file call, and it is read as
/// that segment.
pub proof fn lemma_get_file_request(path: Seq<u8>, segment: Seq<u8>)
    ensures
        get_file_request(path) == Some(segment) <==> {
            &&& path == seq![SLASH] + segment + seq![SLASH] + get_file_name()
            &&& is_bot_segment(segment)
            &&& !segment.contains(SLASH)
        },
{
    if path.len() > 0 {
        let tail = path.subrange(1, path.len() as int);
        if get_file_request(path) == Some(segment) {
            lemma_split_segment(tail);
            assert(path =~= seq![SLASH] + tail);
            assert(path =~= seq![SLASH] + segment + seq![SLASH] + get_file_name());
        }
        if path == seq![SLASH] + segment + seq![SLASH] + get_file_name() && is_bot_segment(segment)
            && !segment.contains(SLASH) {
            assert(tail =~= segment + seq![SLASH] + get_file_name());
            lemma_split_segment_of(segment, get_file_name());
        }
    }
}

/// A string without `%` holds no escape: decoding leaves it as it is.
pub proof fn lemma_plain_decodes_to_itself(s: Seq<u8>)
    requires
        !s.contains(PERCENT),
    ensures
        percent_decoded(s) == s,
    decreases s.len(),
{
    if s.len() > 0 {
        let rest = s.drop_first();
        assert(forall|i: int| 0 <= i < rest.len() ==> rest[i] != PERCENT);
        lemma_plain_decodes_to_itself(rest);
    }
}

/// The target of the upstream request has one slash behind the base: what
/// follows that slash is the end of the target that came in, and begins with
/// no slash.
pub proof fn lemma_upstream_target(base: Seq<u8>, target: Seq<u8>)
    ensures
        upstream_target(base, target).len() == base.len() + 1 + trim_leading(target, SLASH).len(),
        upstream_target(base, target).subrange(0, base.len() as int) == base,
        upstream_target(base, target)[base.len() as int] == SLASH,
        upstream_target(base, target).subrange(
            base.len() as int + 1,
            upstream_target(base, target).len() as int,
        ) == trim_leading(target, SLASH),
        trim_leading(target, SLASH).len() > 0 ==> upstream_target(base, target)[base.len() as int
            + 1] != SLASH,
{
    lemma_trim_leading(target, SLASH);
}

/// The value of a hexadecimal digit in either case, `None` for any other byte.
pub fn hex_digit(b: u8) -> (r: Option<u8>)
    ensures
        r == hex_value(b),
{
    if '0' as u8 <= b && b <= '9' as u8 {
        Some(b - '0' as u8)
    } else if 'a' as u8 <= b && b <= 'f' as u8 {
        Some(b - 'a' as u8 + 10)
    } else if 'A' as u8 <= b && b <= 'F' as u8 {
        Some(b - 'A' as u8 + 10)
    } else {
        None
    }
}

/// Decodes the percent escapes of `s`.
pub fn percent_decode(s: &[u8]) -> (r: Vec<u8>)
    ensures
        r@ == percent_decoded(s@),
{
    let mut out: Vec<u8> = Vec::new();
    let mut at: usize = 0;
    assert(s@.subrange(0, s.len() as int) =~= s@);
    while at < s.len()
        invariant
            at <= s.len(),
            out@ + percent_decoded(s@.subrange(at as int, s.len() as int)) == percent_decoded(s@),
        decreases s.len() - at,
    {
        let ghost tail = s@.subrange(at as int, s.len() as int);
        let mut escaped: Option<u8> = None;
        if s[at] == PERCENT && s.len() - at >= 3 {
            match (hex_digit(s[at + 1]), hex_digit(s[at + 2])) {
                (Some(high), Some(low)) => {
                    escaped = Some(high * 16 + low);
                },
                _ => {},
            }
        }
        match escaped {
            Some(byte) => {
                assert(tail.subrange(3, tail.len() as int) =~= s@.subrange(
                    at + 3,
                    s.len() as int,
                ));
                out.push(byte);
                at += 3;
            },
            None => {
                assert(tail.drop_first() =~= s@.subrange(at + 1, s.len() as int));
                out.push(s[at]);
                at += 1;
            },
        }
        assert(out@ + percent_decoded(s@.subrange(at as int, s.len() as int)) =~= percent_decoded(
            s@,
        ));
    }
    out
}

/// Splits `s` at its first slash.
pub fn split_at_slash(s: &[u8]) -> (r: Option<(&[u8], &[u8])>)
    ensures
        match r {
            Some((segment, rest)) => split_segment(s@) == Some((segment@, rest@)),
            None => split_segment(s@) is None,
        },
{
    let slash: [u8; 1] = [SLASH];
    assert(slash@ =~= seq![SLASH]);
    match find(s, slash.as_slice()) {
        Some(at) => {
            assert(at + slash@.len() <= s.len());
            Some((slice_subrange(s, 0, at), slice_subrange(s, at + 1, s.len())))
        },
        None => None,
    }
}

/// Whether `segment` is the path segment of a bot.
pub fn bot_segment(segment: &[u8]) -> (r: bool)
    ensures
        r == is_bot_segment(segment@),
{
    proof {
        reveal_strlit("bot");
        broadcast use is_ascii_spec_bytes;
        assert(is_ascii("bot"));
        assert("bot".spec_bytes() =~= bot_prefix());
    }
    segment.len() > 3 && matches_at(segment, "bot".as_bytes(), 0)
}

/// Decides which handler takes a request with the method `method` and the
/// path `path`, and extracts what the handler is given.
pub fn dispatch(method: &[u8], path: &[u8]) -> (r: Route)
    ensures
        r@ == route_of(method@, path@),
{
    proof {
        reveal_strlit("GET");
        reveal_strlit("POST");
        reveal_strlit("/file/");
        reveal_strlit("GetFile");
        broadcast use is_ascii_spec_bytes;
        assert(is_ascii("GET") && is_ascii("POST") && is_ascii("/file/") && is_ascii("GetFile"));
        assert("GET".spec_bytes() =~= get_method());
        assert("POST".spec_bytes() =~= post_method());
        assert("/file/".spec_bytes() =~= file_prefix());
        assert("GetFile".spec_bytes() =~= get_file_name());
    }
    if equal(method, "GET".as_bytes()) {
        if matches_at(path, "/file/".as_bytes(), 0) {
            match split_at_slash(slice_subrange(path, 6, path.len())) {
                Some((segment, rest)) => {
                    if bot_segment(segment) && rest.len() > 0 {
                        return Route::ServeFile {
                            bot_id: percent_decode(segment),
                            file_path: percent_decode(rest),
                        };
                    }
                },
                None => {},
            }
        }
    } else if equal(method, "POST".as_bytes()) {
        if path.len() > 0 && path[0] == SLASH {
            match split_at_slash(slice_subrange(path, 1, path.len())) {
                Some((segment, rest)) => {
                    if bot_segment(segment) && equal(rest, "GetFile".as_bytes()) {
                        return Route::PostFile { bot_id: percent_decode(segment) };
                    }
                },
                None => {},
            }
        }
    }
    Route::Proxy
}

/// Builds the target of the upstream request for `target`, the path and query
/// of the request that came in.
pub fn upstream_uri(base: &[u8], target: &[u8]) -> (r: Vec<u8>)
    ensures
        r@ == upstream_target(base@, target@),
{
    let start = skip_leading(target, 0, SLASH);
    assert(target@.subrange(0, target.len() as int) =~= target@);
    let mut out: Vec<u8> = Vec::new();
    out.extend_from_slice(base);
    out.push(SLASH);
    out.extend_from_slice(slice_subrange(target, start, target.len()));
    out
}

} // verus!
