//! Rewriting of the upstream's answer to a resolve-file call.
//!
//! The upstream answers with a JSON object whose `result.file_path` is an
//! absolute path in its own storage. The rewriter replaces it by the path
//! relative to the bot's directory: what follows the first occurrence of the
//! bot identifier, without leading slashes. An answer of any other shape is
//! left alone.

use crate::bytes::{find, first_occurrence, skip_leading, trim_leading, SLASH};
use crate::json::{
    document, has_member, member, member_of, parse, parsed, serialize, set_member, string_value,
    with_member, written, Json,
};
use crate::text::{lemma_suffix_is_text, lemma_text_after_text};
use vstd::prelude::*;
use vstd::utf8::{
    decode_utf8, decode_utf8_encode_utf8, encode_utf8, encode_utf8_decode_utf8,
    encode_utf8_valid_utf8, valid_utf8,
};

verus! {

/// What the rewriter reads from a resolve-file answer of the expected shape.
#[derive(Clone, Debug, PartialEq, Eq)]
pub struct ResolutionPayload {
    /// The path of the file in the upstream's storage.
    pub file_path: String,
}

/// The `result.file_path` of a resolve-file answer: `doc` is an object whose
/// member `ok` is `true` and whose member `result` is an object with a string
/// member `file_path`. `None` for a document of any other shape.
pub open spec fn resolution_path(doc: Json) -> Option<Seq<char>> {
    if has_member(doc, "ok"@) && member_of(doc, "ok"@) == Json::Bool(true) && has_member(
        doc,
        "result"@,
    ) && has_member(member_of(doc, "result"@), "file_path"@) {
        match member_of(member_of(doc, "result"@), "file_path"@) {
            Json::String(path) => Some(path),
            _ => None,
        }
    } else {
        None
    }
}

/// What follows the first occurrence of `bot_id` in `path`, without its
/// leading slashes. `None` where `bot_id` does not occur in `path`.
pub open spec fn relative_bytes(path: Seq<u8>, bot_id: Seq<u8>) -> Option<Seq<u8>> {
    match first_occurrence(path, bot_id) {
        Some(at) => Some(trim_leading(path.subrange(at + bot_id.len(), path.len() as int), SLASH)),
        None => None,
    }
}

/// The relative path that replaces `path`: `relative_bytes` of its UTF-8
/// encoding, read as text again. `None` where `bot_id` does not occur in the
/// encoding of `path`, and where what follows it is not text by itself (which
/// takes a `bot_id` that is not text).
pub open spec fn relative_path(path: Seq<char>, bot_id: Seq<u8>) -> Option<Seq<char>> {
    match relative_bytes(encode_utf8(path), bot_id) {
        Some(rest) => if valid_utf8(rest) {
            Some(decode_utf8(rest))
        } else {
            None
        },
        None => None,
    }
}

/// The document `doc` with its `result.file_path` replaced by the string `path`.
pub open spec fn with_file_path(doc: Json, path: Seq<char>) -> Json
    recommends
        resolution_path(doc) is Some,
{
    with_member(
        doc,
        "result"@,
        with_member(member_of(doc, "result"@), "file_path"@, Json::String(path)),
    )
}

/// The rewritten form of the answer `doc` for the bot `bot_id`, or `None`
/// where the answer is to be passed on as it came: it has not the expected
/// shape, or its `file_path` has no relative path for `bot_id`.
pub open spec fn rewritten(doc: Json, bot_id: Seq<u8>) -> Option<Json> {
    match resolution_path(doc) {
        Some(path) => match relative_path(path, bot_id) {
            Some(relative) => Some(with_file_path(doc, relative)),
            None => None,
        },
        None => None,
    }
}

/// The body that replaces the answer body `body` for the bot `bot_id`: the
/// text of the rewritten document. `None` where `body` is to be passed on as it
/// came: it is no JSON text, its document is not rewritten, or the rewritten
/// document cannot be written.
pub open spec fn rewritten_body(body: Seq<u8>, bot_id: Seq<u8>) -> Option<Seq<u8>> {
    match parsed(body) {
        Some(doc) => match rewritten(doc, bot_id) {
            Some(new_doc) => written(new_doc),
            None => None,
        },
        None => None,
    }
}

/// An answer that reports a failure passes: a document whose member `ok` is
/// `false` is rewritten for no bot.
pub proof fn lemma_failed_answer_passes(doc: Json, bot_id: Seq<u8>)
    requires
        has_member(doc, "ok"@),
        member_of(doc, "ok"@) == Json::Bool(false),
    ensures
        resolution_path(doc) is None,
        rewritten(doc, bot_id) is None,
{
}

/// The path in a rewritten answer: where `file_path` holds the bot
/// identifier and what follows it is text, the answer is rewritten, and its
/// new `file_path` is, byte for byte, what follows the first occurrence of the
/// identifier in the old one, without its leading slashes. The answer still
/// has the expected shape, and every member but `result`, and every member of
/// `result` but `file_path`, is as it came.
pub proof fn lemma_rewritten_path(doc: Json, bot_id: Seq<u8>)
    requires
        resolution_path(doc) is Some,
        relative_bytes(encode_utf8(resolution_path(doc)->0), bot_id) is Some,
        valid_utf8(relative_bytes(encode_utf8(resolution_path(doc)->0), bot_id)->0),
    ensures
        rewritten(doc, bot_id) is Some,
        resolution_path(rewritten(doc, bot_id)->0) is Some,
        encode_utf8(resolution_path(rewritten(doc, bot_id)->0)->0) == trim_leading(
            encode_utf8(resolution_path(doc)->0).subrange(
                first_occurrence(encode_utf8(resolution_path(doc)->0), bot_id)->0 + bot_id.len(),
                encode_utf8(resolution_path(doc)->0).len() as int,
            ),
            SLASH,
        ),
        forall|name: Seq<char>|
            name != "result"@ ==> has_member(rewritten(doc, bot_id)->0, name) == has_member(
                doc,
                name,
            ) && member_of(rewritten(doc, bot_id)->0, name) == member_of(doc, name),
        forall|name: Seq<char>|
            name != "file_path"@ ==> has_member(
                member_of(rewritten(doc, bot_id)->0, "result"@),
                name,
            ) == has_member(member_of(doc, "result"@), name) && member_of(
                member_of(rewritten(doc, bot_id)->0, "result"@),
                name,
            ) == member_of(member_of(doc, "result"@), name),
{
    let path = resolution_path(doc)->0;
    let rest = relative_bytes(encode_utf8(path), bot_id)->0;
    assert("ok"@ != "result"@) by {
        reveal_strlit("ok");
        reveal_strlit("result");
    }
    decode_utf8_encode_utf8(rest);
}

/// A bot identifier that is text leaves text behind: where `file_path` holds
/// such an identifier, it has a relative path.
pub proof fn lemma_text_identifier_has_relative_path(path: Seq<char>, bot_id: Seq<u8>)
    requires
        valid_utf8(bot_id),
        first_occurrence(encode_utf8(path), bot_id) is Some,
    ensures
        relative_path(path, bot_id) is Some,
{
    encode_utf8_valid_utf8(path);
    lemma_text_after_text(encode_utf8(path), bot_id);
}


/// Decodes a resolve-file answer: the payload where `doc` has the expected
/// shape, `None` where it has not.
pub fn decode_resolution(doc: &serde_json::Value) -> (r: Option<ResolutionPayload>)
    ensures
        match r {
            Some(payload) => resolution_path(document(*doc)) == Some(payload.file_path@),
            None => resolution_path(document(*doc)) is None,
        },
{
    let ok = match member(doc, "ok") {
        Some(flag) => flag.as_bool(),
        None => None,
    };
    match ok {
        Some(true) => {},
        _ => {
            return None;
        },
    }
    let result = match member(doc, "result") {
        Some(result) => result,
        None => {
            return None;
        },
    };
    let file_path = match member(result, "file_path") {
        Some(file_path) => file_path,
        None => {
            return None;
        },
    };
    match file_path.as_str() {
        Some(path) => Some(ResolutionPayload { file_path: path.to_owned() }),
        None => None,
    }
}

/// The path that replaces `file_path` in the answer to the bot `bot_id`: what
/// follows the first occurrence of `bot_id`, without its leading slashes.
/// `None` where `bot_id` does not occur in `file_path`, and where what follows
/// it would begin within a character.
pub fn relativize(file_path: &str, bot_id: &[u8]) -> (r: Option<String>)
    ensures
        match r {
            Some(relative) => relative_path(file_path@, bot_id@) == Some(relative@),
            None => relative_path(file_path@, bot_id@) is None,
        },
        r matches Some(relative) ==> relative_bytes(encode_utf8(file_path@), bot_id@) == Some(
            encode_utf8(relative@),
        ),
{
    let bytes = file_path.as_bytes();
    let at = match find(bytes, bot_id) {
        Some(at) => at,
        None => {
            return None;
        },
    };
    assert(at + bot_id@.len() <= bytes.len());
    let start = skip_leading(bytes, at + bot_id.len(), SLASH);
    proof {
        encode_utf8_valid_utf8(file_path@);
        lemma_suffix_is_text(bytes@, start as int);
    }
    if !file_path.is_char_boundary(start) {
        return None;
    }
    let (_, rest) = file_path.split_at(start);
    let relative = rest.to_owned();
    proof {
        encode_utf8_decode_utf8(relative@);
    }
    Some(relative)
}

/// Rewrites a parsed resolve-file answer for the bot `bot_id`: the document
/// with its `result.file_path` made relative, or `None` where the answer is to
/// be passed on as it came.
pub fn rewrite_document(doc: serde_json::Value, bot_id: &[u8]) -> (r: Option<serde_json::Value>)
    ensures
        match r {
            Some(new_doc) => rewritten(document(doc), bot_id@) == Some(document(new_doc)),
            None => rewritten(document(doc), bot_id@) is None,
        },
{
    let payload = match decode_resolution(&doc) {
        Some(payload) => payload,
        None => {
            return None;
        },
    };
    let relative = match relativize(payload.file_path.as_str(), bot_id) {
        Some(relative) => relative,
        None => {
            return None;
        },
    };
    // The payload was read from this member, so it is there.
    let mut result = match member(&doc, "result") {
        Some(result) => result.clone(),
        None => {
            return None;
        },
    };
    set_member(&mut result, "file_path", string_value(relative));
    let mut new_doc = doc;
    set_member(&mut new_doc, "result", result);
    Some(new_doc)
}

/// Rewrites the body of a resolve-file answer for the bot `bot_id`: the new
/// body, or `None` where the body is to be passed on as it came.
pub fn rewrite_body(body: &[u8], bot_id: &[u8]) -> (r: Option<Vec<u8>>)
    ensures
        match r {
            Some(new_body) => rewritten_body(body@, bot_id@) == Some(new_body@),
            None => rewritten_body(body@, bot_id@) is None,
        },
{
    let doc = match parse(body) {
        Ok(doc) => doc,
        Err(_) => {
            return None;
        },
    };
    let new_doc = match rewrite_document(doc, bot_id) {
        Some(new_doc) => new_doc,
        None => {
            return None;
        },
    };
    match serialize(&new_doc) {
        Ok(new_body) => Some(new_body),
        Err(_) => None,
    }
}

} // verus!
