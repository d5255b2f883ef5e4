//! The three handlers, as state machines.
//!
//! A handler never touches the filesystem or the network. It is told what
//! happened, as an event, and says what is due next, as a state: the caller
//! does the work that the state names and comes back with the event that
//! tells how it went. A handler begins in its idle state, with the event that
//! brings the request, and ends in a state that names the answer.

use crate::config::Config;
use crate::http::{
    content_length_name, decimal, fields_named, lemma_decimal_reads_back, lemma_set_header,
    numeral_value, push_decimal, set_header, with_header, without_header, RequestHead,
    RequestHeadView, ResponseHead, ResponseHeadView, BAD_GATEWAY, NOT_FOUND, OK,
};
use crate::json::parsed;
use crate::resolution::{relative_path, resolution_path, rewrite_body, rewritten_body};
use crate::route::{upstream_target, upstream_uri};
use crate::sandbox::{is_within_root, lookup_path, request_path, within_root};
use vstd::prelude::*;
use vstd::string::{is_ascii, is_ascii_spec_bytes, StringSliceAdditionalSpecFns};

verus! {

/// Where the file streamer stands with a request.
#[derive(Clone, Debug, PartialEq, Eq)]
pub enum ServeState {
    /// The request is awaited.
    Idle,
    /// `path` is to be resolved against the filesystem: made absolute, with
    /// its `.` and `..` segments and its symbolic links followed.
    Resolving { path: Vec<u8> },
    /// The file at the resolved path `path` is to be opened for reading.
    Opening { path: Vec<u8> },
    /// The metadata of the file opened at `path` is to be read.
    Inspecting { path: Vec<u8> },
    /// The answer is 200 with the contents of the file opened at `path`,
    /// streamed.
    Streaming { path: Vec<u8> },
    /// The answer is 404, without a word on why.
    NotFound,
}

/// A state of the file streamer as a mathematical value.
pub enum ServeStateView {
    Idle,
    Resolving { path: Seq<u8> },
    Opening { path: Seq<u8> },
    Inspecting { path: Seq<u8> },
    Streaming { path: Seq<u8> },
    NotFound,
}

impl View for ServeState {
    type V = ServeStateView;

    open spec fn view(&self) -> ServeStateView {
        match self {
            ServeState::Idle => ServeStateView::Idle,
            ServeState::Resolving { path } => ServeStateView::Resolving { path: path@ },
            ServeState::Opening { path } => ServeStateView::Opening { path: path@ },
            ServeState::Inspecting { path } => ServeStateView::Inspecting { path: path@ },
            ServeState::Streaming { path } => ServeStateView::Streaming { path: path@ },
            ServeState::NotFound => ServeStateView::NotFound,
        }
    }
}

/// What the file streamer is told.
#[derive(Clone, Debug, PartialEq, Eq)]
pub enum ServeEvent {
    /// A request came in for the file `file_path` of the bot `bot_id`.
    Requested { bot_id: Vec<u8>, file_path: Vec<u8> },
    /// Resolving ended: with the resolved path, or with `None` where it failed.
    Resolved { path: Option<Vec<u8>> },
    /// Opening the file ended; `ok` tells whether the file is open.
    Opened { ok: bool },
    /// Reading the metadata ended: with whether the file is a directory, or
    /// with `None` where the metadata could not be read.
    Inspected { is_directory: Option<bool> },
}

/// An event of the file streamer as a mathematical value.
pub enum ServeEventView {
    Requested { bot_id: Seq<u8>, file_path: Seq<u8> },
    Resolved { path: Option<Seq<u8>> },
    Opened { ok: bool },
    Inspected { is_directory: Option<bool> },
}

impl View for ServeEvent {
    type V = ServeEventView;

    open spec fn view(&self) -> ServeEventView {
        match self {
            ServeEvent::Requested { bot_id, file_path } => ServeEventView::Requested {
                bot_id: bot_id@,
                file_path: file_path@,
            },
            ServeEvent::Resolved { path } => ServeEventView::Resolved {
                path: match path {
                    Some(path) => Some(path@),
                    None => None,
                },
            },
            ServeEvent::Opened { ok } => ServeEventView::Opened { ok: *ok },
            ServeEvent::Inspected { is_directory } => ServeEventView::Inspected {
                is_directory: *is_directory,
            },
        }
    }
}

/// Where a forwarding handler stands with a request.
#[derive(Clone, Debug, PartialEq, Eq)]
pub enum Exchange {
    /// The request is awaited.
    Idle,
    /// `request` is to be sent to the upstream, with the body of the request
    /// that came in.
    Forwarding { request: RequestHead },
    /// The body of the upstream's answer, whose head is `head`, is to be read
    /// in full.
    Reading { head: ResponseHead },
    /// The answer is the upstream's, as it came: its head `head`, and its body
    /// streamed on.
    Relaying { head: ResponseHead },
    /// The answer is `head` with the body `body`.
    Responding { head: ResponseHead, body: Vec<u8> },
}

/// A state of a forwarding handler as a mathematical value.
pub enum ExchangeView {
    Idle,
    Forwarding { request: RequestHeadView },
    Reading { head: ResponseHeadView },
    Relaying { head: ResponseHeadView },
    Responding { head: ResponseHeadView, body: Seq<u8> },
}

impl View for Exchange {
    type V = ExchangeView;

    open spec fn view(&self) -> ExchangeView {
        match self {
            Exchange::Idle => ExchangeView::Idle,
            Exchange::Forwarding { request } => ExchangeView::Forwarding { request: request@ },
            Exchange::Reading { head } => ExchangeView::Reading { head: head@ },
            Exchange::Relaying { head } => ExchangeView::Relaying { head: head@ },
            Exchange::Responding { head, body } => ExchangeView::Responding {
                head: head@,
                body: body@,
            },
        }
    }
}

/// What a forwarding handler is told.
#[derive(Clone, Debug, PartialEq, Eq)]
pub enum UpstreamEvent {
    /// A request came in, with the head `request`.
    Requested { request: RequestHead },
    /// The upstream could not be reached, or the exchange with it broke;
    /// `description` says what went wrong.
    Failed { description: Vec<u8> },
    /// The upstream answered, with the head `head`.
    Answered { head: ResponseHead },
    /// Reading the body of the answer ended: with the body, or with `None`
    /// where it could not be read.
    BodyRead { body: Option<Vec<u8>> },
}

/// An event of a forwarding handler as a mathematical value.
pub enum UpstreamEventView {
    Requested { request: RequestHeadView },
    Failed { description: Seq<u8> },
    Answered { head: ResponseHeadView },
    BodyRead { body: Option<Seq<u8>> },
}

impl View for UpstreamEvent {
    type V = UpstreamEventView;

    open spec fn view(&self) -> UpstreamEventView {
        match self {
            UpstreamEvent::Requested { request } => UpstreamEventView::Requested {
                request: request@,
            },
            UpstreamEvent::Failed { description } => UpstreamEventView::Failed {
                description: description@,
            },
            UpstreamEvent::Answered { head } => UpstreamEventView::Answered { head: head@ },
            UpstreamEvent::BodyRead { body } => UpstreamEventView::BodyRead {
                body: match body {
                    Some(body) => Some(body@),
                    None => None,
                },
            },
        }
    }
}

/// The next state of the file streamer below the root `root`.
///
/// A request is looked up at the root joined with the bot identifier and the
/// path asked for. The resolved path is opened only if it lies within the
/// root. The file is streamed once it is open and its metadata was read and
/// it is no directory. Any failure, and any event that does not answer the
/// work that was due, ends in 404. An answer, once reached, stays.
pub open spec fn serve_file_step(
    root: Seq<u8>,
    state: ServeStateView,
    event: ServeEventView,
) -> ServeStateView {
    match (state, event) {
        (ServeStateView::Idle, ServeEventView::Requested { bot_id, file_path }) => {
            ServeStateView::Resolving { path: request_path(root, bot_id, file_path) }
        },
        (ServeStateView::Resolving { .. }, ServeEventView::Resolved { path: Some(path) }) => {
            if within_root(root, path) {
                ServeStateView::Opening { path }
            } else {
                ServeStateView::NotFound
            }
        },
        (ServeStateView::Opening { path }, ServeEventView::Opened { ok: true }) => {
            ServeStateView::Inspecting { path }
        },
        (
            ServeStateView::Inspecting { path },
            ServeEventView::Inspected { is_directory: Some(false) },
        ) => ServeStateView::Streaming { path },
        (ServeStateView::Streaming { path }, _) => ServeStateView::Streaming { path },
        _ => ServeStateView::NotFound,
    }
}

/// The state of the file streamer after the events `events`, from `state` on.
pub open spec fn serve_file_run(
    root: Seq<u8>,
    state: ServeStateView,
    events: Seq<ServeEventView>,
) -> ServeStateView
    decreases events.len(),
{
    if events.len() == 0 {
        state
    } else {
        serve_file_step(root, serve_file_run(root, state, events.drop_last()), events.last())
    }
}

/// The status of the answer that `state` names: 200 for a file that is
/// streamed and 404 for one that is not found, `None` while work is due.
pub open spec fn serve_file_status(state: ServeStateView) -> Option<u16> {
    match state {
        ServeStateView::Streaming { .. } => Some(OK),
        ServeStateView::NotFound => Some(NOT_FOUND),
        _ => None,
    }
}

/// The file that `state` names to open, to inspect or to stream lies within `root`.
pub open spec fn confined(root: Seq<u8>, state: ServeStateView) -> bool {
    match state {
        ServeStateView::Opening { path } => within_root(root, path),
        ServeStateView::Inspecting { path } => within_root(root, path),
        ServeStateView::Streaming { path } => within_root(root, path),
        _ => true,
    }
}

/// The request that is sent upstream for `request`: the same method and the
/// same header fields, with the target below the upstream base `base`.
pub open spec fn forwarded(base: Seq<u8>, request: RequestHeadView) -> RequestHeadView {
    RequestHeadView {
        method: request.method,
        target: upstream_target(base, request.target),
        headers: request.headers,
    }
}

/// The name `content-type`.
pub open spec fn content_type_name() -> Seq<u8> {
    seq![
        'c' as u8,
        'o' as u8,
        'n' as u8,
        't' as u8,
        'e' as u8,
        'n' as u8,
        't' as u8,
        '-' as u8,
        't' as u8,
        'y' as u8,
        'p' as u8,
        'e' as u8,
    ]
}

/// The content type `text/plain; charset=utf-8`.
pub open spec fn plain_text() -> Seq<u8> {
    seq![
        't' as u8,
        'e' as u8,
        'x' as u8,
        't' as u8,
        '/' as u8,
        'p' as u8,
        'l' as u8,
        'a' as u8,
        'i' as u8,
        'n' as u8,
        ';' as u8,
        ' ' as u8,
        'c' as u8,
        'h' as u8,
        'a' as u8,
        'r' as u8,
        's' as u8,
        'e' as u8,
        't' as u8,
        '=' as u8,
        'u' as u8,
        't' as u8,
        'f' as u8,
        '-' as u8,
        '8' as u8,
    ]
}

/// The answer to a request whose upstream failed: 502, with `description` as
/// its plain-text body.
pub open spec fn bad_gateway(description: Seq<u8>) -> ExchangeView {
    ExchangeView::Responding {
        head: ResponseHeadView {
            status: BAD_GATEWAY,
            headers: seq![(content_type_name(), plain_text())],
        },
        body: description,
    }
}

/// The answer that takes the place of the upstream's answer `head` with the
/// body `body` to a resolve-file call of the bot `bot_id`.
///
/// Where the body is rewritten, the answer keeps the status and the header
/// fields, but for `content-length`, which is set to the length of the new
/// body. Where it is not, head and body are those of the upstream.
pub open spec fn resolved_answer(
    bot_id: Seq<u8>,
    head: ResponseHeadView,
    body: Seq<u8>,
) -> ExchangeView {
    match rewritten_body(body, bot_id) {
        Some(new_body) => ExchangeView::Responding {
            head: ResponseHeadView {
                status: head.status,
                headers: with_header(head.headers, content_length_name(), decimal(new_body.len())),
            },
            body: new_body,
        },
        None => ExchangeView::Responding { head, body },
    }
}

/// The next state of the generic forwarder before the upstream base `base`.
///
/// A request is sent on, the upstream's answer is passed on as it comes, and
/// a failure of the upstream is answered with 502. An event that does not
/// answer the work that was due changes nothing.
pub open spec fn proxy_step(
    base: Seq<u8>,
    state: ExchangeView,
    event: UpstreamEventView,
) -> ExchangeView {
    match (state, event) {
        (ExchangeView::Idle, UpstreamEventView::Requested { request }) => {
            ExchangeView::Forwarding { request: forwarded(base, request) }
        },
        (ExchangeView::Forwarding { .. }, UpstreamEventView::Failed { description }) => {
            bad_gateway(description)
        },
        (ExchangeView::Forwarding { .. }, UpstreamEventView::Answered { head }) => {
            ExchangeView::Relaying { head }
        },
        _ => state,
    }
}

/// The next state of the resolution rewriter for the bot `bot_id` before the
/// upstream base `base`.
///
/// A request is sent on, and a failure of the upstream is answered with 502.
/// An answer whose status is not 200 is passed on as it comes. The body of an
/// answer with the status 200 is read in full and rewritten where it is a
/// resolve-file answer that names the bot; where it could not be read, the
/// answer is passed on. An event that does not answer the work that was due
/// changes nothing.
pub open spec fn post_file_step(
    base: Seq<u8>,
    bot_id: Seq<u8>,
    state: ExchangeView,
    event: UpstreamEventView,
) -> ExchangeView {
    match (state, event) {
        (ExchangeView::Idle, UpstreamEventView::Requested { request }) => {
            ExchangeView::Forwarding { request: forwarded(base, request) }
        },
        (ExchangeView::Forwarding { .. }, UpstreamEventView::Failed { description }) => {
            bad_gateway(description)
        },
        (ExchangeView::Forwarding { .. }, UpstreamEventView::Answered { head }) => {
            if head.status == OK {
                ExchangeView::Reading { head }
            } else {
                ExchangeView::Relaying { head }
            }
        },
        (ExchangeView::Reading { head }, UpstreamEventView::BodyRead { body: Some(body) }) => {
            resolved_answer(bot_id, head, body)
        },
        (ExchangeView::Reading { head }, UpstreamEventView::BodyRead { body: None }) => {
            ExchangeView::Relaying { head }
        },
        _ => state,
    }
}

/// The file streamer serves no file from outside the root: whatever was
/// asked for and whatever the events, the file that is opened, inspected or
/// streamed is one whose resolved path lies within the root. Its answer is
/// 200 or 404, never another status.
pub proof fn lemma_served_file_lies_within_root(root: Seq<u8>, events: Seq<ServeEventView>)
    ensures
        confined(root, serve_file_run(root, ServeStateView::Idle, events)),
        serve_file_run(root, ServeStateView::Idle, events) matches ServeStateView::Streaming {
            path,
        } ==> within_root(root, path),
        serve_file_status(serve_file_run(root, ServeStateView::Idle, events)) matches Some(
            status,
        ) ==> status == OK || status == NOT_FOUND,
    decreases events.len(),
{
    if events.len() > 0 {
        lemma_served_file_lies_within_root(root, events.drop_last());
    }
}

/// Not found stays not found: no event leads on from the answer 404.
pub proof fn lemma_not_found_stays(root: Seq<u8>, events: Seq<ServeEventView>)
    ensures
        serve_file_run(root, ServeStateView::NotFound, events) == ServeStateView::NotFound,
    decreases events.len(),
{
    if events.len() > 0 {
        lemma_not_found_stays(root, events.drop_last());
    }
}

/// A path that resolves to a place outside the root is answered with 404,
/// whatever comes after.
pub proof fn lemma_escape_is_not_found(
    root: Seq<u8>,
    asked: Seq<u8>,
    resolved: Seq<u8>,
    later: Seq<ServeEventView>,
)
    requires
        !within_root(root, resolved),
    ensures
        serve_file_run(
            root,
            serve_file_step(
                root,
                ServeStateView::Resolving { path: asked },
                ServeEventView::Resolved { path: Some(resolved) },
            ),
            later,
        ) == ServeStateView::NotFound,
{
    lemma_not_found_stays(root, later);
}

/// Forwarding keeps the request: what either forwarding handler sends
/// upstream has the method and the header fields of the request that came
/// in, field for field, and differs from it in the target alone.
pub proof fn lemma_forwarding_keeps_request(
    base: Seq<u8>,
    bot_id: Seq<u8>,
    request: RequestHeadView,
)
    ensures
        proxy_step(base, ExchangeView::Idle, UpstreamEventView::Requested { request })
            == (ExchangeView::Forwarding { request: forwarded(base, request) }),
        post_file_step(base, bot_id, ExchangeView::Idle, UpstreamEventView::Requested { request })
            == (ExchangeView::Forwarding { request: forwarded(base, request) }),
        forwarded(base, request).method == request.method,
        forwarded(base, request).headers == request.headers,
        forwarded(base, request).target == upstream_target(base, request.target),
{
}

/// The generic forwarder passes every answer on: whatever the status of the
/// upstream's answer, the caller gets its head as it came.
pub proof fn lemma_proxy_passes_answers(
    base: Seq<u8>,
    request: RequestHeadView,
    head: ResponseHeadView,
)
    ensures
        proxy_step(
            base,
            ExchangeView::Forwarding { request },
            UpstreamEventView::Answered { head },
        ) == (ExchangeView::Relaying { head }),
{
}

/// An answer that is not rewritten passes unchanged. With a status other
/// than 200 it is passed on as it comes. With the status 200 the caller gets
/// the head and the body of the upstream, byte for byte, wherever the body
/// is not rewritten: where it is no JSON text, where its document has not the
/// expected shape (as one with `ok: false`), and where its `file_path` has no
/// relative path for the bot.
pub proof fn lemma_other_answers_pass(
    base: Seq<u8>,
    bot_id: Seq<u8>,
    request: RequestHeadView,
    head: ResponseHeadView,
    body: Seq<u8>,
)
    ensures
        head.status != OK ==> post_file_step(
            base,
            bot_id,
            ExchangeView::Forwarding { request },
            UpstreamEventView::Answered { head },
        ) == (ExchangeView::Relaying { head }),
        rewritten_body(body, bot_id) is None ==> post_file_step(
            base,
            bot_id,
            ExchangeView::Reading { head },
            UpstreamEventView::BodyRead { body: Some(body) },
        ) == (ExchangeView::Responding { head, body }),
        parsed(body) is None ==> rewritten_body(body, bot_id) is None,
        parsed(body) matches Some(doc) && resolution_path(doc) is None ==> rewritten_body(
            body,
            bot_id,
        ) is None,
        parsed(body) matches Some(doc) && resolution_path(doc) matches Some(path) && relative_path(
            path,
            bot_id,
        ) is None ==> rewritten_body(body, bot_id) is None,
{
}

/// The length of a rewritten answer: where the body is rewritten, the answer
/// has the status that came and the new body, and exactly one `content-length`
/// field, whose value is the decimal numeral of the length of the new body.
/// Every other header field is as it came.
pub proof fn lemma_rewritten_answer_length(
    base: Seq<u8>,
    bot_id: Seq<u8>,
    head: ResponseHeadView,
    body: Seq<u8>,
)
    requires
        rewritten_body(body, bot_id) is Some,
    ensures
        post_file_step(
            base,
            bot_id,
            ExchangeView::Reading { head },
            UpstreamEventView::BodyRead { body: Some(body) },
        ) matches ExchangeView::Responding { head: new_head, body: new_body } && {
            &&& new_body == rewritten_body(body, bot_id)->0
            &&& new_head.status == head.status
            &&& fields_named(new_head.headers, content_length_name()) == seq![
                (content_length_name(), decimal(new_body.len())),
            ]
            &&& numeral_value(decimal(new_body.len())) == new_body.len()
            &&& without_header(new_head.headers, content_length_name()) == without_header(
                head.headers,
                content_length_name(),
            )
        },
{
    let new_body = rewritten_body(body, bot_id)->0;
    lemma_set_header(head.headers, content_length_name(), decimal(new_body.len()));
    lemma_decimal_reads_back(new_body.len());
}

/// A failure of the upstream is answered with 502, with the description of
/// the failure as the body.
pub proof fn lemma_failure_is_bad_gateway(
    base: Seq<u8>,
    bot_id: Seq<u8>,
    request: RequestHeadView,
    description: Seq<u8>,
)
    ensures
        proxy_step(
            base,
            ExchangeView::Forwarding { request },
            UpstreamEventView::Failed { description },
        ) matches ExchangeView::Responding { head, body } && head.status == BAD_GATEWAY && body
            == description,
        post_file_step(
            base,
            bot_id,
            ExchangeView::Forwarding { request },
            UpstreamEventView::Failed { description },
        ) matches ExchangeView::Responding { head, body } && head.status == BAD_GATEWAY && body
            == description,
{
}

impl ServeState {
    /// The status of the answer, once the file streamer has reached one.
    pub fn status(&self) -> (r: Option<u16>)
        ensures
            r == serve_file_status(self@),
    {
        match self {
            ServeState::Streaming { .. } => Some(OK),
            ServeState::NotFound => Some(NOT_FOUND),
            _ => None,
        }
    }
}

/// The file streamer: the state that follows `state` on `event`.
pub fn handle_serve_file(config: &Config, state: ServeState, event: ServeEvent) -> (r: ServeState)
    ensures
        r@ == serve_file_step(config@.base_path, state@, event@),
{
    match state {
        ServeState::Idle => match event {
            ServeEvent::Requested { bot_id, file_path } => ServeState::Resolving {
                path: lookup_path(
                    config.base_path.as_slice(),
                    bot_id.as_slice(),
                    file_path.as_slice(),
                ),
            },
            _ => ServeState::NotFound,
        },
        ServeState::Resolving { path: _ } => match event {
            ServeEvent::Resolved { path: Some(path) } => {
                if is_within_root(config.base_path.as_slice(), path.as_slice()) {
                    ServeState::Opening { path }
                } else {
                    ServeState::NotFound
                }
            },
            _ => ServeState::NotFound,
        },
        ServeState::Opening { path } => match event {
            ServeEvent::Opened { ok: true } => ServeState::Inspecting { path },
            _ => ServeState::NotFound,
        },
        ServeState::Inspecting { path } => match event {
            ServeEvent::Inspected { is_directory: Some(false) } => ServeState::Streaming { path },
            _ => ServeState::NotFound,
        },
        ServeState::Streaming { path } => ServeState::Streaming { path },
        ServeState::NotFound => ServeState::NotFound,
    }
}

/// Makes the request that is sent upstream for `request`.
pub fn forward(config: &Config, request: RequestHead) -> (r: RequestHead)
    ensures
        r@ == forwarded(config@.proxy_to, request@),
{
    let target = upstream_uri(config.proxy_to.as_slice(), request.target.as_slice());
    RequestHead { method: request.method, target, headers: request.headers }
}

/// Makes the answer to a request whose upstream failed.
pub fn answer_bad_gateway(description: Vec<u8>) -> (r: Exchange)
    ensures
        r@ == bad_gateway(description@),
{
    proof {
        reveal_strlit("content-type");
        reveal_strlit("text/plain; charset=utf-8");
        broadcast use is_ascii_spec_bytes;
        assert(is_ascii("content-type") && is_ascii("text/plain; charset=utf-8"));
    }
    let mut name: Vec<u8> = Vec::new();
    name.extend_from_slice("content-type".as_bytes());
    let mut value: Vec<u8> = Vec::new();
    value.extend_from_slice("text/plain; charset=utf-8".as_bytes());
    assert((name, value).deep_view() == (content_type_name(), plain_text()));
    let mut headers: Vec<(Vec<u8>, Vec<u8>)> = Vec::new();
    headers.push((name, value));
    assert(headers.deep_view() =~= seq![(content_type_name(), plain_text())]);
    Exchange::Responding { head: ResponseHead { status: BAD_GATEWAY, headers }, body: description }
}

/// Makes the answer that takes the place of the upstream's answer `head`
/// with the body `body` to a resolve-file call of the bot `bot_id`.
pub fn answer_resolved(bot_id: &[u8], head: ResponseHead, body: Vec<u8>) -> (r: Exchange)
    ensures
        r@ == resolved_answer(bot_id@, head@, body@),
{
    match rewrite_body(body.as_slice(), bot_id) {
        Some(new_body) => {
            proof {
                reveal_strlit("content-length");
                broadcast use is_ascii_spec_bytes;
                assert(is_ascii("content-length"));
            }
            let mut name: Vec<u8> = Vec::new();
            name.extend_from_slice("content-length".as_bytes());
            assert(name@ =~= content_length_name());
            let mut value: Vec<u8> = Vec::new();
            push_decimal(&mut value, new_body.len());
            let headers = set_header(head.headers, name, value);
            Exchange::Responding {
                head: ResponseHead { status: head.status, headers },
                body: new_body,
            }
        },
        None => Exchange::Responding { head, body },
    }
}

/// The generic forwarder: the state that follows `state` on `event`.
pub fn handle_proxy(config: &Config, state: Exchange, event: UpstreamEvent) -> (r: Exchange)
    ensures
        r@ == proxy_step(config@.proxy_to, state@, event@),
{
    match state {
        Exchange::Idle => match event {
            UpstreamEvent::Requested { request } => Exchange::Forwarding {
                request: forward(config, request),
            },
            _ => Exchange::Idle,
        },
        Exchange::Forwarding { request } => match event {
            UpstreamEvent::Failed { description } => answer_bad_gateway(description),
            UpstreamEvent::Answered { head } => Exchange::Relaying { head },
            _ => Exchange::Forwarding { request },
        },
        state => state,
    }
}

/// The resolution rewriter for the bot `bot_id`: the state that follows
/// `state` on `event`.
pub fn handle_post_file(
    config: &Config,
    bot_id: &[u8],
    state: Exchange,
    event: UpstreamEvent,
) -> (r: Exchange)
    ensures
        r@ == post_file_step(config@.proxy_to, bot_id@, state@, event@),
{
    match state {
        Exchange::Idle => match event {
            UpstreamEvent::Requested { request } => Exchange::Forwarding {
                request: forward(config, request),
            },
            _ => Exchange::Idle,
        },
        Exchange::Forwarding { request } => match event {
            UpstreamEvent::Failed { description } => answer_bad_gateway(description),
            UpstreamEvent::Answered { head } => {
                if head.status == OK {
                    Exchange::Reading { head }
                } else {
                    Exchange::Relaying { head }
                }
            },
            _ => Exchange::Forwarding { request },
        },
        Exchange::Reading { head } => match event {
            UpstreamEvent::BodyRead { body: Some(body) } => answer_resolved(bot_id, head, body),
            UpstreamEvent::BodyRead { body: None } => Exchange::Relaying { head },
            _ => Exchange::Reading { head },
        },
        state => state,
    }
}

} // verus!
