//! The response translator: from the target's response, or from a failure,
//! to the reply the caller receives.

use vstd::prelude::*;
use crate::error::RelayError;
use crate::error::RelayErrorView;
use crate::headers::lemma_lookup_put_if_absent;
use crate::headers::lookup;
use crate::headers::put_if_absent;
use crate::headers::Headers;
use crate::headers::Pairs;
use crate::wire::decode_header_value;
use crate::wire::decoded_text;
use crate::wire::decoded_value;
use crate::wire::text_of_bytes;

verus! {

/// How the target's response is presented to the caller.
#[derive(Clone, Copy, Debug, PartialEq, Eq, Structural)]
pub enum Mode {
    /// Status, headers and body are forwarded as they are.
    Passthrough,
    /// Status, headers and body are captured in an envelope that is
    /// returned with status 200.
    Enveloped,
}

/// Raw headers as the transport has them: a name may occur several times,
/// and a value is a sequence of bytes.
pub type RawHeaders = Seq<(Seq<char>, Seq<u8>)>;

/// The response of the target, as the transport read it.
#[derive(Debug)]
pub struct TargetResponse {
    /// The HTTP status.
    pub status: u16,
    /// The headers, in transport order.
    pub headers: Vec<(String, Vec<u8>)>,
    /// The bytes of the body.
    pub body: Vec<u8>,
}

/// The mathematical form of a `TargetResponse`.
pub struct TargetView {
    pub status: u16,
    pub headers: RawHeaders,
    pub body: Seq<u8>,
}

impl View for TargetResponse {
    type V = TargetView;

    open spec fn view(&self) -> TargetView {
        TargetView { status: self.status, headers: self.headers.deep_view(), body: self.body@ }
    }
}

/// The captured result of one relay transaction.
#[derive(Debug)]
pub struct RelayOutcome {
    /// The target's HTTP status.
    pub status_code: u16,
    /// The target's headers, one text value per name.
    pub headers: Headers,
    /// The target's body as text.
    pub body: String,
}

/// The mathematical form of a `RelayOutcome`.
pub struct OutcomeView {
    pub status_code: u16,
    pub headers: Pairs,
    pub body: Seq<char>,
}

impl View for RelayOutcome {
    type V = OutcomeView;

    open spec fn view(&self) -> OutcomeView {
        OutcomeView { status_code: self.status_code, headers: self.headers@, body: self.body@ }
    }
}

/// What a reply carries as its body.
#[derive(Debug)]
pub enum ReplyBody {
    /// The target's bytes, forwarded.
    Raw(Vec<u8>),
    /// The captured outcome, to be written as a JSON object with the
    /// fields `status`, `body` and `headers`.
    Envelope(RelayOutcome),
    /// A human-readable failure message.
    Message(String),
}

/// The mathematical form of a `ReplyBody`.
pub enum ReplyBodyView {
    Raw(Seq<u8>),
    Envelope(OutcomeView),
    Message(Seq<char>),
}

impl View for ReplyBody {
    type V = ReplyBodyView;

    open spec fn view(&self) -> ReplyBodyView {
        match self {
            ReplyBody::Raw(bytes) => ReplyBodyView::Raw(bytes@),
            ReplyBody::Envelope(outcome) => ReplyBodyView::Envelope(outcome@),
            ReplyBody::Message(text) => ReplyBodyView::Message(text@),
        }
    }
}

/// The reply written to the caller.
#[derive(Debug)]
pub struct Reply {
    /// The outer HTTP status.
    pub status: u16,
    /// The headers forwarded from the target; empty unless passing through.
    pub headers: Vec<(String, Vec<u8>)>,
    /// The body.
    pub body: ReplyBody,
}

/// The mathematical form of a `Reply`.
pub struct ReplyView {
    pub status: u16,
    pub headers: RawHeaders,
    pub body: ReplyBodyView,
}

impl View for Reply {
    type V = ReplyView;

    open spec fn view(&self) -> ReplyView {
        ReplyView { status: self.status, headers: self.headers.deep_view(), body: self.body@ }
    }
}

/// The outer status of every enveloped reply.
pub const ENVELOPE_STATUS: u16 = 200;

/// Raw headers flattened to one text per name: the first value of a name
/// is kept, and a value that does not read as text becomes the empty text.
pub open spec fn flattened(headers: RawHeaders) -> Pairs
    decreases headers.len(),
{
    if headers.len() == 0 {
        Seq::empty()
    } else {
        put_if_absent(
            flattened(headers.drop_last()),
            headers.last().0,
            decoded_value(headers.last().1),
        )
    }
}

/// A name that no raw header carries has no value after flattening.
pub proof fn lemma_flattened_absent(headers: RawHeaders, name: Seq<char>)
    requires
        forall|j: int| 0 <= j < headers.len() ==> headers[j].0 != name,
    ensures
        lookup(flattened(headers), name) is None,
    decreases headers.len(),
{
    if headers.len() > 0 {
        let rest = headers.drop_last();
        lemma_flattened_absent(rest, name);
        lemma_lookup_put_if_absent(
            flattened(rest),
            headers.last().0,
            decoded_value(headers.last().1),
            name,
        );
    }
}

/// After flattening, a name yields the text of the first raw header that
/// carries it, whatever follows.
pub proof fn lemma_flattened_keeps_first(headers: RawHeaders, name: Seq<char>, first: int)
    requires
        0 <= first < headers.len(),
        headers[first].0 == name,
        forall|j: int| 0 <= j < first ==> headers[j].0 != name,
    ensures
        lookup(flattened(headers), name) == Some(decoded_value(headers[first].1)),
    decreases headers.len(),
{
    let rest = headers.drop_last();
    let last = headers.last();
    if first == headers.len() - 1 {
        lemma_flattened_absent(rest, name);
        lemma_lookup_put_if_absent(flattened(rest), name, decoded_value(last.1), name);
    } else {
        lemma_flattened_keeps_first(rest, name, first);
        lemma_lookup_put_if_absent(flattened(rest), last.0, decoded_value(last.1), name);
    }
}

/// The outcome captured from a response, or the decode failure when its
/// body is not valid UTF-8 text.
pub open spec fn captured(response: TargetView) -> Result<OutcomeView, RelayErrorView> {
    match decoded_text(response.body) {
        Some(text) => Ok(
            OutcomeView {
                status_code: response.status,
                headers: flattened(response.headers),
                body: text,
            },
        ),
        None => Err(RelayErrorView::BodyDecodeError),
    }
}

/// The reply for a response in the given mode.
pub open spec fn translated(mode: Mode, response: TargetView) -> Result<
    ReplyView,
    RelayErrorView,
> {
    match mode {
        Mode::Passthrough => Ok(
            ReplyView {
                status: response.status,
                headers: response.headers,
                body: ReplyBodyView::Raw(response.body),
            },
        ),
        Mode::Enveloped => match captured(response) {
            Ok(outcome) => Ok(
                ReplyView {
                    status: ENVELOPE_STATUS,
                    headers: Seq::empty(),
                    body: ReplyBodyView::Envelope(outcome),
                },
            ),
            Err(error) => Err(error),
        },
    }
}

/// The reply for a failure: its status and its message, no headers.
pub open spec fn failure_reply(error: RelayErrorView) -> ReplyView {
    ReplyView {
        status: error.status(),
        headers: Seq::empty(),
        body: ReplyBodyView::Message(error.message()),
    }
}

/// The mathematical form of a capture result.
pub open spec fn capture_view(result: Result<RelayOutcome, RelayError>) -> Result<
    OutcomeView,
    RelayErrorView,
> {
    match result {
        Ok(outcome) => Ok(outcome@),
        Err(error) => Err(error@),
    }
}

/// The mathematical form of a translation result.
pub open spec fn translation_view(result: Result<Reply, RelayError>) -> Result<
    ReplyView,
    RelayErrorView,
> {
    match result {
        Ok(reply) => Ok(reply@),
        Err(error) => Err(error@),
    }
}

/// Flattens raw headers to one text value per name.
pub fn flatten_headers(headers: &Vec<(String, Vec<u8>)>) -> (flat: Headers)
    ensures
        flat@ == flattened(headers.deep_view()),
{
    let mut flat = Headers::new();
    let mut at: usize = 0;
    while at < headers.len()
        invariant
            at <= headers.len(),
            flat@ == flattened(headers.deep_view().subrange(0, at as int)),
        decreases headers.len() - at,
    {
        let name = headers[at].0.clone();
        let value = decode_header_value(headers[at].1.as_slice());
        proof {
            let grown = headers.deep_view().subrange(0, at + 1);
            assert(grown.drop_last() =~= headers.deep_view().subrange(0, at as int));
            assert(grown.last() == (headers@[at as int].0@, headers@[at as int].1@));
        }
        flat.insert_if_absent(name, value);
        at += 1;
    }
    proof {
        assert(headers.deep_view().subrange(0, at as int) =~= headers.deep_view());
    }
    flat
}

/// Captures a response as an outcome: the target's status, its headers
/// flattened, its body as text. A body that is not valid UTF-8 gives
/// `BodyDecodeError`.
pub fn capture(response: TargetResponse) -> (result: Result<RelayOutcome, RelayError>)
    ensures
        capture_view(result) == captured(response@),
{
    let TargetResponse { status, headers, body } = response;
    let flat = flatten_headers(&headers);
    match text_of_bytes(body) {
        Some(text) => Ok(RelayOutcome { status_code: status, headers: flat, body: text }),
        None => Err(RelayError::BodyDecodeError),
    }
}

/// Translates a response into the reply for the caller. Passing through,
/// status, headers and body are the target's own; enveloped, the reply has
/// status 200 and carries the captured outcome.
pub fn translate(mode: Mode, response: TargetResponse) -> (result: Result<Reply, RelayError>)
    ensures
        translation_view(result) == translated(mode, response@),
{
    match mode {
        Mode::Passthrough => {
            let TargetResponse { status, headers, body } = response;
            Ok(Reply { status, headers, body: ReplyBody::Raw(body) })
        },
        Mode::Enveloped => match capture(response) {
            Ok(outcome) => {
                let reply = Reply {
                    status: ENVELOPE_STATUS,
                    headers: Vec::new(),
                    body: ReplyBody::Envelope(outcome),
                };
                assert(reply.headers.deep_view() =~= Seq::<(Seq<char>, Seq<u8>)>::empty());
                Ok(reply)
            },
            Err(error) => Err(error),
        },
    }
}

/// The reply that reports a failure to the caller: the failure's status,
/// 400 or 500, and its message.
pub fn reply_to_failure(error: &RelayError) -> (reply: Reply)
    ensures
        reply@ == failure_reply(error@),
{
    let reply = Reply {
        status: error.status(),
        headers: Vec::new(),
        body: ReplyBody::Message(error.message()),
    };
    assert(reply.headers.deep_view() =~= Seq::<(Seq<char>, Seq<u8>)>::empty());
    reply
}

} // verus!
