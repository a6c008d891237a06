//! The request builder: from a validated intent to the request that the
//! transport sends.

use vstd::prelude::*;
use crate::descriptor::IntentView;
use crate::descriptor::RequestIntent;
use crate::error::RelayError;
use crate::error::RelayErrorView;
use crate::headers::put;
use crate::headers::Headers;
use crate::headers::Pairs;
use crate::method::Method;
use crate::payload::wire_body;
use crate::wire::encode_header;
use crate::wire::encoded_header;
use crate::wire::target_acceptable;

verus! {

/// A request ready for the transport.
#[derive(Debug)]
pub struct OutboundRequest {
    /// The verb.
    pub method: Method,
    /// The absolute URI of the target.
    pub uri: String,
    /// The headers in transport form: names in lower case, no name twice.
    pub headers: Headers,
    /// The bytes of the body, when there is one.
    pub body: Option<Vec<u8>>,
}

/// The mathematical form of an `OutboundRequest`.
pub struct OutboundView {
    pub method: Method,
    pub uri: Seq<char>,
    pub headers: Pairs,
    pub body: Option<Seq<u8>>,
}

impl View for OutboundRequest {
    type V = OutboundView;

    open spec fn view(&self) -> OutboundView {
        OutboundView {
            method: self.method,
            uri: self.uri@,
            headers: self.headers@,
            body: match self.body {
                Some(bytes) => Some(bytes@),
                None => None,
            },
        }
    }
}

/// The transport form of a header list, or the name of the first header
/// that cannot be written as an HTTP header. Names that fall together in
/// lower case keep the value given last.
pub open spec fn encoded_headers(pairs: Pairs) -> Result<Pairs, Seq<char>>
    decreases pairs.len(),
{
    if pairs.len() == 0 {
        Ok(Seq::empty())
    } else {
        match encoded_headers(pairs.drop_last()) {
            Err(name) => Err(name),
            Ok(done) => match encoded_header(pairs.last().0, pairs.last().1) {
                Some(encoded) => Ok(put(done, encoded.0, encoded.1)),
                None => Err(pairs.last().0),
            },
        }
    }
}

/// Once a prefix of the headers fails to encode, every longer prefix fails
/// with the same name.
pub proof fn lemma_encoding_failure_stays(pairs: Pairs, upto: int)
    requires
        0 <= upto <= pairs.len(),
        encoded_headers(pairs.subrange(0, upto)) is Err,
    ensures
        encoded_headers(pairs) == encoded_headers(pairs.subrange(0, upto)),
    decreases pairs.len() - upto,
{
    if upto == pairs.len() {
        assert(pairs.subrange(0, upto) =~= pairs);
    } else {
        let longer = pairs.subrange(0, upto + 1);
        assert(longer.drop_last() =~= pairs.subrange(0, upto));
        lemma_encoding_failure_stays(pairs, upto + 1);
    }
}

/// What building makes of an intent. Method and target are taken as they
/// are; the body is serialized first, then the headers are encoded, and the
/// first failure is reported.
pub open spec fn built(intent: IntentView) -> Result<OutboundView, RelayErrorView> {
    match wire_body(intent.body) {
        Err(cause) => Err(RelayErrorView::BodySerializationError(cause)),
        Ok(body) => match encoded_headers(intent.headers) {
            Err(name) => Err(RelayErrorView::InvalidHeaderEncoding(name)),
            Ok(headers) => Ok(
                OutboundView {
                    method: intent.method,
                    uri: intent.target_url,
                    headers: headers,
                    body: body,
                },
            ),
        },
    }
}

/// The mathematical form of a build result.
pub open spec fn build_view(result: Result<OutboundRequest, RelayError>) -> Result<
    OutboundView,
    RelayErrorView,
> {
    match result {
        Ok(request) => Ok(request@),
        Err(error) => Err(error@),
    }
}

/// The mathematical form of encoded headers or the offending name.
pub open spec fn encoding_view(result: Result<Headers, String>) -> Result<Pairs, Seq<char>> {
    match result {
        Ok(headers) => Ok(headers@),
        Err(name) => Err(name@),
    }
}

/// Encodes every header for the transport, or returns the name of the
/// first one that cannot be written as an HTTP header.
pub fn encode_headers(headers: &Headers) -> (result: Result<Headers, String>)
    ensures
        encoding_view(result) == encoded_headers(headers@),
{
    let mut done = Headers::new();
    let count = headers.len();
    let mut at: usize = 0;
    while at < count
        invariant
            at <= count,
            count == headers@.len(),
            encoded_headers(headers@.subrange(0, at as int)) == Ok::<Pairs, Seq<char>>(done@),
        decreases count - at,
    {
        let name = headers.name_at(at);
        let value = headers.value_at(at);
        proof {
            let grown = headers@.subrange(0, at + 1);
            assert(grown.drop_last() =~= headers@.subrange(0, at as int));
            assert(grown.last() == headers@[at as int]);
        }
        match encode_header(name, value) {
            Some((lower, kept)) => {
                done.insert(lower, kept);
            },
            None => {
                proof {
                    lemma_encoding_failure_stays(headers@, at + 1);
                }
                return Err(name.to_owned());
            },
        }
        at += 1;
    }
    proof {
        assert(headers@.subrange(0, at as int) =~= headers@);
    }
    Ok(done)
}

/// Builds the request for the transport. Method and target never fail,
/// being validated already; a body that cannot be serialized gives
/// `BodySerializationError`, else a header that cannot be encoded gives
/// `InvalidHeaderEncoding` with that header's name.
pub fn build(intent: &RequestIntent) -> (result: Result<OutboundRequest, RelayError>)
    ensures
        build_view(result) == built(intent@),
        result matches Ok(request) ==> target_acceptable(request.uri@),
{
    let body = match intent.body().serialize() {
        Ok(body) => body,
        Err(error) => {
            return Err(error);
        },
    };
    let headers = match encode_headers(intent.headers()) {
        Ok(headers) => headers,
        Err(name) => {
            return Err(RelayError::InvalidHeaderEncoding(name));
        },
    };
    Ok(
        OutboundRequest {
            method: intent.method(),
            uri: intent.target_url().to_owned(),
            headers,
            body,
        },
    )
}

} // verus!
