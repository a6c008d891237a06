//! The request description a caller hands in, and its validation into a
//! `RequestIntent`.
//!
//! Header policy: an entry that cannot be forwarded faithfully is refused
//! with `InvalidHeaderEncoding`, never dropped. This holds here for an entry
//! whose value is not a text, and in the request builder for an entry whose
//! name or value cannot be written as an HTTP header.

use vstd::prelude::*;
use crate::error::Field;
use crate::error::RelayError;
use crate::error::RelayErrorView;
use crate::headers::put;
use crate::headers::Headers;
use crate::headers::Pairs;
use crate::method::recognized_verb;
use crate::method::Method;
use crate::payload::Payload;
use crate::payload::PayloadView;
use crate::wire::is_acceptable_target;
use crate::wire::target_acceptable;

verus! {

/// The value of one entry of the description's header object.
#[derive(Debug)]
pub enum HeaderField {
    /// A text value.
    Text(String),
    /// Any value that is not a text.
    Other,
}

/// The decoded request description, before validation.
#[derive(Debug)]
pub struct Descriptor {
    /// The `url` field, when present as a text.
    pub url: Option<String>,
    /// The `method` field, when present as a text.
    pub method: Option<String>,
    /// The entries of the `headers` object, when present.
    pub headers: Option<Vec<(String, HeaderField)>>,
    /// The `body` field.
    pub body: Payload,
}

/// The mathematical form of a `Descriptor`. An absent header object and an
/// empty one are the same; a header entry that is not a text has no value.
pub struct DescriptorView {
    pub url: Option<Seq<char>>,
    pub method: Option<Seq<char>>,
    pub headers: Seq<(Seq<char>, Option<Seq<char>>)>,
    pub body: PayloadView,
}

impl View for HeaderField {
    type V = Option<Seq<char>>;

    open spec fn view(&self) -> Option<Seq<char>> {
        match self {
            HeaderField::Text(text) => Some(text@),
            HeaderField::Other => None,
        }
    }
}

/// The mathematical form of a list of header entries.
pub open spec fn entries_view(entries: Seq<(String, HeaderField)>) -> Seq<
    (Seq<char>, Option<Seq<char>>),
> {
    Seq::new(entries.len(), |i: int| (entries[i].0@, entries[i].1@))
}

impl View for Descriptor {
    type V = DescriptorView;

    open spec fn view(&self) -> DescriptorView {
        DescriptorView {
            url: self.url.deep_view(),
            method: self.method.deep_view(),
            headers: match self.headers {
                Some(entries) => entries_view(entries@),
                None => Seq::empty(),
            },
            body: self.body@,
        }
    }
}

/// The text stored under a key of a JSON document: present when the
/// document is an object that holds a text under that key.
pub uninterp spec fn json_text(document: serde_json::Value, key: Seq<char>) -> Option<Seq<char>>;

/// The entries of the object stored under a key of a JSON document, in the
/// object's own order, each with its value if that value is a text: present
/// when the document is an object that holds an object under that key.
pub uninterp spec fn json_entries(document: serde_json::Value, key: Seq<char>) -> Option<
    Seq<(Seq<char>, Option<Seq<char>>)>,
>;

/// The document stored under a key of a JSON document, or the null document
/// when there is none.
pub uninterp spec fn json_member(document: serde_json::Value, key: Seq<char>) -> serde_json::Value;

/// Indexes the document by the key and calls `Value::as_str` on what is
/// found. The contract only names the result.
#[verifier::external_body]
fn text_member(document: &serde_json::Value, key: &str) -> (text: Option<String>)
    ensures
        text.deep_view() == json_text(*document, key@),
{
    document[key].as_str().map(str::to_owned)
}

/// Indexes the document by the key, calls `Value::as_object` on what is
/// found and walks the object, calling `Value::as_str` on each value. The
/// contract only names the result.
#[verifier::external_body]
fn object_member(document: &serde_json::Value, key: &str) -> (entries: Option<
    Vec<(String, Option<String>)>,
>)
    ensures
        entries.deep_view() == json_entries(*document, key@),
{
    let object = document[key].as_object()?;
    let mut entries = Vec::new();
    for (name, value) in object {
        entries.push((name.clone(), value.as_str().map(str::to_owned)));
    }
    Some(entries)
}

/// Indexes the document by the key and clones what is found. The contract
/// only names the result.
#[verifier::external_body]
fn document_member(document: &serde_json::Value, key: &str) -> (member: serde_json::Value)
    ensures
        member == json_member(*document, key@),
{
    document[key].clone()
}

/// What a decoded JSON payload describes: `url` and `method` as far as they
/// are texts, the entries of `headers` if it is an object, and whatever
/// stands under `body` as the document to send.
pub open spec fn described(document: serde_json::Value) -> DescriptorView {
    DescriptorView {
        url: json_text(document, "url"@),
        method: json_text(document, "method"@),
        headers: match json_entries(document, "headers"@) {
            Some(entries) => entries,
            None => Seq::empty(),
        },
        body: PayloadView::Json(json_member(document, "body"@)),
    }
}

/// Turns the entries of a header object into header fields: a text stays a
/// text, anything else is marked as no text.
pub fn header_fields(entries: &Vec<(String, Option<String>)>) -> (fields: Vec<
    (String, HeaderField),
>)
    ensures
        entries_view(fields@) == entries.deep_view(),
{
    let mut fields: Vec<(String, HeaderField)> = Vec::new();
    let mut at: usize = 0;
    while at < entries.len()
        invariant
            at <= entries.len(),
            fields.len() == at,
            forall|k: int|
                0 <= k < at ==> fields@[k].0@ == entries@[k].0@ && fields@[k].1@
                    == entries@[k].1.deep_view(),
        decreases entries.len() - at,
    {
        let name = entries[at].0.clone();
        let field = match &entries[at].1 {
            Some(text) => HeaderField::Text(text.clone()),
            None => HeaderField::Other,
        };
        fields.push((name, field));
        at += 1;
    }
    assert(entries_view(fields@) =~= entries.deep_view());
    fields
}

impl Descriptor {
    /// Reads the description out of a decoded JSON payload. A `url` or
    /// `method` that is not a text counts as absent, and the `body` is
    /// taken as a document, the null document when there is none.
    pub fn from_json(document: &serde_json::Value) -> (raw: Descriptor)
        ensures
            raw@ == described(*document),
    {
        let headers = match object_member(document, "headers") {
            Some(entries) => Some(header_fields(&entries)),
            None => None,
        };
        Descriptor {
            url: text_member(document, "url"),
            method: text_member(document, "method"),
            headers,
            body: Payload::Json(document_member(document, "body")),
        }
    }
}

/// The validated description of the call to make.
#[derive(Debug)]
pub struct RequestIntent {
    target_url: String,
    method: Method,
    headers: Headers,
    body: Payload,
}

/// The mathematical form of a `RequestIntent`.
pub struct IntentView {
    pub target_url: Seq<char>,
    pub method: Method,
    pub headers: Pairs,
    pub body: PayloadView,
}

impl View for RequestIntent {
    type V = IntentView;

    closed spec fn view(&self) -> IntentView {
        IntentView {
            target_url: self.target_url@,
            method: self.method,
            headers: self.headers@,
            body: self.body@,
        }
    }
}

/// The headers collected from the first entries of a header object, or the
/// name of the first entry whose value is not a text. A name that occurs
/// again replaces the value it had.
pub open spec fn collected(entries: Seq<(Seq<char>, Option<Seq<char>>)>) -> Result<
    Pairs,
    Seq<char>,
>
    decreases entries.len(),
{
    if entries.len() == 0 {
        Ok(Seq::empty())
    } else {
        match collected(entries.drop_last()) {
            Err(name) => Err(name),
            Ok(pairs) => match entries.last().1 {
                Some(value) => Ok(put(pairs, entries.last().0, value)),
                None => Err(entries.last().0),
            },
        }
    }
}

/// What validation makes of a description: the intent, or the first
/// failure in the order url present, method present, url acceptable, method
/// recognized, headers well-formed.
pub open spec fn validated(raw: DescriptorView) -> Result<IntentView, RelayErrorView> {
    if raw.url is None {
        Err(RelayErrorView::MissingField(Field::Url))
    } else if raw.method is None {
        Err(RelayErrorView::MissingField(Field::Method))
    } else if !target_acceptable(raw.url->0) {
        Err(RelayErrorView::InvalidUrl)
    } else if recognized_verb(raw.method->0) is None {
        Err(RelayErrorView::InvalidMethod)
    } else {
        match collected(raw.headers) {
            Err(name) => Err(RelayErrorView::InvalidHeaderEncoding(name)),
            Ok(pairs) => Ok(
                IntentView {
                    target_url: raw.url->0,
                    method: recognized_verb(raw.method->0)->0,
                    headers: pairs,
                    body: raw.body,
                },
            ),
        }
    }
}

/// The mathematical form of a validation result.
pub open spec fn validation_view(result: Result<RequestIntent, RelayError>) -> Result<
    IntentView,
    RelayErrorView,
> {
    match result {
        Ok(intent) => Ok(intent@),
        Err(error) => Err(error@),
    }
}

/// The mathematical form of collected headers or the offending name.
pub open spec fn collection_view(result: Result<Headers, String>) -> Result<Pairs, Seq<char>> {
    match result {
        Ok(headers) => Ok(headers@),
        Err(name) => Err(name@),
    }
}

/// Collects the entries of a header object into a header collection, or
/// returns the name of the first entry whose value is not a text.
pub fn collect_headers(entries: Vec<(String, HeaderField)>) -> (result: Result<Headers, String>)
    ensures
        collection_view(result) == collected(entries_view(entries@)),
{
    let ghost all = entries_view(entries@);
    let mut headers = Headers::new();
    let mut taken: usize = 0;
    let total = entries.len();
    let mut pending = entries;
    // Entries are consumed from the back of a reversed list, so each is
    // moved out once, in the order in which it was given.
    let mut rest: Vec<(String, HeaderField)> = Vec::new();
    while pending.len() > 0
        invariant
            rest.len() + pending.len() == total,
            total == all.len(),
            forall|k: int|
                0 <= k < rest.len() ==> (rest@[k].0@, rest@[k].1@) == all[total - 1 - k],
            forall|k: int| 0 <= k < pending.len() ==> (pending@[k].0@, pending@[k].1@) == all[k],
        decreases pending.len(),
    {
        let entry = pending.pop().unwrap();
        rest.push(entry);
    }
    while rest.len() > 0
        invariant
            taken + rest.len() == total,
            total == all.len(),
            all == entries_view(entries@),
            forall|k: int|
                0 <= k < rest.len() ==> (rest@[k].0@, rest@[k].1@) == all[total - 1 - k],
            collected(all.subrange(0, taken as int)) == Ok::<Pairs, Seq<char>>(headers@),
        decreases rest.len(),
    {
        let (name, field) = rest.pop().unwrap();
        proof {
            let grown = all.subrange(0, taken + 1);
            assert(grown.drop_last() =~= all.subrange(0, taken as int));
            assert(grown.last() == all[taken as int]);
            assert((name@, field@) == all[taken as int]);
            assert(collected(grown.drop_last()) == Ok::<Pairs, Seq<char>>(headers@));
        }
        match field {
            HeaderField::Text(value) => {
                headers.insert(name, value);
            },
            HeaderField::Other => {
                proof {
                    assert(collected(all.subrange(0, taken + 1)) == Err::<Pairs, Seq<char>>(
                        name@,
                    ));
                    lemma_collected_failure_stays(all, taken + 1);
                }
                return Err(name);
            },
        }
        taken += 1;
    }
    proof {
        assert(all.subrange(0, taken as int) =~= all);
    }
    Ok(headers)
}

/// Once a prefix of the entries fails, every longer prefix fails with the
/// same name.
pub proof fn lemma_collected_failure_stays(
    entries: Seq<(Seq<char>, Option<Seq<char>>)>,
    upto: int,
)
    requires
        0 <= upto <= entries.len(),
        collected(entries.subrange(0, upto)) is Err,
    ensures
        collected(entries) == collected(entries.subrange(0, upto)),
    decreases entries.len() - upto,
{
    if upto == entries.len() {
        assert(entries.subrange(0, upto) =~= entries);
    } else {
        let longer = entries.subrange(0, upto + 1);
        assert(longer.drop_last() =~= entries.subrange(0, upto));
        lemma_collected_failure_stays(entries, upto + 1);
    }
}

impl RequestIntent {
    #[verifier::type_invariant]
    spec fn target_is_valid(&self) -> bool {
        target_acceptable(self.target_url@)
    }

    /// Validates a description. The conditions are tried in a fixed order
    /// and the first failure is reported: `url` present, `method` present, `url` an
    /// absolute URI, `method` a recognized verb, every header value a text.
    pub fn parse(raw: Descriptor) -> (result: Result<RequestIntent, RelayError>)
        ensures
            validation_view(result) == validated(raw@),
    {
        let Descriptor { url, method, headers, body } = raw;
        let target_url = match url {
            Some(text) => text,
            None => {
                return Err(RelayError::MissingField(Field::Url));
            },
        };
        let method_text = match method {
            Some(text) => text,
            None => {
                return Err(RelayError::MissingField(Field::Method));
            },
        };
        if !is_acceptable_target(target_url.as_str()) {
            return Err(RelayError::InvalidUrl);
        }
        let verb = match Method::parse(method_text.as_str()) {
            Some(verb) => verb,
            None => {
                return Err(RelayError::InvalidMethod);
            },
        };
        let collection = match headers {
            Some(entries) => collect_headers(entries),
            None => Ok(Headers::new()),
        };
        match collection {
            Ok(headers) => Ok(RequestIntent { target_url, method: verb, headers, body }),
            Err(name) => Err(RelayError::InvalidHeaderEncoding(name)),
        }
    }

    /// The target of the call: an absolute URI.
    pub fn target_url(&self) -> (url: &str)
        ensures
            url@ == self@.target_url,
            target_acceptable(url@),
    {
        proof {
            use_type_invariant(self);
        }
        self.target_url.as_str()
    }

    /// The verb of the call.
    pub fn method(&self) -> (verb: Method)
        ensures
            verb == self@.method,
    {
        self.method
    }

    /// The headers of the call.
    pub fn headers(&self) -> (headers: &Headers)
        ensures
            headers@ == self@.headers,
    {
        &self.headers
    }

    /// The body of the call.
    pub fn body(&self) -> (body: &Payload)
        ensures
            body@ == self@.body,
    {
        &self.body
    }
}

} // verus!
