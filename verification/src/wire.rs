//! HTTP wire syntax: which texts can stand as a header name, a header value
//! or a target URI, and how raw header bytes read as text.
//!
//! The syntax itself is decided by the `http` types that `hyper` exports;
//! the functions here state what those decisions are and build on them.

use vstd::prelude::*;

verus! {

/// A character that may occur in a header name: an ASCII letter or digit,
/// one of the punctuation marks of an HTTP token, or the double quote,
/// which the header-name table of the `http` crate admits as well. Letters
/// of either case are accepted; upper-case letters are folded to lower case
/// by `fold_case`.
pub open spec fn is_name_char(c: char) -> bool {
    let code = c as u32;
    ||| 0x61 <= code <= 0x7a
    ||| 0x41 <= code <= 0x5a
    ||| 0x30 <= code <= 0x39
    ||| c == '!'
    ||| c == '"'
    ||| c == '#'
    ||| c == '$'
    ||| c == '%'
    ||| c == '&'
    ||| c == '\''
    ||| c == '*'
    ||| c == '+'
    ||| c == '-'
    ||| c == '.'
    ||| c == '^'
    ||| c == '_'
    ||| c == '`'
    ||| c == '|'
    ||| c == '~'
}

/// The lower-case form of an ASCII upper-case letter; every other character
/// is left as it is.
pub open spec fn fold_case(c: char) -> char {
    let code = c as u32;
    if 0x41 <= code <= 0x5a {
        ((code + 0x20) as u8) as char
    } else {
        c
    }
}

/// The longest header name, in characters.
pub const MAX_NAME_LEN: usize = 65535;

/// A text that can stand as a header name.
pub open spec fn name_encodable(name: Seq<char>) -> bool {
    &&& 1 <= name.len() <= MAX_NAME_LEN
    &&& forall|i: int| 0 <= i < name.len() ==> is_name_char(#[trigger] name[i])
}

/// The transport form of a header name: the name in lower case, or nothing
/// when the text cannot stand as a header name.
pub open spec fn encoded_name(name: Seq<char>) -> Option<Seq<char>> {
    if name_encodable(name) {
        Some(Seq::new(name.len(), |i: int| fold_case(name[i])))
    } else {
        None
    }
}

/// A character that may occur in a header value: anything but the control
/// characters, with the horizontal tab allowed.
pub open spec fn is_value_char(c: char) -> bool {
    let code = c as u32;
    (code >= 32 && code != 127) || code == 9
}

/// A text that can stand as a header value.
pub open spec fn value_encodable(value: Seq<char>) -> bool {
    forall|i: int| 0 <= i < value.len() ==> is_value_char(#[trigger] value[i])
}

/// A byte of a header value that reads as text: printable ASCII or the
/// horizontal tab.
pub open spec fn is_visible_byte(b: u8) -> bool {
    (32 <= b < 127) || b == 9
}

/// The text of a raw header value, when every byte of it reads as text:
/// each byte is then the ASCII character with that code.
pub open spec fn visible_text(raw: Seq<u8>) -> Option<Seq<char>> {
    if forall|i: int| 0 <= i < raw.len() ==> is_visible_byte(#[trigger] raw[i]) {
        Some(Seq::new(raw.len(), |i: int| raw[i] as char))
    } else {
        None
    }
}

/// The parts of a parsed URI that the relay looks at.
#[derive(Debug)]
pub struct UriParts {
    /// The scheme, when the URI has one.
    pub scheme: Option<String>,
    /// The host, when the URI has an authority.
    pub host: Option<String>,
}

/// The mathematical form of `UriParts`.
pub struct UriPartsView {
    pub scheme: Option<Seq<char>>,
    pub host: Option<Seq<char>>,
}

impl View for UriParts {
    type V = UriPartsView;

    open spec fn view(&self) -> UriPartsView {
        UriPartsView { scheme: self.scheme.deep_view(), host: self.host.deep_view() }
    }
}

/// The mathematical form of parts that may be absent.
pub open spec fn parts_view(parts: Option<UriParts>) -> Option<UriPartsView> {
    match parts {
        Some(found) => Some(found@),
        None => None,
    }
}

/// What parsing a text as a URI yields: nothing when the text is not a URI,
/// else the scheme and host found in it.
pub uninterp spec fn uri_parts_of(text: Seq<char>) -> Option<UriPartsView>;

/// An absolute URI: it parsed, and has a scheme and a non-empty host.
pub open spec fn is_absolute(parts: Option<UriPartsView>) -> bool {
    &&& parts matches Some(found)
    &&& found.scheme is Some
    &&& found.host matches Some(host)
    &&& host.len() > 0
}

/// A text that can stand as the target of a relayed call.
pub open spec fn target_acceptable(url: Seq<char>) -> bool {
    is_absolute(uri_parts_of(url))
}

/// Calls `HeaderName::from_bytes` on the text's bytes and reads the name
/// back with `HeaderName::as_str`. Claimed: the call succeeds exactly on
/// texts of 1 to 65535 characters drawn from the header-name alphabet, and
/// the name read back is the text with its ASCII upper-case letters folded
/// to lower case.
#[verifier::external_body]
pub(crate) fn header_name_form(name: &str) -> (form: Option<String>)
    ensures
        form.deep_view() == encoded_name(name@),
{
    match hyper::header::HeaderName::from_bytes(name.as_bytes()) {
        Ok(parsed) => Some(parsed.as_str().to_owned()),
        Err(_) => None,
    }
}

/// Calls `HeaderValue::from_str`. Claimed: the call succeeds exactly when
/// no character of the text is a control character other than the tab.
#[verifier::external_body]
pub(crate) fn header_value_accepted(value: &str) -> (accepted: bool)
    ensures
        accepted == value_encodable(value@),
{
    hyper::header::HeaderValue::from_str(value).is_ok()
}

/// Calls `HeaderValue::from_bytes` and then `HeaderValue::to_str`.
/// Claimed: a text comes back exactly when every byte is printable ASCII
/// or a tab, and it is then the bytes read as ASCII characters.
#[verifier::external_body]
pub(crate) fn header_value_text(raw: &[u8]) -> (text: Option<String>)
    ensures
        text.deep_view() == visible_text(raw@),
{
    match hyper::header::HeaderValue::from_bytes(raw) {
        Ok(value) => match value.to_str() {
            Ok(text) => Some(text.to_owned()),
            Err(_) => None,
        },
        Err(_) => None,
    }
}

/// Parses the text as a `hyper::Uri` and reads its scheme and host.
/// The contract only names the result: what comes back is a function of the
/// text alone.
#[verifier::external_body]
pub(crate) fn parse_uri(text: &str) -> (parts: Option<UriParts>)
    ensures
        parts_view(parts) == uri_parts_of(text@),
{
    match text.parse::<hyper::Uri>() {
        Ok(uri) => Some(
            UriParts {
                scheme: uri.scheme_str().map(str::to_owned),
                host: uri.host().map(str::to_owned),
            },
        ),
        Err(_) => None,
    }
}

/// Calls `String::from_utf8`. Claimed: a text comes back exactly when the
/// bytes are valid UTF-8, and it is then the text those bytes encode.
#[verifier::external_body]
pub(crate) fn text_of_bytes(bytes: Vec<u8>) -> (text: Option<String>)
    ensures
        text.deep_view() == decoded_text(bytes@),
{
    String::from_utf8(bytes).ok()
}

/// Decides whether parsed URI parts make an absolute URI: a scheme and a
/// non-empty host must both be there.
pub fn has_scheme_and_host(parts: &Option<UriParts>) -> (absolute: bool)
    ensures
        absolute == is_absolute(parts_view(*parts)),
{
    match parts {
        Some(found) => match (&found.scheme, &found.host) {
            (Some(_), Some(host)) => !host.as_str().is_empty(),
            _ => false,
        },
        None => false,
    }
}

/// Decides whether a text can stand as the target of a relayed call: it
/// must parse as a URI and have a scheme and a non-empty host.
pub fn is_acceptable_target(url: &str) -> (acceptable: bool)
    ensures
        acceptable == target_acceptable(url@),
{
    let parts = parse_uri(url);
    has_scheme_and_host(&parts)
}

/// Encodes one header for the transport: the name in lower case with the
/// value unchanged, or nothing when name or value cannot be written as an
/// HTTP header.
pub fn encode_header(name: &str, value: &str) -> (encoded: Option<(String, String)>)
    ensures
        encoded.deep_view() == encoded_header(name@, value@),
{
    match header_name_form(name) {
        Some(lower) => {
            if header_value_accepted(value) {
                Some((lower, value.to_owned()))
            } else {
                None
            }
        },
        None => None,
    }
}

/// The transport form of one header, or nothing when its name or its value
/// cannot be written as an HTTP header.
pub open spec fn encoded_header(name: Seq<char>, value: Seq<char>) -> Option<
    (Seq<char>, Seq<char>),
> {
    match encoded_name(name) {
        Some(lower) => if value_encodable(value) {
            Some((lower, value))
        } else {
            None
        },
        None => None,
    }
}

/// Reads a raw header value as text; a value that does not read as text
/// becomes the empty text.
pub fn decode_header_value(raw: &[u8]) -> (text: String)
    ensures
        text@ == decoded_value(raw@),
{
    match header_value_text(raw) {
        Some(text) => text,
        None => String::new(),
    }
}

/// The text of a raw header value, with the empty text standing for a value
/// that does not read as text.
pub open spec fn decoded_value(raw: Seq<u8>) -> Seq<char> {
    match visible_text(raw) {
        Some(text) => text,
        None => Seq::empty(),
    }
}

/// The text that a body encodes in UTF-8, if it is valid UTF-8.
pub open spec fn decoded_text(bytes: Seq<u8>) -> Option<Seq<char>> {
    if vstd::utf8::valid_utf8(bytes) {
        Some(vstd::utf8::decode_utf8(bytes))
    } else {
        None
    }
}

} // verus!
