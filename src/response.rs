use vstd::prelude::*;
use crate::deepl::{DeepLError, TraduError};
use crate::json::{element_spec, json_parsed, member_spec, parse_json, text_spec, JsonModel};

verus! {

/// What `std::str::from_utf8` makes of a byte sequence: its text, or `None`
/// where the bytes are not UTF-8.
pub uninterp spec fn utf8_decoded(b: Seq<u8>) -> Option<Seq<char>>;

/// Relies on `std::str::from_utf8`, to read the service's reply as text.
#[verifier::external_body]
fn utf8_text(bytes: &[u8]) -> (r: Option<String>)
    ensures
        r is Some <==> utf8_decoded(bytes@) is Some,
        r is Some ==> Some(r->Some_0@) == utf8_decoded(bytes@),
{
    std::str::from_utf8(bytes).ok().map(String::from)
}

/// What a reply of the service says, as far as a run reads it.
#[derive(Debug, Clone)]
pub struct ReplyShape {
    /// `None` where the reply has no `error` member; otherwise the text of the
    /// error's `message`, if it has one.
    pub error: Option<Option<String>>,
    /// The text of the reply's first translation, if it has one.
    pub first_text: Option<String>,
}

/// The abstract value of a `ReplyShape`.
pub ghost struct ShapeModel {
    pub error: Option<Option<Seq<char>>>,
    pub first_text: Option<Seq<char>>,
}

pub open spec fn shape_view(s: ReplyShape) -> ShapeModel {
    ShapeModel {
        error: match s.error {
            Some(m) => Some(
                match m {
                    Some(t) => Some(t@),
                    None => None,
                },
            ),
            None => None,
        },
        first_text: match s.first_text {
            Some(t) => Some(t@),
            None => None,
        },
    }
}

/// The text of the string at member `key` of `j`, if there is one.
pub open spec fn member_text(j: JsonModel, key: Seq<char>) -> Option<Seq<char>> {
    match member_spec(j, key) {
        Some(v) => text_spec(v),
        None => None,
    }
}

/// What a reply document says: whether it has an `error` member, and the
/// text of that error's `message`; the text of `translations[0].text`. A
/// text that is not JSON says neither.
pub open spec fn reply_of(doc: Option<JsonModel>) -> ShapeModel {
    match doc {
        None => ShapeModel { error: None, first_text: None },
        Some(d) => ShapeModel {
            error: match member_spec(d, "error"@) {
                Some(e) => Some(member_text(e, "message"@)),
                None => None,
            },
            first_text: match member_spec(d, "translations"@) {
                Some(list) => match element_spec(list, 0) {
                    Some(item) => member_text(item, "text"@),
                    None => None,
                },
                None => None,
            },
        },
    }
}

/// The outcome of a reply: an error reported by the service comes first, then
/// the first translation; a reply with neither breaks the protocol.
pub open spec fn outcome_holds(shape: ShapeModel, r: Result<String, TraduError>) -> bool {
    match shape.error {
        Some(Some(m)) => r is Err && r->Err_0 is Api && r->Err_0->Api_0.message@ == m,
        Some(None) => r is Err && r->Err_0 is Protocol,
        None => match shape.first_text {
            Some(t) => r is Ok && r->Ok_0@ == t,
            None => r is Err && r->Err_0 is Protocol,
        },
    }
}

/// The outcome that a reply of the given shape yields.
pub fn outcome_of(shape: ReplyShape) -> (r: Result<String, TraduError>)
    ensures
        outcome_holds(shape_view(shape), r),
{
    match shape.error {
        Some(Some(m)) => Err(TraduError::Api(DeepLError::new(m.as_str()))),
        Some(None) => Err(TraduError::Protocol),
        None => match shape.first_text {
            Some(t) => Ok(t),
            None => Err(TraduError::Protocol),
        },
    }
}

/// Reads the parts of a reply that decide its outcome: the `error` member and
/// its `message`, and `translations[0].text`. Text that is not JSON has
/// neither.
pub fn read_reply(body: &str) -> (r: ReplyShape)
    ensures
        shape_view(r) == reply_of(json_parsed(body@)),
{
    match parse_json(body) {
        None => ReplyShape { error: None, first_text: None },
        Some(data) => {
            let error = match data.member("error") {
                Some(e) => match e.member("message") {
                    Some(m) => Some(m.text()),
                    None => Some(None),
                },
                None => None,
            };
            let first_text = match data.member("translations") {
                Some(list) => match list.element(0) {
                    Some(item) => match item.member("text") {
                        Some(t) => t.text(),
                        None => None,
                    },
                    None => None,
                },
                None => None,
            };
            ReplyShape { error, first_text }
        },
    }
}

/// The outcome of a reply given as text.
pub fn interpret_body(body: &str) -> (r: Result<String, TraduError>)
    ensures
        outcome_holds(reply_of(json_parsed(body@)), r),
{
    outcome_of(read_reply(body))
}

/// The outcome of a reply given as bytes: bytes that are not UTF-8 break the
/// protocol, any other reply is read as text.
pub fn interpret_response(bytes: &[u8]) -> (r: Result<String, TraduError>)
    ensures
        match utf8_decoded(bytes@) {
            None => r is Err && r->Err_0 is Protocol,
            Some(text) => outcome_holds(reply_of(json_parsed(text)), r),
        },
{
    match utf8_text(bytes) {
        Some(text) => interpret_body(text.as_str()),
        None => Err(TraduError::Protocol),
    }
}

} // verus!
