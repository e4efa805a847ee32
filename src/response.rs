use vstd::prelude::*;
use vstd::string::*;

use crate::errors::TdbError;

verus! {

#[verifier::external_type_specification]
#[verifier::external_body]
pub struct ExJsonValue(serde_json::Value);

/// What the inbound stream yielded after a request was sent.
pub enum Reply {
    /// The stream ended without a frame.
    Closed,
    /// The stream failed before a frame arrived.
    Failed(String),
    /// A text frame.
    Text(String),
    /// A frame that carries no text.
    NotText,
}

/// A reply whose data is one record.
pub struct TdbResponse {
    pub status: u32,
    pub message: String,
    pub data: Option<serde_json::Value>,
    pub request_id: Option<u64>,
}

/// A reply whose data is a list of records.
pub struct TdbResponseMany {
    pub status: u32,
    pub message: String,
    pub data: Option<Vec<serde_json::Value>>,
    pub request_id: Option<u64>,
}

/// Whether serde_json accepts `s` as one JSON document.
pub uninterp spec fn json_text_valid(s: Seq<char>) -> bool;

/// Relies on `serde_json::from_str::<Value>`: it succeeds exactly on valid
/// JSON text, which depends on the text alone.
#[verifier::external_body]
fn check_json(text: &str) -> (r: Result<(), String>)
    ensures
        r is Ok <==> json_text_valid(text@),
{
    serde_json::from_str::<serde_json::Value>(text).map(|_| ()).map_err(|e| e.to_string())
}

/// Whether the JSON text `text` has a member `key`: what `Value::get` finds
/// on the parsed document.
pub uninterp spec fn member_present_of(text: Seq<char>, key: Seq<char>) -> bool;

/// What `Value::as_u64` gives on the member `key` of the JSON text `text`
/// (`None` where the member is absent).
pub uninterp spec fn member_u64_of(text: Seq<char>, key: Seq<char>) -> Option<u64>;

/// What `Value::as_str` gives on the member `key` of the JSON text `text`
/// (`None` where the member is absent).
pub uninterp spec fn member_str_of(text: Seq<char>, key: Seq<char>) -> Option<Seq<char>>;

/// What `Value::is_null` gives on the member `key` of the JSON text `text`
/// (`false` where the member is absent).
pub uninterp spec fn member_null_of(text: Seq<char>, key: Seq<char>) -> bool;

/// The length of what `Value::as_array` gives on the member `key` of the
/// JSON text `text` (`None` where the member is absent or not a list).
pub uninterp spec fn member_list_len_of(text: Seq<char>, key: Seq<char>) -> Option<nat>;

/// Relies on `serde_json::from_str::<Value>` and `Value::get`: the member
/// `key` of the parsed document.
#[verifier::external_body]
fn json_member(text: &str, key: &str) -> (r: Option<serde_json::Value>)
    ensures
        r is Some <==> member_present_of(text@, key@),
{
    serde_json::from_str::<serde_json::Value>(text).ok().and_then(|doc| doc.get(key).cloned())
}

/// Relies on `serde_json::from_str::<Value>`, `Value::get` and `Value::as_u64`.
#[verifier::external_body]
fn json_member_u64(text: &str, key: &str) -> (r: Option<u64>)
    ensures
        r == member_u64_of(text@, key@),
{
    serde_json::from_str::<serde_json::Value>(text).ok().and_then(|doc| doc.get(key).and_then(|v| v.as_u64()))
}

/// Relies on `serde_json::from_str::<Value>`, `Value::get` and `Value::as_str`.
#[verifier::external_body]
fn json_member_str(text: &str, key: &str) -> (r: Option<String>)
    ensures
        match r {
            Some(s) => member_str_of(text@, key@) == Some(s@),
            None => member_str_of(text@, key@) is None,
        },
{
    serde_json::from_str::<serde_json::Value>(text).ok().and_then(
        |doc| doc.get(key).and_then(|v| v.as_str()).map(|s| s.to_string()),
    )
}

/// Relies on `serde_json::from_str::<Value>`, `Value::get` and `Value::is_null`.
#[verifier::external_body]
fn json_member_is_null(text: &str, key: &str) -> (r: bool)
    ensures
        r == member_null_of(text@, key@),
{
    serde_json::from_str::<serde_json::Value>(text).ok().is_some_and(|doc| doc.get(key).is_some_and(|v| v.is_null()))
}

/// Relies on `serde_json::from_str::<Value>`, `Value::get` and
/// `Value::as_array`: the items of the member `key`, in order.
#[verifier::external_body]
fn json_member_list(text: &str, key: &str) -> (r: Option<Vec<serde_json::Value>>)
    ensures
        match r {
            Some(items) => member_list_len_of(text@, key@) == Some(items@.len()),
            None => member_list_len_of(text@, key@) is None,
        },
{
    serde_json::from_str::<serde_json::Value>(text).ok().and_then(|doc| doc.get(key).and_then(|v| v.as_array().cloned()))
}

/// Takes the text out of the reply to a request: a stream that ended or
/// failed gives `NoResponse`, a frame without text `DecodeFailed`.
pub fn reply_text(reply: Reply) -> (r: Result<String, TdbError>)
    ensures
        match reply {
            Reply::Closed => r == Err::<String, TdbError>(TdbError::NoResponse),
            Reply::Failed(_) => r == Err::<String, TdbError>(TdbError::NoResponse),
            Reply::Text(t) => r == Ok::<String, TdbError>(t),
            Reply::NotText => r matches Err(TdbError::DecodeFailed(_)),
        },
{
    match reply {
        Reply::Closed => Err(TdbError::NoResponse),
        Reply::Failed(_) => Err(TdbError::NoResponse),
        Reply::Text(t) => Ok(t),
        Reply::NotText => Err(TdbError::DecodeFailed(String::from_str("reply frame is not text"))),
    }
}

/// The `message` member of a reply, as read from its JSON text.
pub enum TextMember {
    Missing,
    Null,
    Text(String),
    NotText,
}

/// The `data` member of a list reply, as read from its JSON text.
pub enum ListMember {
    /// Absent, or `null`.
    Missing,
    List(Vec<serde_json::Value>),
    NotList,
}

/// The status code that a `status` member gives, where it fits one.
pub open spec fn status_code(status: Option<u64>) -> Option<u32> {
    match status {
        Some(n) => if n <= u32::MAX { Some(n as u32) } else { None },
        None => None,
    }
}

/// The message that a `message` member gives: absent or `null` reads as empty.
pub open spec fn message_text(m: TextMember) -> Option<Seq<char>> {
    match m {
        TextMember::Missing => Some(Seq::empty()),
        TextMember::Null => Some(Seq::empty()),
        TextMember::Text(t) => Some(t@),
        TextMember::NotText => None,
    }
}

fn read_status(status: Option<u64>) -> (r: Result<u32, TdbError>)
    ensures
        match status_code(status) {
            Some(code) => r == Ok::<u32, TdbError>(code),
            None => r matches Err(TdbError::DecodeFailed(_)),
        },
{
    match status {
        Some(n) => {
            if n <= u32::MAX as u64 {
                Ok(n as u32)
            } else {
                Err(TdbError::DecodeFailed(String::from_str("status is not a status code")))
            }
        },
        None => Err(TdbError::DecodeFailed(String::from_str("status is missing"))),
    }
}

fn read_message(m: TextMember) -> (r: Result<String, TdbError>)
    ensures
        match message_text(m) {
            Some(text) => r is Ok && r->Ok_0@ == text,
            None => r matches Err(TdbError::DecodeFailed(_)),
        },
{
    match m {
        TextMember::Missing => Ok(String::new()),
        TextMember::Null => Ok(String::new()),
        TextMember::Text(t) => Ok(t),
        TextMember::NotText => Err(TdbError::DecodeFailed(String::from_str("message is not a string"))),
    }
}

/// Builds a one-record reply from its members. The status must fit a status
/// code and the message be a string where present.
pub fn response_from_members(
    status: Option<u64>,
    message: TextMember,
    data: Option<serde_json::Value>,
    request_id: Option<u64>,
) -> (r: Result<TdbResponse, TdbError>)
    ensures
        status_code(status) is Some && message_text(message) is Some <==> r is Ok,
        r is Ok ==> r->Ok_0.status == status_code(status)->Some_0 && r->Ok_0.message@ == message_text(
            message,
        )->Some_0 && r->Ok_0.data == data && r->Ok_0.request_id == request_id,
        r is Err ==> r->Err_0 is DecodeFailed,
{
    let status = read_status(status)?;
    let message = read_message(message)?;
    Ok(TdbResponse { status, message, data, request_id })
}

/// Builds a list reply from its members. The status must fit a status code,
/// the message be a string and the data a list where present; the records
/// keep their order.
pub fn response_many_from_members(
    status: Option<u64>,
    message: TextMember,
    data: ListMember,
    request_id: Option<u64>,
) -> (r: Result<TdbResponseMany, TdbError>)
    ensures
        status_code(status) is Some && message_text(message) is Some && !(data is NotList) <==> r is Ok,
        r is Ok ==> r->Ok_0.status == status_code(status)->Some_0 && r->Ok_0.message@ == message_text(
            message,
        )->Some_0 && r->Ok_0.request_id == request_id && match data {
            ListMember::List(items) => r->Ok_0.data == Some(items),
            _ => r->Ok_0.data is None,
        },
        r is Err ==> r->Err_0 is DecodeFailed,
{
    let status = read_status(status)?;
    let message = read_message(message)?;
    let records = match data {
        ListMember::Missing => None,
        ListMember::List(items) => Some(items),
        ListMember::NotList => return Err(TdbError::DecodeFailed(String::from_str("data is not a list"))),
    };
    Ok(TdbResponseMany { status, message, data: records, request_id })
}

/// The status member of a reply text.
pub open spec fn reply_status_of(text: Seq<char>) -> Option<u64> {
    member_u64_of(text, "status"@)
}

/// The message of a reply text: a string member, or empty where the member
/// is absent or `null`; `None` where it is anything else.
pub open spec fn reply_message_of(text: Seq<char>) -> Option<Seq<char>> {
    match member_str_of(text, "message"@) {
        Some(m) => Some(m),
        None => if !member_present_of(text, "message"@) || member_null_of(text, "message"@) {
            Some(Seq::empty())
        } else {
            None
        },
    }
}

/// Whether a reply text carries data: the member is present and not `null`.
pub open spec fn reply_has_data(text: Seq<char>) -> bool {
    member_present_of(text, "data"@) && !member_null_of(text, "data"@)
}

pub open spec fn reply_request_id_of(text: Seq<char>) -> Option<u64> {
    member_u64_of(text, "__tdb_client_req_id__"@)
}

fn message_member(text: &str) -> (r: TextMember)
    ensures
        message_text(r) == reply_message_of(text@),
{
    match json_member_str(text, "message") {
        Some(t) => TextMember::Text(t),
        None => {
            if json_member(text, "message").is_none() {
                TextMember::Missing
            } else if json_member_is_null(text, "message") {
                TextMember::Null
            } else {
                TextMember::NotText
            }
        },
    }
}

/// Decodes a reply whose data is one record. An absent or `null` message
/// reads as empty, an absent or `null` data member as `None`.
pub fn decode_response(text: &str) -> (r: Result<TdbResponse, TdbError>)
    ensures
        !json_text_valid(text@) ==> r matches Err(TdbError::DecodeFailed(_)),
        json_text_valid(text@) ==> (r is Ok <==> status_code(reply_status_of(text@)) is Some
            && reply_message_of(text@) is Some),
        r is Ok ==> r->Ok_0.status == status_code(reply_status_of(text@))->Some_0
            && r->Ok_0.message@ == reply_message_of(text@)->Some_0
            && (r->Ok_0.data is Some <==> reply_has_data(text@))
            && r->Ok_0.request_id == reply_request_id_of(text@),
        r is Err ==> r->Err_0 is DecodeFailed,
{
    if let Err(reason) = check_json(text) {
        return Err(TdbError::DecodeFailed(reason));
    }
    let data = if json_member_is_null(text, "data") {
        None
    } else {
        json_member(text, "data")
    };
    response_from_members(
        json_member_u64(text, "status"),
        message_member(text),
        data,
        json_member_u64(text, "__tdb_client_req_id__"),
    )
}

/// Decodes a reply whose data is a list of records, kept in the order sent.
/// A data member that is neither a list nor `null` is refused.
pub fn decode_response_many(text: &str) -> (r: Result<TdbResponseMany, TdbError>)
    ensures
        !json_text_valid(text@) ==> r matches Err(TdbError::DecodeFailed(_)),
        json_text_valid(text@) ==> (r is Ok <==> status_code(reply_status_of(text@)) is Some
            && reply_message_of(text@) is Some
            && (reply_has_data(text@) ==> member_list_len_of(text@, "data"@) is Some)),
        r is Ok ==> r->Ok_0.status == status_code(reply_status_of(text@))->Some_0
            && r->Ok_0.message@ == reply_message_of(text@)->Some_0
            && r->Ok_0.request_id == reply_request_id_of(text@)
            && match r->Ok_0.data {
                Some(items) => reply_has_data(text@) && member_list_len_of(text@, "data"@) == Some(items@.len()),
                None => !reply_has_data(text@),
            },
        r is Err ==> r->Err_0 is DecodeFailed,
{
    if let Err(reason) = check_json(text) {
        return Err(TdbError::DecodeFailed(reason));
    }
    let data = if json_member(text, "data").is_none() || json_member_is_null(text, "data") {
        ListMember::Missing
    } else {
        match json_member_list(text, "data") {
            Some(items) => ListMember::List(items),
            None => ListMember::NotList,
        }
    };
    response_many_from_members(
        json_member_u64(text, "status"),
        message_member(text),
        data,
        json_member_u64(text, "__tdb_client_req_id__"),
    )
}

} // verus!
