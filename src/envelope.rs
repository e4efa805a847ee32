use vstd::prelude::*;
use vstd::string::*;

verus! {

/// The eight operations that the server understands.
#[derive(Debug, Clone, Copy, PartialEq, Eq)]
pub enum Action {
    Create,
    CreateMany,
    FindUnique,
    FindMany,
    UpdateUnique,
    UpdateMany,
    DeleteUnique,
    DeleteMany,
}

/// The operation's name as it appears in the `action` field.
pub open spec fn action_name(a: Action) -> Seq<char> {
    match a {
        Action::Create => "create"@,
        Action::CreateMany => "createMany"@,
        Action::FindUnique => "findUnique"@,
        Action::FindMany => "findMany"@,
        Action::UpdateUnique => "updateUnique"@,
        Action::UpdateMany => "updateMany"@,
        Action::DeleteUnique => "deleteUnique"@,
        Action::DeleteMany => "deleteMany"@,
    }
}

/// Whether the operation sends a data payload.
pub open spec fn carries_data(a: Action) -> bool {
    match a {
        Action::Create | Action::CreateMany | Action::UpdateUnique | Action::UpdateMany => true,
        _ => false,
    }
}

/// Whether the operation sends a `where` constraint.
pub open spec fn carries_where(a: Action) -> bool {
    match a {
        Action::Create | Action::CreateMany => false,
        _ => true,
    }
}

impl Action {
    pub fn name(&self) -> (r: &'static str)
        ensures
            r@ == action_name(*self),
    {
        match self {
            Action::Create => "create",
            Action::CreateMany => "createMany",
            Action::FindUnique => "findUnique",
            Action::FindMany => "findMany",
            Action::UpdateUnique => "updateUnique",
            Action::UpdateMany => "updateMany",
            Action::DeleteUnique => "deleteUnique",
            Action::DeleteMany => "deleteMany",
        }
    }
}

/// A lowercase hexadecimal digit.
pub open spec fn hex_digit(n: u32) -> char {
    seq!['0', '1', '2', '3', '4', '5', '6', '7', '8', '9', 'a', 'b', 'c', 'd', 'e', 'f'][n as int]
}

/// How one character is written inside a JSON string: `"` and `\` escaped,
/// the usual control characters as `\b \t \n \f \r`, the other control
/// characters as `\u00XX`, everything else as itself.
pub open spec fn escaped_char(c: char) -> Seq<char> {
    if c == '"' {
        seq!['\\', '"']
    } else if c == '\\' {
        seq!['\\', '\\']
    } else if c == '\u{8}' {
        seq!['\\', 'b']
    } else if c == '\t' {
        seq!['\\', 't']
    } else if c == '\n' {
        seq!['\\', 'n']
    } else if c == '\u{c}' {
        seq!['\\', 'f']
    } else if c == '\r' {
        seq!['\\', 'r']
    } else if (c as u32) < 0x20 {
        seq!['\\', 'u', '0', '0', hex_digit((c as u32) / 16), hex_digit((c as u32) % 16)]
    } else {
        seq![c]
    }
}

pub open spec fn escaped_text(s: Seq<char>) -> Seq<char>
    decreases s.len(),
{
    if s.len() == 0 {
        Seq::empty()
    } else {
        escaped_text(s.drop_last()) + escaped_char(s.last())
    }
}

/// The JSON string literal for `s`: its escaped text between quotes.
pub open spec fn json_string_literal(s: Seq<char>) -> Seq<char> {
    seq!['"'] + escaped_text(s) + seq!['"']
}

/// Relies on serde_json's `Display` for `Value::String`: it writes the string
/// as one JSON string literal, escaped by serde_json's fixed table.
#[verifier::external_body]
fn json_quote(s: &str) -> (r: String)
    ensures
        r@ == json_string_literal(s@),
{
    serde_json::Value::from(s).to_string()
}

/// A payload slot of the envelope: the caller's JSON text, or `null`.
pub open spec fn slot_text(payload: Option<Seq<char>>) -> Seq<char> {
    match payload {
        Some(text) => text,
        None => "null"@,
    }
}

/// The request envelope as one JSON object:
/// `{"action":<name>,"table":<table>,"data":<data|null>,"where":<where|null>}`.
pub open spec fn frame_text(
    a: Action,
    quoted_table: Seq<char>,
    data: Option<Seq<char>>,
    where_constraint: Option<Seq<char>>,
) -> Seq<char> {
    "{\"action\":\""@ + action_name(a) + "\",\"table\":"@ + quoted_table + ",\"data\":"@
        + slot_text(data) + ",\"where\":"@ + slot_text(where_constraint) + "}"@
}

pub open spec fn opt_view(o: Option<&str>) -> Option<Seq<char>> {
    match o {
        Some(s) => Some(s@),
        None => None,
    }
}

/// Writes the request envelope around an already-quoted table name.
pub fn frame_with_quoted_table(
    a: Action,
    quoted_table: &str,
    data: Option<&str>,
    where_constraint: Option<&str>,
) -> (r: String)
    ensures
        r@ == frame_text(a, quoted_table@, opt_view(data), opt_view(where_constraint)),
{
    let mut out = String::from_str("{\"action\":\"");
    out.append(a.name());
    out.append("\",\"table\":");
    out.append(quoted_table);
    out.append(",\"data\":");
    match data {
        Some(text) => out.append(text),
        None => out.append("null"),
    }
    out.append(",\"where\":");
    match where_constraint {
        Some(text) => out.append(text),
        None => out.append("null"),
    }
    out.append("}");
    out
}

/// The text frame of one request. Payloads are the caller's JSON texts; an
/// absent one is written as `null`.
pub fn request_frame(
    a: Action,
    table: &str,
    data: Option<&str>,
    where_constraint: Option<&str>,
) -> (r: String)
    ensures
        r@ == frame_text(a, json_string_literal(table@), opt_view(data), opt_view(where_constraint)),
{
    let quoted = json_quote(table);
    frame_with_quoted_table(a, quoted.as_str(), data, where_constraint)
}

} // verus!
