//! Errors answered by the API, and how database errors map onto them.

use vstd::prelude::*;
use crate::text::{decimal, push_decimal};

verus! {

/// HTTP status codes used by the API.
pub const NOT_FOUND: u16 = 404;
pub const CONFLICT: u16 = 409;
pub const INTERNAL_SERVER_ERROR: u16 = 500;

/// An error answered by the API: an HTTP status code and a message.
#[derive(Debug)]
pub struct ApiError {
    pub code: u16,
    pub message: String,
}

/// Which database error occurred, as far as the API tells them apart.
#[derive(Debug)]
pub enum DbErrKind {
    /// The record was not found; the message says which.
    RecordNotFound(String),
    RecordNotInserted,
    RecordNotUpdated,
    Other,
}

/// A constraint the database refused.
#[derive(Debug)]
pub enum SqlErr {
    /// A unique constraint was violated; the database's message.
    UniqueConstraintViolation(String),
    /// A foreign key constraint was violated; the database's message.
    ForeignKeyConstraintViolation(String),
}

/// A database error: its kind, its display text, and the constraint it
/// broke, if any.
#[derive(Debug)]
pub struct DbError {
    pub kind: DbErrKind,
    pub text: String,
    pub sql: Option<SqlErr>,
}

/// The lowercase hexadecimal digit for a value below sixteen.
pub open spec fn hex_digit(d: int) -> char {
    seq!['0', '1', '2', '3', '4', '5', '6', '7', '8', '9', 'a', 'b', 'c', 'd', 'e', 'f'][d]
}

/// How one character is written inside a JSON string: '"' and '\' behind
/// a backslash; backspace, form feed, line feed, carriage return and tab by
/// their short escapes; the other control characters below 0x20 as
/// `\u00XX` in lowercase hexadecimal; every other character as itself.
pub open spec fn json_escape(c: char) -> Seq<char> {
    if c == '"' {
        seq!['\\', '"']
    } else if c == '\\' {
        seq!['\\', '\\']
    } else if c == '\u{8}' {
        seq!['\\', 'b']
    } else if c == '\u{c}' {
        seq!['\\', 'f']
    } else if c == '\n' {
        seq!['\\', 'n']
    } else if c == '\r' {
        seq!['\\', 'r']
    } else if c == '\t' {
        seq!['\\', 't']
    } else if (c as int) < 0x20 {
        seq!['\\', 'u', '0', '0', hex_digit((c as int) / 16), hex_digit((c as int) % 16)]
    } else {
        seq![c]
    }
}

/// The characters of `s`, each written as inside a JSON string.
pub open spec fn json_escaped(s: Seq<char>) -> Seq<char>
    decreases s.len(),
{
    if s.len() == 0 {
        seq![]
    } else {
        json_escaped(s.drop_last()) + json_escape(s.last())
    }
}

/// The JSON string literal of `s`, as `serde_json` writes it: the escaped
/// characters between double quotes.
pub open spec fn json_string(s: Seq<char>) -> Seq<char> {
    seq!['"'] + json_escaped(s) + seq!['"']
}

/// Writes a string as a JSON string literal (`serde_json::to_string` on a
/// `&str`, which escapes through its ESCAPE table). Claimed: the result is
/// `json_string` of the text. Serializing a string cannot fail.
#[verifier::external_body]
fn to_json_string(s: &str) -> (r: String)
    ensures
        r@ == json_string(s@),
{
    match serde_json::to_string(s) {
        Ok(j) => j,
        Err(_) => String::new(),
    }
}

/// The text of an error: "<code>: <message>".
pub open spec fn spec_display(e: ApiError) -> Seq<char> {
    decimal(e.code as nat) + ": "@ + e.message@
}

/// The JSON body of an error response: its code, and its text as message.
pub open spec fn spec_body(e: ApiError) -> Seq<char> {
    "{\"code\":"@ + decimal(e.code as nat) + ",\"message\":"@ + json_string(spec_display(e)) + "}"@
}

/// The error for a database error: a missing record is 404 with its
/// message, a record not inserted or updated is 409, anything else is 500;
/// the last two carry the error's text.
pub open spec fn spec_from_db(e: DbError) -> (u16, Seq<char>) {
    match e.kind {
        DbErrKind::RecordNotFound(msg) => (NOT_FOUND, msg@),
        DbErrKind::RecordNotInserted => (CONFLICT, e.text@),
        DbErrKind::RecordNotUpdated => (CONFLICT, e.text@),
        DbErrKind::Other => (INTERNAL_SERVER_ERROR, e.text@),
    }
}

impl ApiError {
    /// An error with status `code` and message `msg`.
    pub fn from(code: u16, msg: String) -> (e: ApiError)
        ensures
            e.code == code,
            e.message@ == msg@,
    {
        ApiError { code, message: msg }
    }

    /// The error answered for a database error.
    pub fn from_db(err: &DbError) -> (e: ApiError)
        ensures
            (e.code, e.message@) == spec_from_db(*err),
    {
        match &err.kind {
            DbErrKind::RecordNotFound(msg) => ApiError::from(NOT_FOUND, msg.clone()),
            DbErrKind::RecordNotInserted => ApiError::from(CONFLICT, err.text.clone()),
            DbErrKind::RecordNotUpdated => ApiError::from(CONFLICT, err.text.clone()),
            DbErrKind::Other => ApiError::from(INTERNAL_SERVER_ERROR, err.text.clone()),
        }
    }

    /// The HTTP status of the error.
    pub fn status(&self) -> (s: u16)
        requires
            100 <= self.code <= 999,
        ensures
            s == self.code,
    {
        self.code
    }

    /// The text of the error: "<code>: <message>".
    pub fn display(&self) -> (s: String)
        ensures
            s@ == spec_display(*self),
    {
        let mut s = String::new();
        push_decimal(&mut s, self.code as u64);
        s.append(": ");
        s.append(self.message.as_str());
        proof {
            assert(s@ =~= spec_display(*self));
        }
        s
    }

    /// The JSON body of the error's response.
    pub fn response_body(&self) -> (b: String)
        ensures
            b@ == spec_body(*self),
    {
        let text = self.display();
        let mut b = "{\"code\":".to_owned();
        push_decimal(&mut b, self.code as u64);
        b.append(",\"message\":");
        let j = to_json_string(text.as_str());
        b.append(j.as_str());
        b.append("}");
        proof {
            assert(b@ =~= spec_body(*self));
        }
        b
    }
}

} // verus!
