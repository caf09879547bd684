use vstd::prelude::*;

use crate::text::{decimal, push_decimal, push_signed_decimal, signed_decimal};

verus! {

/// A field that a request's JSON input must carry.
#[derive(Clone, Copy, Debug, PartialEq, Eq, Structural)]
pub enum Field {
    Path,
    StartPath,
    Id,
}

/// Everything that can go wrong in a call, each with the text the caller
/// receives (see [`GixError::message`]).
#[derive(Clone, Debug, PartialEq, Eq)]
pub enum GixError {
    /// A handle that does not fit in 32 bits.
    IdOutOfRange(u64),
    /// A handle that names no open repository.
    InvalidRepoId(u32),
    /// A negative (or, on a 32-bit target, too large) commit limit.
    MaxOutOfRange(i64),
    /// The request's JSON lacks a field of the expected kind.
    MissingField(Field),
    /// The request's input is not JSON; the parser's own message.
    Json(String),
    /// An operation name that the extension does not know.
    UnknownOp(String),
    /// HEAD points at a commit, not at a branch.
    HeadDetached,
    /// The lock around the repository table was poisoned.
    LockPoisoned,
    /// A failure reported by the git library; its own message.
    Git(String),
}

/// [`GixError`] with its texts taken by their views.
pub enum ErrorModel {
    IdOutOfRange(u64),
    InvalidRepoId(u32),
    MaxOutOfRange(i64),
    MissingField(Field),
    Json(Seq<char>),
    UnknownOp(Seq<char>),
    HeadDetached,
    LockPoisoned,
    Git(Seq<char>),
}

impl View for GixError {
    type V = ErrorModel;

    open spec fn view(&self) -> ErrorModel {
        match self {
            GixError::IdOutOfRange(n) => ErrorModel::IdOutOfRange(*n),
            GixError::InvalidRepoId(n) => ErrorModel::InvalidRepoId(*n),
            GixError::MaxOutOfRange(n) => ErrorModel::MaxOutOfRange(*n),
            GixError::MissingField(f) => ErrorModel::MissingField(*f),
            GixError::Json(m) => ErrorModel::Json(m@),
            GixError::UnknownOp(op) => ErrorModel::UnknownOp(op@),
            GixError::HeadDetached => ErrorModel::HeadDetached,
            GixError::LockPoisoned => ErrorModel::LockPoisoned,
            GixError::Git(m) => ErrorModel::Git(m@),
        }
    }
}

/// The JSON key of a field.
pub open spec fn field_name(f: Field) -> Seq<char> {
    match f {
        Field::Path => "path"@,
        Field::StartPath => "start_path"@,
        Field::Id => "id"@,
    }
}

/// The text of an error.
pub open spec fn error_message(e: ErrorModel) -> Seq<char> {
    match e {
        ErrorModel::IdOutOfRange(n) => "id out of range: "@ + decimal(n as nat),
        ErrorModel::InvalidRepoId(n) => "invalid repo id "@ + decimal(n as nat),
        ErrorModel::MaxOutOfRange(n) => "max out of range: "@ + signed_decimal(n as int),
        ErrorModel::MissingField(f) => "missing '"@ + field_name(f) + "'"@,
        ErrorModel::Json(m) => m,
        ErrorModel::UnknownOp(op) => "unknown gix op: "@ + op,
        ErrorModel::HeadDetached => "HEAD is detached"@,
        ErrorModel::LockPoisoned => "gix lock poisoned"@,
        ErrorModel::Git(m) => m,
    }
}

fn field_str(f: Field) -> (s: &'static str)
    ensures
        s@ == field_name(f),
{
    match f {
        Field::Path => "path",
        Field::StartPath => "start_path",
        Field::Id => "id",
    }
}

impl GixError {
    /// The text that the caller receives for this error.
    pub fn message(&self) -> (m: String)
        ensures
            m@ == error_message(self@),
    {
        match self {
            GixError::IdOutOfRange(n) => {
                let mut m = String::from_str("id out of range: ");
                push_decimal(&mut m, *n);
                m
            },
            GixError::InvalidRepoId(n) => {
                let mut m = String::from_str("invalid repo id ");
                push_decimal(&mut m, *n as u64);
                m
            },
            GixError::MaxOutOfRange(n) => {
                let mut m = String::from_str("max out of range: ");
                push_signed_decimal(&mut m, *n);
                m
            },
            GixError::MissingField(f) => {
                let mut m = String::from_str("missing '");
                m.append(field_str(*f));
                m.append("'");
                m
            },
            GixError::Json(m) => m.clone(),
            GixError::UnknownOp(op) => {
                let mut m = String::from_str("unknown gix op: ");
                m.append(op.as_str());
                m
            },
            GixError::HeadDetached => String::from_str("HEAD is detached"),
            GixError::LockPoisoned => String::from_str("gix lock poisoned"),
            GixError::Git(m) => m.clone(),
        }
    }
}

/// The text of each error: a handle or a limit is written out in decimal
/// after a fixed lead-in, a missing field is named in quotes, an unknown
/// operation is quoted after its lead-in, and the parser's and the git
/// library's messages are passed on unchanged.
pub proof fn law_error_texts(n: u64, id: u32, max: i64, text: Seq<char>)
    ensures
        error_message(ErrorModel::IdOutOfRange(n)) == "id out of range: "@ + decimal(n as nat),
        error_message(ErrorModel::InvalidRepoId(id)) == "invalid repo id "@ + decimal(id as nat),
        error_message(ErrorModel::MaxOutOfRange(max)) == "max out of range: "@ + signed_decimal(
            max as int,
        ),
        error_message(ErrorModel::MissingField(Field::Path)) == "missing 'path'"@,
        error_message(ErrorModel::MissingField(Field::StartPath)) == "missing 'start_path'"@,
        error_message(ErrorModel::MissingField(Field::Id)) == "missing 'id'"@,
        error_message(ErrorModel::UnknownOp(text)) == "unknown gix op: "@ + text,
        error_message(ErrorModel::Json(text)) == text,
        error_message(ErrorModel::Git(text)) == text,
        error_message(ErrorModel::HeadDetached) == "HEAD is detached"@,
        error_message(ErrorModel::LockPoisoned) == "gix lock poisoned"@,
{
    reveal_strlit("missing 'path'");
    reveal_strlit("missing 'start_path'");
    reveal_strlit("missing 'id'");
    reveal_strlit("missing '");
    reveal_strlit("'");
    reveal_strlit("path");
    reveal_strlit("start_path");
    reveal_strlit("id");
    assert("missing 'path'"@ =~= "missing '"@ + "path"@ + "'"@);
    assert("missing 'start_path'"@ =~= "missing '"@ + "start_path"@ + "'"@);
    assert("missing 'id'"@ =~= "missing '"@ + "id"@ + "'"@);
}

} // verus!
