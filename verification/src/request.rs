use vstd::prelude::*;

use crate::error::{ErrorModel, Field, GixError};
use crate::json::{
    json_get_i64, json_get_str, json_get_u64, json_i64_field, json_parse_error, json_str_field,
    json_u64_field, parse_json,
};

verus! {

broadcast use vstd::string::group_string_axioms;

/// An operation that a caller asks for, with its arguments.
#[derive(Clone, Debug, PartialEq, Eq)]
pub enum Request {
    Open { path: String },
    Init { path: String },
    Discover { start_path: String },
    Status { id: u64 },
    Branches { id: u64 },
    CurrentBranch { id: u64 },
    Head { id: u64 },
    HeadOid { id: u64 },
    Log { id: u64, max: i64 },
    IsBare { id: u64 },
    Workdir { id: u64 },
    RepoPath { id: u64 },
    Close { id: u64 },
}

/// [`Request`] with its texts taken by their views.
pub enum RequestModel {
    Open(Seq<char>),
    Init(Seq<char>),
    Discover(Seq<char>),
    Status(u64),
    Branches(u64),
    CurrentBranch(u64),
    Head(u64),
    HeadOid(u64),
    Log(u64, i64),
    IsBare(u64),
    Workdir(u64),
    RepoPath(u64),
    Close(u64),
}

impl View for Request {
    type V = RequestModel;

    open spec fn view(&self) -> RequestModel {
        match self {
            Request::Open { path } => RequestModel::Open(path@),
            Request::Init { path } => RequestModel::Init(path@),
            Request::Discover { start_path } => RequestModel::Discover(start_path@),
            Request::Status { id } => RequestModel::Status(*id),
            Request::Branches { id } => RequestModel::Branches(*id),
            Request::CurrentBranch { id } => RequestModel::CurrentBranch(*id),
            Request::Head { id } => RequestModel::Head(*id),
            Request::HeadOid { id } => RequestModel::HeadOid(*id),
            Request::Log { id, max } => RequestModel::Log(*id, *max),
            Request::IsBare { id } => RequestModel::IsBare(*id),
            Request::Workdir { id } => RequestModel::Workdir(*id),
            Request::RepoPath { id } => RequestModel::RepoPath(*id),
            Request::Close { id } => RequestModel::Close(*id),
        }
    }
}

/// The commit limit of a `log` request that gives none.
pub open spec fn default_log_max() -> i64 {
    50
}

/// What reading the handle from a request's input gives.
pub open spec fn id_outcome(input: Seq<char>) -> Result<u64, ErrorModel> {
    match json_parse_error(input) {
        Some(m) => Err(ErrorModel::Json(m)),
        None => match json_u64_field(input, "id"@) {
            Some(id) => Ok(id),
            None => Err(ErrorModel::MissingField(Field::Id)),
        },
    }
}

/// What reading a string field from a request's input gives.
pub open spec fn str_field_outcome(input: Seq<char>, field: Field, key: Seq<char>) -> Result<
    Seq<char>,
    ErrorModel,
> {
    match json_parse_error(input) {
        Some(m) => Err(ErrorModel::Json(m)),
        None => match json_str_field(input, key) {
            Some(s) => Ok(s),
            None => Err(ErrorModel::MissingField(field)),
        },
    }
}

/// The operations that take a handle alone, by name.
pub open spec fn id_op(op: Seq<char>, id: u64) -> Option<RequestModel> {
    if op == "status"@ {
        Some(RequestModel::Status(id))
    } else if op == "branches"@ {
        Some(RequestModel::Branches(id))
    } else if op == "current_branch"@ {
        Some(RequestModel::CurrentBranch(id))
    } else if op == "head"@ {
        Some(RequestModel::Head(id))
    } else if op == "head_oid"@ {
        Some(RequestModel::HeadOid(id))
    } else if op == "is_bare"@ {
        Some(RequestModel::IsBare(id))
    } else if op == "workdir"@ {
        Some(RequestModel::Workdir(id))
    } else if op == "repo_path"@ {
        Some(RequestModel::RepoPath(id))
    } else if op == "close"@ {
        Some(RequestModel::Close(id))
    } else {
        None
    }
}

/// The request that the operation `op` with the JSON input `input` stands
/// for, or the reason it stands for none.
pub open spec fn request_outcome(op: Seq<char>, input: Seq<char>) -> Result<
    RequestModel,
    ErrorModel,
> {
    if op == "open"@ {
        match str_field_outcome(input, Field::Path, "path"@) {
            Ok(p) => Ok(RequestModel::Open(p)),
            Err(e) => Err(e),
        }
    } else if op == "init"@ {
        match str_field_outcome(input, Field::Path, "path"@) {
            Ok(p) => Ok(RequestModel::Init(p)),
            Err(e) => Err(e),
        }
    } else if op == "discover"@ {
        match str_field_outcome(input, Field::StartPath, "start_path"@) {
            Ok(p) => Ok(RequestModel::Discover(p)),
            Err(e) => Err(e),
        }
    } else if op == "log"@ {
        match id_outcome(input) {
            Ok(id) => Ok(
                RequestModel::Log(
                    id,
                    match json_i64_field(input, "max"@) {
                        Some(m) => m,
                        None => default_log_max(),
                    },
                ),
            ),
            Err(e) => Err(e),
        }
    } else if id_op(op, 0) is Some {
        match id_outcome(input) {
            Ok(id) => Ok(id_op(op, id).unwrap()),
            Err(e) => Err(e),
        }
    } else {
        Err(ErrorModel::UnknownOp(op))
    }
}

fn is_op(op: &String, name: &str) -> (b: bool)
    ensures
        b == (op@ == name@),
{
    *op == String::from_str(name)
}

/// Reads the handle from a request's JSON input: the non-negative integer
/// under `"id"`.
pub fn parse_id(input: &str) -> (r: Result<u64, GixError>)
    ensures
        match r {
            Ok(id) => id_outcome(input@) == Ok::<u64, ErrorModel>(id),
            Err(e) => id_outcome(input@) == Err::<u64, ErrorModel>(e@),
        },
{
    let doc = match parse_json(input) {
        Ok(doc) => doc,
        Err(m) => return Err(GixError::Json(m)),
    };
    match json_get_u64(&doc, "id") {
        Some(id) => Ok(id),
        None => Err(GixError::MissingField(Field::Id)),
    }
}

fn parse_str_field(input: &str, field: Field, key: &str) -> (r: Result<String, GixError>)
    ensures
        match r {
            Ok(s) => str_field_outcome(input@, field, key@) == Ok::<Seq<char>, ErrorModel>(s@),
            Err(e) => str_field_outcome(input@, field, key@) == Err::<Seq<char>, ErrorModel>(e@),
        },
{
    let doc = match parse_json(input) {
        Ok(doc) => doc,
        Err(m) => return Err(GixError::Json(m)),
    };
    match json_get_str(&doc, key) {
        Some(s) => Ok(s),
        None => Err(GixError::MissingField(field)),
    }
}

fn parse_log(input: &str) -> (r: Result<Request, GixError>)
    ensures
        match r {
            Ok(req) => request_outcome("log"@, input@) == Ok::<RequestModel, ErrorModel>(req@),
            Err(e) => request_outcome("log"@, input@) == Err::<RequestModel, ErrorModel>(e@),
        },
        json_parse_error(input@) is None && json_u64_field(input@, "id"@) is Some ==> (r matches Ok(
            Request::Log { id, max },
        ) && id == json_u64_field(input@, "id"@)->0 && max == (match json_i64_field(
            input@,
            "max"@,
        ) {
            Some(m) => m,
            None => 50i64,
        })),
{
    proof {
        reveal_strlit("log");
        reveal_strlit("open");
        reveal_strlit("init");
        reveal_strlit("discover");
        assert("log"@.len() == 3);
        assert("log"@ != "open"@ && "log"@ != "init"@ && "log"@ != "discover"@);
    }
    let doc = match parse_json(input) {
        Ok(doc) => doc,
        Err(m) => return Err(GixError::Json(m)),
    };
    let id = match json_get_u64(&doc, "id") {
        Some(id) => id,
        None => return Err(GixError::MissingField(Field::Id)),
    };
    let max = match json_get_i64(&doc, "max") {
        Some(m) => m,
        None => 50,
    };
    Ok(Request::Log { id, max })
}

/// Works out which operation a call asks for: `op` names it and `input`
/// holds its arguments as a JSON object. An unknown name is refused before
/// the input is looked at.
pub fn parse_request(op: &str, input: &str) -> (r: Result<Request, GixError>)
    ensures
        match r {
            Ok(req) => request_outcome(op@, input@) == Ok::<RequestModel, ErrorModel>(req@),
            Err(e) => request_outcome(op@, input@) == Err::<RequestModel, ErrorModel>(e@),
        },
        op@ == "log"@ && json_parse_error(input@) is None && json_u64_field(input@, "id"@) is Some
            ==> (r matches Ok(Request::Log { id, max }) && id == json_u64_field(input@, "id"@)->0
            && max == (match json_i64_field(input@, "max"@) {
            Some(m) => m,
            None => 50i64,
        })),
{
    proof {
        reveal_strlit("log");
        reveal_strlit("open");
        reveal_strlit("init");
        reveal_strlit("discover");
        assert("log"@.len() == 3);
        assert("log"@ != "open"@ && "log"@ != "init"@ && "log"@ != "discover"@);
    }
    let name = op.to_owned();
    if is_op(&name, "open") {
        let path = parse_str_field(input, Field::Path, "path")?;
        Ok(Request::Open { path })
    } else if is_op(&name, "init") {
        let path = parse_str_field(input, Field::Path, "path")?;
        Ok(Request::Init { path })
    } else if is_op(&name, "discover") {
        let start_path = parse_str_field(input, Field::StartPath, "start_path")?;
        Ok(Request::Discover { start_path })
    } else if is_op(&name, "log") {
        parse_log(input)
    } else if is_op(&name, "status") {
        let id = parse_id(input)?;
        Ok(Request::Status { id })
    } else if is_op(&name, "branches") {
        let id = parse_id(input)?;
        Ok(Request::Branches { id })
    } else if is_op(&name, "current_branch") {
        let id = parse_id(input)?;
        Ok(Request::CurrentBranch { id })
    } else if is_op(&name, "head") {
        let id = parse_id(input)?;
        Ok(Request::Head { id })
    } else if is_op(&name, "head_oid") {
        let id = parse_id(input)?;
        Ok(Request::HeadOid { id })
    } else if is_op(&name, "is_bare") {
        let id = parse_id(input)?;
        Ok(Request::IsBare { id })
    } else if is_op(&name, "workdir") {
        let id = parse_id(input)?;
        Ok(Request::Workdir { id })
    } else if is_op(&name, "repo_path") {
        let id = parse_id(input)?;
        Ok(Request::RepoPath { id })
    } else if is_op(&name, "close") {
        let id = parse_id(input)?;
        Ok(Request::Close { id })
    } else {
        Err(GixError::UnknownOp(name))
    }
}

/// An operation name that the extension does not know is refused as such,
/// whatever the input holds (the input is not even parsed).
pub proof fn law_unknown_op_refused(op: Seq<char>, input: Seq<char>)
    requires
        op != "open"@,
        op != "init"@,
        op != "discover"@,
        op != "log"@,
        id_op(op, 0) is None,
    ensures
        request_outcome(op, input) == Err::<RequestModel, ErrorModel>(ErrorModel::UnknownOp(op)),
{
}

/// Every operation that takes a handle alone reads it the same way: it
/// succeeds exactly where the handle can be read, with that handle, and
/// fails for the same reason otherwise.
pub proof fn law_id_ops_read_the_handle(op: Seq<char>, input: Seq<char>)
    requires
        id_op(op, 0) is Some,
    ensures
        request_outcome(op, input) is Ok <==> id_outcome(input) is Ok,
        id_outcome(input) matches Ok(id) ==> request_outcome(op, input) == Ok::<
            RequestModel,
            ErrorModel,
        >(id_op(op, id)->Some_0),
        id_outcome(input) matches Err(e) ==> request_outcome(op, input) == Err::<
            RequestModel,
            ErrorModel,
        >(e),
{
    reveal_strlit("open");
    reveal_strlit("init");
    reveal_strlit("discover");
    reveal_strlit("log");
    reveal_strlit("status");
    reveal_strlit("branches");
    reveal_strlit("current_branch");
    reveal_strlit("head");
    reveal_strlit("head_oid");
    reveal_strlit("is_bare");
    reveal_strlit("workdir");
    reveal_strlit("repo_path");
    reveal_strlit("close");
    assert("open"@.len() == 4 && "init"@.len() == 4 && "discover"@.len() == 8 && "log"@.len() == 3);
    assert("status"@.len() == 6 && "branches"@.len() == 8 && "current_branch"@.len() == 14);
    assert("head"@.len() == 4 && "head_oid"@.len() == 8 && "is_bare"@.len() == 7);
    assert("workdir"@.len() == 7 && "repo_path"@.len() == 9 && "close"@.len() == 5);
    if op == "head"@ {
        assert(op[0] != "open"@[0] && op[0] != "init"@[0]);
    }
    if op == "branches"@ {
        assert(op[0] != "discover"@[0]);
    }
    if op == "head_oid"@ {
        assert(op[0] != "discover"@[0]);
    }
}

/// A `log` request without a usable `"max"` asks for the default limit of 50
/// commits.
pub proof fn law_log_default_limit(input: Seq<char>)
    requires
        id_outcome(input) is Ok,
        json_i64_field(input, "max"@) is None,
    ensures
        request_outcome("log"@, input) == Ok::<RequestModel, ErrorModel>(
            RequestModel::Log(id_outcome(input)->Ok_0, 50),
        ),
{
    reveal_strlit("log");
    reveal_strlit("open");
    reveal_strlit("init");
    reveal_strlit("discover");
    assert("log"@.len() == 3);
    assert("log"@ != "open"@ && "log"@ != "init"@ && "log"@ != "discover"@);
}

/// A `log` request carries exactly the limit that the input gives as an
/// integer, however large or small; only a missing or non-integer limit
/// falls back to 50.
pub proof fn law_log_keeps_requested_max(input: Seq<char>, id: u64, m: i64)
    requires
        json_parse_error(input) is None,
        json_u64_field(input, "id"@) == Some(id),
        json_i64_field(input, "max"@) == Some(m),
    ensures
        request_outcome("log"@, input) == Ok::<RequestModel, ErrorModel>(RequestModel::Log(id, m)),
{
    reveal_strlit("log");
    reveal_strlit("open");
    reveal_strlit("init");
    reveal_strlit("discover");
    assert("log"@.len() == 3);
    assert("log"@ != "open"@ && "log"@ != "init"@ && "log"@ != "discover"@);
}

/// Each operation that takes a handle alone asks for what its name says,
/// with the handle read from the input.
pub proof fn law_id_op_names(input: Seq<char>, id: u64)
    requires
        id_outcome(input) == Ok::<u64, ErrorModel>(id),
    ensures
        request_outcome("status"@, input) == Ok::<RequestModel, ErrorModel>(RequestModel::Status(id)),
        request_outcome("branches"@, input) == Ok::<RequestModel, ErrorModel>(RequestModel::Branches(id)),
        request_outcome("current_branch"@, input) == Ok::<RequestModel, ErrorModel>(
            RequestModel::CurrentBranch(id),
        ),
        request_outcome("head"@, input) == Ok::<RequestModel, ErrorModel>(RequestModel::Head(id)),
        request_outcome("head_oid"@, input) == Ok::<RequestModel, ErrorModel>(RequestModel::HeadOid(id)),
        request_outcome("is_bare"@, input) == Ok::<RequestModel, ErrorModel>(RequestModel::IsBare(id)),
        request_outcome("workdir"@, input) == Ok::<RequestModel, ErrorModel>(RequestModel::Workdir(id)),
        request_outcome("repo_path"@, input) == Ok::<RequestModel, ErrorModel>(RequestModel::RepoPath(id)),
        request_outcome("close"@, input) == Ok::<RequestModel, ErrorModel>(RequestModel::Close(id)),
{
    reveal_strlit("open");
    reveal_strlit("init");
    reveal_strlit("discover");
    reveal_strlit("log");
    reveal_strlit("status");
    reveal_strlit("branches");
    reveal_strlit("current_branch");
    reveal_strlit("head");
    reveal_strlit("head_oid");
    reveal_strlit("is_bare");
    reveal_strlit("workdir");
    reveal_strlit("repo_path");
    reveal_strlit("close");
    assert("open"@.len() == 4 && "init"@.len() == 4 && "discover"@.len() == 8 && "log"@.len() == 3);
    assert("status"@.len() == 6 && "branches"@.len() == 8 && "current_branch"@.len() == 14);
    assert("head"@.len() == 4 && "head_oid"@.len() == 8 && "is_bare"@.len() == 7);
    assert("workdir"@.len() == 7 && "repo_path"@.len() == 9 && "close"@.len() == 5);
    assert("head"@[0] != "open"@[0] && "head"@[0] != "init"@[0]);
    assert("branches"@[0] != "discover"@[0] && "head_oid"@[0] != "discover"@[0]);
    assert("head_oid"@[0] != "branches"@[0]);
    assert("status"@[0] != "is_bare"@[0] && "workdir"@[0] != "is_bare"@[0]);
}

/// `open` and `init` take the path under `"path"`, `discover` the one under
/// `"start_path"`; each asks for what its name says with that path, and a
/// missing path is reported as the field it lacks.
pub proof fn law_path_ops(input: Seq<char>)
    requires
        json_parse_error(input) is None,
    ensures
        json_str_field(input, "path"@) matches Some(p) ==> request_outcome("open"@, input) == Ok::<
            RequestModel,
            ErrorModel,
        >(RequestModel::Open(p)),
        json_str_field(input, "path"@) matches Some(p) ==> request_outcome("init"@, input) == Ok::<
            RequestModel,
            ErrorModel,
        >(RequestModel::Init(p)),
        json_str_field(input, "start_path"@) matches Some(p) ==> request_outcome("discover"@, input)
            == Ok::<RequestModel, ErrorModel>(RequestModel::Discover(p)),
        json_str_field(input, "path"@) is None ==> request_outcome("open"@, input) == Err::<
            RequestModel,
            ErrorModel,
        >(ErrorModel::MissingField(Field::Path)),
        json_str_field(input, "start_path"@) is None ==> request_outcome("discover"@, input) == Err::<
            RequestModel,
            ErrorModel,
        >(ErrorModel::MissingField(Field::StartPath)),
{
    reveal_strlit("open");
    reveal_strlit("init");
    reveal_strlit("discover");
    assert("open"@.len() == 4 && "init"@.len() == 4 && "discover"@.len() == 8);
    assert("init"@[0] != "open"@[0]);
}

} // verus!
