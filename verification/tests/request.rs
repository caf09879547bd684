use vo_gix::{parse_id, parse_request, Field, GixError, Request};

#[test]
fn open_reads_path() {
    let r = parse_request("open", "{\"path\": \"/tmp/repo\"}");
    assert_eq!(r, Ok(Request::Open { path: "/tmp/repo".to_string() }));
    let r = parse_request("init", "{\"path\": \"a b\"}");
    assert_eq!(r, Ok(Request::Init { path: "a b".to_string() }));
    let r = parse_request("discover", "{\"start_path\": \"/x/y\"}");
    assert_eq!(r, Ok(Request::Discover { start_path: "/x/y".to_string() }));
}

#[test]
fn missing_fields() {
    let e = parse_request("open", "{\"start_path\": \"/x\"}").unwrap_err();
    assert_eq!(e, GixError::MissingField(Field::Path));
    assert_eq!(e.message(), "missing 'path'");
    let e = parse_request("discover", "{\"path\": \"/x\"}").unwrap_err();
    assert_eq!(e.message(), "missing 'start_path'");
    let e = parse_request("open", "{\"path\": 3}").unwrap_err();
    assert_eq!(e.message(), "missing 'path'");
    let e = parse_request("open", "[\"path\"]").unwrap_err();
    assert_eq!(e.message(), "missing 'path'");
    let e = parse_request("status", "{}").unwrap_err();
    assert_eq!(e, GixError::MissingField(Field::Id));
    assert_eq!(e.message(), "missing 'id'");
    let e = parse_request("close", "{\"id\": -1}").unwrap_err();
    assert_eq!(e.message(), "missing 'id'");
    let e = parse_request("head", "{\"id\": \"1\"}").unwrap_err();
    assert_eq!(e.message(), "missing 'id'");
}

#[test]
fn invalid_json_gives_parser_message() {
    let input = "{not json";
    let expected = serde_json::from_str::<serde_json::Value>(input).unwrap_err().to_string();
    let e = parse_request("open", input).unwrap_err();
    assert_eq!(e, GixError::Json(expected.clone()));
    assert_eq!(e.message(), expected);
    let e = parse_id("").unwrap_err();
    assert!(matches!(e, GixError::Json(_)));
}

#[test]
fn unknown_op_refused_before_input() {
    let e = parse_request("frobnicate", "{not json").unwrap_err();
    assert_eq!(e, GixError::UnknownOp("frobnicate".to_string()));
    assert_eq!(e.message(), "unknown gix op: frobnicate");
    // there is no `init_bare` operation
    let e = parse_request("init_bare", "{\"path\": \"/x\"}").unwrap_err();
    assert_eq!(e.message(), "unknown gix op: init_bare");
}

#[test]
fn id_operations() {
    let input = "{\"id\": 12}";
    assert_eq!(parse_request("status", input), Ok(Request::Status { id: 12 }));
    assert_eq!(parse_request("branches", input), Ok(Request::Branches { id: 12 }));
    assert_eq!(parse_request("current_branch", input), Ok(Request::CurrentBranch { id: 12 }));
    assert_eq!(parse_request("head", input), Ok(Request::Head { id: 12 }));
    assert_eq!(parse_request("head_oid", input), Ok(Request::HeadOid { id: 12 }));
    assert_eq!(parse_request("is_bare", input), Ok(Request::IsBare { id: 12 }));
    assert_eq!(parse_request("workdir", input), Ok(Request::Workdir { id: 12 }));
    assert_eq!(parse_request("repo_path", input), Ok(Request::RepoPath { id: 12 }));
    assert_eq!(parse_request("close", input), Ok(Request::Close { id: 12 }));
    assert_eq!(parse_id("{\"id\": 18446744073709551615}"), Ok(u64::MAX));
}

#[test]
fn log_reads_id_and_max() {
    assert_eq!(
        parse_request("log", "{\"id\": 3, \"max\": 7}"),
        Ok(Request::Log { id: 3, max: 7 })
    );
    assert_eq!(
        parse_request("log", "{\"id\": 3, \"max\": -2}"),
        Ok(Request::Log { id: 3, max: -2 })
    );
    // without a usable max the default of 50 holds
    assert_eq!(parse_request("log", "{\"id\": 3}"), Ok(Request::Log { id: 3, max: 50 }));
    assert_eq!(
        parse_request("log", "{\"id\": 3, \"max\": \"9\"}"),
        Ok(Request::Log { id: 3, max: 50 })
    );
    assert_eq!(parse_request("log", "{\"max\": 1}").unwrap_err().message(), "missing 'id'");
}
