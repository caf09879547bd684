use vo_gix::{
    branches_out, commit_out, current_branch_out, log_args, log_limit, log_out, summary_line, workdir_out,
    CommitRecord, GixError,
};

fn record(id: &str, message: &str) -> CommitRecord {
    CommitRecord {
        id: id.to_string(),
        message: message.as_bytes().to_vec(),
        author_name: "vo-test".to_string(),
        author_email: "vo@test.local".to_string(),
        time_unix: 1_700_000_000,
    }
}

#[test]
fn summary_is_first_line() {
    assert_eq!(summary_line("initial"), "initial");
    assert_eq!(summary_line("initial\n"), "initial");
    assert_eq!(summary_line("subject\n\nbody text\n"), "subject");
    assert_eq!(summary_line("subject\r\nbody"), "subject");
    assert_eq!(summary_line("subject\r"), "subject\r");
    assert_eq!(summary_line("a\rb\nc"), "a\rb");
    assert_eq!(summary_line(""), "");
    assert_eq!(summary_line("\nsecond"), "");
    assert_eq!(summary_line("\r\nsecond"), "");
    assert_eq!(summary_line("h\u{e9}llo \u{2014} w\u{f6}rld\nx"), "h\u{e9}llo \u{2014} w\u{f6}rld");
    for s in ["abc", "x\ny", "\r\n", "p\r\nq\r\n"] {
        assert_eq!(summary_line(s), s.lines().next().unwrap_or(""));
    }
}

#[test]
fn commit_report_fields() {
    let c = commit_out(&record("abc123", "initial\n\nmore"));
    assert_eq!(c.id, "abc123");
    assert_eq!(c.summary, "initial");
    assert_eq!(c.author_name, "vo-test");
    assert_eq!(c.author_email, "vo@test.local");
    assert_eq!(c.time_unix, 1_700_000_000);
}

#[test]
fn commit_message_bytes_converted_lossily() {
    let mut rec = record("abc", "");
    rec.message = vec![b'f', b'i', 0xff, b'x', b'\n', 0xfe];
    assert_eq!(commit_out(&rec).summary, "fi\u{fffd}x");
    rec.message = "caf\u{e9} \u{2014} ok\r\nbody".as_bytes().to_vec();
    assert_eq!(commit_out(&rec).summary, "caf\u{e9} \u{2014} ok");
}

#[test]
fn log_limit_values() {
    assert_eq!(log_limit(1), Ok(1));
    assert_eq!(log_limit(0), Ok(1));
    assert_eq!(log_limit(50), Ok(50));
    let e = log_limit(-1).unwrap_err();
    assert_eq!(e, GixError::MaxOutOfRange(-1));
    assert_eq!(e.message(), "max out of range: -1");
    assert_eq!(log_limit(i64::MIN).unwrap_err().message(), "max out of range: -9223372036854775808");
}

#[test]
fn log_keeps_at_most_limit() {
    let recs = vec![record("c3", "third\nx"), record("c2", "second"), record("c1", "first")];
    let out = log_out(&recs, 1);
    assert_eq!(out.commits.len(), 1);
    assert_eq!(out.commits[0].id, "c3");
    assert_eq!(out.commits[0].summary, "third");
    let out = log_out(&recs, 10);
    assert_eq!(out.commits.len(), 3);
    assert_eq!(out.commits[2].summary, "first");
    assert_eq!(log_out(&Vec::new(), 4).commits.len(), 0);
}

#[test]
fn workdir_report() {
    let w = workdir_out(Some("/tmp/repo".to_string()));
    assert_eq!(w.path, "/tmp/repo");
    assert!(w.exists);
    let w = workdir_out(None);
    assert_eq!(w.path, "");
    assert!(!w.exists);
}

#[test]
fn current_branch_report() {
    assert_eq!(current_branch_out(Some("main".to_string())).unwrap().name, "main");
    let e = current_branch_out(None).unwrap_err();
    assert_eq!(e, GixError::HeadDetached);
    assert_eq!(e.message(), "HEAD is detached");
}

#[test]
fn branches_mark_head() {
    let names = vec!["dev".to_string(), "main".to_string(), "topic".to_string()];
    let out = branches_out(&names, &Some("main".to_string()));
    assert_eq!(out.branches.len(), 3);
    assert_eq!(out.branches[0].name, "dev");
    assert!(!out.branches[0].is_head);
    assert!(out.branches[1].is_head);
    assert!(!out.branches[2].is_head);
    let out = branches_out(&names, &None);
    assert!(out.branches.iter().all(|b| !b.is_head));
    assert!(branches_out(&Vec::new(), &Some("main".to_string())).branches.is_empty());
}

#[test]
fn error_messages() {
    assert_eq!(GixError::LockPoisoned.message(), "gix lock poisoned");
    assert_eq!(GixError::Git("reference not found".to_string()).message(), "reference not found");
    assert_eq!(GixError::InvalidRepoId(0).message(), "invalid repo id 0");
    assert_eq!(GixError::MaxOutOfRange(i64::MAX).message(), "max out of range: 9223372036854775807");
}

#[test]
fn log_args_check_limit_first() {
    assert_eq!(log_args(3, 0), Ok((3, 1)));
    assert_eq!(log_args(3, 20), Ok((3, 20)));
    let wide = u32::MAX as u64 + 1;
    // a bad limit is reported even when the handle is bad too
    assert_eq!(log_args(wide, -5), Err(GixError::MaxOutOfRange(-5)));
    assert_eq!(log_args(wide, 5).unwrap_err().message(), "id out of range: 4294967296");
}
