use vo_gix::{push_decimal, push_signed_decimal, register_externs, stub_raw_call};

#[test]
fn raw_call_slots() {
    let names: Vec<String> = vec![
        "github_com_vo_lang_other_RawCall".to_string(),
        "github_com_vo_lang_gix_RawCall".to_string(),
        "github_com_vo_lang_gix_Other".to_string(),
        "github_com_vo_lang_gix_RawCall".to_string(),
        "RawCall".to_string(),
    ];
    assert_eq!(register_externs(&names), vec![1u32, 3u32]);
    assert!(register_externs(&Vec::new()).is_empty());
}

#[test]
fn stub_refuses_every_call() {
    let msg = "git operations are not available in the browser sandbox \u{2014} use Vibe Studio desktop";
    assert_eq!(stub_raw_call("open", "{\"path\": \"/x\"}"), Err(msg.to_string()));
    assert_eq!(stub_raw_call("", ""), Err(msg.to_string()));
}

#[test]
fn decimal_numerals() {
    for n in [0u64, 7, 10, 99, 1234567890, u64::MAX] {
        let mut s = String::from("n=");
        push_decimal(&mut s, n);
        assert_eq!(s, format!("n={}", n));
    }
    for n in [0i64, -1, 42, i64::MIN, i64::MAX] {
        let mut s = String::new();
        push_signed_decimal(&mut s, n);
        assert_eq!(s, n.to_string());
    }
}
