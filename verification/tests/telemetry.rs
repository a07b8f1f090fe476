use vrcx_application::telemetry::privacy::{
    build_error_detail, hash_string, sanitize_app_version, sanitize_error_summary,
    sanitize_error_token, trim_underscores, truncate_chars,
};

#[test]
fn summary_scrubs_addresses_paths_and_ids() {
    let summary = sanitize_error_summary(
        "2026-07-30T12:00:00Z  failed https://api.vrchat.cloud/api/1/x for usr_12ab-34 at C:\\Users\\me\\a.txt not_found not_abc",
    );
    assert_eq!(summary, "failed <url> for <id> at <path> not_found <id>");
    assert_eq!(sanitize_error_summary("   "), "");
    assert_eq!(sanitize_error_summary(&"a".repeat(600)), "<hash>");
    assert_eq!(sanitize_error_summary(&"z".repeat(600)), "<token>");
}

#[test]
fn tokens_keep_only_safe_characters() {
    assert_eq!(sanitize_error_token(Some(" Http Error/500 ")).as_deref(), Some("Http_Error_500"));
    assert_eq!(sanitize_error_token(Some("___")), None);
    assert_eq!(sanitize_error_token(None), None);
    assert_eq!(sanitize_app_version(Some("v1.2.3+build 7")).as_deref(), Some("v1.2.3+build_7"));
    assert_eq!(trim_underscores("__a_b__"), "a_b");
    assert_eq!(truncate_chars("héllo", 2), "hé");
}

#[test]
fn error_detail_has_a_stable_signature() {
    let detail = build_error_detail("crash", Some("db"), None, None, Some("boom"), Some("1.0"));
    assert_eq!(detail.count, 1);
    assert_eq!(detail.code, None);
    assert_eq!(detail.summary.as_deref(), Some("boom"));
    assert_eq!(detail.signature, format!("crash:{}", hash_string("crash|db|-|-|boom")));
    assert_eq!(hash_string(""), "811c9dc5");
    assert_eq!(hash_string("a"), "e40c292c");
}
