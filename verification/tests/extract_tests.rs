use profilebot::builder::{artifact_path, build_args, exit_code, BuildStatus};
use profilebot::config::{allow_list_from_bytes, authorized, ServerConfig};
use profilebot::json::parse_json;
use profilebot::report::{render_table, ScenarioOutcome};
use profilebot::trigger::{
    extract_event_fields, extract_head, make_trigger, ExtractError, PullRequestTrigger,
};

#[test]
fn parse_json_reads_objects_and_strings() {
    let j = parse_json(br#"{"a":{"b":"c"},"n":5,"t":true}"#).expect("should parse");
    let a = "a".to_string();
    let b = "b".to_string();
    let inner = j.get(&a).expect("field a");
    assert_eq!(inner.get(&b).expect("field b").as_str().expect("a string"), "c");
    let missing = "zzz".to_string();
    assert!(j.get(&missing).is_none());
}

#[test]
fn parse_json_rejects_bad_input() {
    assert!(parse_json(b"{").is_none());
    assert!(parse_json(b"").is_none());
}

#[test]
fn string_array_accepts_only_all_strings() {
    let j = parse_json(br#"["a","b"]"#).expect("should parse");
    let v = j.string_array().expect("all strings");
    assert_eq!(v, vec!["a".to_string(), "b".to_string()]);

    let mixed = parse_json(br#"["a",1]"#).expect("should parse");
    assert!(mixed.string_array().is_none());

    let not_array = parse_json(br#"{"a":"b"}"#).expect("should parse");
    assert!(not_array.string_array().is_none());
}

#[test]
fn allow_list_defaults_to_deny_all() {
    assert!(allow_list_from_bytes(b"").is_empty());
    assert!(allow_list_from_bytes(b"not json").is_empty());
    assert!(allow_list_from_bytes(br#"{"a":"b"}"#).is_empty());
    assert!(allow_list_from_bytes(br#"["a",1]"#).is_empty());
    assert_eq!(
        allow_list_from_bytes(br#"["Alice","bob"]"#),
        vec!["Alice".to_string(), "bob".to_string()]
    );
}

#[test]
fn config_lowercases_allow_list() {
    let raw = allow_list_from_bytes(br#"["Alice","BOB"]"#);
    let cfg = ServerConfig::new("g".to_string(), "n".to_string(), &raw);
    assert_eq!(cfg.allowed_commenters, vec!["alice".to_string(), "bob".to_string()]);
}

fn trigger(command: &str, commenter: &str) -> PullRequestTrigger {
    PullRequestTrigger {
        report_url: "C".to_string(),
        clone_url: "https://x/y.git".to_string(),
        head_commit: "abc123".to_string(),
        command_text: command.to_string(),
        commenter_id: commenter.to_string(),
    }
}

#[test]
fn authorization_requires_exact_command_and_listed_commenter() {
    let commenters = vec!["alice".to_string()];
    let cfg = ServerConfig::new("g".to_string(), "n".to_string(), &commenters);
    assert!(authorized(&cfg, &trigger("profile", "alice")));
    assert!(authorized(&cfg, &trigger("profile", "Alice")));
    assert!(!authorized(&cfg, &trigger("Profile", "alice")));
    assert!(!authorized(&cfg, &trigger("profile ", "alice")));
    assert!(!authorized(&cfg, &trigger("profile", "bob")));
}

#[test]
fn extract_event_fields_reads_all_four() {
    let j = parse_json(
        br#"{"issue":{"pull_request":{"url":"U"},"comments_url":"C"},"comment":{"body":"profile","user":{"login":"Alice"}}}"#,
    )
    .expect("should parse");
    let f = extract_event_fields(&j).expect("well-formed event");
    assert_eq!(f.pull_url, "U");
    assert_eq!(f.comments_url, "C");
    assert_eq!(f.body, "profile");
    assert_eq!(f.login, "Alice");
}

#[test]
fn extract_event_fields_rejects_missing_or_empty() {
    let missing = parse_json(br#"{"issue":{"comments_url":"C"}}"#).expect("should parse");
    assert_eq!(extract_event_fields(&missing).unwrap_err(), ExtractError::MalformedEvent);

    let not_string = parse_json(
        br#"{"issue":{"pull_request":{"url":7},"comments_url":"C"},"comment":{"body":"profile","user":{"login":"Alice"}}}"#,
    )
    .expect("should parse");
    assert_eq!(extract_event_fields(&not_string).unwrap_err(), ExtractError::MalformedEvent);

    let empty = parse_json(
        br#"{"issue":{"pull_request":{"url":""},"comments_url":"C"},"comment":{"body":"profile","user":{"login":"Alice"}}}"#,
    )
    .expect("should parse");
    assert_eq!(extract_event_fields(&empty).unwrap_err(), ExtractError::MalformedEvent);
}

#[test]
fn extract_head_reads_sha_and_clone_url() {
    let j = parse_json(br#"{"head":{"sha":"abc123","repo":{"clone_url":"https://x/y.git"}}}"#)
        .expect("should parse");
    let h = extract_head(&j).expect("well-formed lookup");
    assert_eq!(h.sha, "abc123");
    assert_eq!(h.clone_url, "https://x/y.git");
}

#[test]
fn extract_head_rejects_missing_fields() {
    let j = parse_json(br#"{"head":{"sha":"abc123"}}"#).expect("should parse");
    assert_eq!(extract_head(&j).unwrap_err(), ExtractError::MalformedEvent);
}

#[test]
fn make_trigger_routes_fields() {
    let j = parse_json(
        br#"{"issue":{"pull_request":{"url":"U"},"comments_url":"C"},"comment":{"body":"profile","user":{"login":"Alice"}}}"#,
    )
    .expect("should parse");
    let f = extract_event_fields(&j).expect("well-formed event");
    let i = parse_json(br#"{"head":{"sha":"abc123","repo":{"clone_url":"https://x/y.git"}}}"#)
        .expect("should parse");
    let h = extract_head(&i).expect("well-formed lookup");
    let t = make_trigger(f, h);
    assert_eq!(t.report_url, "C");
    assert_eq!(t.clone_url, "https://x/y.git");
    assert_eq!(t.head_commit, "abc123");
    assert_eq!(t.command_text, "profile");
    assert_eq!(t.commenter_id, "Alice");
}

#[test]
fn exit_code_collapses_every_ending() {
    assert_eq!(exit_code(&BuildStatus::Exited(0)), 0);
    assert_eq!(exit_code(&BuildStatus::Exited(3)), 3);
    assert_eq!(exit_code(&BuildStatus::Signaled(9)), 9);
    assert_eq!(exit_code(&BuildStatus::SpawnFailure(2)), 2);
}

#[test]
fn build_args_and_artifact_path_follow_the_conventions() {
    let args = build_args(
        &"https://x/y.git".to_string(),
        &"abc123".to_string(),
        &"/tmp/w".to_string(),
    );
    assert_eq!(args[4], "/tmp/w:/build_output/");
    assert_eq!(args.len(), 11);
    assert_eq!(
        artifact_path(&"/tmp/w".to_string()),
        "/tmp/w/fenixNightly/app-geckoNightly-armeabi-v7a-fenixNightly-unsigned.apk"
    );
}

#[test]
fn render_table_formats_rows() {
    let outs = vec![ScenarioOutcome {
        name: "cold_start".to_string(),
        status: "OK".to_string(),
        time_ms: 412,
    }];
    assert_eq!(
        render_table(&outs),
        "Scenario | Status | Time (ms)\n---------|--------|----------\ncold_start | OK | 412\n"
    );
}

#[test]
fn render_table_of_nothing_is_just_the_header() {
    let outs: Vec<ScenarioOutcome> = Vec::new();
    assert_eq!(render_table(&outs), "Scenario | Status | Time (ms)\n---------|--------|----------\n");
}
