use profilebot::builder::BuildStatus;
use profilebot::config::ServerConfig;
use profilebot::pipeline::{step, AbortReason, Act, Ev, Stage, WaitOutcome};
use profilebot::report::ScenarioOutcome;
use profilebot::trigger::PullRequestTrigger;

fn test_config() -> ServerConfig {
    let commenters = vec!["alice".to_string()];
    ServerConfig::new("git_key".to_string(), "nd_key".to_string(), &commenters)
}

fn trigger(command: &str, commenter: &str) -> PullRequestTrigger {
    PullRequestTrigger {
        report_url: "C".to_string(),
        clone_url: "https://x/y.git".to_string(),
        head_commit: "abc123".to_string(),
        command_text: command.to_string(),
        commenter_id: commenter.to_string(),
    }
}

const EVENT: &[u8] = br#"payload={"issue":{"pull_request":{"url":"U"},"comments_url":"C"},"comment":{"body":"profile","user":{"login":"Alice"}}}"#;
const PULL_INFO: &[u8] = br#"{"head":{"sha":"abc123","repo":{"clone_url":"https://x/y.git"}}}"#;

#[test]
fn full_successful_run() {
    let cfg = test_config();

    let (st, act) = step(&cfg, Stage::Received, Ev::Body(EVENT.to_vec()));
    match &act {
        Act::GetPullInfo { url } => assert_eq!(url, "U"),
        _ => panic!("expected the pull-request lookup"),
    }

    let (st, act) = step(&cfg, st, Ev::PullInfo(Some(PULL_INFO.to_vec())));
    assert!(matches!(act, Act::Advance));

    let (st, act) = step(&cfg, st, Ev::Go);
    assert!(matches!(act, Act::CreateWorkspace));

    let (st, act) = step(&cfg, st, Ev::Workspace(Some("/ws".to_string())));
    match &act {
        Act::RunBuild { args } => {
            let expected = vec![
                "run",
                "--rm",
                "-ti",
                "--volume",
                "/ws:/build_output/",
                "3683fdbe380c",
                "/buildtools/build_fenix.sh",
                "https://x/y.git",
                "abc123",
                "assembleGeckoNightlyFenixNightly",
                "app/build/outputs/apk/*",
            ];
            let got: Vec<&str> = args.iter().map(|s| s.as_str()).collect();
            assert_eq!(got, expected);
        },
        _ => panic!("expected the build to run"),
    }

    let (st, act) = step(&cfg, st, Ev::BuildFinished(BuildStatus::Exited(0)));
    match &act {
        Act::Upload { artifact, token } => {
            assert_eq!(
                artifact,
                "/ws/fenixNightly/app-geckoNightly-armeabi-v7a-fenixNightly-unsigned.apk"
            );
            assert_eq!(token, "nd_key");
        },
        _ => panic!("expected the upload"),
    }

    let (st, act) = step(&cfg, st, Ev::UploadDone(Some("J".to_string())));
    match &act {
        Act::Wait { job, timeout_secs } => {
            assert_eq!(job, "J");
            assert_eq!(*timeout_secs, 1200);
        },
        _ => panic!("expected the wait"),
    }

    let (st, act) = step(&cfg, st, Ev::Waited(WaitOutcome::Completed));
    match &act {
        Act::FetchResult { job } => assert_eq!(job, "J"),
        _ => panic!("expected the result fetch"),
    }

    let outcome = ScenarioOutcome {
        name: "cold_start".to_string(),
        status: "OK".to_string(),
        time_ms: 412,
    };
    let (st, act) = step(&cfg, st, Ev::Fetched(Some(vec![outcome])));
    match &act {
        Act::Publish { url, report, payload, token } => {
            assert_eq!(url, "C");
            assert_eq!(token, "git_key");
            assert_eq!(
                report,
                "Scenario | Status | Time (ms)\n---------|--------|----------\ncold_start | OK | 412\n"
            );
            assert!(payload.contains("cold_start | OK | 412"));
        },
        _ => panic!("expected the publish"),
    }

    let (st, act) = step(&cfg, st, Ev::Published(true));
    assert!(matches!(act, Act::Halt));
    assert!(matches!(st, Stage::Done));
}

#[test]
fn undecodable_body_does_nothing() {
    let cfg = test_config();
    let (st, act) = step(&cfg, Stage::Received, Ev::Body(b"payload=not json".to_vec()));
    assert!(matches!(act, Act::Halt));
    assert!(matches!(st, Stage::Aborted { reason: AbortReason::MalformedEvent }));
}

#[test]
fn event_missing_field_does_nothing() {
    let cfg = test_config();
    let body = br#"{"issue":{"comments_url":"C"},"comment":{"body":"profile","user":{"login":"Alice"}}}"#;
    let (st, act) = step(&cfg, Stage::Received, Ev::Body(body.to_vec()));
    assert!(matches!(act, Act::Halt));
    assert!(matches!(st, Stage::Aborted { reason: AbortReason::MalformedEvent }));
}

#[test]
fn failed_pull_lookup_aborts() {
    let cfg = test_config();
    let (st, act) = step(&cfg, Stage::Received, Ev::Body(EVENT.to_vec()));
    assert!(matches!(act, Act::GetPullInfo { .. }));
    let (st, act) = step(&cfg, st, Ev::PullInfo(None));
    assert!(matches!(act, Act::Halt));
    assert!(matches!(st, Stage::Aborted { reason: AbortReason::UpstreamFetchError }));
}

#[test]
fn unparsable_pull_lookup_aborts() {
    let cfg = test_config();
    let (st, _) = step(&cfg, Stage::Received, Ev::Body(EVENT.to_vec()));
    let (st, act) = step(&cfg, st, Ev::PullInfo(Some(b"<html>".to_vec())));
    assert!(matches!(act, Act::Halt));
    assert!(matches!(st, Stage::Aborted { reason: AbortReason::UpstreamParseError }));
}

#[test]
fn wrong_command_is_dropped_silently() {
    let cfg = test_config();
    let st = Stage::Extracted { trigger: trigger("Profile", "alice") };
    let (st, act) = step(&cfg, st, Ev::Go);
    assert!(matches!(act, Act::Halt));
    assert!(matches!(st, Stage::Aborted { reason: AbortReason::Unauthorized }));
}

#[test]
fn unlisted_commenter_is_dropped_silently() {
    let cfg = test_config();
    let st = Stage::Extracted { trigger: trigger("profile", "mallory") };
    let (st, act) = step(&cfg, st, Ev::Go);
    assert!(matches!(act, Act::Halt));
    assert!(matches!(st, Stage::Aborted { reason: AbortReason::Unauthorized }));
}

#[test]
fn commenter_match_is_case_insensitive() {
    let cfg = test_config();
    let st = Stage::Extracted { trigger: trigger("profile", "ALICE") };
    let (st, act) = step(&cfg, st, Ev::Go);
    assert!(matches!(act, Act::CreateWorkspace));
    assert!(matches!(st, Stage::Authorized { .. }));
}

#[test]
fn workspace_failure_still_attempts_profiling() {
    let cfg = test_config();
    let st = Stage::Authorized { trigger: trigger("profile", "alice") };
    let (st, act) = step(&cfg, st, Ev::Workspace(None));
    match &act {
        Act::Upload { artifact, token } => {
            assert_eq!(
                artifact,
                "/fenixNightly/app-geckoNightly-armeabi-v7a-fenixNightly-unsigned.apk"
            );
            assert_eq!(token, "nd_key");
        },
        _ => panic!("expected an upload attempt"),
    }
    assert!(matches!(st, Stage::Built { .. }));
}

#[test]
fn failed_build_still_attempts_profiling() {
    let cfg = test_config();
    let st = Stage::Building {
        trigger: trigger("profile", "alice"),
        workspace: "/ws".to_string(),
    };
    let (st, act) = step(&cfg, st, Ev::BuildFinished(BuildStatus::Signaled(9)));
    assert!(matches!(act, Act::Upload { .. }));
    assert!(matches!(st, Stage::Built { .. }));
}

#[test]
fn upload_failure_publishes_upload_message() {
    let cfg = test_config();
    let st = Stage::Built { trigger: trigger("profile", "alice") };
    let (st, act) = step(&cfg, st, Ev::UploadDone(None));
    match &act {
        Act::Publish { url, report, payload, token } => {
            assert_eq!(url, "C");
            assert_eq!(report, "Failed to upload the artifact for profiling.");
            assert_eq!(
                payload,
                "{ \"body\": \"Failed to upload the artifact for profiling.\" }"
            );
            assert_eq!(token, "git_key");
        },
        _ => panic!("expected the publish"),
    }
    assert!(matches!(st, Stage::Reported { .. }));
}

#[test]
fn timeout_publishes_timeout_message_and_never_fetches() {
    let cfg = test_config();
    let st = Stage::Uploaded { trigger: trigger("profile", "alice"), job: "J".to_string() };
    let (st, act) = step(&cfg, st, Ev::Waited(WaitOutcome::TimedOut));
    match &act {
        Act::Publish { url, report, payload, token } => {
            assert_eq!(url, "C");
            assert_eq!(report, "Timeout while waiting for profiling to complete.");
            assert_eq!(
                payload,
                "{ \"body\": \"Timeout while waiting for profiling to complete.\" }"
            );
            assert_eq!(token, "git_key");
        },
        _ => panic!("expected the publish"),
    }
    let (st, act) = step(&cfg, st, Ev::Published(true));
    assert!(matches!(act, Act::Halt));
    assert!(matches!(st, Stage::Done));
}

#[test]
fn fetch_failure_publishes_fetch_message() {
    let cfg = test_config();
    let st = Stage::Polled { trigger: trigger("profile", "alice"), job: "J".to_string() };
    let (st, act) = step(&cfg, st, Ev::Fetched(None));
    match &act {
        Act::Publish { report, payload, .. } => {
            assert_eq!(report, "Failed to retrieve profiling results.");
            assert_eq!(payload, "{ \"body\": \"Failed to retrieve profiling results.\" }");
        },
        _ => panic!("expected the publish"),
    }
    assert!(matches!(st, Stage::Reported { .. }));
}

#[test]
fn table_preserves_order_and_line_count() {
    let cfg = test_config();
    let st = Stage::Polled { trigger: trigger("profile", "alice"), job: "J".to_string() };
    let outs = vec![
        ScenarioOutcome { name: "b_scenario".to_string(), status: "OK".to_string(), time_ms: 2 },
        ScenarioOutcome { name: "a_scenario".to_string(), status: "FAIL".to_string(), time_ms: 1 },
    ];
    let (_, act) = step(&cfg, st, Ev::Fetched(Some(outs)));
    match &act {
        Act::Publish { report, .. } => {
            let lines: Vec<&str> = report.lines().collect();
            assert_eq!(lines.len(), 4);
            assert_eq!(lines[0], "Scenario | Status | Time (ms)");
            assert_eq!(lines[1], "---------|--------|----------");
            assert_eq!(lines[2], "b_scenario | OK | 2");
            assert_eq!(lines[3], "a_scenario | FAIL | 1");
        },
        _ => panic!("expected the publish"),
    }
}

#[test]
fn published_failure_still_finishes() {
    let cfg = test_config();
    let st = Stage::Reported {
        trigger: trigger("profile", "alice"),
        report: "r".to_string(),
    };
    let (st, act) = step(&cfg, st, Ev::Published(false));
    assert!(matches!(act, Act::Halt));
    assert!(matches!(st, Stage::Done));
}
