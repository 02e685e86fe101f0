//! Errors, runners, steps, updates, text helpers and AWS profiles.

use ma_demo::aws::{
    account_of, caller_identity, exports, list_profiles, parse_profiles, COMMON_REGIONS,
};
use ma_demo::cli::launch_ma;
use ma_demo::errand::Errand;
use ma_demo::error::Error;
use ma_demo::model::{Answers, SourceEngine, Target};
use ma_demo::runner::{Call, CommandRunner, Logged, MockRunner, Output};
use ma_demo::state::{holds_plan, path_under, State, Step};
use ma_demo::terraform::apply_errands;
use ma_demo::update::{
    check, find_value, is_newer, parse_latest_tag, parse_semver, upgrade_hint, Update,
};
use ma_demo::util::{indent, is_dns1123_label, yaml_quote};

// --- errors ---

#[test]
fn die_is_code_1() {
    assert_eq!(Error::die("x").code, 1);
}

#[test]
fn with_code_preserves_code() {
    let e = Error::with_code("unknown", 64);
    assert_eq!(e.code, 64);
    assert_eq!(e.message, "unknown");
}

#[test]
fn display_is_the_message() {
    assert_eq!(Error::die("boom").text(), "boom");
}

#[test]
fn io_error_maps_to_die() {
    let io = std::io::Error::new(std::io::ErrorKind::NotFound, "missing");
    let e: Error = io.into();
    assert_eq!(e.code, 1);
    assert!(e.message.contains("missing"));
}

#[test]
fn an_io_error_keeps_its_whole_text() {
    let io = std::io::Error::new(std::io::ErrorKind::Other, "disk full");
    assert_eq!(Error::from(io).message, "disk full");
}

#[test]
fn a_json_error_says_that_it_is_one() {
    let json = match serde_json::from_str::<u8>("nope") {
        Ok(_) => panic!("no number"),
        Err(e) => e,
    };
    let text = json.to_string();
    let e: Error = json.into();
    assert_eq!(e.code, 1);
    assert_eq!(e.message, format!("json: {text}"));
}

// --- runners ---

#[test]
fn mock_returns_matching_stub() {
    let mut r = MockRunner::new().stub("docker", &["info"], 0, "Server Version: 29.4.2");
    let out = r.run("docker", &["info", "--format", "{{.ServerVersion}}"]);
    assert!(out.success());
    assert!(out.stdout.contains("29.4.2"));
}

#[test]
fn mock_first_match_wins() {
    let mut r = MockRunner::new()
        .stub("kind", &["get", "clusters"], 0, "ma-demo-source")
        .stub("kind", &["get"], 0, "other");
    assert_eq!(
        r.run("kind", &["get", "clusters"]).trimmed_stdout(),
        "ma-demo-source"
    );
}

#[test]
fn mock_records_calls_in_order() {
    let mut r = MockRunner::new();
    r.run("kind", &["create", "cluster"]);
    r.run("kubectl", &["apply", "-f", "src.yaml"]);
    let calls = r.calls();
    assert_eq!(calls.len(), 2);
    assert_eq!(calls[0].program, "kind");
    assert_eq!(calls[1].joined(), "apply -f src.yaml");
    assert!(r.any_call_contains("kubectl apply -f src.yaml"));
}

#[test]
fn mock_default_status_when_no_stub() {
    let mut r = MockRunner::new().default_status(1);
    assert_eq!(r.run("docker", &["whatever"]).status, 1);
}

#[test]
fn run_streaming_default_delegates_to_run_and_records() {
    let mut r = MockRunner::new().stub("terraform", &["apply"], 0, "Apply complete!");
    let out = r.run_streaming("terraform", &["-chdir=tf", "apply", "-auto-approve"]);
    assert!(out.success());
    assert!(r.any_call_contains("terraform -chdir=tf apply"));
}

#[test]
fn mock_has_command() {
    let mut r = MockRunner::new().with_command("kind");
    assert!(r.has_command("kind"));
    assert!(!r.has_command("helm"));
}

#[test]
fn stub_once_fires_then_falls_through() {
    let mut r =
        MockRunner::new().stub_stderr_once("kubectl", &["apply"], 1, "field is immutable", 1);
    let first = r.run("kubectl", &["apply", "-f", "x.yaml"]);
    assert_eq!(first.status, 1);
    assert!(first.stderr.contains("immutable"));
    let second = r.run("kubectl", &["apply", "-f", "x.yaml"]);
    assert_eq!(
        second.status, 0,
        "second apply should fall through to default"
    );
    assert!(second.stderr.is_empty());
}

#[test]
fn calls_to_filters_by_program() {
    let mut r = MockRunner::new();
    r.run("docker", &["ps"]);
    r.run("kind", &["get", "clusters"]);
    r.run("docker", &["info"]);
    assert_eq!(r.calls_to("docker").len(), 2);
    assert_eq!(r.calls_to("kind").len(), 1);
}

#[test]
fn run_ok_tells_success_from_failure() {
    let mut r = Logged::new(MockRunner::new().stub_stderr("kubectl", &["get"], 7, "no"));
    assert!(r.run_ok("kubectl", &["apply"]));
    assert!(!r.run_ok("kubectl", &["get", "pods"]));
    assert_eq!(r.inner.calls().len(), 2);
}

#[test]
fn a_stub_needs_every_part_and_its_program() {
    let mut r = MockRunner::new().stub("kind", &["get", "clusters"], 3, "x");
    assert_eq!(r.run("kind", &["get", "nodes"]).status, 0);
    assert_eq!(r.run("kubectl", &["get", "clusters"]).status, 0);
    assert_eq!(
        r.run("kind", &["get", "clusters"]),
        Output {
            status: 3,
            stdout: "x".to_string(),
            stderr: String::new(),
        }
    );
}

#[test]
fn a_bounded_stub_is_used_up_and_the_next_takes_over() {
    let mut r = MockRunner::new()
        .stub_stderr_once("kubectl", &["apply"], 1, "first", 2)
        .stub("kubectl", &["apply"], 0, "second");
    assert_eq!(r.run("kubectl", &["apply"]).status, 1);
    assert_eq!(r.run("kubectl", &["apply"]).stderr, "first");
    assert_eq!(r.run("kubectl", &["apply"]).stdout, "second");
    assert_eq!(r.run("kubectl", &["apply"]).stdout, "second");
}

#[test]
fn a_bounded_stub_among_others_is_used_up_by_its_own_calls_only() {
    let mut r = MockRunner::new()
        .stub("kind", &["get"], 0, "clusters")
        .stub_stderr_once("kubectl", &["apply", "job"], 3, "immutable", 2)
        .stub("kubectl", &["apply"], 0, "applied")
        .default_status(9);
    assert_eq!(r.run("kubectl", &["apply", "job"]).stderr, "immutable");
    // Calls that it is not meant for leave it as it is.
    assert_eq!(r.run("kubectl", &["apply", "source"]).stdout, "applied");
    assert_eq!(r.run("kind", &["get", "job", "apply"]).stdout, "clusters");
    assert_eq!(r.run("kubectl", &["delete", "job"]).status, 9);
    assert_eq!(r.run("kubectl", &["apply", "job"]).status, 3);
    assert_eq!(r.run("kubectl", &["apply", "job"]).stdout, "applied");
    assert_eq!(r.run("kubectl", &["apply", "job"]).stdout, "applied");
}

/// A runner that notes how it was asked.
#[derive(Default)]
struct Noting {
    ran: Vec<String>,
    streamed: Vec<String>,
}

impl CommandRunner for Noting {
    fn run(&mut self, program: &str, args: &[&str]) -> Output {
        self.ran.push(format!("{program} {}", args.join(" ")));
        Output {
            status: 0,
            stdout: String::new(),
            stderr: String::new(),
        }
    }

    fn run_streaming(&mut self, program: &str, args: &[&str]) -> Output {
        self.streamed.push(format!("{program} {}", args.join(" ")));
        Output {
            status: 0,
            stdout: String::new(),
            stderr: String::new(),
        }
    }

    fn has_command(&mut self, _program: &str) -> bool {
        true
    }
}

#[test]
fn terraform_and_the_assistant_are_seen_live() {
    let mut r = Logged::new(Noting::default());
    for e in apply_errands("/ws") {
        assert!(e.perform(&mut r).is_ok());
    }
    assert!(launch_ma(&mut r, &vec!["/ws/bin/ma".to_string(), "go".to_string()]).is_ok());
    assert!(Errand::new("list", "kind", &["get", "clusters"])
        .perform(&mut r)
        .is_ok());
    assert_eq!(
        r.inner.streamed,
        vec![
            "terraform -chdir=/ws/terraform init",
            "terraform -chdir=/ws/terraform apply -auto-approve",
            "/ws/bin/ma go",
        ]
    );
    assert_eq!(r.inner.ran, vec!["kind get clusters"]);
}

#[test]
fn the_chosen_profile_and_region_are_exported() {
    let mut a = Answers::new();
    assert_eq!(exports(&a), vec![]);
    a.aws_region = Some("eu-west-1".to_string());
    assert_eq!(
        exports(&a),
        vec![("AWS_REGION".to_string(), "eu-west-1".to_string())]
    );
    a.aws_profile = Some("dev".to_string());
    assert_eq!(exports(&a)[0], ("AWS_PROFILE".to_string(), "dev".to_string()));
    assert_eq!(exports(&a).len(), 2);
}

#[test]
fn a_version_reads_back() {
    for v in [(0, 0, 0), (8, 17, 0), (5, 6, 16), (1, 100, u64::MAX)] {
        let (a, b, c) = v;
        assert_eq!(parse_semver(&format!("{a}.{b}.{c}")), v);
    }
}

#[test]
fn an_output_loses_its_last_newlines_only() {
    let out = Output {
        status: 0,
        stdout: "\n  a b \n\n".to_string(),
        stderr: String::new(),
    };
    assert_eq!(out.trimmed_stdout(), "\n  a b ");
    let call = Call {
        program: "kind".to_string(),
        args: vec!["get".to_string(), "clusters".to_string()],
    };
    assert_eq!(call.joined(), "get clusters");
}

// --- steps and the state ---

#[test]
fn step_order_and_index_are_consistent() {
    assert_eq!(Step::Planned.index(), 0);
    assert_eq!(Step::Ready.index(), Step::ORDER.len() - 1);
    for (i, s) in Step::ORDER.iter().enumerate() {
        assert_eq!(s.index(), i);
    }
}

#[test]
fn advance_is_monotonic() {
    let mut s = State::new("/tmp/ws");
    s.advance(Step::TargetUp);
    assert_eq!(s.plan.step, Step::TargetUp);
    // A lower step does not move it backward.
    s.advance(Step::SourceUp);
    assert_eq!(s.plan.step, Step::TargetUp);
    // A higher step advances.
    s.advance(Step::Ready);
    assert_eq!(s.plan.step, Step::Ready);
}

#[test]
fn a_state_is_cloned_whole() {
    let mut s = State::new("/tmp/ws");
    s.plan.answers.target = Some(Target::Local);
    s.plan.answers.source_engine = Some(SourceEngine::Solr);
    s.advance(Step::SourceUp);
    let t = s.clone();
    assert_eq!(t.dir(), "/tmp/ws");
    assert_eq!(t.plan, s.plan);
    assert_eq!(t.plan.answers.source_engine, Some(SourceEngine::Solr));
}

#[test]
fn paths_are_joined_with_one_slash() {
    assert_eq!(State::new("ws").plan_path(), "ws/plan.json");
    assert_eq!(State::new("/a/b/").plan_path(), "/a/b/plan.json");
    assert_eq!(path_under("", "x"), "x");
    assert_eq!(path_under("ws", "/etc/x"), "/etc/x");
}

#[test]
fn a_blank_file_holds_no_plan() {
    assert!(!holds_plan(""));
    assert!(!holds_plan(" \n\t "));
    assert!(holds_plan("{}"));
}

#[test]
fn steps_have_their_labels() {
    let labels: Vec<&str> = Step::ORDER.iter().map(|s| s.label()).collect();
    assert_eq!(
        labels,
        vec![
            "Plan collected",
            "Preflight checks",
            "Source cluster",
            "Snapshot storage",
            "Target cluster",
            "Client apps",
            "Seed sample data",
            "Launch Migration Assistant",
        ]
    );
}

// --- updates ---

#[test]
fn parse_semver_handles_v_and_suffixes() {
    assert_eq!(parse_semver("v0.1.1"), (0, 1, 1));
    assert_eq!(parse_semver("0.1.0-dev"), (0, 1, 0));
    assert_eq!(parse_semver("1.2.3+build"), (1, 2, 3));
    assert_eq!(parse_semver("garbage"), (0, 0, 0));
}

#[test]
fn is_newer_orders_semver() {
    assert!(is_newer("v0.1.1", "0.1.0"));
    assert!(is_newer("v0.2.0", "v0.1.9"));
    assert!(is_newer("1.0.0", "0.9.9"));
    assert!(!is_newer("0.1.0", "0.1.0"));
    assert!(!is_newer("0.1.0", "0.1.1"));
    // A published 0.1.0 is not "newer" than a 0.1.0-dev build (same core).
    assert!(!is_newer("0.1.0", "0.1.0-dev"));
}

#[test]
fn parse_latest_tag_extracts_tag() {
    let json = r#"{"url":"...","tag_name":"v0.1.1","name":"ma-demo v0.1.1"}"#;
    assert_eq!(parse_latest_tag(json).as_deref(), Some("v0.1.1"));
    assert_eq!(parse_latest_tag("{}"), None);
}

#[test]
fn check_reports_available_when_release_is_newer() {
    let r = MockRunner::new().with_command("curl").stub(
        "curl",
        &["releases/latest"],
        0,
        r#"{"tag_name":"v0.2.0"}"#,
    );
    let mut logged = Logged::new(r);
    assert_eq!(
        check(&mut logged, "0.1.1", false),
        Update::Available {
            latest: "v0.2.0".into()
        }
    );
}

#[test]
fn check_up_to_date_when_same_or_older() {
    let r = MockRunner::new().with_command("curl").stub(
        "curl",
        &["releases/latest"],
        0,
        r#"{"tag_name":"v0.1.1"}"#,
    );
    let mut logged = Logged::new(r);
    assert_eq!(check(&mut logged, "0.1.1", false), Update::UpToDate);
}

#[test]
fn check_unknown_without_curl_or_on_error() {
    // No curl on PATH.
    assert_eq!(
        check(&mut Logged::new(MockRunner::new()), "0.1.1", false),
        Update::Unknown
    );
    // curl present but errors (offline).
    let r = MockRunner::new().with_command("curl").stub_stderr(
        "curl",
        &["releases/latest"],
        6,
        "could not resolve host",
    );
    let mut logged = Logged::new(r);
    assert_eq!(check(&mut logged, "0.1.1", false), Update::Unknown);
}

#[test]
fn check_respects_opt_out_env() {
    let r = MockRunner::new().with_command("curl").stub(
        "curl",
        &["releases/latest"],
        0,
        r#"{"tag_name":"v9.9.9"}"#,
    );
    let mut logged = Logged::new(r);
    assert_eq!(check(&mut logged, "0.1.1", true), Update::Unknown);
    assert!(logged.inner.calls().is_empty());
}

#[test]
fn upgrade_hint_mentions_versions_and_installer() {
    let h = upgrade_hint("v0.2.0", "0.1.1");
    assert!(h.contains("v0.2.0"));
    assert!(h.contains("0.1.1"));
    assert!(h.contains("install.sh | bash"));
}

#[test]
fn missing_and_huge_numbers_count_as_zero() {
    assert_eq!(parse_semver("2"), (2, 0, 0));
    assert_eq!(parse_semver("1.x.3"), (1, 0, 3));
    assert_eq!(parse_semver("99999999999999999999.1.1"), (0, 1, 1));
}

#[test]
fn a_value_is_found_behind_its_key() {
    let json = r#"{"a": 1, "tag_name" : "x", "b": "y"}"#;
    assert_eq!(find_value(json, "\"tag_name\"").as_deref(), Some("x"));
    assert_eq!(find_value(json, "\"missing\""), None);
}

// --- text ---

#[test]
fn indent_pads_non_empty_lines_only() {
    let out = indent("a\n\nb", 2);
    assert_eq!(out, "  a\n\n  b");
}

#[test]
fn indent_handles_single_line() {
    assert_eq!(indent("x", 4), "    x");
}

#[test]
fn indent_drops_a_last_newline() {
    assert_eq!(indent("a\nb\n", 1), " a\n b");
    assert_eq!(indent("", 3), "");
}

#[test]
fn dns_label_accepts_valid_names() {
    assert!(is_dns1123_label("ma-demo-source"));
    assert!(is_dns1123_label("opensearch"));
    assert!(is_dns1123_label("a1"));
}

#[test]
fn dns_label_rejects_invalid_names() {
    assert!(!is_dns1123_label(""));
    assert!(!is_dns1123_label("-leading"));
    assert!(!is_dns1123_label("trailing-"));
    assert!(!is_dns1123_label("Upper"));
    assert!(!is_dns1123_label("under_score"));
    assert!(!is_dns1123_label(&"x".repeat(64)));
}

#[test]
fn the_longest_dns_label_is_accepted() {
    assert!(is_dns1123_label(&"x".repeat(63)));
    assert!(!is_dns1123_label("é"));
}

#[test]
fn yaml_quote_escapes_specials() {
    assert_eq!(yaml_quote("simple"), "\"simple\"");
    assert_eq!(yaml_quote(r#"a"b"#), r#""a\"b""#);
    assert_eq!(yaml_quote(r"a\b"), r#""a\\b""#);
}

// --- AWS ---

#[test]
fn parses_config_profiles() {
    let cfg = "[default]\nregion = us-east-1\n\n[profile dev]\nregion = us-west-2\n\n[profile prod-admin]\n";
    let p = parse_profiles(cfg, true);
    assert_eq!(p, vec!["default", "dev", "prod-admin"]);
}

#[test]
fn parses_credentials_profiles() {
    let creds = "[default]\naws_access_key_id = x\n\n[bedrock]\naws_access_key_id = y\n";
    let p = parse_profiles(creds, false);
    assert_eq!(p, vec!["default", "bedrock"]);
}

#[test]
fn account_of_extracts_id() {
    assert_eq!(
        account_of("arn:aws:sts::874041194807:assumed-role/Role/sess").as_deref(),
        Some("874041194807")
    );
    assert_eq!(account_of("not-an-arn"), None);
}

#[test]
fn common_regions_includes_us_east_1() {
    assert!(COMMON_REGIONS.contains(&"us-east-1"));
}

#[test]
fn profiles_of_both_files_are_listed_once() {
    let cfg = "[default]\n[profile dev]\n";
    let creds = "[default]\n[bedrock]\n";
    assert_eq!(
        list_profiles(Some(cfg), Some(creds)),
        vec!["default", "dev", "bedrock"]
    );
    assert_eq!(list_profiles(None, Some(creds)), vec!["default", "bedrock"]);
    assert_eq!(list_profiles(None, None), vec!["default"]);
}

#[test]
fn the_caller_is_asked_for_with_profile_and_region() {
    let mut r = Logged::new(MockRunner::new().with_command("aws").stub(
        "aws",
        &["sts"],
        0,
        "arn:aws:sts::1:user/x\n",
    ));
    assert_eq!(
        caller_identity(&mut r, "dev", "us-west-2").as_deref(),
        Some("arn:aws:sts::1:user/x")
    );
    assert!(r.inner.any_call_contains("dev"));
    assert!(r.inner.any_call_contains("us-west-2"));
    let mut failing = Logged::new(MockRunner::new().with_command("aws").stub_stderr(
        "aws",
        &["sts"],
        255,
        "ExpiredToken",
    ));
    assert_eq!(caller_identity(&mut failing, "dev", "us-west-2"), None);
}
