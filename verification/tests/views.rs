//! Screens, the dashboard, the timeline and what goes to the terminal.

use ma_demo::board::{board, can_show, fits, truncate, Board, Extent};
use ma_demo::dashboard::{
    key_quits, parse_count, pod_for, pod_health, probe, short_pod_name, Health, Pace, Row,
    Snapshot, Turn,
};
use ma_demo::model::{
    Answers, SnapshotStorage, SourceEngine, Target, TargetKind, TargetMode,
};
use ma_demo::progress::{rows, timeline_lines, PhaseStatus};
use ma_demo::runner::{Logged, MockRunner};
use ma_demo::state::Step;
use ma_demo::styled::{Ink, Line, Style};
use ma_demo::tui::{
    is_ctrl_c, Key, KeyPress, Outcome, ReviewContext, ReviewMsg, ReviewOutcome, ReviewScreen,
    Screen, ScreenMsg, REVIEW_TITLE, SCREEN_TITLE,
};
use ma_demo::ui::{
    confirm, confirm_label, fmt_banner, fmt_dim, fmt_err, fmt_ok, fmt_step, fmt_warn, prompt,
    prompt_label, resolve_pick, Note, C_GREEN,
};
use ma_demo::wizard::{self, Answer, QuestionId, ReviewRow};
use ratatui::backend::TestBackend;
use ratatui::widgets::{Block, Paragraph};
use ratatui::Terminal;

/// The text of a line.
fn plain(line: &Line) -> String {
    line.spans.iter().map(|s| s.text.as_str()).collect()
}

/// The text of some lines, one under the other.
fn text_of(lines: &[Line]) -> String {
    lines.iter().map(|l| plain(l) + "\n").collect()
}

/// The text of a board.
fn board_text(b: &Board) -> String {
    let mut t = text_of(&b.header);
    for p in b.left.iter().chain(b.right.iter()) {
        t.push_str(&p.title);
        t.push('\n');
        t.push_str(&text_of(&p.lines));
    }
    t.push_str(&b.hint);
    t
}

// --- the dashboard ---

fn local_answers() -> Answers {
    let mut a = Answers::new();
    a.target = Some(Target::Local);
    a.source_engine = Some(SourceEngine::OpenSearch);
    a.source_version = Some("2.15.0".into());
    a.target_mode = Some(TargetMode::Provision);
    a.target_kind = Some(TargetKind::KindOpenSearch);
    a.target_version = Some("3.3.0".into());
    a
}

fn cloud_answers() -> Answers {
    let mut a = Answers::new();
    a.target = Some(Target::Cloud);
    a.source_engine = Some(SourceEngine::Solr);
    a.source_version = Some("8.11.3".into());
    a.snapshot_storage = Some(SnapshotStorage::AwsS3);
    a.target_mode = Some(TargetMode::Provision);
    a.target_kind = Some(TargetKind::AossServerlessNextGen);
    a.aws_profile = Some("default".into());
    a.aws_region = Some("us-east-1".into());
    a
}

#[test]
fn cloud_probe_shows_aws_resources_not_kind() {
    let mut r = Logged::new(MockRunner::new()
        .with_command("aws")
        .stub(
            "aws",
            &["sts", "get-caller-identity"],
            0,
            "arn:aws:sts::874041194807:assumed-role/Role/sess",
        )
        .stub("aws", &["ec2", "describe-instances"], 0, "running")
        .stub("aws", &["s3api", "list-buckets"], 0, "ma-demo-snapshots-abc123")
        .stub(
            "aws",
            &["batch-get-collection"],
            0,
            r#"{"collectionDetails":[{"status":"ACTIVE","collectionEndpoint":"https://x.aoss.us-east-1.on.aws","id":"x"}]}"#,
        ));
    let snap = probe(&mut r, &cloud_answers(), 0);
    // NO `kind get clusters` on the cloud path.
    assert!(!r.inner.any_call_contains("kind get clusters"));
    // AWS account context shown (account id parsed from the ARN).
    assert!(snap.clusters.iter().any(|c| c.label == "AWS account"
        && c.health == Health::Up
        && c.detail.contains("874041194807")));
    // Real AWS resources, not phantom KIND pods.
    assert!(snap
        .source_pods
        .iter()
        .any(|r| r.label == "source EC2" && r.health == Health::Up));
    assert!(snap
        .source_pods
        .iter()
        .any(|r| r.label == "S3 snapshots" && r.health == Health::Up));
    assert!(snap
        .target
        .iter()
        .any(|t| t.label == "AOSS NextGen" && t.health == Health::Up));
    // The misleading "cluster not up yet" placeholder must NOT appear.
    assert!(!snap
        .source_pods
        .iter()
        .any(|r| r.detail.contains("cluster not up yet")));
}

#[test]
fn cloud_probe_degrades_when_creds_missing() {
    // aws present but sts fails (expired creds) → account row Down, no panic.
    let mut r = Logged::new(MockRunner::new()
        .with_command("aws")
        .stub_stderr("aws", &["sts"], 255, "ExpiredToken"));
    let snap = probe(&mut r, &cloud_answers(), 0);
    assert!(snap
        .clusters
        .iter()
        .any(|c| c.label == "AWS account" && c.health == Health::Down));
}

#[test]
fn cloud_render_labels_panels_for_aws() {
    let mut r = Logged::new(MockRunner::new().with_command("aws"));
    let snap = probe(&mut r, &cloud_answers(), 0);
    let text = board_text(&board(&snap, &cloud_answers()));
    assert!(
        text.contains("AWS resources"),
        "cloud run should label the panel 'AWS resources'"
    );
    assert!(
        !text.contains("KIND clusters"),
        "cloud run must not show a KIND panel"
    );
    assert!(
        !text.contains("Seeded indices"),
        "no in-cluster index panel on cloud"
    );
}

#[test]
fn spinner_frame_is_independent_of_probe_tick() {
    // The header spinner is driven by `frame`, not `tick`, so it animates on
    // fast redraws while the probe tick only steps every ~2s.
    let mut r = Logged::new(MockRunner::new());
    let mut snap = probe(&mut r, &local_answers(), 0);
    let glyph_at = |s: &Snapshot| text_of(&board(s, &local_answers()).header);
    snap.frame = 0;
    let g0 = glyph_at(&snap);
    snap.frame = 3; // advance spinner WITHOUT re-probing (tick unchanged)
    let g3 = glyph_at(&snap);
    assert_ne!(g0, g3, "spinner glyph must change as frame advances");
    snap.frame = 10;
    assert_eq!(glyph_at(&snap), g0);
}

#[test]
fn parse_count_extracts_number() {
    assert_eq!(parse_count(r#"{"count":500,"_shards":{}}"#), Some(500));
    assert_eq!(parse_count("nope"), None);
}

#[test]
fn a_count_stands_right_behind_its_key() {
    assert_eq!(parse_count(r#"{"took":3,"count":7}"#), Some(7));
    assert_eq!(parse_count(r#"{"count": 7}"#), None);
    assert_eq!(parse_count(r#"{"count":"7"}"#), None);
    assert_eq!(parse_count(r#"{"count":99999999999999999999}"#), None);
}

#[test]
fn key_quits_on_q_and_esc_only() {
    assert!(key_quits(Key::Char('q')));
    assert!(key_quits(Key::Char('Q')));
    assert!(key_quits(Key::Esc));
    assert!(!key_quits(Key::Char('x')));
    assert!(!key_quits(Key::Down));
}

#[test]
fn pod_health_classifies() {
    assert_eq!(pod_health("1/1", "Running"), Health::Up);
    assert_eq!(pod_health("0/1", "Running"), Health::Pending);
    assert_eq!(pod_health("0/1", "ContainerCreating"), Health::Pending);
    assert_eq!(pod_health("0/1", "CrashLoopBackOff"), Health::Down);
    assert_eq!(pod_health("0/1", "Completed"), Health::Up);
}

#[test]
fn short_pod_name_keeps_ordinals_trims_hashes() {
    // statefulset ordinal kept
    assert_eq!(short_pod_name("source-opensearch-0"), "source-opensearch-0");
    assert_eq!(short_pod_name("target-opensearch-0"), "target-opensearch-0");
    // deployment ReplicaSet pod → base name (incl. an all-letter pod suffix)
    assert_eq!(short_pod_name("locust-6c86b77b45-td7fx"), "locust");
    assert_eq!(short_pod_name("locust-7b4664d776-fdwbh"), "locust");
    assert_eq!(
        short_pod_name("sample-search-app-66954fd9cb-9htv6"),
        "sample-search-app"
    );
    // Job pod (single hash suffix) → base name
    assert_eq!(short_pod_name("data-seed-wd795"), "data-seed");
    // base names whose trailing word is <5 chars are preserved
    assert_eq!(short_pod_name("data-seed"), "data-seed");
}

#[test]
fn probe_pending_when_no_clusters() {
    // kind get clusters returns nothing → everything pending.
    let mut r = Logged::new(MockRunner::new());
    let snap = probe(&mut r, &local_answers(), 0);
    assert!(snap.clusters.iter().all(|c| c.health == Health::Pending));
    // No source cluster → source pods row is the "not up yet" placeholder.
    assert!(snap
        .source_pods
        .iter()
        .any(|r| r.detail.contains("not up yet")));
}

#[test]
fn probe_reads_pods_and_counts_when_source_up() {
    let mut r = Logged::new(MockRunner::new()
        .stub("kind", &["get", "clusters"], 0, "ma-demo-source\nma-demo-target")
        .stub(
            "kubectl",
            &["kind-ma-demo-source", "get", "pods"],
            0,
            "source-opensearch-0   1/1   Running   0   2m\nlocust-6c86b77b45-td7fx   1/1   Running   0   2m",
        )
        .stub(
            "kubectl",
            &["kind-ma-demo-target", "get", "pods"],
            0,
            "target-opensearch-0   1/1   Running   0   1m",
        )
        // index counts
        .stub("kubectl", &["demo-logs/_count"], 0, r#"{"count":500}"#)
        .stub("kubectl", &["demo-users/_count"], 0, r#"{"count":200}"#)
        .stub("kubectl", &["demo-products/_count"], 0, r#"{"count":150}"#));
    let snap = probe(&mut r, &local_answers(), 1);
    // Both clusters up.
    assert!(snap.clusters.iter().all(|c| c.health == Health::Up));
    // Source pods parsed + healthy.
    assert!(snap
        .source_pods
        .iter()
        .any(|p| p.label == "source-opensearch-0" && p.health == Health::Up));
    assert!(snap.source_pods.iter().any(|p| p.label == "locust"));
    // Indices counted.
    let logs = snap
        .indices
        .iter()
        .find(|r| r.label == "demo-logs")
        .unwrap();
    assert_eq!(logs.health, Health::Up);
    assert!(logs.detail.contains("500"));
    // Target pod healthy.
    assert!(snap
        .target
        .iter()
        .any(|p| p.label == "target-opensearch-0" && p.health == Health::Up));
    // Summary mentions docs.
    assert!(snap.countable());
    assert!(snap.summary().contains("850 docs"));
}

#[test]
fn probe_aoss_target_uses_batch_get() {
    let mut a = local_answers();
    a.target_kind = Some(TargetKind::AossServerlessNextGen);
    a.target_version = None;
    let mut r = Logged::new(MockRunner::new()
        .stub("kind", &["get", "clusters"], 0, "ma-demo-source")
        .stub(
            "aws",
            &["batch-get-collection"],
            0,
            r#"{"collectionDetails":[{"status":"ACTIVE","collectionEndpoint":"https://x.aoss.us-east-1.on.aws","id":"x"}]}"#,
        ));
    let snap = probe(&mut r, &a, 0);
    assert!(snap
        .target
        .iter()
        .any(|t| t.label == "AOSS NextGen" && t.health == Health::Up));
    // No second KIND cluster row for AOSS.
    assert!(!snap.clusters.iter().any(|c| c.detail == "ma-demo-target"));
}

#[test]
fn renders_a_full_frame_without_panicking() {
    let mut r = Logged::new(MockRunner::new()
        .stub("kind", &["get", "clusters"], 0, "ma-demo-source")
        .stub(
            "kubectl",
            &["get", "pods"],
            0,
            "source-opensearch-0   1/1   Running   0   2m",
        )
        .stub("kubectl", &["_count"], 0, r#"{"count":100}"#));
    let snap = probe(&mut r, &local_answers(), 3);
    assert!(snap.presentable());
    let text = board_text(&board(&snap, &local_answers()));
    assert!(text.contains("KIND clusters"));
    assert!(text.contains("Source workloads"));
    assert!(text.contains("Seeded indices"));
    assert!(text.contains("Migration Assistant"));
}

#[test]
fn every_panel_but_the_tall_ones_has_room_for_its_rows() {
    let mut r = Logged::new(MockRunner::new());
    let snap = probe(&mut r, &local_answers(), 0);
    let b = board(&snap, &local_answers());
    for p in b.left.iter().chain(b.right.iter()) {
        if let Extent::Lines(n) = p.extent {
            assert!(n as usize >= p.lines.len() + 2, "{}", p.title);
        }
    }
}

#[test]
fn a_default_snapshot_is_empty() {
    let s = Snapshot::default();
    assert!(s.clusters.is_empty() && s.source_pods.is_empty() && s.indices.is_empty());
    assert!(s.target.is_empty() && s.ma.is_empty());
    assert_eq!((s.tick, s.frame), (0, 0));
    assert!(s.presentable());
}

#[test]
fn long_details_are_cut() {
    assert_eq!(truncate("abc", 5), "abc");
    assert_eq!(truncate("abcde", 5), "abcde");
    assert_eq!(truncate("abcdef", 5), "abcd…");
    assert!(fits("abc", 3));
    assert!(fits("abcd", 3));
}

#[test]
fn a_text_is_not_cut_within_a_character() {
    assert!(!fits("éé", 2));
    assert!(fits("éé", 3));
    assert_eq!(truncate("éé", 3), "é…");
}

#[test]
fn the_pod_of_a_service_is_its_first() {
    assert_eq!(pod_for("source-opensearch"), "source-opensearch-0");
    assert!(can_show(&vec![Row::new("a", Health::Up, "b")]));
}

#[test]
fn health_has_its_glyphs() {
    let glyphs: Vec<&str> = [Health::Up, Health::Pending, Health::Down]
        .iter()
        .map(|h| h.glyph())
        .collect();
    assert_eq!(glyphs.len(), 3);
    assert_ne!(glyphs[0], glyphs[1]);
    assert_ne!(glyphs[1], glyphs[2]);
    assert_ne!(glyphs[0], glyphs[2]);
}

fn press(key: Key) -> KeyPress {
    KeyPress {
        key,
        control: false,
    }
}

fn control(c: char) -> KeyPress {
    KeyPress {
        key: Key::Char(c),
        control: true,
    }
}

#[test]
fn the_dashboard_goes_on_until_it_is_quit() {
    let mut pace = Pace::new();
    assert_eq!(pace.turn(Some(press(Key::Char('q'))), false), Turn::Quit);
    assert_eq!(pace.turn(Some(control('c')), false), Turn::Quit);
    assert_ne!(pace.turn(Some(press(Key::Char('x'))), false), Turn::Quit);
    assert_ne!(pace.turn(None, true), Turn::Quit);
}

// --- the timeline ---

#[test]
fn rows_mark_done_current_pending() {
    let r = rows(Step::SourceUp);
    // Planned + Preflight are before SourceUp → Done.
    assert_eq!(r[0].status, PhaseStatus::Done);
    assert_eq!(r[1].status, PhaseStatus::Done);
    // SourceUp itself → Current.
    assert_eq!(r[2].status, PhaseStatus::Current);
    assert_eq!(r[2].label, "Source cluster");
    // The rest → Pending.
    assert_eq!(r[3].status, PhaseStatus::Pending);
    assert_eq!(r.last().unwrap().status, PhaseStatus::Pending);
}

#[test]
fn first_step_has_no_done_rows() {
    let r = rows(Step::Planned);
    assert_eq!(r[0].status, PhaseStatus::Current);
    assert!(r[1..].iter().all(|x| x.status == PhaseStatus::Pending));
}

#[test]
fn last_step_has_no_pending_rows() {
    let r = rows(Step::Ready);
    assert_eq!(r.last().unwrap().status, PhaseStatus::Current);
    assert!(r[..r.len() - 1]
        .iter()
        .all(|x| x.status == PhaseStatus::Done));
}

#[test]
fn markers_are_distinct() {
    assert_eq!(PhaseStatus::Done.marker(), '●');
    assert_eq!(PhaseStatus::Current.marker(), '◐');
    assert_eq!(PhaseStatus::Pending.marker(), '○');
}

#[test]
fn timeline_renders_exact_frame() {
    let mut t = Terminal::new(TestBackend::new(44, 10)).unwrap();
    let lines: Vec<ratatui::text::Line> = timeline_lines(Step::SourceUp)
        .iter()
        .map(|l| ratatui::text::Line::from(plain(l)))
        .collect();
    t.draw(|f| {
        let block = Block::bordered().title(" Setup ");
        f.render_widget(Paragraph::new(lines.clone()).block(block), f.area());
    })
    .unwrap();
    let buf = t.backend().buffer().clone();
    let actual: Vec<String> = (0..buf.area().height)
        .map(|y| {
            (0..buf.area().width)
                .map(|x| buf[(x, y)].symbol())
                .collect()
        })
        .collect();
    assert_eq!(
        actual,
        vec![
            "┌ Setup ───────────────────────────────────┐",
            "│  ● Plan collected                        │",
            "│  ● Preflight checks                      │",
            "│  ◐ Source cluster                        │",
            "│  ○ Snapshot storage                      │",
            "│  ○ Target cluster                        │",
            "│  ○ Client apps                           │",
            "│  ○ Seed sample data                      │",
            "│  ○ Launch Migration Assistant            │",
            "└──────────────────────────────────────────┘",
        ]
    );
}

// --- question screens ---

fn single() -> Screen {
    let q = wizard::build(QuestionId::Target, &Answers::new());
    Screen::new(q, &[])
}
fn multi() -> Screen {
    let mut a = Answers::new();
    a.source_engine = Some(SourceEngine::Elasticsearch);
    let q = wizard::build(QuestionId::SourcePlugins, &a);
    // Seed an explicit (non-default) selection so these toggle-mechanics
    // tests start from a known empty state, independent of default_on.
    Screen::new(q, &["__none__".to_string()])
}
fn yesno() -> Screen {
    let q = wizard::build(QuestionId::SeedData, &Answers::new());
    Screen::new(q, &[])
}

/// The text of a screen: its title, its body and its footer.
fn screen_text(s: &Screen) -> String {
    format!(
        "{}\n{}\n{}{}\n{}",
        SCREEN_TITLE,
        s.question.title,
        text_of(&s.body_lines()),
        s.help_text(),
        s.hint()
    )
}

#[test]
fn single_choice_cursor_wraps() {
    let mut s = single();
    assert_eq!(s.cursor, 0);
    s.update(ScreenMsg::Up); // wraps to last
    assert_eq!(s.cursor, 1);
    s.update(ScreenMsg::Down); // wraps to first
    assert_eq!(s.cursor, 0);
    s.update(ScreenMsg::Down);
    assert_eq!(s.cursor, 1);
}

#[test]
fn single_choice_confirm_emits_choice() {
    let mut s = single();
    s.update(ScreenMsg::Down); // cursor on second option (cloud)
    s.update(ScreenMsg::Confirm);
    assert_eq!(
        s.outcome,
        Some(Outcome::Answered(Answer::Choice("cloud".into())))
    );
}

#[test]
fn multi_choice_toggle_builds_set_in_order() {
    let mut s = multi();
    // Toggle option 0, move to 2, toggle it.
    s.update(ScreenMsg::Toggle);
    s.update(ScreenMsg::Down);
    s.update(ScreenMsg::Down);
    s.update(ScreenMsg::Toggle);
    s.update(ScreenMsg::Confirm);
    match s.outcome {
        Some(Outcome::Answered(Answer::Choices(ids))) => {
            // Sorted by index → repository-s3 (0) then analysis-phonetic (2).
            assert_eq!(ids.len(), 2);
            assert_eq!(ids[0], "repository-s3");
        }
        other => panic!("expected choices, got {other:?}"),
    }
}

#[test]
fn multi_choice_toggle_off_removes() {
    let mut s = multi();
    s.update(ScreenMsg::Toggle); // select 0
    s.update(ScreenMsg::Toggle); // deselect 0
    s.update(ScreenMsg::Confirm);
    assert_eq!(s.outcome, Some(Outcome::Answered(Answer::Choices(vec![]))));
}

#[test]
fn the_last_choice_toggled_first_still_comes_last() {
    let mut s = multi();
    s.update(ScreenMsg::Up); // wraps to the last option
    s.update(ScreenMsg::Toggle);
    s.update(ScreenMsg::Down); // wraps to the first
    s.update(ScreenMsg::Toggle);
    s.update(ScreenMsg::Confirm);
    assert_eq!(
        s.outcome,
        Some(Outcome::Answered(Answer::Choices(vec![
            "repository-s3".into(),
            "mapper-size".into()
        ])))
    );
}

#[test]
fn multi_choice_preselect_starts_checked() {
    let mut a = Answers::new();
    a.source_engine = Some(SourceEngine::Elasticsearch);
    let q = wizard::build(QuestionId::SourcePlugins, &a);
    let s = Screen::new(q, &["analysis-icu".to_string()]);
    // analysis-icu is option index 1.
    assert!(s.selected.contains(&1));
}

#[test]
fn presets_start_checked_where_nothing_was_chosen() {
    let mut a = Answers::new();
    a.source_engine = Some(SourceEngine::Elasticsearch);
    let q = wizard::build(QuestionId::SourcePlugins, &a);
    let s = Screen::new(q, &[]);
    assert_eq!(s.selected, vec![0]);
}

#[test]
fn yesno_flip_and_confirm() {
    let mut s = yesno();
    assert!(s.yes);
    s.update(ScreenMsg::Down);
    assert!(!s.yes);
    s.update(ScreenMsg::Confirm);
    assert_eq!(s.outcome, Some(Outcome::Answered(Answer::Bool(false))));
}

#[test]
fn y_answers_yes_and_n_answers_no_regardless_of_cursor() {
    // `y`/`n` force the value: they do not confirm whatever the cursor is on.
    let s = yesno();
    assert_eq!(
        s.key_to_msg(Key::Char('y')),
        Some(ScreenMsg::ConfirmYesNo(true))
    );
    assert_eq!(
        s.key_to_msg(Key::Char('n')),
        Some(ScreenMsg::ConfirmYesNo(false))
    );

    // Cursor on "No", press y → answers YES.
    let mut s = yesno();
    s.update(ScreenMsg::Down); // flip to No
    assert!(!s.yes);
    s.update(ScreenMsg::ConfirmYesNo(true));
    assert_eq!(s.outcome, Some(Outcome::Answered(Answer::Bool(true))));

    // Cursor on "Yes" (default), press n → answers NO.
    let mut s = yesno();
    s.update(ScreenMsg::ConfirmYesNo(false));
    assert_eq!(s.outcome, Some(Outcome::Answered(Answer::Bool(false))));
}

#[test]
fn footer_shows_step_counter_when_set() {
    let q = wizard::build(QuestionId::Target, &Answers::new());
    let s = Screen::new(q, &[]).with_step(Some((1, 9)));
    let text = screen_text(&s);
    assert!(text.contains("Step 1 of 9"), "footer shows step counter");
    assert!(text.contains("editable on the final review"));
}

#[test]
fn cancel_sets_cancelled() {
    let mut s = single();
    s.update(ScreenMsg::Cancel);
    assert_eq!(s.outcome, Some(Outcome::Cancelled));
}

#[test]
fn key_bindings_map() {
    let s = single();
    assert_eq!(s.key_to_msg(Key::Down), Some(ScreenMsg::Down));
    assert_eq!(s.key_to_msg(Key::Char('j')), Some(ScreenMsg::Down));
    assert_eq!(s.key_to_msg(Key::Up), Some(ScreenMsg::Up));
    assert_eq!(s.key_to_msg(Key::Enter), Some(ScreenMsg::Confirm));
    assert_eq!(s.key_to_msg(Key::Esc), Some(ScreenMsg::Cancel));
    assert_eq!(s.key_to_msg(Key::Char(' ')), Some(ScreenMsg::Toggle));
}

#[test]
fn renders_without_panicking_and_shows_title() {
    let s = single();
    let text = screen_text(&s);
    assert!(text.contains("Where should the test environment run"));
    assert!(text.contains("Local"));
    assert!(text.contains("Cloud"));
}

#[test]
fn the_choice_under_the_cursor_stands_out() {
    let mut s = single();
    let marked = |s: &Screen| -> Vec<bool> {
        s.body_lines()
            .iter()
            .map(|l| l.spans[0].style.reversed)
            .collect()
    };
    let before = marked(&s);
    s.update(ScreenMsg::Down);
    assert_eq!(before.iter().filter(|x| **x).count(), 1);
    assert_ne!(before, marked(&s));
}

#[test]
fn ctrl_c_is_detected_but_a_plain_c_is_not() {
    assert!(is_ctrl_c(control('c')));
    assert!(is_ctrl_c(control('d')));
    // A bare `c` is the review's "confirm" — it must NOT be read as Ctrl-C.
    assert!(!is_ctrl_c(press(Key::Char('c'))));
}

#[test]
fn an_interrupt_cancels_every_screen() {
    let mut s = single();
    s.press(control('c'));
    assert_eq!(s.outcome, Some(Outcome::Cancelled));
    let mut s = single();
    s.press(press(Key::Enter));
    assert_eq!(
        s.outcome,
        Some(Outcome::Answered(Answer::Choice("local".into())))
    );
    let mut r = ReviewScreen::new(review_rows());
    r.press(control('d'));
    assert_eq!(r.outcome, Some(ReviewOutcome::Cancel));
}

#[test]
fn q_and_esc_cancel_every_screen() {
    for key in [Key::Char('q'), Key::Esc] {
        for mut s in [single(), multi(), yesno()] {
            s.press(press(key));
            assert_eq!(s.outcome, Some(Outcome::Cancelled));
        }
        let mut r = ReviewScreen::new(review_rows());
        r.press(press(key));
        assert_eq!(r.outcome, Some(ReviewOutcome::Cancel));
        assert!(key_quits(key));
    }
    assert!(single().hint().contains("q/Esc/^C cancel"));
}

// --- the review ---

fn review_rows() -> Vec<ReviewRow> {
    wizard::review_rows(&Answers::new())
}

/// The text of the review: its title, its header and its body.
fn review_text(screen: &ReviewScreen) -> String {
    format!(
        "{}\n{}{}",
        REVIEW_TITLE,
        text_of(&screen.header_lines()),
        text_of(&screen.body_lines())
    )
}

#[test]
fn review_header_shows_version_workspace_and_aws_identity() {
    let ctx = ReviewContext {
        version: "0.1.2".into(),
        workspace: "/tmp/ws".into(),
        aws: vec![
            "AWS profile=default  region=us-east-1".into(),
            "identity arn:aws:sts::874041194807:assumed-role/Foo/x  (account 874041194807)".into(),
        ],
        aws_warning: false,
        update_hint: None,
    };
    let screen = ReviewScreen::with_context(review_rows(), ctx);
    let text = review_text(&screen);
    assert!(text.contains("0.1.2"), "version in header");
    assert!(text.contains("/tmp/ws"), "workspace in header");
    assert!(text.contains("874041194807"), "AWS account in header");
    assert!(text.contains("Review the plan"), "title bar");
    // The plan rows still render.
    assert!(text.contains("Where"));
    // An AWS-touching plan flags the billable consequence.
    assert!(
        text.contains("billable AWS resources"),
        "cloud plan warns about billable resources"
    );
}

#[test]
fn review_without_aws_uses_calm_reassurance_not_billing_warning() {
    let ctx = ReviewContext {
        version: "0.1.2".into(),
        workspace: "/tmp/ws".into(),
        aws: Vec::new(),
        aws_warning: false,
        update_hint: None,
    };
    let screen = ReviewScreen::with_context(review_rows(), ctx);
    let text = review_text(&screen);
    assert!(text.contains("Nothing is created yet"));
    assert!(!text.contains("billable AWS resources"));
}

#[test]
fn review_header_shows_upgrade_hint_when_present() {
    let ctx = ReviewContext {
        version: "0.1.1".into(),
        workspace: "/tmp/ws".into(),
        aws: Vec::new(),
        aws_warning: false,
        update_hint: Some("A newer ma-demo is available: v0.1.2".into()),
    };
    let screen = ReviewScreen::with_context(review_rows(), ctx);
    let text = review_text(&screen);
    assert!(text.contains("newer ma-demo is available"));
}

#[test]
fn review_without_context_has_no_header_but_still_renders_plan() {
    let screen = ReviewScreen::new(review_rows());
    let text = review_text(&screen);
    assert!(text.contains("Nothing is created yet"));
    assert!(text.contains("Where"));
    assert_eq!(screen.header_lines().len(), 2);
}

#[test]
fn the_review_edits_the_row_under_the_cursor() {
    let mut a = Answers::new();
    wizard::fill_defaults(&mut a);
    let rows = wizard::review_rows(&a);
    let second = rows[1].question;
    let n = rows.len();
    let mut s = ReviewScreen::new(rows);
    s.update(ReviewMsg::Up);
    assert_eq!(s.cursor, n - 1);
    s.update(ReviewMsg::Down);
    assert_eq!(s.cursor, 0);
    s.update(ReviewMsg::Down);
    s.update(ReviewMsg::Edit);
    assert_eq!(s.outcome, Some(ReviewOutcome::Edit(second)));
    let mut s = ReviewScreen::new(review_rows());
    s.press(press(Key::Char('c')));
    assert_eq!(s.outcome, Some(ReviewOutcome::Confirm));
}

// --- the terminal ---

#[test]
fn formatters_wrap_with_ansi_and_text() {
    assert!(fmt_ok("done").contains("done"));
    assert!(fmt_ok("done").contains(C_GREEN));
    assert!(fmt_err("boom").contains("boom"));
    assert!(fmt_step("go").contains('▶'));
    assert!(fmt_banner("Hi").contains("=== Hi ==="));
}

#[test]
fn prompt_non_interactive_returns_default() {
    assert_eq!(prompt("def", true, None), "def");
    assert_eq!(prompt_label("x", "def"), "x [def]: ");
}

#[test]
fn confirm_non_interactive_returns_default() {
    assert!(confirm(true, true, None));
    assert!(!confirm(false, true, None));
}

#[test]
fn a_line_that_was_read_decides() {
    assert_eq!(prompt("def", false, Some(" abc \n")), "abc");
    assert_eq!(prompt("def", false, Some("\n")), "def");
    assert_eq!(prompt("def", false, None), "def");
    assert!(confirm(false, false, Some("y\n")));
    assert!(confirm(false, false, Some("YES\n")));
    assert!(!confirm(true, false, Some("n\n")));
    assert!(confirm(true, false, Some("\n")));
    assert!(!confirm(false, false, None));
    assert_eq!(confirm_label("Go?", true), "Go? [Y/n]: ");
    assert_eq!(confirm_label("Go?", false), "Go? [y/N]: ");
}

#[test]
fn resolve_pick_by_index() {
    let ids = ["a", "b", "c"];
    let labels = ["A", "B", "C"];
    assert_eq!(resolve_pick("2", &ids, &labels), Some("b"));
    assert_eq!(resolve_pick("1", &ids, &labels), Some("a"));
    assert_eq!(resolve_pick("0", &ids, &labels), None);
    assert_eq!(resolve_pick("9", &ids, &labels), None);
}

#[test]
fn resolve_pick_by_id_and_label() {
    let ids = ["local", "cloud"];
    let labels = ["Local", "Cloud"];
    assert_eq!(resolve_pick("cloud", &ids, &labels), Some("cloud"));
    assert_eq!(resolve_pick("LOCAL", &ids, &labels), Some("local"));
    assert_eq!(resolve_pick("Cloud", &ids, &labels), Some("cloud"));
    assert_eq!(resolve_pick("nope", &ids, &labels), None);
}

#[test]
fn notes_are_printed_as_they_are_formatted() {
    let t = || "x".to_string();
    assert_eq!(Note::Banner(t()).render(), fmt_banner("x") + "\n");
    assert_eq!(Note::Step(t()).render(), fmt_step("x") + "\n");
    assert_eq!(Note::Success(t()).render(), fmt_ok("x") + "\n");
    assert_eq!(Note::Warning(t()).render(), fmt_warn("x") + "\n");
    assert_eq!(Note::Failure(t()).render(), fmt_err("x") + "\n");
    assert_eq!(Note::Dim(t()).render(), fmt_dim("x") + "\n");
    assert_eq!(Note::Info(t()).render(), "x\n");
    assert_eq!(Note::Raw(t()).render(), "x");
    assert!(Note::Warning(t()).is_error() && Note::Failure(t()).is_error());
    assert!(!Note::Success(t()).is_error());
}

#[test]
fn styles_are_what_they_are_called() {
    assert_eq!(Style::plain(), Style::ink(Ink::Plain));
    assert!(Style::bold().bold && !Style::bold().dim);
    assert!(Style::dim().dim && !Style::dim().bold);
    assert_eq!(plain(&Line::one("x", Style::bold())), "x");
}
