//! The questions and what their answers do.

use ma_demo::model::{
    Answers, ClientApp, MaHandoff, SnapshotStorage, SourceEngine, Target, TargetKind, TargetMode,
};
use ma_demo::wizard::{
    answered, applies, apply, build, fill_defaults, next_question, next_question_id,
    parse_client, parse_engine, parse_ma_handoff, parse_snapshot, parse_target,
    parse_target_kind, parse_target_mode, plugin_choices, review_rows, Answer, Kind, QuestionId,
    FLOW,
};


#[test]
fn flow_starts_at_target() {
    let a = Answers::new();
    assert_eq!(next_question_id(&a), QuestionId::Target);
}

#[test]
fn full_happy_path_provision_target() {
    let mut a = Answers::new();
    assert_eq!(
        apply(&mut a, QuestionId::Target, Answer::Choice("local".into())),
        QuestionId::SourceEngine
    );
    assert_eq!(
        apply(
            &mut a,
            QuestionId::SourceEngine,
            Answer::Choice("elasticsearch".into())
        ),
        QuestionId::SourceVersion
    );
    assert_eq!(
        apply(
            &mut a,
            QuestionId::SourceVersion,
            Answer::Choice("7.10.2".into())
        ),
        QuestionId::SourcePlugins
    );
    assert_eq!(
        apply(
            &mut a,
            QuestionId::SourcePlugins,
            Answer::Choices(vec!["repository-s3".into()])
        ),
        QuestionId::SnapshotStorage
    );
    assert_eq!(
        apply(
            &mut a,
            QuestionId::SnapshotStorage,
            Answer::Choice("localstack".into())
        ),
        QuestionId::TargetMode
    );
    // Provision → now asks which KIND of target.
    assert_eq!(
        apply(
            &mut a,
            QuestionId::TargetMode,
            Answer::Choice("provision".into())
        ),
        QuestionId::TargetKind
    );
    // Local OpenSearch → then asks the version.
    assert_eq!(
        apply(
            &mut a,
            QuestionId::TargetKind,
            Answer::Choice("kind-opensearch".into())
        ),
        QuestionId::TargetVersion
    );
    assert_eq!(
        apply(
            &mut a,
            QuestionId::TargetVersion,
            Answer::Choice("3.3.0".into())
        ),
        QuestionId::Clients
    );
    assert_eq!(
        apply(
            &mut a,
            QuestionId::Clients,
            Answer::Choices(vec!["locust".into()])
        ),
        QuestionId::SeedData
    );
    // Local run → SeedData is followed by the MA-handoff choice.
    assert_eq!(
        apply(&mut a, QuestionId::SeedData, Answer::Bool(true)),
        QuestionId::MaHandoff
    );
    assert_eq!(
        apply(
            &mut a,
            QuestionId::MaHandoff,
            Answer::Choice("deploy-local-helm".into())
        ),
        QuestionId::Review
    );
    // Everything is set.
    assert_eq!(a.source_version.as_deref(), Some("7.10.2"));
    assert_eq!(a.source_plugins, vec!["repository-s3".to_string()]);
    assert_eq!(a.target_version.as_deref(), Some("3.3.0"));
    assert_eq!(a.clients, vec![ClientApp::Locust]);
    assert_eq!(a.seed_data, Some(true));
    assert!(a.deploys_ma_locally());
}

#[test]
fn leave_to_ma_skips_target_version() {
    let mut a = Answers::new();
    apply(&mut a, QuestionId::Target, Answer::Choice("local".into()));
    apply(
        &mut a,
        QuestionId::SourceEngine,
        Answer::Choice("opensearch".into()),
    );
    apply(
        &mut a,
        QuestionId::SourceVersion,
        Answer::Choice("2.15.0".into()),
    );
    apply(&mut a, QuestionId::SourcePlugins, Answer::Choices(vec![]));
    apply(
        &mut a,
        QuestionId::SnapshotStorage,
        Answer::Choice("none".into()),
    );
    // Leaving the target to MA must skip straight to Clients (no TargetVersion).
    let next = apply(
        &mut a,
        QuestionId::TargetMode,
        Answer::Choice("leave-to-ma".into()),
    );
    assert_eq!(next, QuestionId::Clients);
    assert!(a.target_version.is_none());
}

#[test]
fn aoss_nextgen_target_skips_version_question() {
    let mut a = Answers::new();
    apply(&mut a, QuestionId::Target, Answer::Choice("local".into()));
    apply(
        &mut a,
        QuestionId::SourceEngine,
        Answer::Choice("elasticsearch".into()),
    );
    apply(
        &mut a,
        QuestionId::SourceVersion,
        Answer::Choice("7.10.2".into()),
    );
    apply(&mut a, QuestionId::SourcePlugins, Answer::Choices(vec![]));
    apply(
        &mut a,
        QuestionId::SnapshotStorage,
        Answer::Choice("none".into()),
    );
    // Provision → asks the kind.
    assert_eq!(
        apply(
            &mut a,
            QuestionId::TargetMode,
            Answer::Choice("provision".into())
        ),
        QuestionId::TargetKind
    );
    // Choosing AOSS NextGen must skip the OpenSearch-version question.
    let next = apply(
        &mut a,
        QuestionId::TargetKind,
        Answer::Choice("aoss-nextgen".into()),
    );
    assert_eq!(next, QuestionId::Clients);
    assert!(a.target_version.is_none());
    assert!(a.provisions_aoss_target());
    assert!(!a.provisions_local_target());
}

#[test]
fn changing_engine_resets_version_and_plugins() {
    let mut a = Answers::new();
    apply(&mut a, QuestionId::Target, Answer::Choice("local".into()));
    apply(
        &mut a,
        QuestionId::SourceEngine,
        Answer::Choice("elasticsearch".into()),
    );
    apply(
        &mut a,
        QuestionId::SourceVersion,
        Answer::Choice("7.10.2".into()),
    );
    apply(
        &mut a,
        QuestionId::SourcePlugins,
        Answer::Choices(vec!["analysis-icu".into()]),
    );
    // Re-answer the engine question with a different engine.
    apply(
        &mut a,
        QuestionId::SourceEngine,
        Answer::Choice("solr".into()),
    );
    assert_eq!(a.source_engine, Some(SourceEngine::Solr));
    assert!(a.source_version.is_none(), "version should reset");
    assert!(a.source_plugins.is_empty(), "plugins should reset");
}

#[test]
fn source_version_options_track_engine() {
    let mut a = Answers::new();
    a.source_engine = Some(SourceEngine::Solr);
    let q = build(QuestionId::SourceVersion, &a);
    match q.kind {
        Kind::SingleChoice(opts) => {
            let ids: Vec<&str> = opts.iter().map(|c| c.id.as_str()).collect();
            assert!(ids.contains(&"9.7.0"));
            assert!(
                !ids.contains(&"7.10.2"),
                "ES versions must not leak into Solr"
            );
        }
        _ => panic!("expected single choice"),
    }
}

#[test]
fn fill_defaults_completes_the_plan() {
    let mut a = Answers::new();
    fill_defaults(&mut a);
    assert_eq!(next_question_id(&a), QuestionId::Review);
    assert_eq!(a.target, Some(Target::Local));
    assert_eq!(a.source_engine, Some(SourceEngine::Elasticsearch));
    assert!(a.source_version.is_some());
    assert_eq!(a.target_mode, Some(TargetMode::Provision));
    assert!(a.target_version.is_some());
    assert_eq!(a.seed_data, Some(true));
    assert_eq!(a.clients.len(), 2);
}

#[test]
fn fill_defaults_leave_to_ma_has_no_target_version() {
    let mut a = Answers::new();
    a.target_mode = Some(TargetMode::LeaveToMa);
    fill_defaults(&mut a);
    assert!(a.target_version.is_none());
    assert_eq!(next_question_id(&a), QuestionId::Review);
}

#[test]
fn empty_plugin_and_client_selections_still_advance() {
    let mut a = Answers::new();
    apply(&mut a, QuestionId::Target, Answer::Choice("local".into()));
    apply(
        &mut a,
        QuestionId::SourceEngine,
        Answer::Choice("elasticsearch".into()),
    );
    apply(
        &mut a,
        QuestionId::SourceVersion,
        Answer::Choice("8.17.0".into()),
    );
    // Empty plugins selection.
    let after_plugins = apply(&mut a, QuestionId::SourcePlugins, Answer::Choices(vec![]));
    assert_eq!(after_plugins, QuestionId::SnapshotStorage);
    apply(
        &mut a,
        QuestionId::SnapshotStorage,
        Answer::Choice("localstack".into()),
    );
    apply(
        &mut a,
        QuestionId::TargetMode,
        Answer::Choice("leave-to-ma".into()),
    );
    // Empty clients selection still advances to SeedData.
    let after_clients = apply(&mut a, QuestionId::Clients, Answer::Choices(vec![]));
    assert_eq!(after_clients, QuestionId::SeedData);
    assert!(a.clients.is_empty());
}

#[test]
fn review_is_terminal() {
    let mut a = Answers::new();
    fill_defaults(&mut a);
    // Applying anything at review just re-derives review.
    assert_eq!(next_question_id(&a), QuestionId::Review);
}

#[test]
fn identifiers_name_their_choices() {
    assert_eq!(parse_target("cloud"), Some(Target::Cloud));
    assert_eq!(parse_engine("solr"), Some(SourceEngine::Solr));
    assert_eq!(parse_snapshot("none"), Some(SnapshotStorage::NoStorage));
    assert_eq!(
        parse_target_mode("leave-to-ma"),
        Some(TargetMode::LeaveToMa)
    );
    assert_eq!(
        parse_target_kind("aoss-nextgen"),
        Some(TargetKind::AossServerlessNextGen)
    );
    assert_eq!(parse_client("locust"), Some(ClientApp::Locust));
    assert_eq!(
        parse_ma_handoff("install-cli"),
        Some(MaHandoff::InstallCli)
    );
    for word in ["", "LOCAL", "nope"] {
        assert_eq!(parse_target(word), None);
        assert_eq!(parse_engine(word), None);
        assert_eq!(parse_snapshot(word), None);
        assert_eq!(parse_target_mode(word), None);
        assert_eq!(parse_target_kind(word), None);
        assert_eq!(parse_client(word), None);
        assert_eq!(parse_ma_handoff(word), None);
    }
}

#[test]
fn an_answer_of_the_wrong_kind_changes_nothing() {
    let mut a = Answers::new();
    assert_eq!(
        apply(&mut a, QuestionId::Target, Answer::Bool(true)),
        QuestionId::Target
    );
    assert_eq!(
        apply(&mut a, QuestionId::SeedData, Answer::Choice("local".into())),
        QuestionId::Target
    );
    assert_eq!(a, Answers::new());
}

#[test]
fn an_unknown_choice_leaves_the_question_open() {
    let mut a = Answers::new();
    assert_eq!(
        apply(&mut a, QuestionId::Target, Answer::Choice("moon".into())),
        QuestionId::Target
    );
    assert_eq!(a.target, None);
}

#[test]
fn unknown_clients_are_passed_over() {
    let mut a = Answers::new();
    apply(
        &mut a,
        QuestionId::Clients,
        Answer::Choices(vec!["locust".into(), "nope".into()]),
    );
    assert_eq!(a.clients, vec![ClientApp::Locust]);
    assert!(answered(QuestionId::Clients, &a));
}

#[test]
fn the_next_question_is_the_first_open_one() {
    let mut a = Answers::new();
    a.target = Some(Target::Local);
    let q = next_question(&a);
    assert_eq!(q.id, QuestionId::SourceEngine);
    assert_eq!(q.title, "What is the SOURCE search engine to migrate from?");
    match q.kind {
        Kind::SingleChoice(opts) => {
            let ids: Vec<&str> = opts.iter().map(|c| c.id.as_str()).collect();
            assert_eq!(ids, vec!["elasticsearch", "opensearch", "solr"]);
        }
        _ => panic!("expected single choice"),
    }
}

#[test]
fn questions_that_do_not_apply_are_left_out() {
    let mut a = Answers::new();
    a.target_mode = Some(TargetMode::LeaveToMa);
    assert!(!applies(QuestionId::TargetKind, &a));
    assert!(!applies(QuestionId::TargetVersion, &a));
    a.target = Some(Target::Cloud);
    assert!(!applies(QuestionId::MaHandoff, &a));
    a.target = Some(Target::Local);
    assert!(applies(QuestionId::MaHandoff, &a));
}

#[test]
fn defaults_keep_what_is_answered_and_are_idempotent() {
    let mut a = Answers::new();
    a.source_engine = Some(SourceEngine::Solr);
    a.clients = vec![ClientApp::Locust];
    a.clients_done = true;
    fill_defaults(&mut a);
    assert_eq!(a.source_engine, Some(SourceEngine::Solr));
    assert_eq!(a.clients, vec![ClientApp::Locust]);
    let once = a.clone();
    fill_defaults(&mut a);
    assert_eq!(a, once);
}

#[test]
fn every_question_is_reviewed_in_order() {
    let mut a = Answers::new();
    fill_defaults(&mut a);
    let rows = review_rows(&a);
    assert!(!rows.is_empty());
    let asked: Vec<usize> = rows
        .iter()
        .map(|r| FLOW.iter().position(|q| *q == r.question).unwrap())
        .collect();
    let mut sorted = asked.clone();
    sorted.sort();
    assert_eq!(asked, sorted);
    assert_eq!(rows[0].question, QuestionId::Target);
    assert_eq!(rows[0].label, "Where");
}

#[test]
fn solr_has_no_plugins_to_offer() {
    assert!(plugin_choices(SourceEngine::Elasticsearch)
        .iter()
        .any(|c| c.id == "repository-s3"));
    assert!(!plugin_choices(SourceEngine::Solr)
        .iter()
        .any(|c| c.id == "repository-s3"));
}
