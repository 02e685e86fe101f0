//! The question flow.
//!
//! The flow has no cursor: [`next_question_id`] looks at the answers and returns the first question
//! that applies and is not answered yet. [`apply`] is the only place where an answer is written
//! down, and [`fill_defaults`] answers whatever is left.

use crate::model::{
    Answers, AnswersView, ClientApp, MaHandoff, SnapshotStorage, SourceEngine, Target, TargetKind,
    TargetMode, TARGET_VERSIONS,
};
use crate::text::{join, joined, same, str_texts, texts};
use vstd::prelude::*;

verus! {

/// The identity of each question.
#[derive(Debug, Clone, Copy, PartialEq, Eq, Hash, Structural)]
pub enum QuestionId {
    Target,
    SourceEngine,
    SourceVersion,
    SourcePlugins,
    SnapshotStorage,
    TargetMode,
    /// Which kind of target to provision.
    TargetKind,
    TargetVersion,
    Clients,
    SeedData,
    /// How the Migration Assistant is launched (local runs only).
    MaHandoff,
    /// The end of the flow: nothing is left to ask.
    Review,
}

/// One option of a question.
#[derive(Debug, Clone, PartialEq, Eq)]
pub struct Choice {
    pub id: String,
    pub label: String,
    /// What the option means; empty where the label says enough.
    pub description: String,
    /// Whether the option starts selected where several can be.
    pub default_on: bool,
}

/// What a [`Choice`] holds.
#[verifier::ext_equal]
pub struct ChoiceView {
    pub id: Seq<char>,
    pub label: Seq<char>,
    pub description: Seq<char>,
    pub default_on: bool,
}

impl View for Choice {
    type V = ChoiceView;

    open spec fn view(&self) -> ChoiceView {
        ChoiceView {
            id: self.id@,
            label: self.label@,
            description: self.description@,
            default_on: self.default_on,
        }
    }
}

/// An option with nothing but an identifier and a label.
pub open spec fn plain(id: Seq<char>, label: Seq<char>) -> ChoiceView {
    ChoiceView { id, label, description: seq![], default_on: false }
}

/// An option that starts selected.
pub open spec fn preset(id: Seq<char>, label: Seq<char>) -> ChoiceView {
    ChoiceView { id, label, description: seq![], default_on: true }
}

/// What each option of a list holds.
pub open spec fn choice_views(v: Seq<Choice>) -> Seq<ChoiceView> {
    v.map_values(|c: Choice| c@)
}

impl Choice {
    /// An option with nothing but an identifier and a label.
    pub fn new(id: &str, label: &str) -> (r: Self)
        ensures
            r@ == plain(id@, label@),
    {
        Choice {
            id: id.to_string(),
            label: label.to_string(),
            description: String::new(),
            default_on: false,
        }
    }

    /// An option that starts selected.
    pub fn preset(id: &str, label: &str) -> (r: Self)
        ensures
            r@ == preset(id@, label@),
    {
        Choice {
            id: id.to_string(),
            label: label.to_string(),
            description: String::new(),
            default_on: true,
        }
    }
}

/// What kind of input a question takes.
#[derive(Debug, Clone, PartialEq, Eq)]
pub enum Kind {
    /// Exactly one of the options.
    SingleChoice(Vec<Choice>),
    /// Any of the options.
    MultiChoice(Vec<Choice>),
    /// Yes or no.
    YesNo,
}

/// What a [`Kind`] holds.
#[verifier::ext_equal]
pub enum KindView {
    SingleChoice(Seq<ChoiceView>),
    MultiChoice(Seq<ChoiceView>),
    YesNo,
}

impl View for Kind {
    type V = KindView;

    open spec fn view(&self) -> KindView {
        match self {
            Kind::SingleChoice(v) => KindView::SingleChoice(choice_views(v@)),
            Kind::MultiChoice(v) => KindView::MultiChoice(choice_views(v@)),
            Kind::YesNo => KindView::YesNo,
        }
    }
}

impl KindView {
    /// The options to choose from; none for a yes-or-no question.
    pub open spec fn options(self) -> Seq<ChoiceView> {
        match self {
            KindView::SingleChoice(v) => v,
            KindView::MultiChoice(v) => v,
            KindView::YesNo => seq![],
        }
    }
}

/// A question as it is presented.
#[derive(Debug, Clone, PartialEq, Eq)]
pub struct Question {
    pub id: QuestionId,
    pub title: String,
    pub help: String,
    pub kind: Kind,
}

/// What a [`Question`] holds.
#[verifier::ext_equal]
pub struct QuestionView {
    pub id: QuestionId,
    pub title: Seq<char>,
    pub help: Seq<char>,
    pub kind: KindView,
}

impl View for Question {
    type V = QuestionView;

    open spec fn view(&self) -> QuestionView {
        QuestionView { id: self.id, title: self.title@, help: self.help@, kind: self.kind@ }
    }
}

/// An answer to a question.
#[derive(Debug, Clone, PartialEq, Eq)]
pub enum Answer {
    /// The identifier of the chosen option.
    Choice(String),
    /// The identifiers of the chosen options.
    Choices(Vec<String>),
    /// Yes or no.
    Bool(bool),
}

/// What an [`Answer`] holds.
#[verifier::ext_equal]
pub enum AnswerView {
    Choice(Seq<char>),
    Choices(Seq<Seq<char>>),
    Bool(bool),
}

impl View for Answer {
    type V = AnswerView;

    open spec fn view(&self) -> AnswerView {
        match self {
            Answer::Choice(c) => AnswerView::Choice(c@),
            Answer::Choices(cs) => AnswerView::Choices(texts(cs@)),
            Answer::Bool(b) => AnswerView::Bool(*b),
        }
    }
}

// ---------------------------------------------------------------------------
// The flow
// ---------------------------------------------------------------------------

/// The questions in the order in which they are asked.
pub const FLOW: [QuestionId; 11] = [
    QuestionId::Target,
    QuestionId::SourceEngine,
    QuestionId::SourceVersion,
    QuestionId::SourcePlugins,
    QuestionId::SnapshotStorage,
    QuestionId::TargetMode,
    QuestionId::TargetKind,
    QuestionId::TargetVersion,
    QuestionId::Clients,
    QuestionId::SeedData,
    QuestionId::MaHandoff,
];

/// Whether a question is asked at all, given the answers so far.
pub open spec fn relevant(q: QuestionId, a: AnswersView) -> bool {
    match q {
        QuestionId::TargetKind => a.target_mode == Some(TargetMode::Provision),
        QuestionId::TargetVersion => a.local_target(),
        QuestionId::MaHandoff => a.target == Some(Target::Local),
        _ => true,
    }
}

/// Whether a question has an answer.
pub open spec fn settled(q: QuestionId, a: AnswersView) -> bool {
    match q {
        QuestionId::Target => a.target is Some,
        QuestionId::SourceEngine => a.source_engine is Some,
        QuestionId::SourceVersion => a.source_version is Some,
        QuestionId::SourcePlugins => a.plugins_done,
        QuestionId::SnapshotStorage => a.snapshot_storage is Some,
        QuestionId::TargetMode => a.target_mode is Some,
        QuestionId::TargetKind => a.target_kind is Some,
        QuestionId::TargetVersion => a.target_version is Some,
        QuestionId::Clients => a.clients_done,
        QuestionId::SeedData => a.seed_data is Some,
        QuestionId::MaHandoff => a.ma_handoff is Some,
        QuestionId::Review => true,
    }
}

/// Whether a question is still to be asked.
pub open spec fn open_question(q: QuestionId, a: AnswersView) -> bool {
    relevant(q, a) && !settled(q, a)
}

/// The place of a question in the flow; the review stands after all of them.
pub open spec fn rank(q: QuestionId) -> int {
    match q {
        QuestionId::Target => 0,
        QuestionId::SourceEngine => 1,
        QuestionId::SourceVersion => 2,
        QuestionId::SourcePlugins => 3,
        QuestionId::SnapshotStorage => 4,
        QuestionId::TargetMode => 5,
        QuestionId::TargetKind => 6,
        QuestionId::TargetVersion => 7,
        QuestionId::Clients => 8,
        QuestionId::SeedData => 9,
        QuestionId::MaHandoff => 10,
        QuestionId::Review => 11,
    }
}

/// Which question of how many this is; the review is none.
pub open spec fn step_number(q: QuestionId) -> Option<(usize, usize)> {
    if q == QuestionId::Review {
        None
    } else {
        Some(((rank(q) + 1) as usize, 11))
    }
}

/// Which question of how many this is; the review is none.
pub fn step_of(q: QuestionId) -> (r: Option<(usize, usize)>)
    ensures
        r == step_number(q),
{
    for i in 0..FLOW.len()
        invariant
            rank(q) >= i,
    {
        if FLOW[i] == q {
            return Some((i + 1, FLOW.len()));
        }
    }
    None
}

/// The first question at or after place `i` of the flow that is still to be asked.
pub open spec fn first_open(a: AnswersView, i: int) -> QuestionId
    decreases FLOW@.len() - i,
{
    if i < 0 || i >= FLOW@.len() {
        QuestionId::Review
    } else if open_question(FLOW@[i], a) {
        FLOW@[i]
    } else {
        first_open(a, i + 1)
    }
}

/// The question to ask next.
pub open spec fn next_of(a: AnswersView) -> QuestionId {
    first_open(a, 0)
}

/// Whether question `q` is asked at all, given the answers so far.
pub fn applies(q: QuestionId, a: &Answers) -> (r: bool)
    ensures
        r == relevant(q, a@),
{
    match q {
        QuestionId::TargetKind => a.target_mode == Some(TargetMode::Provision),
        QuestionId::TargetVersion => a.provisions_local_target(),
        QuestionId::MaHandoff => a.target == Some(Target::Local),
        _ => true,
    }
}

/// Whether question `q` has an answer.
pub fn answered(q: QuestionId, a: &Answers) -> (r: bool)
    ensures
        r == settled(q, a@),
{
    match q {
        QuestionId::Target => a.target.is_some(),
        QuestionId::SourceEngine => a.source_engine.is_some(),
        QuestionId::SourceVersion => a.source_version.is_some(),
        QuestionId::SourcePlugins => a.plugins_done,
        QuestionId::SnapshotStorage => a.snapshot_storage.is_some(),
        QuestionId::TargetMode => a.target_mode.is_some(),
        QuestionId::TargetKind => a.target_kind.is_some(),
        QuestionId::TargetVersion => a.target_version.is_some(),
        QuestionId::Clients => a.clients_done,
        QuestionId::SeedData => a.seed_data.is_some(),
        QuestionId::MaHandoff => a.ma_handoff.is_some(),
        QuestionId::Review => true,
    }
}

/// The question to ask next, or [`QuestionId::Review`] when none is left.
pub fn next_question_id(a: &Answers) -> (r: QuestionId)
    ensures
        r == next_of(a@),
{
    for i in 0..FLOW.len()
        invariant
            next_of(a@) == first_open(a@, i as int),
    {
        let q: QuestionId = FLOW[i];
        if applies(q, a) && !answered(q, a) {
            return q;
        }
    }
    QuestionId::Review
}

// ---------------------------------------------------------------------------
// The questions
// ---------------------------------------------------------------------------

pub const TITLE_TARGET: &'static str = "Where should the test environment run?";

pub const HELP_TARGET: &'static str =
    "Local stands up KIND clusters in Docker. Cloud emits Terraform for AWS and applies it once you confirm the plan (unless --no-apply).";

pub const TITLE_SOURCE_ENGINE: &'static str = "What is the SOURCE search engine to migrate from?";

pub const HELP_SOURCE_ENGINE: &'static str =
    "The Migration Assistant migrates from Elasticsearch, OpenSearch, or Solr into OpenSearch.";

pub const HELP_SOURCE_VERSION: &'static str =
    "Pick the source version to stand up. These are versions the Migration Assistant documents as supported sources.";

pub const HELP_SOURCE_PLUGINS: &'static str =
    "Optional. repository-s3 is needed for snapshot backfill on Elasticsearch < 7.x; analysis plugins exercise mapping migration.";

pub const TITLE_SNAPSHOT_STORAGE: &'static str = "Where should snapshots (the backfill source) live?";

pub const HELP_SNAPSHOT_STORAGE: &'static str =
    "LocalStack simulates S3 in-cluster with no AWS account. Choose None to let the Migration Assistant configure its own repository.";

pub const TITLE_TARGET_MODE: &'static str = "Should the harness provision the migration TARGET?";

pub const HELP_TARGET_MODE: &'static str =
    "Provision stands up a target you can pick (local OpenSearch or a cloud AOSS NextGen collection). Otherwise the Migration Assistant deploys / points at its own target.";

pub const TITLE_TARGET_KIND: &'static str = "What kind of target should the harness provision?";

pub const HELP_TARGET_KIND: &'static str =
    "Local OpenSearch runs in a second KIND cluster. AOSS Serverless NextGen is a managed cloud collection that goes ACTIVE in ~5s and scales to zero — fastest to stand up.";

pub const TITLE_TARGET_VERSION: &'static str = "Which target OpenSearch version?";

pub const HELP_TARGET_VERSION: &'static str =
    "The OpenSearch version to stand up in the local KIND target cluster.";

pub const TITLE_CLIENTS: &'static str =
    "Which client applications should drive load against the source?";

pub const HELP_CLIENTS: &'static str =
    "Optional. These give the migration live traffic + data to capture and replay. Space toggles, Enter confirms.";

pub const TITLE_SEED_DATA: &'static str = "Pre-seed the source with sample documents before migrating?";

pub const HELP_SEED_DATA: &'static str =
    "Seeds the source with sample docs over its REST API so the migration has real indices to move.";

pub const TITLE_MA_HANDOFF: &'static str = "How should the Migration Assistant be launched?";

pub const HELP_MA_HANDOFF: &'static str =
    "Install the MA CLI (it deploys MA to EKS — needs AWS), or deploy MA locally into its own KIND cluster via helm for a fully-local, no-AWS migration.";

pub const TITLE_REVIEW: &'static str = "Review the plan";

pub const HELP_REVIEW: &'static str =
    "Everything below will be provisioned, then the Migration Assistant CLI launches.";

/// The prompt of a question.
pub open spec fn title_text(q: QuestionId, a: AnswersView) -> Seq<char> {
    match q {
        QuestionId::Target => TITLE_TARGET@,
        QuestionId::SourceEngine => TITLE_SOURCE_ENGINE@,
        QuestionId::SourceVersion => "Which "@ + a.engine().label_text() + " version?"@,
        QuestionId::SourcePlugins => "Which plugins should the "@ + a.engine().label_text()
            + " source load?"@,
        QuestionId::SnapshotStorage => TITLE_SNAPSHOT_STORAGE@,
        QuestionId::TargetMode => TITLE_TARGET_MODE@,
        QuestionId::TargetKind => TITLE_TARGET_KIND@,
        QuestionId::TargetVersion => TITLE_TARGET_VERSION@,
        QuestionId::Clients => TITLE_CLIENTS@,
        QuestionId::SeedData => TITLE_SEED_DATA@,
        QuestionId::MaHandoff => TITLE_MA_HANDOFF@,
        QuestionId::Review => TITLE_REVIEW@,
    }
}

/// What is explained below a question.
pub open spec fn help_text(q: QuestionId) -> Seq<char> {
    match q {
        QuestionId::Target => HELP_TARGET@,
        QuestionId::SourceEngine => HELP_SOURCE_ENGINE@,
        QuestionId::SourceVersion => HELP_SOURCE_VERSION@,
        QuestionId::SourcePlugins => HELP_SOURCE_PLUGINS@,
        QuestionId::SnapshotStorage => HELP_SNAPSHOT_STORAGE@,
        QuestionId::TargetMode => HELP_TARGET_MODE@,
        QuestionId::TargetKind => HELP_TARGET_KIND@,
        QuestionId::TargetVersion => HELP_TARGET_VERSION@,
        QuestionId::Clients => HELP_CLIENTS@,
        QuestionId::SeedData => HELP_SEED_DATA@,
        QuestionId::MaHandoff => HELP_MA_HANDOFF@,
        QuestionId::Review => HELP_REVIEW@,
    }
}

/// The plugins offered for an engine. The snapshot repository starts selected.
pub open spec fn plugin_options(e: SourceEngine) -> Seq<ChoiceView> {
    match e {
        SourceEngine::Elasticsearch => seq![
            preset("repository-s3"@, "repository-s3 (S3 snapshot repo)"@),
            plain("analysis-icu"@, "analysis-icu (ICU analyzer)"@),
            plain("analysis-phonetic"@, "analysis-phonetic"@),
            plain("mapper-size"@, "mapper-size"@),
        ],
        SourceEngine::OpenSearch => seq![
            preset("repository-s3"@, "repository-s3 (S3 snapshot repo)"@),
            plain("analysis-icu"@, "analysis-icu (ICU analyzer)"@),
            plain("analysis-phonetic"@, "analysis-phonetic"@),
        ],
        SourceEngine::Solr => seq![
            plain("dih"@, "DataImportHandler configset"@),
            plain("schema-api"@, "Managed schema API"@),
        ],
    }
}

/// A version is its own label.
pub open spec fn version_options(v: Seq<Seq<char>>) -> Seq<ChoiceView> {
    v.map_values(|x: Seq<char>| plain(x, x))
}

/// What a question takes, and the options it offers.
pub open spec fn kind_of(q: QuestionId, a: AnswersView) -> KindView {
    match q {
        QuestionId::Target => KindView::SingleChoice(
            seq![
                plain(Target::Local.id_text(), Target::Local.label_text()),
                plain(Target::Cloud.id_text(), Target::Cloud.label_text()),
            ],
        ),
        QuestionId::SourceEngine => KindView::SingleChoice(
            seq![
                plain(
                    SourceEngine::Elasticsearch.id_text(),
                    SourceEngine::Elasticsearch.label_text(),
                ),
                plain(SourceEngine::OpenSearch.id_text(), SourceEngine::OpenSearch.label_text()),
                plain(SourceEngine::Solr.id_text(), SourceEngine::Solr.label_text()),
            ],
        ),
        QuestionId::SourceVersion => KindView::SingleChoice(
            version_options(a.engine().version_texts()),
        ),
        QuestionId::SourcePlugins => KindView::MultiChoice(plugin_options(a.engine())),
        QuestionId::SnapshotStorage => KindView::SingleChoice(
            seq![
                plain(
                    SnapshotStorage::LocalStack.id_text(),
                    SnapshotStorage::LocalStack.label_text(),
                ),
                plain(SnapshotStorage::AwsS3.id_text(), SnapshotStorage::AwsS3.label_text()),
                plain(
                    SnapshotStorage::NoStorage.id_text(),
                    SnapshotStorage::NoStorage.label_text(),
                ),
            ],
        ),
        QuestionId::TargetMode => KindView::SingleChoice(
            seq![
                plain(TargetMode::Provision.id_text(), TargetMode::Provision.label_text()),
                plain(TargetMode::LeaveToMa.id_text(), TargetMode::LeaveToMa.label_text()),
            ],
        ),
        QuestionId::TargetKind => KindView::SingleChoice(
            seq![
                plain(
                    TargetKind::KindOpenSearch.id_text(),
                    TargetKind::KindOpenSearch.label_text(),
                ),
                plain(
                    TargetKind::AossServerlessNextGen.id_text(),
                    TargetKind::AossServerlessNextGen.label_text(),
                ),
            ],
        ),
        QuestionId::TargetVersion => KindView::SingleChoice(
            version_options(seq!["3.3.0"@, "3.1.0"@, "2.19.0"@]),
        ),
        QuestionId::Clients => KindView::MultiChoice(
            seq![
                plain(ClientApp::Locust.id_text(), ClientApp::Locust.label_text()),
                plain(
                    ClientApp::SampleSearchApp.id_text(),
                    ClientApp::SampleSearchApp.label_text(),
                ),
            ],
        ),
        QuestionId::SeedData => KindView::YesNo,
        QuestionId::MaHandoff => KindView::SingleChoice(
            seq![
                plain(
                    MaHandoff::DeployLocalHelm.id_text(),
                    MaHandoff::DeployLocalHelm.label_text(),
                ),
                plain(MaHandoff::InstallCli.id_text(), MaHandoff::InstallCli.label_text()),
            ],
        ),
        QuestionId::Review => KindView::YesNo,
    }
}

/// A question as it is presented, given the answers so far.
pub open spec fn question(q: QuestionId, a: AnswersView) -> QuestionView {
    QuestionView { id: q, title: title_text(q, a), help: help_text(q), kind: kind_of(q, a) }
}

fn title(q: QuestionId, a: &Answers) -> (r: String)
    ensures
        r@ == title_text(q, a@),
{
    match q {
        QuestionId::Target => TITLE_TARGET.to_string(),
        QuestionId::SourceEngine => TITLE_SOURCE_ENGINE.to_string(),
        QuestionId::SourceVersion => "Which ".to_string().concat(
            a.engine_or_default().label(),
        ).concat(" version?"),
        QuestionId::SourcePlugins => "Which plugins should the ".to_string().concat(
            a.engine_or_default().label(),
        ).concat(" source load?"),
        QuestionId::SnapshotStorage => TITLE_SNAPSHOT_STORAGE.to_string(),
        QuestionId::TargetMode => TITLE_TARGET_MODE.to_string(),
        QuestionId::TargetKind => TITLE_TARGET_KIND.to_string(),
        QuestionId::TargetVersion => TITLE_TARGET_VERSION.to_string(),
        QuestionId::Clients => TITLE_CLIENTS.to_string(),
        QuestionId::SeedData => TITLE_SEED_DATA.to_string(),
        QuestionId::MaHandoff => TITLE_MA_HANDOFF.to_string(),
        QuestionId::Review => TITLE_REVIEW.to_string(),
    }
}

fn help(q: QuestionId) -> (r: String)
    ensures
        r@ == help_text(q),
{
    let r = match q {
        QuestionId::Target => HELP_TARGET,
        QuestionId::SourceEngine => HELP_SOURCE_ENGINE,
        QuestionId::SourceVersion => HELP_SOURCE_VERSION,
        QuestionId::SourcePlugins => HELP_SOURCE_PLUGINS,
        QuestionId::SnapshotStorage => HELP_SNAPSHOT_STORAGE,
        QuestionId::TargetMode => HELP_TARGET_MODE,
        QuestionId::TargetKind => HELP_TARGET_KIND,
        QuestionId::TargetVersion => HELP_TARGET_VERSION,
        QuestionId::Clients => HELP_CLIENTS,
        QuestionId::SeedData => HELP_SEED_DATA,
        QuestionId::MaHandoff => HELP_MA_HANDOFF,
        QuestionId::Review => HELP_REVIEW,
    };
    r.to_string()
}

/// The plugins offered for a source engine.
pub fn plugin_choices(eng: SourceEngine) -> (r: Vec<Choice>)
    ensures
        choice_views(r@) == plugin_options(eng),
{
    let r = match eng {
        SourceEngine::Elasticsearch => vec![
            Choice::preset("repository-s3", "repository-s3 (S3 snapshot repo)"),
            Choice::new("analysis-icu", "analysis-icu (ICU analyzer)"),
            Choice::new("analysis-phonetic", "analysis-phonetic"),
            Choice::new("mapper-size", "mapper-size"),
        ],
        SourceEngine::OpenSearch => vec![
            Choice::preset("repository-s3", "repository-s3 (S3 snapshot repo)"),
            Choice::new("analysis-icu", "analysis-icu (ICU analyzer)"),
            Choice::new("analysis-phonetic", "analysis-phonetic"),
        ],
        SourceEngine::Solr => vec![
            Choice::new("dih", "DataImportHandler configset"),
            Choice::new("schema-api", "Managed schema API"),
        ],
    };
    assert(choice_views(r@) =~= plugin_options(eng));
    r
}

fn version_choices(v: &[&str]) -> (r: Vec<Choice>)
    ensures
        choice_views(r@) == version_options(str_texts(v@)),
{
    let mut r: Vec<Choice> = Vec::new();
    for i in 0..v.len()
        invariant
            r@.len() == i,
            forall|j: int| 0 <= j < i ==> (#[trigger] r@[j])@ == plain(v@[j]@, v@[j]@),
    {
        r.push(Choice::new(v[i], v[i]));
    }
    assert(choice_views(r@) =~= version_options(str_texts(v@)));
    r
}

/// A single-choice question of fixed options.
fn one_of(v: Vec<Choice>, Ghost(want): Ghost<Seq<ChoiceView>>) -> (r: Kind)
    requires
        choice_views(v@) =~= want,
    ensures
        r@ == KindView::SingleChoice(want),
{
    Kind::SingleChoice(v)
}

fn kind(q: QuestionId, a: &Answers) -> (r: Kind)
    ensures
        r@ == kind_of(q, a@),
{
    let ghost want = kind_of(q, a@).options();
    match q {
        QuestionId::Target => one_of(
            vec![
                Choice::new(Target::Local.id(), Target::Local.label()),
                Choice::new(Target::Cloud.id(), Target::Cloud.label()),
            ],
            Ghost(want),
        ),
        QuestionId::SourceEngine => one_of(
            vec![
                Choice::new(SourceEngine::Elasticsearch.id(), SourceEngine::Elasticsearch.label()),
                Choice::new(SourceEngine::OpenSearch.id(), SourceEngine::OpenSearch.label()),
                Choice::new(SourceEngine::Solr.id(), SourceEngine::Solr.label()),
            ],
            Ghost(want),
        ),
        QuestionId::SourceVersion => Kind::SingleChoice(
            version_choices(a.engine_or_default().versions()),
        ),
        QuestionId::SourcePlugins => Kind::MultiChoice(plugin_choices(a.engine_or_default())),
        QuestionId::SnapshotStorage => one_of(
            vec![
                Choice::new(SnapshotStorage::LocalStack.id(), SnapshotStorage::LocalStack.label()),
                Choice::new(SnapshotStorage::AwsS3.id(), SnapshotStorage::AwsS3.label()),
                Choice::new(SnapshotStorage::NoStorage.id(), SnapshotStorage::NoStorage.label()),
            ],
            Ghost(want),
        ),
        QuestionId::TargetMode => one_of(
            vec![
                Choice::new(TargetMode::Provision.id(), TargetMode::Provision.label()),
                Choice::new(TargetMode::LeaveToMa.id(), TargetMode::LeaveToMa.label()),
            ],
            Ghost(want),
        ),
        QuestionId::TargetKind => one_of(
            vec![
                Choice::new(TargetKind::KindOpenSearch.id(), TargetKind::KindOpenSearch.label()),
                Choice::new(
                    TargetKind::AossServerlessNextGen.id(),
                    TargetKind::AossServerlessNextGen.label(),
                ),
            ],
            Ghost(want),
        ),
        QuestionId::TargetVersion => {
            assert(str_texts(TARGET_VERSIONS@) =~= seq!["3.3.0"@, "3.1.0"@, "2.19.0"@]);
            Kind::SingleChoice(version_choices(&TARGET_VERSIONS))
        },
        QuestionId::Clients => {
            let mut v: Vec<Choice> = Vec::new();
            for i in 0..ClientApp::ALL.len()
                invariant
                    v@.len() == i,
                    forall|j: int|
                        0 <= j < i ==> (#[trigger] v@[j])@ == plain(
                            ClientApp::ALL@[j].id_text(),
                            ClientApp::ALL@[j].label_text(),
                        ),
            {
                let c: ClientApp = ClientApp::ALL[i];
                v.push(Choice::new(c.id(), c.label()));
            }
            assert(choice_views(v@) =~= want);
            Kind::MultiChoice(v)
        },
        QuestionId::SeedData => Kind::YesNo,
        QuestionId::MaHandoff => one_of(
            vec![
                Choice::new(MaHandoff::DeployLocalHelm.id(), MaHandoff::DeployLocalHelm.label()),
                Choice::new(MaHandoff::InstallCli.id(), MaHandoff::InstallCli.label()),
            ],
            Ghost(want),
        ),
        QuestionId::Review => Kind::YesNo,
    }
}

/// The question `id` as it is presented, given the answers so far.
pub fn build(id: QuestionId, a: &Answers) -> (r: Question)
    ensures
        r@ == question(id, a@),
{
    Question { id, title: title(id, a), help: help(id), kind: kind(id, a) }
}

/// The next question as it is presented.
pub fn next_question(a: &Answers) -> (r: Question)
    ensures
        r@ == question(next_of(a@), a@),
{
    build(next_question_id(a), a)
}

// ---------------------------------------------------------------------------
// Identifiers
// ---------------------------------------------------------------------------

/// The choice that `s` identifies.
pub open spec fn target_named(s: Seq<char>) -> Option<Target> {
    if s == Target::Local.id_text() {
        Some(Target::Local)
    } else if s == Target::Cloud.id_text() {
        Some(Target::Cloud)
    } else {
        None
    }
}

/// The choice that `s` identifies.
pub fn parse_target(s: &str) -> (r: Option<Target>)
    ensures
        r == target_named(s@),
{
    if same(s, Target::Local.id()) {
        Some(Target::Local)
    } else if same(s, Target::Cloud.id()) {
        Some(Target::Cloud)
    } else {
        None
    }
}

/// The choice that `s` identifies.
pub open spec fn engine_named(s: Seq<char>) -> Option<SourceEngine> {
    if s == SourceEngine::Elasticsearch.id_text() {
        Some(SourceEngine::Elasticsearch)
    } else if s == SourceEngine::OpenSearch.id_text() {
        Some(SourceEngine::OpenSearch)
    } else if s == SourceEngine::Solr.id_text() {
        Some(SourceEngine::Solr)
    } else {
        None
    }
}

/// The choice that `s` identifies.
pub fn parse_engine(s: &str) -> (r: Option<SourceEngine>)
    ensures
        r == engine_named(s@),
{
    if same(s, SourceEngine::Elasticsearch.id()) {
        Some(SourceEngine::Elasticsearch)
    } else if same(s, SourceEngine::OpenSearch.id()) {
        Some(SourceEngine::OpenSearch)
    } else if same(s, SourceEngine::Solr.id()) {
        Some(SourceEngine::Solr)
    } else {
        None
    }
}

/// The choice that `s` identifies.
pub open spec fn snapshot_named(s: Seq<char>) -> Option<SnapshotStorage> {
    if s == SnapshotStorage::LocalStack.id_text() {
        Some(SnapshotStorage::LocalStack)
    } else if s == SnapshotStorage::AwsS3.id_text() {
        Some(SnapshotStorage::AwsS3)
    } else if s == SnapshotStorage::NoStorage.id_text() {
        Some(SnapshotStorage::NoStorage)
    } else {
        None
    }
}

/// The choice that `s` identifies.
pub fn parse_snapshot(s: &str) -> (r: Option<SnapshotStorage>)
    ensures
        r == snapshot_named(s@),
{
    if same(s, SnapshotStorage::LocalStack.id()) {
        Some(SnapshotStorage::LocalStack)
    } else if same(s, SnapshotStorage::AwsS3.id()) {
        Some(SnapshotStorage::AwsS3)
    } else if same(s, SnapshotStorage::NoStorage.id()) {
        Some(SnapshotStorage::NoStorage)
    } else {
        None
    }
}

/// The choice that `s` identifies.
pub open spec fn target_mode_named(s: Seq<char>) -> Option<TargetMode> {
    if s == TargetMode::Provision.id_text() {
        Some(TargetMode::Provision)
    } else if s == TargetMode::LeaveToMa.id_text() {
        Some(TargetMode::LeaveToMa)
    } else {
        None
    }
}

/// The choice that `s` identifies.
pub fn parse_target_mode(s: &str) -> (r: Option<TargetMode>)
    ensures
        r == target_mode_named(s@),
{
    if same(s, TargetMode::Provision.id()) {
        Some(TargetMode::Provision)
    } else if same(s, TargetMode::LeaveToMa.id()) {
        Some(TargetMode::LeaveToMa)
    } else {
        None
    }
}

/// The choice that `s` identifies.
pub open spec fn target_kind_named(s: Seq<char>) -> Option<TargetKind> {
    if s == TargetKind::KindOpenSearch.id_text() {
        Some(TargetKind::KindOpenSearch)
    } else if s == TargetKind::AossServerlessNextGen.id_text() {
        Some(TargetKind::AossServerlessNextGen)
    } else {
        None
    }
}

/// The choice that `s` identifies.
pub fn parse_target_kind(s: &str) -> (r: Option<TargetKind>)
    ensures
        r == target_kind_named(s@),
{
    if same(s, TargetKind::KindOpenSearch.id()) {
        Some(TargetKind::KindOpenSearch)
    } else if same(s, TargetKind::AossServerlessNextGen.id()) {
        Some(TargetKind::AossServerlessNextGen)
    } else {
        None
    }
}

/// The choice that `s` identifies.
pub open spec fn client_named(s: Seq<char>) -> Option<ClientApp> {
    if s == ClientApp::Locust.id_text() {
        Some(ClientApp::Locust)
    } else if s == ClientApp::SampleSearchApp.id_text() {
        Some(ClientApp::SampleSearchApp)
    } else {
        None
    }
}

/// The choice that `s` identifies.
pub fn parse_client(s: &str) -> (r: Option<ClientApp>)
    ensures
        r == client_named(s@),
{
    if same(s, ClientApp::Locust.id()) {
        Some(ClientApp::Locust)
    } else if same(s, ClientApp::SampleSearchApp.id()) {
        Some(ClientApp::SampleSearchApp)
    } else {
        None
    }
}

/// The choice that `s` identifies.
pub open spec fn ma_handoff_named(s: Seq<char>) -> Option<MaHandoff> {
    if s == MaHandoff::InstallCli.id_text() {
        Some(MaHandoff::InstallCli)
    } else if s == MaHandoff::DeployLocalHelm.id_text() {
        Some(MaHandoff::DeployLocalHelm)
    } else {
        None
    }
}

/// The choice that `s` identifies.
pub fn parse_ma_handoff(s: &str) -> (r: Option<MaHandoff>)
    ensures
        r == ma_handoff_named(s@),
{
    if same(s, MaHandoff::InstallCli.id()) {
        Some(MaHandoff::InstallCli)
    } else if same(s, MaHandoff::DeployLocalHelm.id()) {
        Some(MaHandoff::DeployLocalHelm)
    } else {
        None
    }
}

/// Every identifier names the choice that it stands for.
pub proof fn law_identifiers_name_their_choices()
    ensures
        forall|t: Target| target_named(#[trigger] t.id_text()) == Some(t),
        forall|e: SourceEngine| engine_named(#[trigger] e.id_text()) == Some(e),
        forall|s: SnapshotStorage| snapshot_named(#[trigger] s.id_text()) == Some(s),
        forall|m: TargetMode| target_mode_named(#[trigger] m.id_text()) == Some(m),
        forall|k: TargetKind| target_kind_named(#[trigger] k.id_text()) == Some(k),
        forall|c: ClientApp| client_named(#[trigger] c.id_text()) == Some(c),
        forall|h: MaHandoff| ma_handoff_named(#[trigger] h.id_text()) == Some(h),
{
    reveal_strlit("local");
    reveal_strlit("cloud");
    reveal_strlit("elasticsearch");
    reveal_strlit("opensearch");
    reveal_strlit("solr");
    reveal_strlit("localstack");
    reveal_strlit("aws-s3");
    reveal_strlit("none");
    reveal_strlit("provision");
    reveal_strlit("leave-to-ma");
    reveal_strlit("kind-opensearch");
    reveal_strlit("aoss-nextgen");
    reveal_strlit("locust");
    reveal_strlit("sample-search-app");
    reveal_strlit("install-cli");
    reveal_strlit("deploy-local-helm");
    assert("local"@[0] != "cloud"@[0]);
    assert("elasticsearch"@.len() != "opensearch"@.len());
    assert("elasticsearch"@.len() != "solr"@.len());
    assert("opensearch"@.len() != "solr"@.len());
    assert("localstack"@.len() != "aws-s3"@.len());
    assert("localstack"@.len() != "none"@.len());
    assert("aws-s3"@.len() != "none"@.len());
    assert("provision"@.len() != "leave-to-ma"@.len());
    assert("kind-opensearch"@.len() != "aoss-nextgen"@.len());
    assert("locust"@.len() != "sample-search-app"@.len());
    assert("install-cli"@.len() != "deploy-local-helm"@.len());
}

// ---------------------------------------------------------------------------
// Answering
// ---------------------------------------------------------------------------

/// The client applications that a list of identifiers names; the others are passed over.
pub open spec fn clients_named(ids: Seq<Seq<char>>) -> Seq<ClientApp>
    decreases ids.len(),
{
    if ids.len() == 0 {
        seq![]
    } else {
        let before = clients_named(ids.drop_last());
        match client_named(ids.last()) {
            Some(c) => before.push(c),
            None => before,
        }
    }
}

/// The answers after `ans` is given to question `q`. An answer of the wrong kind changes nothing.
pub open spec fn applied(a: AnswersView, q: QuestionId, ans: AnswerView) -> AnswersView {
    match (q, ans) {
        (QuestionId::Target, AnswerView::Choice(c)) => AnswersView { target: target_named(c), ..a },
        (QuestionId::SourceEngine, AnswerView::Choice(c)) => if a.source_engine == engine_named(c) {
            a
        } else {
            AnswersView {
                source_engine: engine_named(c),
                source_version: None,
                source_plugins: seq![],
                plugins_done: false,
                ..a
            }
        },
        (QuestionId::SourceVersion, AnswerView::Choice(c)) => AnswersView {
            source_version: Some(c),
            ..a
        },
        (QuestionId::SourcePlugins, AnswerView::Choices(cs)) => AnswersView {
            source_plugins: cs,
            plugins_done: true,
            ..a
        },
        (QuestionId::SnapshotStorage, AnswerView::Choice(c)) => AnswersView {
            snapshot_storage: snapshot_named(c),
            ..a
        },
        (QuestionId::TargetMode, AnswerView::Choice(c)) => if target_mode_named(c) == Some(
            TargetMode::LeaveToMa,
        ) {
            AnswersView {
                target_mode: target_mode_named(c),
                target_kind: None,
                target_version: None,
                ..a
            }
        } else {
            AnswersView { target_mode: target_mode_named(c), ..a }
        },
        (QuestionId::TargetKind, AnswerView::Choice(c)) => if target_kind_named(c) == Some(
            TargetKind::AossServerlessNextGen,
        ) {
            AnswersView { target_kind: target_kind_named(c), target_version: None, ..a }
        } else {
            AnswersView { target_kind: target_kind_named(c), ..a }
        },
        (QuestionId::TargetVersion, AnswerView::Choice(c)) => AnswersView {
            target_version: Some(c),
            ..a
        },
        (QuestionId::Clients, AnswerView::Choices(cs)) => AnswersView {
            clients: clients_named(cs),
            clients_done: true,
            ..a
        },
        (QuestionId::SeedData, AnswerView::Bool(b)) => AnswersView { seed_data: Some(b), ..a },
        (QuestionId::MaHandoff, AnswerView::Choice(c)) => AnswersView {
            ma_handoff: ma_handoff_named(c),
            ..a
        },
        _ => a,
    }
}

fn parse_clients(ids: &Vec<String>) -> (r: Vec<ClientApp>)
    ensures
        r@ == clients_named(texts(ids@)),
{
    let mut r: Vec<ClientApp> = Vec::new();
    let ghost all = texts(ids@);
    assert(all.take(0) == Seq::<Seq<char>>::empty());
    for i in 0..ids.len()
        invariant
            all == texts(ids@),
            r@ == clients_named(all.take(i as int)),
    {
        assert(all.take(i + 1).drop_last() == all.take(i as int));
        if let Some(c) = parse_client(ids[i].as_str()) {
            r.push(c);
        }
    }
    assert(all.take(all.len() as int) == all);
    r
}

/// Writes the answer to question `id` into `a` and returns the next question. Answering with
/// another engine forgets the version and the plugins; leaving the target to the Migration
/// Assistant forgets its kind and version; a serverless target has no version.
pub fn apply(a: &mut Answers, id: QuestionId, ans: Answer) -> (r: QuestionId)
    ensures
        final(a)@ == applied(old(a)@, id, ans@),
        r == next_of(final(a)@),
{
    let ghost want = applied(a@, id, ans@);
    match (id, ans) {
        (QuestionId::Target, Answer::Choice(c)) => {
            a.target = parse_target(c.as_str());
        },
        (QuestionId::SourceEngine, Answer::Choice(c)) => {
            let eng = parse_engine(c.as_str());
            if a.source_engine != eng {
                a.source_version = None;
                a.source_plugins = Vec::new();
                a.plugins_done = false;
            }
            a.source_engine = eng;
        },
        (QuestionId::SourceVersion, Answer::Choice(c)) => {
            a.source_version = Some(c);
        },
        (QuestionId::SourcePlugins, Answer::Choices(cs)) => {
            a.source_plugins = cs;
            a.plugins_done = true;
        },
        (QuestionId::SnapshotStorage, Answer::Choice(c)) => {
            a.snapshot_storage = parse_snapshot(c.as_str());
        },
        (QuestionId::TargetMode, Answer::Choice(c)) => {
            let mode = parse_target_mode(c.as_str());
            if mode == Some(TargetMode::LeaveToMa) {
                a.target_kind = None;
                a.target_version = None;
            }
            a.target_mode = mode;
        },
        (QuestionId::TargetKind, Answer::Choice(c)) => {
            let kind = parse_target_kind(c.as_str());
            if kind == Some(TargetKind::AossServerlessNextGen) {
                a.target_version = None;
            }
            a.target_kind = kind;
        },
        (QuestionId::TargetVersion, Answer::Choice(c)) => {
            a.target_version = Some(c);
        },
        (QuestionId::Clients, Answer::Choices(cs)) => {
            a.clients = parse_clients(&cs);
            a.clients_done = true;
        },
        (QuestionId::SeedData, Answer::Bool(b)) => {
            a.seed_data = Some(b);
        },
        (QuestionId::MaHandoff, Answer::Choice(c)) => {
            a.ma_handoff = parse_ma_handoff(c.as_str());
        },
        _ => {},
    }
    assert(a@ =~= want);
    next_question_id(a)
}

/// The answers after every open question is answered with its default. What is answered already
/// stays as it is.
pub open spec fn filled(a: AnswersView) -> AnswersView {
    let target = match a.target {
        Some(t) => t,
        None => Target::Local,
    };
    let mode = match a.target_mode {
        Some(m) => m,
        None => TargetMode::Provision,
    };
    let kind = if mode == TargetMode::Provision && a.target_kind is None {
        Some(TargetKind::KindOpenSearch)
    } else {
        a.target_kind
    };
    AnswersView {
        target: Some(target),
        source_engine: Some(a.engine()),
        source_version: match a.source_version {
            Some(v) => Some(v),
            None => Some(a.engine().version_texts()[0]),
        },
        plugins_done: true,
        snapshot_storage: match a.snapshot_storage {
            Some(s) => Some(s),
            None => Some(SnapshotStorage::LocalStack),
        },
        target_mode: Some(mode),
        target_kind: kind,
        target_version: if a.target_version is None && mode == TargetMode::Provision && kind
            != Some(TargetKind::AossServerlessNextGen) {
            Some("3.3.0"@)
        } else {
            a.target_version
        },
        clients: if !a.clients_done && a.clients.len() == 0 {
            seq![ClientApp::Locust, ClientApp::SampleSearchApp]
        } else {
            a.clients
        },
        clients_done: true,
        seed_data: match a.seed_data {
            Some(b) => Some(b),
            None => Some(true),
        },
        ma_handoff: match a.ma_handoff {
            Some(h) => Some(h),
            None => Some(
                if target == Target::Local {
                    MaHandoff::DeployLocalHelm
                } else {
                    MaHandoff::InstallCli
                },
            ),
        },
        ..a
    }
}

/// Answers every open question with its default.
pub fn fill_defaults(a: &mut Answers)
    ensures
        final(a)@ == filled(old(a)@),
{
    let ghost want = filled(a@);
    if a.target.is_none() {
        a.target = Some(Target::Local);
    }
    if a.source_engine.is_none() {
        a.source_engine = Some(SourceEngine::Elasticsearch);
    }
    if a.source_version.is_none() {
        let versions = a.engine_or_default().versions();
        assert(str_texts(versions@).len() == versions@.len());
        assert(str_texts(versions@)[0] == versions@[0]@);
        a.source_version = Some(versions[0].to_string());
    }
    if a.snapshot_storage.is_none() {
        a.snapshot_storage = Some(SnapshotStorage::LocalStack);
    }
    if a.target_mode.is_none() {
        a.target_mode = Some(TargetMode::Provision);
    }
    if a.target_mode == Some(TargetMode::Provision) && a.target_kind.is_none() {
        a.target_kind = Some(TargetKind::KindOpenSearch);
    }
    if a.provisions_local_target() && a.target_version.is_none() {
        a.target_version = Some(TARGET_VERSIONS[0].to_string());
    }
    if a.seed_data.is_none() {
        a.seed_data = Some(true);
    }
    if !a.clients_done {
        if a.clients.len() == 0 {
            a.clients = vec![ClientApp::Locust, ClientApp::SampleSearchApp];
        }
        a.clients_done = true;
    }
    if a.ma_handoff.is_none() {
        let local = a.target == Some(Target::Local);
        a.ma_handoff = Some(
            if local {
                MaHandoff::DeployLocalHelm
            } else {
                MaHandoff::InstallCli
            },
        );
    }
    a.plugins_done = true;
    assert(a@ =~= want);
}

// ---------------------------------------------------------------------------
// What holds of the flow
// ---------------------------------------------------------------------------

/// [`first_open`] finds an open question, or there is none from place `i` on.
proof fn lemma_first_open(a: AnswersView, i: int)
    requires
        0 <= i <= 11,
    ensures
        first_open(a, i) == QuestionId::Review || (open_question(first_open(a, i), a) && rank(
            first_open(a, i),
        ) >= i),
        forall|j: int|
            i <= j < 11 && j < rank(first_open(a, i)) ==> !open_question(#[trigger] FLOW@[j], a),
    decreases 11 - i,
{
    if i < 11 {
        assert(rank(FLOW@[i]) == i);
        if !open_question(FLOW@[i], a) {
            lemma_first_open(a, i + 1);
        }
    }
}

/// The next question is open, and every question before it is not. At the review no question is
/// open.
pub proof fn law_next_question_is_the_first_open_one(a: AnswersView, q: QuestionId)
    ensures
        next_of(a) != QuestionId::Review ==> open_question(next_of(a), a),
        rank(q) < rank(next_of(a)) ==> !open_question(q, a),
        next_of(a) == QuestionId::Review ==> !open_question(q, a),
{
    lemma_first_open(a, 0);
    if q != QuestionId::Review {
        assert(FLOW@[rank(q)] == q);
    }
}

/// Whether `ans` is an answer that question `q` offers.
pub open spec fn offered(q: QuestionId, a: AnswersView, ans: AnswerView) -> bool {
    match kind_of(q, a) {
        KindView::SingleChoice(options) => ans matches AnswerView::Choice(c) && exists|i: int|
            0 <= i < options.len() && c == (#[trigger] options[i]).id,
        KindView::MultiChoice(options) => ans matches AnswerView::Choices(cs) && forall|k: int|
            0 <= k < cs.len() ==> exists|i: int|
                0 <= i < options.len() && #[trigger] cs[k] == (#[trigger] options[i]).id,
        KindView::YesNo => ans is Bool,
    }
}

/// Giving the next question an answer that it offers settles it and moves the flow forward: no
/// question is asked twice, and the review is reached after at most one round per question.
pub proof fn law_an_offered_answer_moves_forward(a: AnswersView, ans: AnswerView)
    requires
        next_of(a) != QuestionId::Review,
        offered(next_of(a), a, ans),
    ensures
        settled(next_of(a), applied(a, next_of(a), ans)),
        rank(next_of(applied(a, next_of(a), ans))) > rank(next_of(a)),
{
    let q = next_of(a);
    let b = applied(a, q, ans);
    law_identifiers_name_their_choices();
    law_next_question_is_the_first_open_one(a, q);
    assert(settled(q, b));
    lemma_first_open(b, 0);
    let p = next_of(b);
    if p != QuestionId::Review && rank(p) <= rank(q) {
        law_next_question_is_the_first_open_one(a, p);
    }
}

/// Whether `ans` is of the kind that question `q` takes.
pub open spec fn fitting(q: QuestionId, ans: AnswerView) -> bool {
    match q {
        QuestionId::SourcePlugins | QuestionId::Clients => ans is Choices,
        QuestionId::SeedData => ans is Bool,
        QuestionId::Review => false,
        _ => ans is Choice,
    }
}

/// An answer of another kind than its question takes changes nothing.
pub proof fn law_misfitting_answers_change_nothing(a: AnswersView, q: QuestionId, ans: AnswerView)
    requires
        !fitting(q, ans),
    ensures
        applied(a, q, ans) == a,
{
}

/// Answering with another engine forgets the version and the plugins, which are those of an engine;
/// answering with the same engine keeps them.
pub proof fn law_another_engine_forgets_what_was_its_own(a: AnswersView, c: Seq<char>)
    ensures
        ({
            let b = applied(a, QuestionId::SourceEngine, AnswerView::Choice(c));
            &&& b.source_engine == engine_named(c)
            &&& engine_named(c) == a.source_engine ==> b == a
            &&& engine_named(c) != a.source_engine ==> b.source_version is None
                && b.source_plugins.len() == 0 && !b.plugins_done
        }),
{
}

/// A target that is left to the Migration Assistant has neither kind nor version once that is
/// answered, and a serverless one has no version.
pub proof fn law_only_local_targets_have_a_version(a: AnswersView, c: Seq<char>)
    ensures
        ({
            let b = applied(a, QuestionId::TargetMode, AnswerView::Choice(c));
            b.target_mode == Some(TargetMode::LeaveToMa) ==> b.target_kind is None
                && b.target_version is None && next_of(b) != QuestionId::TargetVersion
        }),
        ({
            let b = applied(a, QuestionId::TargetKind, AnswerView::Choice(c));
            b.target_kind == Some(TargetKind::AossServerlessNextGen) ==> b.target_version is None
                && next_of(b) != QuestionId::TargetVersion
        }),
{
    let b = applied(a, QuestionId::TargetMode, AnswerView::Choice(c));
    law_next_question_is_the_first_open_one(b, QuestionId::TargetVersion);
    let d = applied(a, QuestionId::TargetKind, AnswerView::Choice(c));
    law_next_question_is_the_first_open_one(d, QuestionId::TargetVersion);
}

/// The list of client applications that their own identifiers name.
proof fn lemma_clients_named(cs: Seq<ClientApp>)
    ensures
        clients_named(cs.map_values(|c: ClientApp| c.id_text())) == cs,
    decreases cs.len(),
{
    let ids = cs.map_values(|c: ClientApp| c.id_text());
    law_identifiers_name_their_choices();
    if cs.len() > 0 {
        lemma_clients_named(cs.drop_last());
        assert(ids.drop_last() =~= cs.drop_last().map_values(|c: ClientApp| c.id_text()));
        assert(ids.last() == cs.last().id_text());
        assert(cs.drop_last().push(cs.last()) =~= cs);
    } else {
        assert(clients_named(ids) =~= cs);
    }
}

/// Answering a question records that very answer. The identifier of a choice records the choice that
/// it stands for, a version the text that was chosen, a list the list that was chosen, yes or no what
/// was said.
pub proof fn law_an_answer_is_recorded_as_given(
    a: AnswersView,
    t: Target,
    e: SourceEngine,
    version: Seq<char>,
    plugins: Seq<Seq<char>>,
    s: SnapshotStorage,
    m: TargetMode,
    k: TargetKind,
    clients: Seq<ClientApp>,
    yes: bool,
    h: MaHandoff,
)
    ensures
        applied(a, QuestionId::Target, AnswerView::Choice(t.id_text())).target == Some(t),
        applied(a, QuestionId::SourceEngine, AnswerView::Choice(e.id_text())).source_engine == Some(
            e,
        ),
        applied(a, QuestionId::SourceVersion, AnswerView::Choice(version)).source_version == Some(
            version,
        ),
        ({
            let b = applied(a, QuestionId::SourcePlugins, AnswerView::Choices(plugins));
            b.source_plugins == plugins && b.plugins_done
        }),
        applied(a, QuestionId::SnapshotStorage, AnswerView::Choice(s.id_text())).snapshot_storage
            == Some(s),
        applied(a, QuestionId::TargetMode, AnswerView::Choice(m.id_text())).target_mode == Some(m),
        applied(a, QuestionId::TargetKind, AnswerView::Choice(k.id_text())).target_kind == Some(k),
        applied(a, QuestionId::TargetVersion, AnswerView::Choice(version)).target_version == Some(
            version,
        ),
        ({
            let ids = clients.map_values(|c: ClientApp| c.id_text());
            let b = applied(a, QuestionId::Clients, AnswerView::Choices(ids));
            b.clients == clients && b.clients_done
        }),
        applied(a, QuestionId::SeedData, AnswerView::Bool(yes)).seed_data == Some(yes),
        applied(a, QuestionId::MaHandoff, AnswerView::Choice(h.id_text())).ma_handoff == Some(h),
{
    law_identifiers_name_their_choices();
    lemma_clients_named(clients);
}

/// Answering a question leaves alone what the question does not own. A question owns its own answer;
/// the one for the engine owns the version and the plugins too, the one for the target its kind and
/// version, the one for its kind its version.
pub proof fn law_other_answers_stay(a: AnswersView, q: QuestionId, ans: AnswerView)
    ensures
        ({
            let b = applied(a, q, ans);
            let engine = q == QuestionId::SourceEngine;
            let mode = q == QuestionId::TargetMode;
            let kind = q == QuestionId::TargetKind;
            &&& q != QuestionId::Target ==> b.target == a.target
            &&& !engine ==> b.source_engine == a.source_engine
            &&& !engine && q != QuestionId::SourceVersion ==> b.source_version == a.source_version
            &&& !engine && q != QuestionId::SourcePlugins ==> b.source_plugins == a.source_plugins
                && b.plugins_done == a.plugins_done
            &&& q != QuestionId::SnapshotStorage ==> b.snapshot_storage == a.snapshot_storage
            &&& !mode ==> b.target_mode == a.target_mode
            &&& !mode && !kind ==> b.target_kind == a.target_kind
            &&& !mode && !kind && q != QuestionId::TargetVersion ==> b.target_version
                == a.target_version
            &&& q != QuestionId::Clients ==> b.clients == a.clients && b.clients_done
                == a.clients_done
            &&& q != QuestionId::SeedData ==> b.seed_data == a.seed_data
            &&& q != QuestionId::MaHandoff ==> b.ma_handoff == a.ma_handoff
            &&& b.aws_profile == a.aws_profile
            &&& b.aws_region == a.aws_region
        }),
        ({
            let b = applied(a, QuestionId::TargetMode, ans);
            b.target_mode == Some(TargetMode::Provision) ==> b.target_kind == a.target_kind
                && b.target_version == a.target_version
        }),
        ({
            let b = applied(a, QuestionId::TargetKind, ans);
            b.target_kind == Some(TargetKind::KindOpenSearch) ==> b.target_version
                == a.target_version
        }),
{
}

/// A text that identifies no choice leaves its question open: nothing is guessed.
pub proof fn law_an_unknown_choice_answers_nothing(a: AnswersView, c: Seq<char>)
    ensures
        (forall|t: Target| #[trigger] t.id_text() != c) ==> applied(
            a,
            QuestionId::Target,
            AnswerView::Choice(c),
        ).target is None,
        (forall|e: SourceEngine| #[trigger] e.id_text() != c) ==> applied(
            a,
            QuestionId::SourceEngine,
            AnswerView::Choice(c),
        ).source_engine is None,
        (forall|s: SnapshotStorage| #[trigger] s.id_text() != c) ==> applied(
            a,
            QuestionId::SnapshotStorage,
            AnswerView::Choice(c),
        ).snapshot_storage is None,
        (forall|m: TargetMode| #[trigger] m.id_text() != c) ==> applied(
            a,
            QuestionId::TargetMode,
            AnswerView::Choice(c),
        ).target_mode is None,
        (forall|k: TargetKind| #[trigger] k.id_text() != c) ==> applied(
            a,
            QuestionId::TargetKind,
            AnswerView::Choice(c),
        ).target_kind is None,
        (forall|h: MaHandoff| #[trigger] h.id_text() != c) ==> applied(
            a,
            QuestionId::MaHandoff,
            AnswerView::Choice(c),
        ).ma_handoff is None,
{
}

/// The questions come in one order, and each is passed over once it is answered or does not apply:
/// where, engine, version, plugins, snapshots, target, its kind, its version, clients, sample data,
/// handover.
pub proof fn law_questions_come_in_order(a: AnswersView)
    ensures
        ({
            let q = next_of(a);
            let placed = a.target is Some;
            let engined = placed && a.source_engine is Some;
            let versioned = engined && a.source_version is Some;
            let plugged = versioned && a.plugins_done;
            let stored = plugged && a.snapshot_storage is Some;
            let decided = stored && a.target_mode is Some;
            let provisions = a.target_mode == Some(TargetMode::Provision);
            let kinded = decided && (provisions ==> a.target_kind is Some);
            let local = provisions && a.target_kind != Some(TargetKind::AossServerlessNextGen);
            let aimed = kinded && (local ==> a.target_version is Some);
            let driven = aimed && a.clients_done;
            let seeded = driven && a.seed_data is Some;
            let done = seeded && (a.target == Some(Target::Local) ==> a.ma_handoff is Some);
            &&& q == QuestionId::Target <==> !placed
            &&& q == QuestionId::SourceEngine <==> placed && !engined
            &&& q == QuestionId::SourceVersion <==> engined && !versioned
            &&& q == QuestionId::SourcePlugins <==> versioned && !plugged
            &&& q == QuestionId::SnapshotStorage <==> plugged && !stored
            &&& q == QuestionId::TargetMode <==> stored && !decided
            &&& q == QuestionId::TargetKind <==> decided && !kinded
            &&& q == QuestionId::TargetVersion <==> kinded && !aimed
            &&& q == QuestionId::Clients <==> aimed && !driven
            &&& q == QuestionId::SeedData <==> driven && !seeded
            &&& q == QuestionId::MaHandoff <==> seeded && !done
            &&& q == QuestionId::Review <==> done
        }),
{
    reveal_with_fuel(first_open, 12);
}

/// Whether a question offers a choice under this identifier and label.
pub open spec fn offers(q: QuestionId, a: AnswersView, id: Seq<char>, label: Seq<char>) -> bool {
    let options = kind_of(q, a).options();
    exists|i: int|
        0 <= i < options.len() && (#[trigger] options[i]).id == id && options[i].label == label
}

/// Every choice is offered under its own identifier and label, the versions of the engine that was
/// chosen under their own text; and nothing else is offered: there are as many options as choices.
pub proof fn law_every_choice_is_offered(
    a: AnswersView,
    t: Target,
    e: SourceEngine,
    s: SnapshotStorage,
    m: TargetMode,
    k: TargetKind,
    c: ClientApp,
    h: MaHandoff,
    i: int,
)
    ensures
        offers(QuestionId::Target, a, t.id_text(), t.label_text()),
        kind_of(QuestionId::Target, a).options().len() == 2,
        offers(QuestionId::SourceEngine, a, e.id_text(), e.label_text()),
        kind_of(QuestionId::SourceEngine, a).options().len() == 3,
        offers(QuestionId::SnapshotStorage, a, s.id_text(), s.label_text()),
        kind_of(QuestionId::SnapshotStorage, a).options().len() == 3,
        offers(QuestionId::TargetMode, a, m.id_text(), m.label_text()),
        kind_of(QuestionId::TargetMode, a).options().len() == 2,
        offers(QuestionId::TargetKind, a, k.id_text(), k.label_text()),
        kind_of(QuestionId::TargetKind, a).options().len() == 2,
        offers(QuestionId::Clients, a, c.id_text(), c.label_text()),
        kind_of(QuestionId::Clients, a).options().len() == 2,
        offers(QuestionId::MaHandoff, a, h.id_text(), h.label_text()),
        kind_of(QuestionId::MaHandoff, a).options().len() == 2,
        ({
            let versions = match a.source_engine {
                Some(x) => x.version_texts(),
                None => SourceEngine::Elasticsearch.version_texts(),
            };
            let options = kind_of(QuestionId::SourceVersion, a).options();
            &&& options.len() == versions.len()
            &&& 0 <= i < versions.len() ==> options[i].id == versions[i] && options[i].label
                == versions[i]
        }),
        ({
            let options = kind_of(QuestionId::TargetVersion, a).options();
            &&& options.len() == TARGET_VERSIONS@.len()
            &&& 0 <= i < options.len() ==> options[i].id == TARGET_VERSIONS@[i]@
                && options[i].label == TARGET_VERSIONS@[i]@
        }),
        kind_of(QuestionId::SourcePlugins, a) is MultiChoice,
        kind_of(QuestionId::Clients, a) is MultiChoice,
        kind_of(QuestionId::SeedData, a) is YesNo,
{
    let o = kind_of(QuestionId::Target, a).options();
    assert(o[0].id == Target::Local.id_text() && o[1].id == Target::Cloud.id_text());
    let o = kind_of(QuestionId::SourceEngine, a).options();
    assert(o[0].id == SourceEngine::Elasticsearch.id_text());
    assert(o[1].id == SourceEngine::OpenSearch.id_text() && o[2].id == SourceEngine::Solr.id_text());
    let o = kind_of(QuestionId::SnapshotStorage, a).options();
    assert(o[0].id == SnapshotStorage::LocalStack.id_text());
    assert(o[1].id == SnapshotStorage::AwsS3.id_text());
    assert(o[2].id == SnapshotStorage::NoStorage.id_text());
    let o = kind_of(QuestionId::TargetMode, a).options();
    assert(o[0].id == TargetMode::Provision.id_text() && o[1].id == TargetMode::LeaveToMa.id_text());
    let o = kind_of(QuestionId::TargetKind, a).options();
    assert(o[0].id == TargetKind::KindOpenSearch.id_text());
    assert(o[1].id == TargetKind::AossServerlessNextGen.id_text());
    let o = kind_of(QuestionId::Clients, a).options();
    assert(o[0].id == ClientApp::Locust.id_text() && o[1].id == ClientApp::SampleSearchApp.id_text());
    let o = kind_of(QuestionId::MaHandoff, a).options();
    assert(o[0].id == MaHandoff::DeployLocalHelm.id_text());
    assert(o[1].id == MaHandoff::InstallCli.id_text());
}

/// The snapshot repository is offered, and starts selected, for the engines that take snapshots, and
/// is not offered for Solr. Every other plugin is the operator's to select.
pub proof fn law_the_snapshot_repository_starts_selected(a: AnswersView, i: int)
    requires
        0 <= i < kind_of(QuestionId::SourcePlugins, a).options().len(),
    ensures
        kind_of(QuestionId::SourcePlugins, a).options()[i].default_on <==> kind_of(
            QuestionId::SourcePlugins,
            a,
        ).options()[i].id == "repository-s3"@,
        offers(
            QuestionId::SourcePlugins,
            a,
            "repository-s3"@,
            "repository-s3 (S3 snapshot repo)"@,
        ) <==> a.source_engine != Some(SourceEngine::Solr),
{
    let o = kind_of(QuestionId::SourcePlugins, a).options();
    reveal_strlit("repository-s3");
    reveal_strlit("analysis-icu");
    reveal_strlit("analysis-phonetic");
    reveal_strlit("mapper-size");
    reveal_strlit("dih");
    reveal_strlit("schema-api");
    assert("repository-s3"@.len() == 13 && "analysis-icu"@.len() == 12);
    assert("analysis-phonetic"@.len() == 17 && "mapper-size"@.len() == 11);
    assert("dih"@.len() == 3 && "schema-api"@.len() == 10);
    assert(o[0].id.len() >= 0);
}

/// What is asked about an engine names the engine that was chosen.
pub proof fn law_questions_name_the_engine(a: AnswersView, e: SourceEngine)
    requires
        a.source_engine == Some(e),
    ensures
        question(QuestionId::SourceVersion, a).title == "Which "@ + e.label_text() + " version?"@,
        question(QuestionId::SourcePlugins, a).title == "Which plugins should the "@
            + e.label_text() + " source load?"@,
{
}

/// A question is presented under its own identity, whatever was answered.
pub proof fn law_a_question_is_itself(q: QuestionId, a: AnswersView)
    ensures
        question(q, a).id == q,
{
}

/// The defaults: an environment on this machine with Elasticsearch in its newest version, simulated
/// snapshots, a target of its own in its newest version, both client applications and sample data;
/// the Migration Assistant runs on this machine too, but for an environment in the cloud, which
/// installs its command line.
pub proof fn law_what_the_defaults_are(a: AnswersView)
    ensures
        ({
            let b = filled(a);
            &&& a.target is None ==> b.target == Some(Target::Local)
            &&& a.source_engine is None ==> b.source_engine == Some(SourceEngine::Elasticsearch)
            &&& a.source_version is None ==> b.source_version == Some(
                (b.source_engine->0).version_texts()[0],
            )
            &&& a.snapshot_storage is None ==> b.snapshot_storage == Some(
                SnapshotStorage::LocalStack,
            )
            &&& a.target_mode is None ==> b.target_mode == Some(TargetMode::Provision)
            &&& a.target_kind is None && b.target_mode == Some(TargetMode::Provision)
                ==> b.target_kind == Some(TargetKind::KindOpenSearch)
            &&& a.target_kind is None && b.target_mode == Some(TargetMode::LeaveToMa)
                ==> b.target_kind is None
            &&& a.target_version is None && b.target_mode == Some(TargetMode::Provision)
                && b.target_kind == Some(TargetKind::KindOpenSearch) ==> b.target_version == Some(
                TARGET_VERSIONS@[0]@,
            )
            &&& a.target_version is None && (b.target_mode == Some(TargetMode::LeaveToMa)
                || b.target_kind == Some(TargetKind::AossServerlessNextGen))
                ==> b.target_version is None
            &&& !a.clients_done && a.clients.len() == 0 ==> b.clients == seq![
                ClientApp::Locust,
                ClientApp::SampleSearchApp,
            ]
            &&& a.seed_data is None ==> b.seed_data == Some(true)
            &&& a.ma_handoff is None && b.target == Some(Target::Local) ==> b.ma_handoff == Some(
                MaHandoff::DeployLocalHelm,
            )
            &&& a.ma_handoff is None && b.target == Some(Target::Cloud) ==> b.ma_handoff == Some(
                MaHandoff::InstallCli,
            )
            &&& b.plugins_done && b.clients_done
        }),
{
}

/// Filling in the defaults leaves nothing to ask.
pub proof fn law_defaults_complete_the_plan(a: AnswersView)
    ensures
        next_of(filled(a)) == QuestionId::Review,
{
    let b = filled(a);
    lemma_first_open(b, 0);
}

/// Filling in the defaults a second time changes nothing.
pub proof fn law_defaults_are_idempotent(a: AnswersView)
    ensures
        filled(filled(a)) == filled(a),
{
    assert(filled(filled(a)) =~= filled(a));
}

/// Filling in the defaults keeps every answer that was given.
pub proof fn law_defaults_keep_what_is_answered(a: AnswersView)
    ensures
        a.target is Some ==> filled(a).target == a.target,
        a.source_engine is Some ==> filled(a).source_engine == a.source_engine,
        a.source_version is Some ==> filled(a).source_version == a.source_version,
        filled(a).source_plugins == a.source_plugins,
        a.snapshot_storage is Some ==> filled(a).snapshot_storage == a.snapshot_storage,
        a.target_mode is Some ==> filled(a).target_mode == a.target_mode,
        a.target_kind is Some ==> filled(a).target_kind == a.target_kind,
        a.target_version is Some ==> filled(a).target_version == a.target_version,
        a.clients_done || a.clients.len() > 0 ==> filled(a).clients == a.clients,
        a.seed_data is Some ==> filled(a).seed_data == a.seed_data,
        a.ma_handoff is Some ==> filled(a).ma_handoff == a.ma_handoff,
        filled(a).aws_profile == a.aws_profile,
        filled(a).aws_region == a.aws_region,
{
}

/// At the review no answer changes anything.
pub proof fn law_the_review_is_terminal(a: AnswersView, ans: AnswerView)
    requires
        next_of(a) == QuestionId::Review,
    ensures
        applied(a, next_of(a), ans) == a,
        next_of(applied(a, next_of(a), ans)) == QuestionId::Review,
{
}

/// A plan without a local target never asks for a target version, and a cloud plan never asks how
/// to launch the Migration Assistant.
pub proof fn law_questions_that_do_not_apply_are_skipped(a: AnswersView)
    ensures
        !a.local_target() ==> next_of(a) != QuestionId::TargetVersion,
        a.target_mode != Some(TargetMode::Provision) ==> next_of(a) != QuestionId::TargetKind,
        a.target != Some(Target::Local) ==> next_of(a) != QuestionId::MaHandoff,
{
    lemma_first_open(a, 0);
}

// ---------------------------------------------------------------------------
// The review
// ---------------------------------------------------------------------------

/// One row of the review: a question that applies, and its answer.
#[derive(Debug, Clone, PartialEq, Eq)]
pub struct ReviewRow {
    /// The question to ask again to change the row.
    pub question: QuestionId,
    pub label: String,
    pub value: String,
}

/// What a [`ReviewRow`] holds.
#[verifier::ext_equal]
pub struct ReviewRowView {
    pub question: QuestionId,
    pub label: Seq<char>,
    pub value: Seq<char>,
}

impl View for ReviewRow {
    type V = ReviewRowView;

    open spec fn view(&self) -> ReviewRowView {
        ReviewRowView { question: self.question, label: self.label@, value: self.value@ }
    }
}

/// What each row of a review holds.
pub open spec fn row_views(v: Seq<ReviewRow>) -> Seq<ReviewRowView> {
    v.map_values(|r: ReviewRow| r@)
}

/// What a question is called on the review.
pub open spec fn row_label(q: QuestionId) -> Seq<char> {
    match q {
        QuestionId::Target => "Where"@,
        QuestionId::SourceEngine => "Source engine"@,
        QuestionId::SourceVersion => "Source version"@,
        QuestionId::SourcePlugins => "Source plugins"@,
        QuestionId::SnapshotStorage => "Snapshot storage"@,
        QuestionId::TargetMode => "Target"@,
        QuestionId::TargetKind => "Target kind"@,
        QuestionId::TargetVersion => "Target version"@,
        QuestionId::Clients => "Client apps"@,
        QuestionId::SeedData => "Seed data"@,
        QuestionId::MaHandoff => "MA handoff"@,
        QuestionId::Review => "Review"@,
    }
}

/// The labels of client applications.
pub open spec fn client_labels(v: Seq<ClientApp>) -> Seq<Seq<char>> {
    v.map_values(|c: ClientApp| c.label_text())
}

/// The answer to a question as the review shows it; a dash where there is none.
pub open spec fn row_value(q: QuestionId, a: AnswersView) -> Seq<char> {
    match q {
        QuestionId::Target => match a.target {
            Some(t) => t.label_text(),
            None => "—"@,
        },
        QuestionId::SourceEngine => match a.source_engine {
            Some(e) => e.label_text(),
            None => "—"@,
        },
        QuestionId::SourceVersion => match a.source_version {
            Some(v) => v,
            None => "—"@,
        },
        QuestionId::SourcePlugins => if a.source_plugins.len() == 0 {
            "—"@
        } else {
            joined(a.source_plugins, ", "@)
        },
        QuestionId::SnapshotStorage => match a.snapshot_storage {
            Some(s) => s.label_text(),
            None => "—"@,
        },
        QuestionId::TargetMode => match a.target_mode {
            Some(m) => m.label_text(),
            None => "—"@,
        },
        QuestionId::TargetKind => match a.target_kind {
            Some(k) => k.label_text(),
            None => "—"@,
        },
        QuestionId::TargetVersion => match a.target_version {
            Some(v) => v,
            None => "—"@,
        },
        QuestionId::Clients => if a.clients.len() == 0 {
            "—"@
        } else {
            joined(client_labels(a.clients), ", "@)
        },
        QuestionId::SeedData => match a.seed_data {
            Some(true) => "yes"@,
            Some(false) => "no"@,
            None => "—"@,
        },
        QuestionId::MaHandoff => match a.ma_handoff {
            Some(h) => h.label_text(),
            None => "—"@,
        },
        QuestionId::Review => "—"@,
    }
}

/// The rows for the first `n` questions of the flow: those that apply.
pub open spec fn review_upto(a: AnswersView, n: int) -> Seq<ReviewRowView>
    decreases n,
{
    if n <= 0 || n > FLOW@.len() {
        seq![]
    } else {
        let q = FLOW@[n - 1];
        let before = review_upto(a, n - 1);
        if relevant(q, a) {
            before.push(
                ReviewRowView { question: q, label: row_label(q), value: row_value(q, a) },
            )
        } else {
            before
        }
    }
}

fn label_of(q: QuestionId) -> (r: &'static str)
    ensures
        r@ == row_label(q),
{
    match q {
        QuestionId::Target => "Where",
        QuestionId::SourceEngine => "Source engine",
        QuestionId::SourceVersion => "Source version",
        QuestionId::SourcePlugins => "Source plugins",
        QuestionId::SnapshotStorage => "Snapshot storage",
        QuestionId::TargetMode => "Target",
        QuestionId::TargetKind => "Target kind",
        QuestionId::TargetVersion => "Target version",
        QuestionId::Clients => "Client apps",
        QuestionId::SeedData => "Seed data",
        QuestionId::MaHandoff => "MA handoff",
        QuestionId::Review => "Review",
    }
}

/// The labels of client applications, with commas between them.
pub fn client_label_list(v: &Vec<ClientApp>) -> (r: String)
    ensures
        r@ == joined(client_labels(v@), ", "@),
{
    let mut names: Vec<String> = Vec::new();
    for i in 0..v.len()
        invariant
            names@.len() == i,
            forall|j: int| 0 <= j < i ==> (#[trigger] names@[j])@ == v@[j].label_text(),
    {
        names.push(v[i].label().to_string());
    }
    assert(texts(names@) =~= client_labels(v@));
    join(&names, ", ")
}

fn value_of(q: QuestionId, a: &Answers) -> (r: String)
    ensures
        r@ == row_value(q, a@),
{
    match q {
        QuestionId::Target => match a.target {
            Some(t) => t.label().to_string(),
            None => "—".to_string(),
        },
        QuestionId::SourceEngine => match a.source_engine {
            Some(e) => e.label().to_string(),
            None => "—".to_string(),
        },
        QuestionId::SourceVersion => match &a.source_version {
            Some(v) => v.clone(),
            None => "—".to_string(),
        },
        QuestionId::SourcePlugins => if a.source_plugins.len() == 0 {
            "—".to_string()
        } else {
            join(&a.source_plugins, ", ")
        },
        QuestionId::SnapshotStorage => match a.snapshot_storage {
            Some(s) => s.label().to_string(),
            None => "—".to_string(),
        },
        QuestionId::TargetMode => match a.target_mode {
            Some(m) => m.label().to_string(),
            None => "—".to_string(),
        },
        QuestionId::TargetKind => match a.target_kind {
            Some(k) => k.label().to_string(),
            None => "—".to_string(),
        },
        QuestionId::TargetVersion => match &a.target_version {
            Some(v) => v.clone(),
            None => "—".to_string(),
        },
        QuestionId::Clients => if a.clients.len() == 0 {
            "—".to_string()
        } else {
            client_label_list(&a.clients)
        },
        QuestionId::SeedData => match a.seed_data {
            Some(b) => (if b { "yes" } else { "no" }).to_string(),
            None => "—".to_string(),
        },
        QuestionId::MaHandoff => match a.ma_handoff {
            Some(h) => h.label().to_string(),
            None => "—".to_string(),
        },
        QuestionId::Review => "—".to_string(),
    }
}

/// The rows of the review: one for each question that applies, in the order of the flow.
pub fn review_rows(a: &Answers) -> (r: Vec<ReviewRow>)
    ensures
        row_views(r@) == review_upto(a@, 11),
{
    let mut r: Vec<ReviewRow> = Vec::new();
    assert(row_views(r@) =~= review_upto(a@, 0));
    for i in 0..FLOW.len()
        invariant
            row_views(r@) == review_upto(a@, i as int),
    {
        let ghost before = row_views(r@);
        let q: QuestionId = FLOW[i];
        if applies(q, a) {
            let row = ReviewRow {
                question: q,
                label: label_of(q).to_string(),
                value: value_of(q, a),
            };
            r.push(row);
            assert(row_views(r@) =~= before.push(row@));
        }
    }
    r
}

/// Whether the review has a row for a question that shows `value`.
pub open spec fn shows(a: AnswersView, q: QuestionId, value: Seq<char>) -> bool {
    let rows = review_upto(a, 11);
    exists|i: int|
        0 <= i < rows.len() && (#[trigger] rows[i]).question == q && rows[i].value == value
}

/// Whether a question has a row among the first `n` of the flow.
proof fn lemma_review_upto(a: AnswersView, n: int, q: QuestionId)
    requires
        0 <= n <= 11,
    ensures
        forall|i: int|
            0 <= i < review_upto(a, n).len() ==> {
                let r = #[trigger] review_upto(a, n)[i];
                &&& r.question != QuestionId::Review
                &&& rank(r.question) < n
                &&& relevant(r.question, a)
                &&& r.value == row_value(r.question, a)
                &&& r.label == row_label(r.question)
            },
        forall|i: int, j: int|
            0 <= i < j < review_upto(a, n).len() ==> rank(
                (#[trigger] review_upto(a, n)[i]).question,
            ) < rank((#[trigger] review_upto(a, n)[j]).question),
        q != QuestionId::Review && rank(q) < n && relevant(q, a) ==> exists|i: int|
            0 <= i < review_upto(a, n).len() && (#[trigger] review_upto(a, n)[i]).question == q,
    decreases n,
{
    if n > 0 {
        lemma_review_upto(a, n - 1, q);
        let p = FLOW@[n - 1];
        let before = review_upto(a, n - 1);
        let all = review_upto(a, n);
        assert(rank(p) == n - 1);
        if relevant(p, a) {
            assert(all[before.len() as int].question == p);
            assert(forall|i: int| 0 <= i < before.len() ==> #[trigger] all[i] == before[i]);
            if q != QuestionId::Review && rank(q) < n - 1 && relevant(q, a) {
                let k = choose|i: int|
                    0 <= i < before.len() && (#[trigger] before[i]).question == q;
                assert(all[k].question == q);
            }
        }
    }
}

/// The review has one row for each question that applies and none for any other, in the order in
/// which they are asked.
pub proof fn law_the_review_has_a_row_for_each_question(a: AnswersView, q: QuestionId, i: int, j: int)
    ensures
        q != QuestionId::Review && (q == QuestionId::TargetKind ==> a.target_mode == Some(
            TargetMode::Provision,
        )) && (q == QuestionId::TargetVersion ==> a.target_mode == Some(TargetMode::Provision)
            && a.target_kind != Some(TargetKind::AossServerlessNextGen)) && (q
            == QuestionId::MaHandoff ==> a.target == Some(Target::Local)) ==> exists|x: int|
            0 <= x < review_upto(a, 11).len() && (#[trigger] review_upto(a, 11)[x]).question == q,
        0 <= i < review_upto(a, 11).len() ==> ({
            let p = review_upto(a, 11)[i].question;
            &&& p != QuestionId::Review
            &&& p == QuestionId::TargetKind ==> a.target_mode == Some(TargetMode::Provision)
            &&& p == QuestionId::TargetVersion ==> a.target_mode == Some(TargetMode::Provision)
                && a.target_kind != Some(TargetKind::AossServerlessNextGen)
            &&& p == QuestionId::MaHandoff ==> a.target == Some(Target::Local)
        }),
        0 <= i < j < review_upto(a, 11).len() ==> rank(review_upto(a, 11)[i].question) < rank(
            review_upto(a, 11)[j].question,
        ),
{
    lemma_review_upto(a, 11, q);
}

/// The review shows what was answered: for each question that applies the label of the choice, the
/// version, the list, yes or no, and a dash where there is no answer.
pub proof fn law_the_review_shows_the_answers(a: AnswersView)
    ensures
        shows(
            a,
            QuestionId::Target,
            match a.target {
                Some(t) => t.label_text(),
                None => "—"@,
            },
        ),
        shows(
            a,
            QuestionId::SourceEngine,
            match a.source_engine {
                Some(e) => e.label_text(),
                None => "—"@,
            },
        ),
        shows(
            a,
            QuestionId::SourceVersion,
            match a.source_version {
                Some(v) => v,
                None => "—"@,
            },
        ),
        a.source_plugins.len() > 0 ==> shows(
            a,
            QuestionId::SourcePlugins,
            joined(a.source_plugins, ", "@),
        ),
        a.source_plugins.len() == 0 ==> shows(a, QuestionId::SourcePlugins, "—"@),
        shows(
            a,
            QuestionId::SnapshotStorage,
            match a.snapshot_storage {
                Some(s) => s.label_text(),
                None => "—"@,
            },
        ),
        shows(
            a,
            QuestionId::TargetMode,
            match a.target_mode {
                Some(m) => m.label_text(),
                None => "—"@,
            },
        ),
        a.target_mode == Some(TargetMode::Provision) ==> shows(
            a,
            QuestionId::TargetKind,
            match a.target_kind {
                Some(k) => k.label_text(),
                None => "—"@,
            },
        ),
        a.target_mode == Some(TargetMode::Provision) && a.target_kind != Some(
            TargetKind::AossServerlessNextGen,
        ) ==> shows(
            a,
            QuestionId::TargetVersion,
            match a.target_version {
                Some(v) => v,
                None => "—"@,
            },
        ),
        a.clients.len() > 0 ==> shows(
            a,
            QuestionId::Clients,
            joined(a.clients.map_values(|c: ClientApp| c.label_text()), ", "@),
        ),
        a.clients.len() == 0 ==> shows(a, QuestionId::Clients, "—"@),
        shows(
            a,
            QuestionId::SeedData,
            match a.seed_data {
                Some(true) => "yes"@,
                Some(false) => "no"@,
                None => "—"@,
            },
        ),
        a.target == Some(Target::Local) ==> shows(
            a,
            QuestionId::MaHandoff,
            match a.ma_handoff {
                Some(h) => h.label_text(),
                None => "—"@,
            },
        ),
{
    lemma_review_upto(a, 11, QuestionId::Target);
    lemma_review_upto(a, 11, QuestionId::SourceEngine);
    lemma_review_upto(a, 11, QuestionId::SourceVersion);
    lemma_review_upto(a, 11, QuestionId::SourcePlugins);
    lemma_review_upto(a, 11, QuestionId::SnapshotStorage);
    lemma_review_upto(a, 11, QuestionId::TargetMode);
    lemma_review_upto(a, 11, QuestionId::TargetKind);
    lemma_review_upto(a, 11, QuestionId::TargetVersion);
    lemma_review_upto(a, 11, QuestionId::Clients);
    lemma_review_upto(a, 11, QuestionId::SeedData);
    lemma_review_upto(a, 11, QuestionId::MaHandoff);
    assert(a.clients.map_values(|c: ClientApp| c.label_text()) =~= client_labels(a.clients));
}

/// The rows of the review are told apart by what they are called.
pub proof fn law_review_rows_are_told_apart(p: QuestionId, q: QuestionId)
    ensures
        row_label(p) == row_label(q) ==> p == q,
{
    reveal_strlit("Where");
    reveal_strlit("Source engine");
    reveal_strlit("Source version");
    reveal_strlit("Source plugins");
    reveal_strlit("Snapshot storage");
    reveal_strlit("Target");
    reveal_strlit("Target kind");
    reveal_strlit("Target version");
    reveal_strlit("Client apps");
    reveal_strlit("Seed data");
    reveal_strlit("MA handoff");
    reveal_strlit("Review");
    assert("Where"@.len() == 5 && "Source engine"@.len() == 13);
    assert("Source version"@.len() == 14 && "Source plugins"@.len() == 14);
    assert("Source version"@[7] == 'v' && "Source plugins"@[7] == 'p');
    assert("Snapshot storage"@.len() == 16 && "Target"@.len() == 6 && "Review"@.len() == 6);
    assert("Target"@[0] == 'T' && "Review"@[0] == 'R');
    assert("Target kind"@.len() == 11 && "Client apps"@.len() == 11);
    assert("Target kind"@[0] == 'T' && "Client apps"@[0] == 'C');
    assert("Target version"@.len() == 14 && "Target version"@[0] == 'T');
    assert("Source version"@[0] == 'S' && "Source plugins"@[0] == 'S');
    assert("Seed data"@.len() == 9 && "MA handoff"@.len() == 10);
}

} // verus!
