//! The answers that the wizard collects, and the choices they are made of.
//!
//! Everything here is plain data. The wizard changes an [`Answers`] value; the planners are
//! functions of one.

use crate::text::{copy_opt, copy_texts, opt_text, str_texts, texts};
use vstd::prelude::*;

verus! {

/// Where the test environment is provisioned.
#[derive(Debug, Clone, Copy, PartialEq, Eq, Structural)]
pub enum Target {
    /// Local Docker via KIND (one cluster per role).
    Local,
    /// AWS via emitted Terraform.
    Cloud,
}

impl Target {
    /// The identifier that stands for the choice.
    pub open spec fn id_text(self) -> Seq<char> {
        match self {
            Target::Local => "local"@,
            Target::Cloud => "cloud"@,
        }
    }

    /// The identifier that stands for the choice.
    pub fn id(self) -> (r: &'static str)
        ensures
            r@ == self.id_text(),
    {
        match self {
            Target::Local => "local",
            Target::Cloud => "cloud",
        }
    }

    /// What the choice is called on screen.
    pub open spec fn label_text(self) -> Seq<char> {
        match self {
            Target::Local => "Local (KIND / Docker)"@,
            Target::Cloud => "Cloud (AWS / Terraform)"@,
        }
    }

    /// What the choice is called on screen.
    pub fn label(self) -> (r: &'static str)
        ensures
            r@ == self.label_text(),
    {
        match self {
            Target::Local => "Local (KIND / Docker)",
            Target::Cloud => "Cloud (AWS / Terraform)",
        }
    }
}

/// The source search engine to migrate from.
#[derive(Debug, Clone, Copy, PartialEq, Eq, Structural)]
pub enum SourceEngine {
    Elasticsearch,
    OpenSearch,
    Solr,
}

impl SourceEngine {
    /// The identifier that stands for the choice.
    pub open spec fn id_text(self) -> Seq<char> {
        match self {
            SourceEngine::Elasticsearch => "elasticsearch"@,
            SourceEngine::OpenSearch => "opensearch"@,
            SourceEngine::Solr => "solr"@,
        }
    }

    /// The identifier that stands for the choice.
    pub fn id(self) -> (r: &'static str)
        ensures
            r@ == self.id_text(),
    {
        match self {
            SourceEngine::Elasticsearch => "elasticsearch",
            SourceEngine::OpenSearch => "opensearch",
            SourceEngine::Solr => "solr",
        }
    }

    /// What the choice is called on screen.
    pub open spec fn label_text(self) -> Seq<char> {
        match self {
            SourceEngine::Elasticsearch => "Elasticsearch"@,
            SourceEngine::OpenSearch => "OpenSearch"@,
            SourceEngine::Solr => "Solr"@,
        }
    }

    /// What the choice is called on screen.
    pub fn label(self) -> (r: &'static str)
        ensures
            r@ == self.label_text(),
    {
        match self {
            SourceEngine::Elasticsearch => "Elasticsearch",
            SourceEngine::OpenSearch => "OpenSearch",
            SourceEngine::Solr => "Solr",
        }
    }

    /// The versions that can be chosen for this engine, newest first.
    pub open spec fn version_texts(self) -> Seq<Seq<char>> {
        match self {
            SourceEngine::Elasticsearch => seq![
                "8.17.0"@,
                "7.17.22"@,
                "7.10.2"@,
                "6.8.23"@,
                "5.6.16"@,
            ],
            SourceEngine::OpenSearch => seq!["2.19.0"@, "2.15.0"@, "1.3.20"@],
            SourceEngine::Solr => seq!["9.7.0"@, "8.11.3"@],
        }
    }

    /// The versions that can be chosen for this engine, newest first.
    pub fn versions(self) -> (r: &'static [&'static str])
        ensures
            str_texts(r@) == self.version_texts(),
    {
        let r: &'static [&'static str] = match self {
            SourceEngine::Elasticsearch => &["8.17.0", "7.17.22", "7.10.2", "6.8.23", "5.6.16"],
            SourceEngine::OpenSearch => &["2.19.0", "2.15.0", "1.3.20"],
            SourceEngine::Solr => &["9.7.0", "8.11.3"],
        };
        assert(str_texts(r@) =~= self.version_texts());
        r
    }

    /// Whether the engine speaks the HTTP search API on port 9200, as all but Solr do.
    pub open spec fn http(self) -> bool {
        self != SourceEngine::Solr
    }

    /// Whether the engine speaks the HTTP search API on port 9200, as all but Solr do.
    pub fn is_http_search(self) -> (r: bool)
        ensures
            r == self.http(),
    {
        matches!(self, SourceEngine::Elasticsearch | SourceEngine::OpenSearch)
    }
}

/// Where snapshots (what a backfill reads) are stored.
#[derive(Debug, Clone, Copy, PartialEq, Eq, Structural)]
pub enum SnapshotStorage {
    /// LocalStack S3 in the cluster (no real AWS).
    LocalStack,
    /// A real AWS S3 bucket (the operator supplies credentials).
    AwsS3,
    /// No snapshot storage: the Migration Assistant sees to it.
    NoStorage,
}

impl SnapshotStorage {
    /// The identifier that stands for the choice.
    pub open spec fn id_text(self) -> Seq<char> {
        match self {
            SnapshotStorage::LocalStack => "localstack"@,
            SnapshotStorage::AwsS3 => "aws-s3"@,
            SnapshotStorage::NoStorage => "none"@,
        }
    }

    /// The identifier that stands for the choice.
    pub fn id(self) -> (r: &'static str)
        ensures
            r@ == self.id_text(),
    {
        match self {
            SnapshotStorage::LocalStack => "localstack",
            SnapshotStorage::AwsS3 => "aws-s3",
            SnapshotStorage::NoStorage => "none",
        }
    }

    /// What the choice is called on screen.
    pub open spec fn label_text(self) -> Seq<char> {
        match self {
            SnapshotStorage::LocalStack => "LocalStack (simulated S3, no AWS)"@,
            SnapshotStorage::AwsS3 => "Real AWS S3 bucket"@,
            SnapshotStorage::NoStorage => "None (let Migration Assistant decide)"@,
        }
    }

    /// What the choice is called on screen.
    pub fn label(self) -> (r: &'static str)
        ensures
            r@ == self.label_text(),
    {
        match self {
            SnapshotStorage::LocalStack => "LocalStack (simulated S3, no AWS)",
            SnapshotStorage::AwsS3 => "Real AWS S3 bucket",
            SnapshotStorage::NoStorage => "None (let Migration Assistant decide)",
        }
    }
}

/// Whether the target OpenSearch cluster is provisioned.
#[derive(Debug, Clone, Copy, PartialEq, Eq, Structural)]
pub enum TargetMode {
    /// Provision a target as part of the environment.
    Provision,
    /// Provision nothing: the Migration Assistant stands up or points at its own target.
    LeaveToMa,
}

impl TargetMode {
    /// The identifier that stands for the choice.
    pub open spec fn id_text(self) -> Seq<char> {
        match self {
            TargetMode::Provision => "provision"@,
            TargetMode::LeaveToMa => "leave-to-ma"@,
        }
    }

    /// The identifier that stands for the choice.
    pub fn id(self) -> (r: &'static str)
        ensures
            r@ == self.id_text(),
    {
        match self {
            TargetMode::Provision => "provision",
            TargetMode::LeaveToMa => "leave-to-ma",
        }
    }

    /// What the choice is called on screen.
    pub open spec fn label_text(self) -> Seq<char> {
        match self {
            TargetMode::Provision => "Provision a migration target"@,
            TargetMode::LeaveToMa => "Leave the target to the Migration Assistant"@,
        }
    }

    /// What the choice is called on screen.
    pub fn label(self) -> (r: &'static str)
        ensures
            r@ == self.label_text(),
    {
        match self {
            TargetMode::Provision => "Provision a migration target",
            TargetMode::LeaveToMa => "Leave the target to the Migration Assistant",
        }
    }
}

/// Which kind of target to provision (asked only when one is provisioned).
#[derive(Debug, Clone, Copy, PartialEq, Eq, Structural)]
pub enum TargetKind {
    /// A self-managed OpenSearch cluster in a local KIND cluster.
    KindOpenSearch,
    /// An Amazon OpenSearch Serverless NextGen collection.
    AossServerlessNextGen,
}

impl TargetKind {
    /// The identifier that stands for the choice.
    pub open spec fn id_text(self) -> Seq<char> {
        match self {
            TargetKind::KindOpenSearch => "kind-opensearch"@,
            TargetKind::AossServerlessNextGen => "aoss-nextgen"@,
        }
    }

    /// The identifier that stands for the choice.
    pub fn id(self) -> (r: &'static str)
        ensures
            r@ == self.id_text(),
    {
        match self {
            TargetKind::KindOpenSearch => "kind-opensearch",
            TargetKind::AossServerlessNextGen => "aoss-nextgen",
        }
    }

    /// What the choice is called on screen.
    pub open spec fn label_text(self) -> Seq<char> {
        match self {
            TargetKind::KindOpenSearch => "Local OpenSearch (KIND cluster)"@,
            TargetKind::AossServerlessNextGen => "Amazon OpenSearch Serverless — NextGen collection (cloud, fast)"@,
        }
    }

    /// What the choice is called on screen.
    pub fn label(self) -> (r: &'static str)
        ensures
            r@ == self.label_text(),
    {
        match self {
            TargetKind::KindOpenSearch => "Local OpenSearch (KIND cluster)",
            TargetKind::AossServerlessNextGen => "Amazon OpenSearch Serverless — NextGen collection (cloud, fast)",
        }
    }

    /// Whether this kind needs a local KIND cluster for the target.
    pub fn is_local(self) -> (r: bool)
        ensures
            r == (self == TargetKind::KindOpenSearch),
    {
        matches!(self, TargetKind::KindOpenSearch)
    }
}

/// How the Migration Assistant is launched once the environment is up.
#[derive(Debug, Clone, Copy, PartialEq, Eq, Structural)]
pub enum MaHandoff {
    /// Install its command-line tool, which deploys to EKS.
    InstallCli,
    /// Deploy it into a KIND cluster of its own.
    DeployLocalHelm,
}

impl MaHandoff {
    /// The identifier that stands for the choice.
    pub open spec fn id_text(self) -> Seq<char> {
        match self {
            MaHandoff::InstallCli => "install-cli"@,
            MaHandoff::DeployLocalHelm => "deploy-local-helm"@,
        }
    }

    /// The identifier that stands for the choice.
    pub fn id(self) -> (r: &'static str)
        ensures
            r@ == self.id_text(),
    {
        match self {
            MaHandoff::InstallCli => "install-cli",
            MaHandoff::DeployLocalHelm => "deploy-local-helm",
        }
    }

    /// What the choice is called on screen.
    pub open spec fn label_text(self) -> Seq<char> {
        match self {
            MaHandoff::InstallCli => "Install the MA CLI (deploys to EKS)"@,
            MaHandoff::DeployLocalHelm => "Deploy MA locally to KIND (no AWS)"@,
        }
    }

    /// What the choice is called on screen.
    pub fn label(self) -> (r: &'static str)
        ensures
            r@ == self.label_text(),
    {
        match self {
            MaHandoff::InstallCli => "Install the MA CLI (deploys to EKS)",
            MaHandoff::DeployLocalHelm => "Deploy MA locally to KIND (no AWS)",
        }
    }
}

/// A client application to deploy against the source, so that there is traffic to capture.
#[derive(Debug, Clone, Copy, PartialEq, Eq, Structural)]
pub enum ClientApp {
    /// A Locust deployment that drives continuous load.
    Locust,
    /// A small application that issues representative queries.
    SampleSearchApp,
}

impl ClientApp {
    /// The identifier that stands for the choice.
    pub open spec fn id_text(self) -> Seq<char> {
        match self {
            ClientApp::Locust => "locust"@,
            ClientApp::SampleSearchApp => "sample-search-app"@,
        }
    }

    /// The identifier that stands for the choice.
    pub fn id(self) -> (r: &'static str)
        ensures
            r@ == self.id_text(),
    {
        match self {
            ClientApp::Locust => "locust",
            ClientApp::SampleSearchApp => "sample-search-app",
        }
    }

    /// What the choice is called on screen.
    pub open spec fn label_text(self) -> Seq<char> {
        match self {
            ClientApp::Locust => "Locust load generator"@,
            ClientApp::SampleSearchApp => "Sample search application"@,
        }
    }

    /// What the choice is called on screen.
    pub fn label(self) -> (r: &'static str)
        ensures
            r@ == self.label_text(),
    {
        match self {
            ClientApp::Locust => "Locust load generator",
            ClientApp::SampleSearchApp => "Sample search application",
        }
    }

    /// All client applications, in display order.
    pub const ALL: [ClientApp; 2] = [ClientApp::Locust, ClientApp::SampleSearchApp];
}

/// The target OpenSearch versions that can be chosen, newest first.
pub const TARGET_VERSIONS: [&'static str; 3] = ["3.3.0", "3.1.0", "2.19.0"];

/// The answers collected so far. A question that is not answered yet has `None`; the two questions
/// that an empty list answers have a flag beside them.
#[derive(Debug, PartialEq, Eq)]
pub struct Answers {
    pub target: Option<Target>,
    pub source_engine: Option<SourceEngine>,
    pub source_version: Option<String>,
    /// Engine plugins to install on the source.
    pub source_plugins: Vec<String>,
    /// Whether the plugins question is answered.
    pub plugins_done: bool,
    pub snapshot_storage: Option<SnapshotStorage>,
    pub target_mode: Option<TargetMode>,
    /// Which kind of target to provision; `None` while it is not asked.
    pub target_kind: Option<TargetKind>,
    pub target_version: Option<String>,
    /// Client applications to deploy against the source.
    pub clients: Vec<ClientApp>,
    /// Whether the clients question is answered.
    pub clients_done: bool,
    /// Whether to load sample documents into the source.
    pub seed_data: Option<bool>,
    /// How the Migration Assistant is launched.
    pub ma_handoff: Option<MaHandoff>,
    /// The AWS profile to use.
    pub aws_profile: Option<String>,
    /// The AWS region to use.
    pub aws_region: Option<String>,
}

/// What an [`Answers`] holds.
#[verifier::ext_equal]
pub struct AnswersView {
    pub target: Option<Target>,
    pub source_engine: Option<SourceEngine>,
    pub source_version: Option<Seq<char>>,
    pub source_plugins: Seq<Seq<char>>,
    pub plugins_done: bool,
    pub snapshot_storage: Option<SnapshotStorage>,
    pub target_mode: Option<TargetMode>,
    pub target_kind: Option<TargetKind>,
    pub target_version: Option<Seq<char>>,
    pub clients: Seq<ClientApp>,
    pub clients_done: bool,
    pub seed_data: Option<bool>,
    pub ma_handoff: Option<MaHandoff>,
    pub aws_profile: Option<Seq<char>>,
    pub aws_region: Option<Seq<char>>,
}

impl View for Answers {
    type V = AnswersView;

    open spec fn view(&self) -> AnswersView {
        AnswersView {
            target: self.target,
            source_engine: self.source_engine,
            source_version: opt_text(self.source_version),
            source_plugins: texts(self.source_plugins@),
            plugins_done: self.plugins_done,
            snapshot_storage: self.snapshot_storage,
            target_mode: self.target_mode,
            target_kind: self.target_kind,
            target_version: opt_text(self.target_version),
            clients: self.clients@,
            clients_done: self.clients_done,
            seed_data: self.seed_data,
            ma_handoff: self.ma_handoff,
            aws_profile: opt_text(self.aws_profile),
            aws_region: opt_text(self.aws_region),
        }
    }
}

impl AnswersView {
    /// Nothing answered yet.
    pub open spec fn fresh() -> AnswersView {
        AnswersView {
            target: None,
            source_engine: None,
            source_version: None,
            source_plugins: seq![],
            plugins_done: false,
            snapshot_storage: None,
            target_mode: None,
            target_kind: None,
            target_version: None,
            clients: seq![],
            clients_done: false,
            seed_data: None,
            ma_handoff: None,
            aws_profile: None,
            aws_region: None,
        }
    }

    /// The source engine, or Elasticsearch while none is chosen.
    pub open spec fn engine(self) -> SourceEngine {
        match self.source_engine {
            Some(e) => e,
            None => SourceEngine::Elasticsearch,
        }
    }

    /// Whether a source engine that speaks the HTTP search API is chosen.
    pub open spec fn http_source(self) -> bool {
        self.source_engine is Some && self.engine().http()
    }

    /// Whether the plan provisions a target in a KIND cluster: any provisioned target that is not
    /// known to be of another kind.
    pub open spec fn local_target(self) -> bool {
        self.target_mode == Some(TargetMode::Provision) && self.target_kind != Some(
            TargetKind::AossServerlessNextGen,
        )
    }

    /// Whether the plan provisions a serverless collection as the target.
    pub open spec fn aoss_target(self) -> bool {
        self.target_mode == Some(TargetMode::Provision) && self.target_kind == Some(
            TargetKind::AossServerlessNextGen,
        )
    }

    /// Whether the Migration Assistant is deployed into a KIND cluster.
    pub open spec fn local_ma(self) -> bool {
        self.ma_handoff == Some(MaHandoff::DeployLocalHelm)
    }

    /// The AWS profile to use, `default` where none is chosen.
    pub open spec fn profile(self) -> Seq<char> {
        match self.aws_profile {
            Some(p) => p,
            None => "default"@,
        }
    }

    /// The AWS region to use, `us-east-1` where none is chosen.
    pub open spec fn region(self) -> Seq<char> {
        match self.aws_region {
            Some(r) => r,
            None => "us-east-1"@,
        }
    }

    /// The one-line summary of the plan.
    pub open spec fn summary_text(self) -> Seq<char> {
        let target = match self.target {
            Some(t) => t.label_text(),
            None => "—"@,
        };
        let engine = match self.source_engine {
            Some(e) => e.label_text(),
            None => "—"@,
        };
        let version = match self.source_version {
            Some(v) => v,
            None => "—"@,
        };
        target + " · source: "@ + engine + " "@ + version
    }
}

/// The name of the source KIND cluster.
pub open spec fn source_cluster_name() -> Seq<char> {
    Answers::STACK@ + "-source"@
}

/// The name of the target KIND cluster, and of the serverless collection.
pub open spec fn target_cluster_name() -> Seq<char> {
    Answers::STACK@ + "-target"@
}

/// The name of the KIND cluster that the Migration Assistant is deployed into.
pub open spec fn ma_cluster_name() -> Seq<char> {
    Answers::STACK@ + "-ma"@
}

impl Default for Answers {
    fn default() -> (r: Self)
        ensures
            r@ == AnswersView::fresh(),
    {
        let r = Answers {
            target: None,
            source_engine: None,
            source_version: None,
            source_plugins: Vec::new(),
            plugins_done: false,
            snapshot_storage: None,
            target_mode: None,
            target_kind: None,
            target_version: None,
            clients: Vec::new(),
            clients_done: false,
            seed_data: None,
            ma_handoff: None,
            aws_profile: None,
            aws_region: None,
        };
        assert(r@ =~= AnswersView::fresh());
        r
    }
}

impl Clone for Answers {
    fn clone(&self) -> (r: Self)
        ensures
            r@ == self@,
    {
        let mut clients: Vec<ClientApp> = Vec::new();
        for i in 0..self.clients.len()
            invariant
                clients@ == self.clients@.take(i as int),
        {
            clients.push(self.clients[i]);
        }
        let r = Answers {
            target: self.target,
            source_engine: self.source_engine,
            source_version: copy_opt(&self.source_version),
            source_plugins: copy_texts(&self.source_plugins),
            plugins_done: self.plugins_done,
            snapshot_storage: self.snapshot_storage,
            target_mode: self.target_mode,
            target_kind: self.target_kind,
            target_version: copy_opt(&self.target_version),
            clients,
            clients_done: self.clients_done,
            seed_data: self.seed_data,
            ma_handoff: self.ma_handoff,
            aws_profile: copy_opt(&self.aws_profile),
            aws_region: copy_opt(&self.aws_region),
        };
        assert(r@ =~= self@);
        r
    }
}

impl Answers {
    /// The namespace and the name stem that all resources share.
    pub const STACK: &'static str = "ma-demo";

    /// Nothing answered yet.
    pub fn new() -> (r: Self)
        ensures
            r@ == AnswersView::fresh(),
    {
        Self::default()
    }

    /// The name of the source KIND cluster.
    pub fn source_cluster(&self) -> (r: String)
        ensures
            r@ == source_cluster_name(),
    {
        Self::STACK.to_string().concat("-source")
    }

    /// The name of the target KIND cluster.
    pub fn target_cluster(&self) -> (r: String)
        ensures
            r@ == target_cluster_name(),
    {
        Self::STACK.to_string().concat("-target")
    }

    /// The name of the KIND cluster that the Migration Assistant is deployed into.
    pub fn ma_cluster(&self) -> (r: String)
        ensures
            r@ == ma_cluster_name(),
    {
        Self::STACK.to_string().concat("-ma")
    }

    /// The source engine, or Elasticsearch while none is chosen.
    pub fn engine_or_default(&self) -> (r: SourceEngine)
        ensures
            r == self@.engine(),
    {
        match self.source_engine {
            Some(e) => e,
            None => SourceEngine::Elasticsearch,
        }
    }

    /// Whether the source engine speaks the HTTP search API.
    pub fn source_is_http(&self) -> (r: bool)
        ensures
            r == self@.http_source(),
    {
        match self.source_engine {
            Some(e) => e.is_http_search(),
            None => false,
        }
    }

    /// Whether a client application is selected.
    pub fn has_client(&self, c: ClientApp) -> (r: bool)
        ensures
            r == self@.clients.contains(c),
    {
        for i in 0..self.clients.len()
            invariant
                forall|j: int| 0 <= j < i ==> self.clients@[j] != c,
        {
            if self.clients[i] == c {
                return true;
            }
        }
        false
    }

    /// Whether the plan provisions a target in a KIND cluster.
    pub fn provisions_local_target(&self) -> (r: bool)
        ensures
            r == self@.local_target(),
    {
        self.target_mode == Some(TargetMode::Provision) && match self.target_kind {
            Some(k) => k.is_local(),
            None => true,
        }
    }

    /// Whether the plan provisions a serverless collection as the target.
    pub fn provisions_aoss_target(&self) -> (r: bool)
        ensures
            r == self@.aoss_target(),
    {
        self.target_mode == Some(TargetMode::Provision) && self.target_kind == Some(
            TargetKind::AossServerlessNextGen,
        )
    }

    /// Whether the Migration Assistant is deployed into a KIND cluster.
    pub fn deploys_ma_locally(&self) -> (r: bool)
        ensures
            r == self@.local_ma(),
    {
        self.ma_handoff == Some(MaHandoff::DeployLocalHelm)
    }

    /// The name of the serverless collection.
    pub fn aoss_collection_name(&self) -> (r: String)
        ensures
            r@ == target_cluster_name(),
    {
        Self::STACK.to_string().concat("-target")
    }

    /// The AWS profile to use, `default` where none is chosen.
    pub fn effective_aws_profile(&self) -> (r: &str)
        ensures
            r@ == self@.profile(),
    {
        match &self.aws_profile {
            Some(p) => p.as_str(),
            None => "default",
        }
    }

    /// The AWS region to use, `us-east-1` where none is chosen.
    pub fn effective_aws_region(&self) -> (r: &str)
        ensures
            r@ == self@.region(),
    {
        match &self.aws_region {
            Some(r) => r.as_str(),
            None => "us-east-1",
        }
    }

    /// The one-line summary of the plan, with a dash for what is not answered yet.
    pub fn summary(&self) -> (r: String)
        ensures
            r@ == self@.summary_text(),
    {
        let target = match self.target {
            Some(t) => t.label(),
            None => "—",
        };
        let engine = match self.source_engine {
            Some(e) => e.label(),
            None => "—",
        };
        let version = match &self.source_version {
            Some(v) => v.as_str(),
            None => "—",
        };
        target.to_string().concat(" · source: ").concat(engine).concat(" ").concat(version)
    }
}

/// A target is never provisioned both in a KIND cluster and as a serverless collection, and a
/// provisioned one is one of the two.
pub proof fn law_one_kind_of_target(a: AnswersView)
    ensures
        !(a.local_target() && a.aoss_target()),
        (a.local_target() || a.aoss_target()) <==> a.target_mode == Some(TargetMode::Provision),
{
}

/// The clusters have names of their own.
pub proof fn law_cluster_names_are_distinct()
    ensures
        source_cluster_name() != target_cluster_name(),
        source_cluster_name() != ma_cluster_name(),
        target_cluster_name() != ma_cluster_name(),
{
    reveal_strlit("-source");
    reveal_strlit("-target");
    reveal_strlit("-ma");
    let n = Answers::STACK@.len() as int;
    assert(source_cluster_name()[n + 1] == 's');
    assert(target_cluster_name()[n + 1] == 't');
    assert(ma_cluster_name()[n + 1] == 'm');
}

/// What was chosen counts, and something else only where nothing was: Elasticsearch for the engine,
/// `default` for the profile, `us-east-1` for the region.
pub proof fn law_what_was_chosen_counts(a: AnswersView)
    ensures
        a.source_engine is Some ==> a.engine() == a.source_engine->0,
        a.source_engine is None ==> a.engine() == SourceEngine::Elasticsearch,
        a.aws_profile is Some ==> a.profile() == a.aws_profile->0,
        a.aws_profile is None ==> a.profile() == "default"@,
        a.aws_region is Some ==> a.region() == a.aws_region->0,
        a.aws_region is None ==> a.region() == "us-east-1"@,
        a.local_ma() <==> a.ma_handoff == Some(MaHandoff::DeployLocalHelm),
        a.local_target() <==> a.target_mode == Some(TargetMode::Provision) && (a.target_kind is None
            || a.target_kind == Some(TargetKind::KindOpenSearch)),
        a.aoss_target() <==> a.target_mode == Some(TargetMode::Provision) && a.target_kind == Some(
            TargetKind::AossServerlessNextGen,
        ),
        a.http_source() <==> a.source_engine == Some(SourceEngine::Elasticsearch)
            || a.source_engine == Some(SourceEngine::OpenSearch),
{
    if let Some(k) = a.target_kind {
        assert(k == TargetKind::KindOpenSearch || k == TargetKind::AossServerlessNextGen);
    }
    if let Some(e) = a.source_engine {
        assert(e == SourceEngine::Elasticsearch || e == SourceEngine::OpenSearch || e
            == SourceEngine::Solr);
    }
}

/// The clusters are named after the stack and what they are for.
pub proof fn law_the_names_of_the_clusters()
    ensures
        source_cluster_name() == "ma-demo"@ + "-source"@,
        target_cluster_name() == "ma-demo"@ + "-target"@,
        ma_cluster_name() == "ma-demo"@ + "-ma"@,
{
}

/// The summary names where the environment stands and its source, with a dash for what is open.
pub proof fn law_the_summary_names_the_plan(a: AnswersView)
    ensures
        a.target is Some && a.source_engine is Some && a.source_version is Some ==> a.summary_text()
            == (a.target->0).label_text() + " · source: "@ + (a.source_engine->0).label_text()
            + " "@ + a.source_version->0,
        a.target is None && a.source_engine is None && a.source_version is None ==> a.summary_text()
            == "—"@ + " · source: "@ + "—"@ + " "@ + "—"@,
{
}

/// Nothing is answered at first.
pub proof fn law_nothing_is_answered_at_first()
    ensures
        ({
            let a = AnswersView::fresh();
            &&& a.target is None && a.source_engine is None && a.source_version is None
            &&& a.source_plugins.len() == 0 && !a.plugins_done && a.snapshot_storage is None
            &&& a.target_mode is None && a.target_kind is None && a.target_version is None
            &&& a.clients.len() == 0 && !a.clients_done && a.seed_data is None
            &&& a.ma_handoff is None && a.aws_profile is None && a.aws_region is None
        }),
{
}

} // verus!
