//! The provisioning plan: what is to be done, in which order, with every artifact rendered.
//!
//! A plan is plain data. It is a function of the answers; carrying it out is left to
//! [`crate::app`].

use crate::manifests::{
    client_manifests, client_text, clients_texts, data_seed_job, data_seed_text, head_text,
    image_line, kind_config, kind_config_text, law_clients_are_sent_to_the_source,
    law_clusters_map_their_ports, law_every_manifest_is_structured, law_every_seed_index_is_loaded,
    law_the_source_runs_the_chosen_engine, law_the_target_runs_its_version, localstack,
    localstack_text, namespace, namespace_text, pair_texts, published_image, source, source_text,
    structured, target, target_text, NAMESPACE, SEED_INDICES, TARGET_SERVICE,
};
use crate::model::{
    law_cluster_names_are_distinct, source_cluster_name, target_cluster_name, Answers, AnswersView,
    ClientApp, SnapshotStorage, SourceEngine, Target, TargetKind, TargetMode,
};
use crate::passages::group_contains;
use crate::text::{contains, decimal, lemma_contains_middle, opt_text, texts};
use crate::util::dns_label;
use vstd::prelude::*;

verus! {

/// The repository that the Migration Assistant is installed from.
pub const MA_REPO: &'static str = "AndreKurait/opensearch-migrations";

/// The release that is installed.
pub const MA_VERSION: &'static str = "3.3.1";

/// The namespace of a Migration Assistant that runs in a cluster of its own.
pub const MA_NAMESPACE: &'static str = "ma";

/// The port of the host under which the source is reached.
pub const SOURCE_HOST_PORT: u64 = 19200;

/// The port of the host under which the target is reached.
pub const TARGET_HOST_PORT: u64 = 29200;

/// Which cluster an action is for.
#[derive(Debug, Clone, Copy, PartialEq, Eq, Structural)]
pub enum ClusterRole {
    Source,
    Target,
}

impl ClusterRole {
    /// What the cluster is called.
    pub open spec fn text(self) -> Seq<char> {
        match self {
            ClusterRole::Source => "source"@,
            ClusterRole::Target => "target"@,
        }
    }
}

/// One step of a plan.
#[derive(Debug, Clone, PartialEq, Eq)]
pub enum Action {
    /// Create a cluster from a configuration.
    CreateKindCluster { name: String, config: String, role: ClusterRole },
    /// Apply a manifest to a cluster.
    ApplyManifest { role: ClusterRole, name: String, body: String },
    /// Wait until a cluster is ready.
    WaitReady { role: ClusterRole, what: String },
}

/// What an [`Action`] holds.
#[verifier::ext_equal]
pub enum ActionView {
    CreateKindCluster { name: Seq<char>, config: Seq<char>, role: ClusterRole },
    ApplyManifest { role: ClusterRole, name: Seq<char>, body: Seq<char> },
    WaitReady { role: ClusterRole, what: Seq<char> },
}

impl View for Action {
    type V = ActionView;

    open spec fn view(&self) -> ActionView {
        match self {
            Action::CreateKindCluster { name, config, role } => ActionView::CreateKindCluster {
                name: name@,
                config: config@,
                role: *role,
            },
            Action::ApplyManifest { role, name, body } => ActionView::ApplyManifest {
                role: *role,
                name: name@,
                body: body@,
            },
            Action::WaitReady { role, what } => ActionView::WaitReady { role: *role, what: what@ },
        }
    }
}

impl ActionView {
    /// The cluster that the action is for.
    pub open spec fn role(self) -> ClusterRole {
        match self {
            ActionView::CreateKindCluster { role, .. } => role,
            ActionView::ApplyManifest { role, .. } => role,
            ActionView::WaitReady { role, .. } => role,
        }
    }

    /// Whether the action applies a manifest of this name.
    pub open spec fn applies(self, manifest: Seq<char>) -> bool {
        self matches ActionView::ApplyManifest { name, .. } && name == manifest
    }

    /// The action in one line.
    pub open spec fn description(self) -> Seq<char> {
        match self {
            ActionView::CreateKindCluster { name, role, .. } => "create KIND cluster "@ + name
                + " ("@ + role.text() + ")"@,
            ActionView::ApplyManifest { role, name, .. } => "apply "@ + name + " → "@ + role.text()
                + " cluster"@,
            ActionView::WaitReady { role, what } => "wait for "@ + what + " ("@ + role.text()
                + ")"@,
        }
    }
}

/// What each action of a list holds.
pub open spec fn action_views(v: Seq<Action>) -> Seq<ActionView> {
    v.map_values(|a: Action| a@)
}

/// What a cluster is called.
pub fn role_label(r: ClusterRole) -> (t: &'static str)
    ensures
        t@ == r.text(),
{
    match r {
        ClusterRole::Source => "source",
        ClusterRole::Target => "target",
    }
}

impl Action {
    /// The action in one line.
    pub fn describe(&self) -> (r: String)
        ensures
            r@ == self@.description(),
    {
        match self {
            Action::CreateKindCluster { name, role, .. } => {
                "create KIND cluster ".to_string().concat(name.as_str()).concat(" (").concat(
                    role_label(*role),
                ).concat(")")
            },
            Action::ApplyManifest { role, name, .. } => {
                "apply ".to_string().concat(name.as_str()).concat(" → ").concat(
                    role_label(*role),
                ).concat(" cluster")
            },
            Action::WaitReady { role, what } => {
                "wait for ".to_string().concat(what.as_str()).concat(" (").concat(
                    role_label(*role),
                ).concat(")")
            },
        }
    }
}

/// A complete plan.
#[derive(Debug, Clone, PartialEq, Eq)]
pub struct ProvisionPlan {
    pub actions: Vec<Action>,
    /// The host of the source inside its cluster.
    pub source_host: String,
    /// The host of the target inside its cluster, where one is provisioned.
    pub target_host: Option<String>,
}

/// What a [`ProvisionPlan`] holds.
#[verifier::ext_equal]
pub struct ProvisionPlanView {
    pub actions: Seq<ActionView>,
    pub source_host: Seq<char>,
    pub target_host: Option<Seq<char>>,
}

impl View for ProvisionPlan {
    type V = ProvisionPlanView;

    open spec fn view(&self) -> ProvisionPlanView {
        ProvisionPlanView {
            actions: action_views(self.actions@),
            source_host: self.source_host@,
            target_host: opt_text(self.target_host),
        }
    }
}

/// The service of the source engine.
pub open spec fn service_text(engine: SourceEngine) -> Seq<char> {
    match engine {
        SourceEngine::Elasticsearch => "source-elasticsearch"@,
        SourceEngine::OpenSearch => "source-opensearch"@,
        SourceEngine::Solr => "source-solr"@,
    }
}

/// The service of the source engine.
pub fn source_service_name(engine: SourceEngine) -> (r: &'static str)
    ensures
        r@ == service_text(engine),
{
    match engine {
        SourceEngine::Elasticsearch => "source-elasticsearch",
        SourceEngine::OpenSearch => "source-opensearch",
        SourceEngine::Solr => "source-solr",
    }
}

/// The port under which a node publishes the source service.
pub open spec fn node_port(engine: SourceEngine) -> u64 {
    match engine {
        SourceEngine::Solr => 30983,
        _ => 30920,
    }
}

/// The port under which a node publishes the source service.
pub fn source_node_port(engine: SourceEngine) -> (r: u64)
    ensures
        r == node_port(engine),
{
    match engine {
        SourceEngine::Solr => 30983,
        _ => 30920,
    }
}

// ---------------------------------------------------------------------------
// The plan for a set of answers
// ---------------------------------------------------------------------------

/// Applying a manifest to the source cluster.
pub open spec fn on_source(name: Seq<char>, body: Seq<char>) -> ActionView {
    ActionView::ApplyManifest { role: ClusterRole::Source, name, body }
}

/// Applying a manifest to the target cluster.
pub open spec fn on_target(name: Seq<char>, body: Seq<char>) -> ActionView {
    ActionView::ApplyManifest { role: ClusterRole::Target, name, body }
}

/// Applying the manifests of client applications.
pub open spec fn client_actions(clients: Seq<ClientApp>, host: Seq<char>) -> Seq<ActionView> {
    clients.map_values(|c: ClientApp| on_source(c.id_text(), client_text(c, host)))
}

/// The cluster of the source and its namespace.
pub open spec fn start_actions(a: AnswersView) -> Seq<ActionView> {
    seq![
        ActionView::CreateKindCluster {
            name: source_cluster_name(),
            config: kind_config_text(
                source_cluster_name(),
                SOURCE_HOST_PORT as nat,
                node_port(a.engine()) as nat,
            ),
            role: ClusterRole::Source,
        },
        on_source("namespace"@, namespace_text()),
    ]
}

/// The simulated S3, where it is chosen.
pub open spec fn storage_actions(a: AnswersView) -> Seq<ActionView> {
    if a.snapshot_storage == Some(SnapshotStorage::LocalStack) {
        seq![on_source("localstack"@, localstack_text())]
    } else {
        seq![]
    }
}

/// The engine, and waiting for it.
pub open spec fn engine_actions(a: AnswersView) -> Seq<ActionView> {
    seq![
        on_source("source"@, source_text(a)),
        ActionView::WaitReady { role: ClusterRole::Source, what: "source cluster"@ },
    ]
}

/// The sample data, where it is asked for.
pub open spec fn seed_actions(a: AnswersView) -> Seq<ActionView> {
    if a.seed_data == Some(true) {
        seq![on_source("data-seed"@, data_seed_text(service_text(a.engine())))]
    } else {
        seq![]
    }
}

/// What is done for the source: its cluster and namespace, the snapshot storage, the engine, the
/// client applications, the sample data.
pub open spec fn source_actions(a: AnswersView) -> Seq<ActionView> {
    start_actions(a) + storage_actions(a) + engine_actions(a) + client_actions(
        a.clients,
        service_text(a.engine()),
    ) + seed_actions(a)
}

/// The version of a target, `3.3.0` while none is chosen.
pub open spec fn target_version_of(a: AnswersView) -> Seq<char> {
    match a.target_version {
        Some(v) => v,
        None => "3.3.0"@,
    }
}

/// What is done for the target: nothing unless one is provisioned in a cluster of its own.
pub open spec fn target_actions(a: AnswersView) -> Seq<ActionView> {
    if a.local_target() {
        seq![
            ActionView::CreateKindCluster {
                name: target_cluster_name(),
                config: kind_config_text(target_cluster_name(), TARGET_HOST_PORT as nat, 30920),
                role: ClusterRole::Target,
            },
            on_target("namespace"@, namespace_text()),
            on_target("target"@, target_text(target_version_of(a))),
            ActionView::WaitReady { role: ClusterRole::Target, what: "target cluster"@ },
        ]
    } else {
        seq![]
    }
}

/// The plan for a set of answers. Only a local environment has actions.
pub open spec fn plan_for(a: AnswersView) -> ProvisionPlanView {
    if a.target == Some(Target::Local) {
        ProvisionPlanView {
            actions: source_actions(a) + target_actions(a),
            source_host: service_text(a.engine()),
            target_host: if a.local_target() {
                Some(TARGET_SERVICE@)
            } else {
                None
            },
        }
    } else {
        ProvisionPlanView {
            actions: seq![],
            source_host: service_text(a.engine()),
            target_host: None,
        }
    }
}

fn push(v: &mut Vec<Action>, a: Action)
    ensures
        action_views(final(v)@) == action_views(old(v)@).push(a@),
{
    let ghost before = action_views(v@);
    v.push(a);
    assert(action_views(v@) =~= before.push(a@));
}

fn apply_source(v: &mut Vec<Action>, name: &str, body: String)
    ensures
        action_views(final(v)@) == action_views(old(v)@).push(on_source(name@, body@)),
{
    push(v, Action::ApplyManifest { role: ClusterRole::Source, name: name.to_string(), body });
}

fn push_target(v: &mut Vec<Action>, answers: &Answers)
    requires
        answers@.local_target(),
    ensures
        action_views(final(v)@) == action_views(old(v)@) + target_actions(answers@),
{
    let ghost before = action_views(v@);
    let cluster = answers.target_cluster();
    let version = match &answers.target_version {
        Some(t) => t.as_str(),
        None => "3.3.0",
    };
    let config = kind_config(cluster.as_str(), TARGET_HOST_PORT, 30920);
    push(v, Action::CreateKindCluster { name: cluster, config, role: ClusterRole::Target });
    push(
        v,
        Action::ApplyManifest {
            role: ClusterRole::Target,
            name: "namespace".to_string(),
            body: namespace(),
        },
    );
    push(
        v,
        Action::ApplyManifest {
            role: ClusterRole::Target,
            name: "target".to_string(),
            body: target(version),
        },
    );
    push(
        v,
        Action::WaitReady { role: ClusterRole::Target, what: "target cluster".to_string() },
    );
    assert(action_views(v@) =~= before + target_actions(answers@));
}

/// The plan for a set of answers. The snapshot storage goes up before the source, so that the source
/// can register a repository in it; the target comes after everything that the source needs. An
/// environment in the cloud has no actions: Terraform describes it.
pub fn build(answers: &Answers) -> (r: ProvisionPlan)
    ensures
        r@ == plan_for(answers@),
{
    let engine = answers.engine_or_default();
    let host = source_service_name(engine);
    let mut actions: Vec<Action> = Vec::new();
    assert(action_views(actions@) =~= seq![]);
    if answers.target != Some(Target::Local) {
        return ProvisionPlan { actions, source_host: host.to_string(), target_host: None };
    }
    let cluster = answers.source_cluster();
    let config = kind_config(cluster.as_str(), SOURCE_HOST_PORT, source_node_port(engine));
    push(&mut actions, Action::CreateKindCluster { name: cluster, config, role: ClusterRole::Source });
    apply_source(&mut actions, "namespace", namespace());
    if answers.snapshot_storage == Some(SnapshotStorage::LocalStack) {
        apply_source(&mut actions, "localstack", localstack());
    }
    apply_source(&mut actions, "source", source(answers));
    push(
        &mut actions,
        Action::WaitReady { role: ClusterRole::Source, what: "source cluster".to_string() },
    );
    let clients = client_manifests(answers, host);
    let ghost base = action_views(actions@);
    let ghost want = client_actions(answers@.clients, host@);
    assert(want.take(0) =~= seq![]);
    assert(base =~= base + want.take(0));
    for i in 0..clients.len()
        invariant
            pair_texts(clients@) == clients_texts(answers@.clients, host@),
            want == client_actions(answers@.clients, host@),
            action_views(actions@) == base + want.take(i as int),
    {
        assert(pair_texts(clients@).len() == clients@.len());
        assert(pair_texts(clients@)[i as int] == (clients@[i as int].0@, clients@[i as int].1@));
        let (name, body) = &clients[i];
        apply_source(&mut actions, *name, body.clone());
        assert(want.take(i + 1) =~= want.take(i as int).push(want[i as int]));
        assert(action_views(actions@) =~= base + want.take(i + 1));
    }
    assert(pair_texts(clients@).len() == clients@.len());
    assert(want.take(want.len() as int) =~= want);
    if answers.seed_data == Some(true) {
        apply_source(&mut actions, "data-seed", data_seed_job(host));
    }
    assert(action_views(actions@) =~= source_actions(answers@));
    let mut target_host: Option<String> = None;
    if answers.provisions_local_target() {
        push_target(&mut actions, answers);
        target_host = Some(TARGET_SERVICE.to_string());
    }
    assert(action_views(actions@) =~= source_actions(answers@) + target_actions(answers@));
    ProvisionPlan { actions, source_host: host.to_string(), target_host }
}

// ---------------------------------------------------------------------------
// The Migration Assistant
// ---------------------------------------------------------------------------

/// The script that installs the Migration Assistant into `bin_dir` without starting it.
pub open spec fn install_script(bin_dir: Seq<char>) -> Seq<char> {
    "set -e; curl -fsSL https://github.com/"@ + MA_REPO@ + "/releases/download/"@ + MA_VERSION@
        + "/install.sh -o /tmp/ma-install.sh; MIGRATE_INSTALL=path MIGRATE_VERSION="@ + MA_VERSION@
        + " BIN_DIR="@ + bin_dir + " bash /tmp/ma-install.sh"@
}

/// The script that installs the Migration Assistant into `bin_dir` without starting it.
pub fn ma_install_command(bin_dir: &str) -> (r: String)
    ensures
        r@ == install_script(bin_dir@),
{
    "set -e; curl -fsSL https://github.com/".to_string().concat(MA_REPO).concat(
        "/releases/download/",
    ).concat(MA_VERSION).concat(
        "/install.sh -o /tmp/ma-install.sh; MIGRATE_INSTALL=path MIGRATE_VERSION=",
    ).concat(MA_VERSION).concat(" BIN_DIR=").concat(bin_dir).concat(" bash /tmp/ma-install.sh")
}

/// The installed program.
pub open spec fn ma_program(bin_dir: Seq<char>) -> Seq<char> {
    bin_dir + "/migration-assistant"@
}

/// The command line that starts the installed Migration Assistant.
pub fn ma_launch_argv(bin_dir: &str) -> (r: Vec<String>)
    ensures
        texts(r@) == seq![ma_program(bin_dir@)],
{
    let r = vec![bin_dir.to_string().concat("/migration-assistant")];
    assert(texts(r@) =~= seq![ma_program(bin_dir@)]);
    r
}

/// The arguments that ask `aws` for the state of a serverless collection.
pub open spec fn collection_query(name: Seq<char>, region: Seq<char>) -> Seq<Seq<char>> {
    seq![
        "opensearchserverless"@,
        "batch-get-collection"@,
        "--names"@,
        name,
        "--region"@,
        region,
        "--output"@,
        "json"@,
    ]
}

/// The arguments that ask `aws` for the state of a serverless collection.
pub fn aoss_batch_get_args(name: &str, region: &str) -> (r: Vec<String>)
    ensures
        texts(r@) == collection_query(name@, region@),
{
    let r = vec![
        "opensearchserverless".to_string(),
        "batch-get-collection".to_string(),
        "--names".to_string(),
        name.to_string(),
        "--region".to_string(),
        region.to_string(),
        "--output".to_string(),
        "json".to_string(),
    ];
    assert(texts(r@) =~= collection_query(name@, region@));
    r
}

// ---------------------------------------------------------------------------
// What holds of every plan
// ---------------------------------------------------------------------------

/// Whether a sequence creates the source cluster and its namespace, and then does nothing but work
/// in that cluster.
spec fn source_first(s: Seq<ActionView>) -> bool {
    &&& s.len() >= 2
    &&& s[0] is CreateKindCluster
    &&& s[0].role() == ClusterRole::Source
    &&& s[1].applies("namespace"@)
    &&& forall|i: int|
        1 <= i < s.len() ==> (#[trigger] s[i]).role() == ClusterRole::Source
            && !(s[i] is CreateKindCluster)
}

proof fn lemma_source_first(s: Seq<ActionView>, more: Seq<ActionView>)
    requires
        source_first(s),
        forall|i: int|
            0 <= i < more.len() ==> (#[trigger] more[i]).role() == ClusterRole::Source
                && !(more[i] is CreateKindCluster),
    ensures
        source_first(s + more),
{
    let all = s + more;
    assert forall|i: int| 1 <= i < all.len() implies (#[trigger] all[i]).role()
        == ClusterRole::Source && !(all[i] is CreateKindCluster) by {
        if i >= s.len() {
            assert(all[i] == more[i - s.len()]);
        }
    }
}

proof fn lemma_roles(a: AnswersView)
    ensures
        source_first(source_actions(a)),
        forall|i: int|
            0 <= i < target_actions(a).len() ==> (#[trigger] target_actions(a)[i]).role()
                == ClusterRole::Target,
{
    let s1 = start_actions(a);
    let s2 = s1 + storage_actions(a);
    let s3 = s2 + engine_actions(a);
    let clients = client_actions(a.clients, service_text(a.engine()));
    lemma_source_first(s1, storage_actions(a));
    lemma_source_first(s2, engine_actions(a));
    lemma_source_first(s3, clients);
    lemma_source_first(s3 + clients, seed_actions(a));
}

/// An environment that is not local has no actions.
pub proof fn law_only_local_plans_have_actions(a: AnswersView)
    ensures
        a.target != Some(Target::Local) ==> plan_for(a).actions.len() == 0,
        a.target == Some(Target::Local) ==> plan_for(a).actions.len() > 0,
{
    lemma_roles(a);
}

/// A cluster is created, and given its namespace, before anything else is done in it.
pub proof fn law_clusters_come_first(a: AnswersView, j: int)
    requires
        0 <= j < plan_for(a).actions.len(),
    ensures
        !(plan_for(a).actions[j] is CreateKindCluster) ==> exists|i: int|
            0 <= i < j && (#[trigger] plan_for(a).actions[i]) is CreateKindCluster
                && plan_for(a).actions[i].role() == plan_for(a).actions[j].role(),
        plan_for(a).actions[j] is WaitReady || (plan_for(a).actions[j] is ApplyManifest
            && !plan_for(a).actions[j].applies("namespace"@)) ==> exists|i: int|
            0 <= i < j && (#[trigger] plan_for(a).actions[i]).applies("namespace"@)
                && plan_for(a).actions[i].role() == plan_for(a).actions[j].role(),
{
    lemma_roles(a);
    let all = plan_for(a).actions;
    let n = source_actions(a).len() as int;
    if j < n {
        assert(all[j] == source_actions(a)[j]);
        assert(all[0] == source_actions(a)[0]);
        assert(all[1] == source_actions(a)[1]);
        assert(all[0].role() == all[j].role() && all[1].role() == all[j].role());
    } else {
        assert(all[j] == target_actions(a)[j - n]);
        assert(all[n] == target_actions(a)[0]);
        assert(all[n + 1] == target_actions(a)[1]);
        assert(all[n].role() == all[j].role() && all[n + 1].role() == all[j].role());
    }
}

/// Everything for the source is done before anything for the target.
pub proof fn law_the_target_comes_last(a: AnswersView, i: int, j: int)
    requires
        0 <= i < plan_for(a).actions.len(),
        0 <= j < plan_for(a).actions.len(),
        plan_for(a).actions[i].role() == ClusterRole::Source,
        plan_for(a).actions[j].role() == ClusterRole::Target,
    ensures
        i < j,
{
    lemma_roles(a);
    let n = source_actions(a).len() as int;
    if i >= n {
        assert(plan_for(a).actions[i] == target_actions(a)[i - n]);
    }
    if j < n {
        assert(plan_for(a).actions[j] == source_actions(a)[j]);
    }
}

/// A local plan applies the simulated S3 if and only if it is chosen, and then before the source.
pub proof fn law_snapshot_storage_precedes_the_source(a: AnswersView, j: int)
    requires
        a.target == Some(Target::Local),
        0 <= j < plan_for(a).actions.len(),
    ensures
        plan_for(a).actions[j].applies("localstack"@) ==> a.snapshot_storage == Some(
            SnapshotStorage::LocalStack,
        ),
        plan_for(a).actions[j].applies("source"@) && a.snapshot_storage == Some(
            SnapshotStorage::LocalStack,
        ) ==> exists|i: int| 0 <= i < j && (#[trigger] plan_for(a).actions[i]).applies("localstack"@),
{
    let all = plan_for(a).actions;
    let src = source_actions(a);
    let n = src.len() as int;
    reveal_strlit("localstack");
    reveal_strlit("namespace");
    reveal_strlit("source");
    reveal_strlit("data-seed");
    reveal_strlit("target");
    reveal_strlit("locust");
    reveal_strlit("sample-search-app");
    assert("localstack"@[0] != "namespace"@[0]);
    assert("localstack"@[0] != "source"@[0]);
    assert("localstack"@[0] != "data-seed"@[0]);
    assert("localstack"@[0] != "target"@[0]);
    assert("localstack"@.len() != "locust"@.len());
    assert("localstack"@[0] != "sample-search-app"@[0]);
    assert("source"@[0] != "namespace"@[0]);
    if j < n {
        assert(all[j] == src[j]);
        if a.snapshot_storage == Some(SnapshotStorage::LocalStack) {
            assert(src[2] == on_source("localstack"@, localstack_text()));
            assert(all[2] == src[2]);
        }
    } else {
        assert(all[j] == target_actions(a)[j - n]);
        if a.snapshot_storage == Some(SnapshotStorage::LocalStack) {
            assert(all[2] == src[2]);
        }
    }
}

/// A local plan creates a second cluster, and names a target host, if and only if the target is
/// provisioned in a cluster: a serverless target needs none.
pub proof fn law_a_second_cluster_only_for_a_local_target(a: AnswersView)
    requires
        a.target == Some(Target::Local),
    ensures
        plan_for(a).target_host is Some <==> a.local_target(),
        (exists|i: int|
            0 <= i < plan_for(a).actions.len() && (#[trigger] plan_for(a).actions[i]).role()
                == ClusterRole::Target) <==> a.local_target(),
{
    lemma_roles(a);
    let n = source_actions(a).len() as int;
    if a.local_target() {
        assert(plan_for(a).actions[n] == target_actions(a)[0]);
    } else {
        assert forall|i: int| 0 <= i < plan_for(a).actions.len() implies (
        #[trigger] plan_for(a).actions[i]).role() == ClusterRole::Source by {
            assert(plan_for(a).actions[i] == source_actions(a)[i]);
        }
    }
}

/// The clusters of a plan differ in name and in the port of the host that they use.
pub proof fn law_clusters_do_not_collide(a: AnswersView, i: int, j: int)
    requires
        0 <= i < j < plan_for(a).actions.len(),
        plan_for(a).actions[i] is CreateKindCluster,
        plan_for(a).actions[j] is CreateKindCluster,
    ensures
        plan_for(a).actions[i]->CreateKindCluster_name
            != plan_for(a).actions[j]->CreateKindCluster_name,
        plan_for(a).actions[i]->config == kind_config_text(
            source_cluster_name(),
            SOURCE_HOST_PORT as nat,
            node_port(a.engine()) as nat,
        ),
        plan_for(a).actions[j]->config == kind_config_text(
            target_cluster_name(),
            TARGET_HOST_PORT as nat,
            30920,
        ),
        SOURCE_HOST_PORT != TARGET_HOST_PORT,
{
    lemma_roles(a);
    law_cluster_names_are_distinct();
    let n = source_actions(a).len() as int;
    if j < n {
        assert(plan_for(a).actions[j] == source_actions(a)[j]);
    } else {
        assert(plan_for(a).actions[j] == target_actions(a)[j - n]);
        if i >= n {
            assert(plan_for(a).actions[i] == target_actions(a)[i - n]);
        } else {
            assert(plan_for(a).actions[i] == source_actions(a)[i]);
        }
    }
}

/// Every manifest of a plan is well structured.
#[verifier::spinoff_prover]
pub proof fn law_every_applied_manifest_is_structured(a: AnswersView, i: int)
    requires
        0 <= i < plan_for(a).actions.len(),
        plan_for(a).actions[i] is ApplyManifest,
    ensures
        structured(plan_for(a).actions[i]->body),
{
    let host = service_text(a.engine());
    law_every_manifest_is_structured(a, target_version_of(a), ClientApp::Locust, host);
    law_every_manifest_is_structured(a, target_version_of(a), ClientApp::SampleSearchApp, host);
    lemma_what_is_applied(a, i);
}

/// The names that clusters, services and the namespace are given are valid DNS labels.
pub proof fn law_names_are_dns_labels(engine: SourceEngine)
    ensures
        dns_label(source_cluster_name()),
        dns_label(target_cluster_name()),
        dns_label(service_text(engine)),
        dns_label(TARGET_SERVICE@),
        dns_label(NAMESPACE@),
{
    reveal_strlit("ma-demo");
    reveal_strlit("-source");
    reveal_strlit("-target");
    reveal_strlit("source-elasticsearch");
    reveal_strlit("source-opensearch");
    reveal_strlit("source-solr");
    reveal_strlit("target-opensearch");
}

/// The manifests of a plan are told apart by their names.
proof fn lemma_manifest_names()
    ensures
        "namespace"@ != "localstack"@,
        "namespace"@ != "source"@,
        "namespace"@ != "target"@,
        "namespace"@ != "data-seed"@,
        "namespace"@ != ClientApp::Locust.id_text(),
        "namespace"@ != ClientApp::SampleSearchApp.id_text(),
        "localstack"@ != "source"@,
        "localstack"@ != "target"@,
        "localstack"@ != "data-seed"@,
        "localstack"@ != ClientApp::Locust.id_text(),
        "localstack"@ != ClientApp::SampleSearchApp.id_text(),
        "source"@ != "target"@,
        "source"@ != "data-seed"@,
        "source"@ != ClientApp::Locust.id_text(),
        "source"@ != ClientApp::SampleSearchApp.id_text(),
        "target"@ != "data-seed"@,
        "target"@ != ClientApp::Locust.id_text(),
        "target"@ != ClientApp::SampleSearchApp.id_text(),
        "data-seed"@ != ClientApp::Locust.id_text(),
        "data-seed"@ != ClientApp::SampleSearchApp.id_text(),
        ClientApp::Locust.id_text() != ClientApp::SampleSearchApp.id_text(),
{
    reveal_strlit("namespace");
    reveal_strlit("localstack");
    reveal_strlit("source");
    reveal_strlit("target");
    reveal_strlit("data-seed");
    reveal_strlit("locust");
    reveal_strlit("sample-search-app");
    assert("namespace"@[0] == 'n' && "localstack"@[0] == 'l' && "source"@[0] == 's');
    assert("target"@[0] == 't' && "data-seed"@[0] == 'd' && "locust"@[0] == 'l');
    assert("sample-search-app"@[0] == 's' && "sample-search-app"@.len() == 17);
    assert("source"@.len() == 6 && "locust"@.len() == 6 && "localstack"@.len() == 10);
}

/// The service that a source is reached as.
pub open spec fn published_service(e: SourceEngine) -> Seq<char> {
    if e == SourceEngine::Solr {
        "source-solr"@
    } else if e == SourceEngine::OpenSearch {
        "source-opensearch"@
    } else {
        "source-elasticsearch"@
    }
}

/// Whether an action applies one of the manifests of a local plan, for the reason that it has.
spec fn applies_for_a_reason(act: ActionView, a: AnswersView) -> bool {
    let host = service_text(a.engine());
    ||| act == on_source("namespace"@, namespace_text())
    ||| act == on_target("namespace"@, namespace_text())
    ||| act == on_target("target"@, target_text(target_version_of(a))) && a.local_target()
    ||| act == on_source("source"@, source_text(a))
    ||| act == on_source("localstack"@, localstack_text()) && a.snapshot_storage == Some(
        SnapshotStorage::LocalStack,
    )
    ||| act == on_source("data-seed"@, data_seed_text(host)) && a.seed_data == Some(true)
    ||| act == on_source("locust"@, client_text(ClientApp::Locust, host)) && a.clients.contains(
        ClientApp::Locust,
    )
    ||| act == on_source("sample-search-app"@, client_text(ClientApp::SampleSearchApp, host))
        && a.clients.contains(ClientApp::SampleSearchApp)
}

/// A local plan applies nothing without a reason.
#[verifier::spinoff_prover]
proof fn lemma_what_is_applied(a: AnswersView, i: int)
    requires
        a.target == Some(Target::Local),
        0 <= i < plan_for(a).actions.len(),
        plan_for(a).actions[i] is ApplyManifest,
    ensures
        applies_for_a_reason(plan_for(a).actions[i], a),
{
    let act = plan_for(a).actions[i];
    let s1 = start_actions(a);
    let s2 = storage_actions(a);
    let s3 = engine_actions(a);
    let s4 = client_actions(a.clients, service_text(a.engine()));
    let s5 = seed_actions(a);
    let s6 = target_actions(a);
    lemma_six_parts(s1, s2, s3, s4, s5, s6, i);
    if s4.contains(act) {
        lemma_why_a_client_is_applied(act, a);
    } else if s6.contains(act) {
        lemma_why_a_target_is_applied(act, a);
    } else if s2.contains(act) {
        lemma_why_storage_is_applied(act, a);
    } else if s5.contains(act) {
        lemma_why_data_is_applied(act, a);
    } else {
        lemma_why_a_source_is_started(act, a);
    }
}

#[verifier::spinoff_prover]
proof fn lemma_why_a_client_is_applied(act: ActionView, a: AnswersView)
    requires
        client_actions(a.clients, service_text(a.engine())).contains(act),
    ensures
        applies_for_a_reason(act, a),
{
    let host = service_text(a.engine());
    let s = client_actions(a.clients, host);
    let j = choose|j: int| 0 <= j < s.len() && s[j] == act;
    let c = a.clients[j];
    assert(act == on_source(c.id_text(), client_text(c, host)));
    assert(a.clients.contains(c));
    match c {
        ClientApp::Locust => {
            assert(act == on_source("locust"@, client_text(ClientApp::Locust, host)));
        },
        ClientApp::SampleSearchApp => {
            assert(act == on_source(
                "sample-search-app"@,
                client_text(ClientApp::SampleSearchApp, host),
            ));
        },
    }
}

#[verifier::spinoff_prover]
proof fn lemma_why_a_target_is_applied(act: ActionView, a: AnswersView)
    requires
        act is ApplyManifest,
        target_actions(a).contains(act),
    ensures
        applies_for_a_reason(act, a),
{
    let s = target_actions(a);
    let j = choose|j: int| 0 <= j < s.len() && s[j] == act;
    assert(j == 1 || j == 2);
}

#[verifier::spinoff_prover]
proof fn lemma_why_a_source_is_started(act: ActionView, a: AnswersView)
    requires
        act is ApplyManifest,
        start_actions(a).contains(act) || engine_actions(a).contains(act),
    ensures
        applies_for_a_reason(act, a),
{
    let s = if start_actions(a).contains(act) {
        start_actions(a)
    } else {
        engine_actions(a)
    };
    let j = choose|j: int| 0 <= j < s.len() && s[j] == act;
    if start_actions(a).contains(act) {
        assert(j == 1);
        assert(act == on_source("namespace"@, namespace_text()));
    } else {
        assert(j == 0);
        assert(act == on_source("source"@, source_text(a)));
    }
}

#[verifier::spinoff_prover]
proof fn lemma_why_storage_is_applied(act: ActionView, a: AnswersView)
    requires
        storage_actions(a).contains(act),
    ensures
        applies_for_a_reason(act, a),
{
    let s = storage_actions(a);
    let j = choose|j: int| 0 <= j < s.len() && s[j] == act;
    assert(j == 0);
    assert(act == on_source("localstack"@, localstack_text()));
}

#[verifier::spinoff_prover]
proof fn lemma_why_data_is_applied(act: ActionView, a: AnswersView)
    requires
        seed_actions(a).contains(act),
    ensures
        applies_for_a_reason(act, a),
{
    let s = seed_actions(a);
    let j = choose|j: int| 0 <= j < s.len() && s[j] == act;
    assert(j == 0);
    assert(act == on_source("data-seed"@, data_seed_text(service_text(a.engine()))));
}

/// What stands in six parts one after the other stands in one of them.
proof fn lemma_six_parts<A>(
    s1: Seq<A>,
    s2: Seq<A>,
    s3: Seq<A>,
    s4: Seq<A>,
    s5: Seq<A>,
    s6: Seq<A>,
    i: int,
)
    requires
        0 <= i < (s1 + s2 + s3 + s4 + s5 + s6).len(),
    ensures
        ({
            let x = (s1 + s2 + s3 + s4 + s5 + s6)[i];
            s1.contains(x) || s2.contains(x) || s3.contains(x) || s4.contains(x) || s5.contains(x)
                || s6.contains(x)
        }),
{
    let n1 = s1.len() as int;
    let n2 = n1 + s2.len();
    let n3 = n2 + s3.len();
    let n4 = n3 + s4.len();
    let n5 = n4 + s5.len();
    let x = (s1 + s2 + s3 + s4 + s5 + s6)[i];
    if i < n1 {
        assert(x == s1[i]);
    } else if i < n2 {
        assert(x == s2[i - n1]);
    } else if i < n3 {
        assert(x == s3[i - n2]);
    } else if i < n4 {
        assert(x == s4[i - n3]);
    } else if i < n5 {
        assert(x == s5[i - n4]);
    } else {
        assert(x == s6[i - n5]);
    }
}

/// What a local plan applies is what was chosen: the source in the engine and version that were
/// chosen, the target in its version (3.3.0 only where none is chosen), the simulated S3, the client
/// applications and the sample data only where they were asked for, each against the source.
#[verifier::spinoff_prover]
pub proof fn law_a_plan_applies_only_what_was_chosen(a: AnswersView, i: int)
    requires
        a.target == Some(Target::Local),
        0 <= i < plan_for(a).actions.len(),
        plan_for(a).actions[i] is ApplyManifest,
    ensures
        ({
            let act = plan_for(a).actions[i];
            let name = act->ApplyManifest_name;
            let body = act->body;
            let e = match a.source_engine {
                Some(x) => x,
                None => SourceEngine::Elasticsearch,
            };
            let host = published_service(e);
            &&& name == "target"@ ==> {
                &&& act.role() == ClusterRole::Target
                &&& a.target_mode == Some(TargetMode::Provision)
                &&& a.target_kind != Some(TargetKind::AossServerlessNextGen)
                &&& contains(
                    body,
                    "          image: "@ + ("opensearchproject/opensearch:"@ + (
                    match a.target_version {
                        Some(v) => v,
                        None => "3.3.0"@,
                    })) + "\n"@,
                )
            }
            &&& name == "source"@ ==> {
                &&& act.role() == ClusterRole::Source
                &&& a.source_engine is Some && a.source_version is Some ==> contains(
                    body,
                    "          image: "@ + published_image(e, a.source_version->0) + "\n"@,
                )
            }
            &&& name == "localstack"@ ==> act.role() == ClusterRole::Source && a.snapshot_storage
                == Some(SnapshotStorage::LocalStack)
            &&& name == "data-seed"@ ==> {
                &&& act.role() == ClusterRole::Source
                &&& a.seed_data == Some(true)
                &&& contains(body, "http://"@ + host + ":9200/"@ + SEED_INDICES@[0]@ + "/_bulk"@)
                &&& contains(body, "http://"@ + host + ":9200/"@ + SEED_INDICES@[1]@ + "/_bulk"@)
                &&& contains(body, "http://"@ + host + ":9200/"@ + SEED_INDICES@[2]@ + "/_bulk"@)
            }
            &&& name == "locust"@ ==> act.role() == ClusterRole::Source && a.clients.contains(
                ClientApp::Locust,
            ) && contains(body, "http://"@ + host + ":"@ + decimal(9200)) && contains(
                body,
                image_line("locustio/locust:2.31.3"@),
            )
            &&& name == "sample-search-app"@ ==> act.role() == ClusterRole::Source
                && a.clients.contains(ClientApp::SampleSearchApp) && contains(
                body,
                "http://"@ + host + ":"@ + decimal(9200),
            ) && contains(body, image_line("curlimages/curl:8.10.1"@))
            &&& name == "target"@ || name == "source"@ || name == "localstack"@ || name
                == "data-seed"@ || name == "locust"@ || name == "sample-search-app"@ || (name
                == "namespace"@ && body == head_text("v1"@, "Namespace"@, "ma-demo"@))
        }),
{
    let act = plan_for(a).actions[i];
    let e = a.engine();
    let host = service_text(e);
    lemma_manifest_names();
    lemma_what_is_applied(a, i);
    if act == on_target("target"@, target_text(target_version_of(a))) {
        law_the_target_runs_its_version(target_version_of(a), target_version_of(a));
    } else if act == on_source("source"@, source_text(a)) {
        if a.source_engine is Some && a.source_version is Some {
            law_the_source_runs_the_chosen_engine(a, e, a.source_version->0);
        }
    } else if act == on_source("data-seed"@, data_seed_text(host)) {
        law_every_seed_index_is_loaded(host, 0);
        law_every_seed_index_is_loaded(host, 1);
        law_every_seed_index_is_loaded(host, 2);
    } else if act == on_source("locust"@, client_text(ClientApp::Locust, host)) {
        law_clients_are_sent_to_the_source(ClientApp::Locust, host);
    } else if act == on_source(
        "sample-search-app"@,
        client_text(ClientApp::SampleSearchApp, host),
    ) {
        law_clients_are_sent_to_the_source(ClientApp::SampleSearchApp, host);
    }
}

/// Whether a plan applies a manifest of this name in a cluster.
pub open spec fn applies_in(a: AnswersView, role: ClusterRole, name: Seq<char>) -> bool {
    exists|i: int|
        0 <= i < plan_for(a).actions.len() && (#[trigger] plan_for(a).actions[i]).applies(name)
            && plan_for(a).actions[i].role() == role
}

/// A local plan applies all that was chosen: the source always, and the target, the simulated S3, each
/// client application and the sample data where they were asked for.
pub proof fn law_a_plan_applies_all_that_was_chosen(a: AnswersView, c: ClientApp)
    requires
        a.target == Some(Target::Local),
    ensures
        applies_in(a, ClusterRole::Source, "source"@),
        a.target_mode == Some(TargetMode::Provision) && a.target_kind != Some(
            TargetKind::AossServerlessNextGen,
        ) ==> applies_in(a, ClusterRole::Target, "target"@),
        a.snapshot_storage == Some(SnapshotStorage::LocalStack) ==> applies_in(
            a,
            ClusterRole::Source,
            "localstack"@,
        ),
        a.clients.contains(c) ==> applies_in(a, ClusterRole::Source, c.id_text()),
        a.seed_data == Some(true) ==> applies_in(a, ClusterRole::Source, "data-seed"@),
{
    let all = plan_for(a).actions;
    let src = source_actions(a);
    let s1 = start_actions(a);
    let s2 = storage_actions(a);
    let s3 = engine_actions(a);
    let s4 = client_actions(a.clients, service_text(a.engine()));
    let n2 = (s1.len() + s2.len()) as int;
    let n3 = n2 + s3.len();
    let n4 = n3 + s4.len();
    assert(src[n2] == s3[0]);
    assert(all[n2] == src[n2]);
    if a.local_target() {
        assert(all[src.len() as int + 2] == target_actions(a)[2]);
    }
    if a.snapshot_storage == Some(SnapshotStorage::LocalStack) {
        assert(src[s1.len() as int] == s2[0]);
        assert(all[s1.len() as int] == src[s1.len() as int]);
    }
    if a.clients.contains(c) {
        let k = choose|k: int| 0 <= k < a.clients.len() && a.clients[k] == c;
        assert(s4[k] == on_source(c.id_text(), client_text(c, service_text(a.engine()))));
        assert(src[n3 + k] == s4[k]);
        assert(all[n3 + k] == src[n3 + k]);
    }
    if a.seed_data == Some(true) {
        assert(src[n4] == seed_actions(a)[0]);
        assert(all[n4] == src[n4]);
    }
}

/// Two local plans whose target versions differ apply different target manifests.
pub proof fn law_another_version_another_target(a: AnswersView, b: AnswersView, i: int, j: int)
    requires
        0 <= i < plan_for(a).actions.len(),
        0 <= j < plan_for(b).actions.len(),
        plan_for(a).actions[i].applies("target"@),
        plan_for(b).actions[j].applies("target"@),
        a.target_version is Some,
        b.target_version is Some,
        a.target_version != b.target_version,
    ensures
        plan_for(a).actions[i]->body != plan_for(b).actions[j]->body,
{
    lemma_manifest_names();
    law_the_target_runs_its_version(a.target_version->0, b.target_version->0);
    lemma_the_one_target(a, i);
    lemma_the_one_target(b, j);
}

proof fn lemma_the_one_target(a: AnswersView, i: int)
    requires
        0 <= i < plan_for(a).actions.len(),
        plan_for(a).actions[i].applies("target"@),
    ensures
        plan_for(a).actions[i]->body == target_text(target_version_of(a)),
{
    lemma_manifest_names();
    let n = source_actions(a).len() as int;
    let s4 = client_actions(a.clients, service_text(a.engine()));
    let n3 = start_actions(a).len() + storage_actions(a).len() + engine_actions(a).len();
    if i >= n {
        assert(plan_for(a).actions[i] == target_actions(a)[i - n]);
    } else {
        assert(plan_for(a).actions[i] == source_actions(a)[i]);
        if n3 <= i < n3 + s4.len() {
            assert(source_actions(a)[i] == s4[i - n3]);
        }
    }
}

/// The clusters of a plan: the source is reached at port 19200 of this machine and the target at
/// 29200, each through the port under which its node publishes it.
pub proof fn law_where_the_clusters_are_reached(a: AnswersView, i: int)
    requires
        0 <= i < plan_for(a).actions.len(),
        plan_for(a).actions[i] is CreateKindCluster,
    ensures
        ({
            let act = plan_for(a).actions[i];
            let (name, config) = (act->CreateKindCluster_name, act->config);
            let solr = a.source_engine == Some(SourceEngine::Solr);
            &&& contains(config, "name: "@ + name)
            &&& act.role() == ClusterRole::Source ==> {
                &&& name == "ma-demo"@ + "-source"@
                &&& contains(config, "hostPort: "@ + decimal(19200))
                &&& contains(
                    config,
                    "containerPort: "@ + decimal(
                        if solr {
                            30983
                        } else {
                            30920
                        },
                    ),
                )
            }
            &&& act.role() == ClusterRole::Target ==> {
                &&& name == "ma-demo"@ + "-target"@
                &&& contains(config, "hostPort: "@ + decimal(29200))
                &&& contains(config, "containerPort: "@ + decimal(30920))
            }
        }),
{
    let act = plan_for(a).actions[i];
    let n = source_actions(a).len() as int;
    let port = node_port(a.engine()) as nat;
    lemma_roles(a);
    law_clusters_map_their_ports(source_cluster_name(), 19200, port);
    law_clusters_map_their_ports(target_cluster_name(), 29200, 30920);
    lemma_config_names(source_cluster_name(), 19200, port);
    lemma_config_names(target_cluster_name(), 29200, 30920);
    if i >= n {
        assert(act == target_actions(a)[i - n]);
    } else {
        assert(act == source_actions(a)[i]);
        assert(i == 0);
    }
}

proof fn lemma_config_names(name: Seq<char>, host_port: nat, port: nat)
    ensures
        contains(kind_config_text(name, host_port, port), "name: "@ + name),
{
    broadcast use group_contains;

    let head = "kind: Cluster\napiVersion: kind.x-k8s.io/v1alpha4\nname: "@;
    reveal_strlit("kind: Cluster\napiVersion: kind.x-k8s.io/v1alpha4\nname: ");
    reveal_strlit("name: ");
    let k = (head.len() - 6) as int;
    assert(head.skip(k) =~= "name: "@);
    assert(head + name =~= head.take(k) + ("name: "@ + name));
}

/// The hosts that a plan names: the service of the engine that was chosen, and the target service
/// where a target is provisioned in a cluster.
pub proof fn law_the_hosts_of_a_plan(a: AnswersView)
    ensures
        a.source_engine is Some ==> plan_for(a).source_host == published_service(
            a.source_engine->0,
        ),
        a.source_engine is None ==> plan_for(a).source_host == "source-elasticsearch"@,
        plan_for(a).target_host == if a.target == Some(Target::Local) && a.target_mode == Some(
            TargetMode::Provision,
        ) && a.target_kind != Some(TargetKind::AossServerlessNextGen) {
            Some("target-opensearch"@)
        } else {
            None
        },
{
}

/// What was answered about a target does not change what is done for the source, and the other way
/// round.
pub proof fn law_source_and_target_are_planned_apart(a: AnswersView, b: AnswersView)
    requires
        a.target == Some(Target::Local),
        b == (AnswersView {
            target_mode: b.target_mode,
            target_kind: b.target_kind,
            target_version: b.target_version,
            ma_handoff: b.ma_handoff,
            aws_profile: b.aws_profile,
            aws_region: b.aws_region,
            ..a
        }),
    ensures
        ({
            let (x, y) = (plan_for(a).actions, plan_for(b).actions);
            let n = 4 + (if a.snapshot_storage == Some(SnapshotStorage::LocalStack) {
                1int
            } else {
                0
            }) + a.clients.len() + (if a.seed_data == Some(true) {
                1int
            } else {
                0
            });
            x.len() >= n && y.len() >= n && x.take(n) == y.take(n)
        }),
{
    let (x, y) = (plan_for(a).actions, plan_for(b).actions);
    let s = source_actions(a);
    assert(source_text(a) == source_text(b));
    assert(s =~= source_actions(b));
    assert(x.take(s.len() as int) =~= s);
    assert(y.take(s.len() as int) =~= s);
}

/// The Migration Assistant is installed from its release into the directory that it is then started
/// from.
pub proof fn law_what_is_installed_is_started(dir: Seq<char>)
    ensures
        contains(
            install_script(dir),
            "https://github.com/"@ + MA_REPO@ + "/releases/download/"@ + MA_VERSION@
                + "/install.sh"@,
        ),
        contains(install_script(dir), " BIN_DIR="@ + dir + " "@),
        ma_program(dir) == dir + "/migration-assistant"@,
{
    broadcast use group_contains;

    let head = "set -e; curl -fsSL https://github.com/"@;
    let mid = "/install.sh -o /tmp/ma-install.sh; MIGRATE_INSTALL=path MIGRATE_VERSION="@;
    let end = " bash /tmp/ma-install.sh"@;
    reveal_strlit("set -e; curl -fsSL https://github.com/");
    reveal_strlit("https://github.com/");
    reveal_strlit("/install.sh -o /tmp/ma-install.sh; MIGRATE_INSTALL=path MIGRATE_VERSION=");
    reveal_strlit("/install.sh");
    reveal_strlit(" bash /tmp/ma-install.sh");
    reveal_strlit(" ");
    let k = (head.len() - 19) as int;
    assert(head.skip(k) =~= "https://github.com/"@);
    assert(mid.take(11) =~= "/install.sh"@);
    assert(end.take(1) =~= " "@);
    let inner = MA_REPO@ + "/releases/download/"@ + MA_VERSION@;
    let url = "https://github.com/"@ + MA_REPO@ + "/releases/download/"@ + MA_VERSION@
        + "/install.sh"@;
    let rest = mid.skip(11) + MA_VERSION@ + " BIN_DIR="@ + dir + end;
    assert(head =~= head.take(k) + "https://github.com/"@);
    assert(mid =~= "/install.sh"@ + mid.skip(11));
    assert(install_script(dir) =~= head.take(k) + url + rest);
    lemma_contains_middle(head.take(k), url, rest);
    let front = head + inner + mid + MA_VERSION@;
    let part = " BIN_DIR="@ + dir + " "@;
    assert(end =~= " "@ + end.skip(1));
    assert(install_script(dir) =~= front + part + end.skip(1));
    lemma_contains_middle(front, part, end.skip(1));
}

} // verus!
