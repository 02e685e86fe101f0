//! The answers, the plan, its manifests and its Terraform files.

use ma_demo::manifests;
use ma_demo::model::{
    Answers, ClientApp, MaHandoff, SnapshotStorage, SourceEngine, Target, TargetKind, TargetMode,
};
use ma_demo::plan::{self, Action, ProvisionPlan};
use ma_demo::terraform::{
    self, files, major_minor, profiled_providers_tf, providers_tf, source_instance_tf,
    target_collection_tf, target_domain_tf,
};
use ma_demo::update::is_newer;

// --- answers ---

#[test]
fn engine_versions_are_non_empty() {
    for e in [
        SourceEngine::Elasticsearch,
        SourceEngine::OpenSearch,
        SourceEngine::Solr,
    ] {
        assert!(!e.versions().is_empty(), "{} has no versions", e.id());
    }
}

#[test]
fn versions_are_listed_newest_first_and_for_one_engine_only() {
    let engines = [
        SourceEngine::Elasticsearch,
        SourceEngine::OpenSearch,
        SourceEngine::Solr,
    ];
    for e in engines {
        for pair in e.versions().windows(2) {
            assert!(is_newer(pair[0], pair[1]), "{pair:?}");
        }
        for f in engines {
            assert!(e == f || e.versions().iter().all(|v| !f.versions().contains(v)));
        }
    }
    assert_eq!(SourceEngine::Elasticsearch.versions().last(), Some(&"5.6.16"));
    assert_eq!(SourceEngine::OpenSearch.versions().first(), Some(&"2.19.0"));
    assert_eq!(SourceEngine::Solr.versions(), ["9.7.0", "8.11.3"]);
}

#[test]
fn solr_is_not_http_search() {
    assert!(!SourceEngine::Solr.is_http_search());
    assert!(SourceEngine::Elasticsearch.is_http_search());
    assert!(SourceEngine::OpenSearch.is_http_search());
}

#[test]
fn cluster_names_are_distinct_and_prefixed() {
    let a = Answers::new();
    assert_eq!(a.source_cluster(), "ma-demo-source");
    assert_eq!(a.target_cluster(), "ma-demo-target");
    assert_ne!(a.source_cluster(), a.target_cluster());
}

#[test]
fn target_kind_distinguishes_local_vs_aoss() {
    let mut a = Answers::new();
    a.target_mode = Some(TargetMode::Provision);
    // Default (kind unset) is treated as the local OpenSearch cluster.
    assert!(a.provisions_local_target());
    assert!(!a.provisions_aoss_target());

    a.target_kind = Some(TargetKind::AossServerlessNextGen);
    assert!(!a.provisions_local_target());
    assert!(a.provisions_aoss_target());
    assert_eq!(a.aoss_collection_name(), "ma-demo-target");

    a.target_kind = Some(TargetKind::KindOpenSearch);
    assert!(a.provisions_local_target());
    assert!(!a.provisions_aoss_target());

    // Leaving the target to MA provisions neither.
    a.target_mode = Some(TargetMode::LeaveToMa);
    assert!(!a.provisions_local_target());
    assert!(!a.provisions_aoss_target());
}

#[test]
fn default_answers_are_all_unset() {
    let a = Answers::new();
    assert!(a.target.is_none());
    assert!(a.source_engine.is_none());
    assert!(a.source_plugins.is_empty());
    assert!(a.clients.is_empty());
}

#[test]
fn has_client_reflects_selection() {
    let mut a = Answers::new();
    assert!(!a.has_client(ClientApp::Locust));
    a.clients.push(ClientApp::Locust);
    assert!(a.has_client(ClientApp::Locust));
    assert!(!a.has_client(ClientApp::SampleSearchApp));
}

#[test]
fn summary_handles_partial_answers() {
    let a = Answers::new();
    assert!(a.summary().contains('—'));
    let mut a2 = Answers::new();
    a2.target = Some(Target::Local);
    a2.source_engine = Some(SourceEngine::Solr);
    a2.source_version = Some("9.7.0".into());
    assert!(a2.summary().contains("Solr 9.7.0"));
}

#[test]
fn answers_are_cloned_whole() {
    let mut a = Answers::new();
    a.target = Some(Target::Local);
    a.source_engine = Some(SourceEngine::Elasticsearch);
    a.source_version = Some("7.10.2".into());
    a.source_plugins = vec!["analysis-icu".into(), "repository-s3".into()];
    a.snapshot_storage = Some(SnapshotStorage::LocalStack);
    a.target_mode = Some(TargetMode::Provision);
    a.target_kind = Some(TargetKind::AossServerlessNextGen);
    a.target_version = Some("3.3.0".into());
    a.clients = vec![ClientApp::Locust, ClientApp::SampleSearchApp];
    a.seed_data = Some(true);
    a.ma_handoff = Some(MaHandoff::InstallCli);
    a.aws_profile = Some("dev".into());
    a.aws_region = Some("us-west-2".into());
    assert_eq!(a.clone(), a);
    assert_ne!(Answers::new(), a);
}

#[test]
fn aws_settings_fall_back_to_defaults() {
    let mut a = Answers::new();
    assert_eq!(a.effective_aws_profile(), "default");
    assert_eq!(a.effective_aws_region(), "us-east-1");
    a.aws_profile = Some("dev".into());
    a.aws_region = Some("eu-west-1".into());
    assert_eq!(a.effective_aws_profile(), "dev");
    assert_eq!(a.effective_aws_region(), "eu-west-1");
}

#[test]
fn the_engine_defaults_to_elasticsearch() {
    let mut a = Answers::new();
    assert_eq!(a.engine_or_default(), SourceEngine::Elasticsearch);
    a.source_engine = Some(SourceEngine::Solr);
    assert_eq!(a.engine_or_default(), SourceEngine::Solr);
    assert!(!a.source_is_http());
}

// --- the plan ---

fn base() -> Answers {
    let mut a = Answers::new();
    a.target = Some(Target::Local);
    a.source_engine = Some(SourceEngine::Elasticsearch);
    a.source_version = Some("7.10.2".into());
    a.snapshot_storage = Some(SnapshotStorage::LocalStack);
    a.target_mode = Some(TargetMode::Provision);
    a.target_version = Some("3.3.0".into());
    a.clients = vec![ClientApp::Locust, ClientApp::SampleSearchApp];
    a.seed_data = Some(true);
    a
}

fn describes(plan: &ProvisionPlan) -> Vec<String> {
    plan.actions.iter().map(|a| a.describe()).collect()
}

#[test]
fn full_local_plan_has_expected_ordered_actions() {
    let plan = plan::build(&base());
    let d = describes(&plan);
    // Source cluster first, then namespace, localstack, source, wait.
    assert_eq!(d[0], "create KIND cluster ma-demo-source (source)");
    assert!(d.contains(&"apply namespace → source cluster".to_string()));
    assert!(d.contains(&"apply localstack → source cluster".to_string()));
    assert!(d.contains(&"apply source → source cluster".to_string()));
    // Clients + seed.
    assert!(d.contains(&"apply locust → source cluster".to_string()));
    assert!(d.contains(&"apply sample-search-app → source cluster".to_string()));
    assert!(d.contains(&"apply data-seed → source cluster".to_string()));
    // Target cluster created after source work.
    assert!(d.contains(&"create KIND cluster ma-demo-target (target)".to_string()));
    assert!(d.contains(&"apply target → target cluster".to_string()));
    assert_eq!(plan.source_host, "source-elasticsearch");
    assert_eq!(plan.target_host.as_deref(), Some("target-opensearch"));
}

#[test]
fn localstack_applied_before_source() {
    let plan = plan::build(&base());
    let names: Vec<&str> = plan
        .actions
        .iter()
        .filter_map(|a| match a {
            Action::ApplyManifest { name, .. } => Some(name.as_str()),
            _ => None,
        })
        .collect();
    let ls = names.iter().position(|n| *n == "localstack").unwrap();
    let src = names.iter().position(|n| *n == "source").unwrap();
    assert!(ls < src, "localstack must apply before source");
}

#[test]
fn leave_to_ma_omits_target_cluster() {
    let mut a = base();
    a.target_mode = Some(TargetMode::LeaveToMa);
    a.target_version = None;
    let plan = plan::build(&a);
    let d = describes(&plan);
    assert!(!d.iter().any(|s| s.contains("target cluster")));
    assert!(plan.target_host.is_none());
}

#[test]
fn no_snapshot_storage_omits_localstack() {
    let mut a = base();
    a.snapshot_storage = Some(SnapshotStorage::NoStorage);
    let plan = plan::build(&a);
    assert!(!describes(&plan).iter().any(|s| s.contains("localstack")));
}

#[test]
fn no_clients_no_seed_minimal_plan() {
    let mut a = base();
    a.clients = vec![];
    a.seed_data = Some(false);
    a.target_mode = Some(TargetMode::LeaveToMa);
    a.snapshot_storage = Some(SnapshotStorage::NoStorage);
    let plan = plan::build(&a);
    let d = describes(&plan);
    assert!(!d.iter().any(|s| s.contains("locust")));
    assert!(!d.iter().any(|s| s.contains("data-seed")));
    assert!(!d.iter().any(|s| s.contains("target")));
    // Still has: create source, namespace, source, wait.
    assert!(d
        .iter()
        .any(|s| s.contains("create KIND cluster ma-demo-source")));
}

#[test]
fn solr_source_uses_solr_service_and_node_port() {
    let mut a = base();
    a.source_engine = Some(SourceEngine::Solr);
    a.source_version = Some("9.7.0".into());
    let plan = plan::build(&a);
    assert_eq!(plan.source_host, "source-solr");
    // The source kind cluster maps the solr node port.
    match &plan.actions[0] {
        Action::CreateKindCluster { config, .. } => {
            assert!(config.contains("containerPort: 30983"));
        }
        _ => panic!("first action should create the source cluster"),
    }
}

#[test]
fn cloud_target_produces_no_kind_actions() {
    let mut a = base();
    a.target = Some(Target::Cloud);
    let plan = plan::build(&a);
    assert!(plan.actions.is_empty());
}

#[test]
fn ma_install_command_points_at_fork_release() {
    let cmd = plan::ma_install_command("/home/u/.local/bin");
    assert!(cmd.contains("AndreKurait/opensearch-migrations"));
    assert!(cmd.contains("releases/download/3.3.1/install.sh"));
    assert!(cmd.contains("BIN_DIR=/home/u/.local/bin"));
    assert!(cmd.contains("MIGRATE_INSTALL=path"));
}

#[test]
fn ma_launch_argv_targets_installed_binary() {
    let argv = plan::ma_launch_argv("/home/u/.local/bin");
    assert_eq!(
        argv,
        vec!["/home/u/.local/bin/migration-assistant".to_string()]
    );
}

#[test]
fn the_whole_local_plan_in_order() {
    assert_eq!(
        describes(&plan::build(&base())),
        vec![
            "create KIND cluster ma-demo-source (source)",
            "apply namespace → source cluster",
            "apply localstack → source cluster",
            "apply source → source cluster",
            "wait for source cluster (source)",
            "apply locust → source cluster",
            "apply sample-search-app → source cluster",
            "apply data-seed → source cluster",
            "create KIND cluster ma-demo-target (target)",
            "apply namespace → target cluster",
            "apply target → target cluster",
            "wait for target cluster (target)",
        ]
    );
}

#[test]
fn a_serverless_target_needs_no_second_cluster() {
    let mut a = base();
    a.target_kind = Some(TargetKind::AossServerlessNextGen);
    a.target_version = None;
    let p = plan::build(&a);
    assert!(p.target_host.is_none());
    assert!(!describes(&p).iter().any(|s| s.contains("target")));
}

// --- manifests ---

fn es_local() -> Answers {
    let mut a = base();
    a.source_plugins = vec!["repository-s3".into(), "analysis-icu".into()];
    a
}

#[test]
fn every_emitted_manifest_is_structurally_yaml() {
    let a = es_local();
    let p = plan::build(&a);
    let bodies: Vec<&str> = p
        .actions
        .iter()
        .filter_map(|act| match act {
            plan::Action::ApplyManifest { body, .. } => Some(body.as_str()),
            _ => None,
        })
        .collect();
    assert!(!bodies.is_empty());
    for body in bodies {
        assert!(
            body.contains("apiVersion:"),
            "manifest missing apiVersion: {body}"
        );
        assert!(body.contains("kind:"), "manifest missing kind: {body}");
    }
}

#[test]
fn source_manifest_carries_engine_image_and_plugins() {
    let a = es_local();
    let y = manifests::source(&a);
    assert!(y.contains("docker.elastic.co/elasticsearch/elasticsearch:7.10.2"));
    assert!(y.contains("command: [\"sh\", \"-c\","));
    assert!(y.contains("elasticsearch-plugin install --batch repository-s3"));
    assert!(y.contains("exec /usr/local/bin/docker-entrypoint.sh eswrapper"));
    assert!(y.contains("analysis-icu"));
}

#[test]
fn kind_configs_have_distinct_host_ports() {
    let a = es_local();
    let p = plan::build(&a);
    let configs: Vec<&str> = p
        .actions
        .iter()
        .filter_map(|act| match act {
            plan::Action::CreateKindCluster { config, .. } => Some(config.as_str()),
            _ => None,
        })
        .collect();
    assert_eq!(configs.len(), 2);
    // Source maps 19200, target maps 29200 — no host-port collision.
    assert!(configs.iter().any(|c| c.contains("hostPort: 19200")));
    assert!(configs.iter().any(|c| c.contains("hostPort: 29200")));
}

#[test]
fn locust_and_sample_app_target_the_source_service() {
    let a = es_local();
    let host = plan::source_service_name(SourceEngine::Elasticsearch);
    let clients = manifests::client_manifests(&a, host);
    assert_eq!(clients.len(), 2);
    for (_, body) in &clients {
        assert!(
            body.contains(host),
            "client should target source host {host}"
        );
    }
}

#[test]
fn cloud_path_emits_reviewable_terraform() {
    let mut a = es_local();
    a.target = Some(Target::Cloud);
    a.snapshot_storage = Some(SnapshotStorage::AwsS3);
    let files = terraform::files(&a);
    let by_path: std::collections::HashMap<&str, &str> = files
        .iter()
        .map(|f| (f.path.as_str(), f.body.as_str()))
        .collect();

    // Providers pins AWS + a region var.
    let providers = by_path["terraform/providers.tf"];
    assert!(providers.contains("hashicorp/aws"));
    // Source instance Dockerizes the chosen engine/version.
    let source = by_path["terraform/source.tf"];
    assert!(source.contains("docker.elastic.co/elasticsearch/elasticsearch:7.10.2"));
    // Target is a managed OpenSearch Service domain at major.minor.
    let target = by_path["terraform/target.tf"];
    assert!(target.contains("aws_opensearch_domain"));
    assert!(target.contains("OpenSearch_3.3"));
    // Snapshot bucket present for the S3 choice.
    assert!(by_path.contains_key("terraform/snapshots.tf"));
}

#[test]
fn data_seed_job_bulk_loads_three_indices() {
    let host = plan::source_service_name(SourceEngine::OpenSearch);
    let y = manifests::data_seed_job(host);
    // Self-contained curl bulk loader; creates + loads all SEED_INDICES.
    assert!(y.contains("curlimages/curl:8.10.1"));
    for idx in manifests::SEED_INDICES {
        assert!(y.contains(&format!("http://{host}:9200/{idx}/_bulk")));
    }
}

#[test]
fn without_plugins_the_image_starts_as_it_is() {
    let mut a = base();
    a.source_plugins = vec![];
    let y = manifests::source(&a);
    assert!(y.contains("docker.elastic.co/elasticsearch/elasticsearch:7.10.2"));
    assert!(!y.contains("plugin install"));
}

#[test]
fn a_kind_config_names_its_cluster_and_ports() {
    assert_eq!(
        manifests::kind_config("ma-demo-source", 19200, 30920),
        "kind: Cluster\napiVersion: kind.x-k8s.io/v1alpha4\nname: ma-demo-source\nnodes:\n  - role: control-plane\n    extraPortMappings:\n      - containerPort: 30920\n        hostPort: 19200\n        protocol: TCP\n"
    );
}

// --- Terraform ---

fn cloud_answers() -> Answers {
    let mut a = Answers::new();
    a.target = Some(Target::Cloud);
    a.source_engine = Some(SourceEngine::Elasticsearch);
    a.source_version = Some("7.10.2".into());
    a.snapshot_storage = Some(SnapshotStorage::AwsS3);
    a.target_mode = Some(TargetMode::Provision);
    a.target_version = Some("3.3.0".into());
    a
}

#[test]
fn providers_pins_aws_and_region() {
    let tf = providers_tf("us-west-2");
    assert!(tf.contains("hashicorp/aws"));
    assert!(tf.contains("default = \"us-west-2\""));
    assert!(tf.contains("required_version = \">= 1.5.0\""));
}

#[test]
fn source_instance_embeds_engine_image_and_run_args() {
    let tf = source_instance_tf(SourceEngine::Elasticsearch, "7.10.2");
    assert!(tf.contains("docker.elastic.co/elasticsearch/elasticsearch:7.10.2"));
    assert!(tf.contains("discovery.type=single-node"));
    assert!(tf.contains("vm.max_map_count=262144"));
    assert!(tf.contains("aws_instance"));

    let solr = source_instance_tf(SourceEngine::Solr, "9.7.0");
    assert!(solr.contains("solr:9.7.0"));
    assert!(solr.contains("8983:8983"));
}

#[test]
fn source_instance_forbids_a_public_ip() {
    // The guardrail: emitted source instances must never get a public IP,
    // and a check block enforces it at plan time.
    for eng in [
        SourceEngine::Elasticsearch,
        SourceEngine::OpenSearch,
        SourceEngine::Solr,
    ] {
        let tf = source_instance_tf(eng, "1.2.3");
        assert!(
            tf.contains("associate_public_ip_address = false"),
            "{} instance must disable public IP",
            eng.id()
        );
        assert!(
            tf.contains("check \"no_public_ip\""),
            "{} must carry the no-public-ip guard",
            eng.id()
        );
        // No 0.0.0.0/0 INGRESS (egress 0.0.0.0/0 is fine for the image pull).
        assert!(
            !tf.contains("cidr_blocks = [\"0.0.0.0/0\"]\n         \x20 }}\n         \x20 egress"),
            "ingress must not be open to the world"
        );
    }
}

#[test]
fn target_domain_uses_engine_version_format() {
    let tf = target_domain_tf("3.3");
    assert!(tf.contains("engine_version = \"OpenSearch_3.3\""));
    assert!(tf.contains("aws_opensearch_domain"));
}

#[test]
fn files_include_providers_source_snapshots_target() {
    let f = files(&cloud_answers());
    let paths: Vec<&str> = f.iter().map(|t| t.path.as_str()).collect();
    assert!(paths.contains(&"terraform/providers.tf"));
    assert!(paths.contains(&"terraform/source.tf"));
    assert!(paths.contains(&"terraform/snapshots.tf"));
    assert!(paths.contains(&"terraform/target.tf"));
}

#[test]
fn leave_to_ma_omits_target_tf() {
    let mut a = cloud_answers();
    a.target_mode = Some(TargetMode::LeaveToMa);
    let paths: Vec<String> = files(&a).iter().map(|t| t.path.clone()).collect();
    assert!(!paths.contains(&"terraform/target.tf".to_string()));
}

#[test]
fn no_snapshot_omits_bucket_tf() {
    let mut a = cloud_answers();
    a.snapshot_storage = Some(SnapshotStorage::NoStorage);
    let paths: Vec<String> = files(&a).iter().map(|t| t.path.clone()).collect();
    assert!(!paths.contains(&"terraform/snapshots.tf".to_string()));
}

#[test]
fn major_minor_truncates_patch() {
    assert_eq!(major_minor("3.3.0"), "3.3");
    assert_eq!(major_minor("2.19.0"), "2.19");
    assert_eq!(major_minor("3"), "3");
}

#[test]
fn target_tf_uses_major_minor_from_files() {
    let f = files(&cloud_answers());
    let target = f.iter().find(|t| t.path.ends_with("target.tf")).unwrap();
    assert!(target.body.contains("OpenSearch_3.3"));
    assert!(!target.body.contains("OpenSearch_3.3.0"));
}

#[test]
fn the_providers_file_in_full() {
    assert_eq!(
        providers_tf("us-west-2"),
        r#"terraform {
  required_version = ">= 1.5.0"
  required_providers {
    aws = {
      source  = "hashicorp/aws"
      version = "~> 5.0"
    }
  }
}

provider "aws" {
  region = var.region
}

variable "region" {
  type    = string
  default = "us-west-2"
}

variable "prefix" {
  type    = string
  default = "ma-demo"
}
"#
    );
}

#[test]
fn the_provider_works_with_the_region_and_profile_of_the_plan() {
    let mut a = cloud_answers();
    let body = files(&a)[0].body.clone();
    assert!(body.contains("  region = var.region\n  profile = \"default\"\n}"));
    assert!(body.contains("default = \"us-east-1\""));
    a.aws_region = Some("eu-west-1".into());
    a.aws_profile = Some("dev".into());
    let body = files(&a)[0].body.clone();
    assert_eq!(body, profiled_providers_tf("eu-west-1", "dev"));
    assert!(body.contains("  region = var.region\n  profile = \"dev\"\n}"));
    assert!(body.contains("default = \"eu-west-1\""));
    assert!(!body.contains("us-east-1"));
}

#[test]
fn the_cloud_target_is_what_was_chosen() {
    let mut a = cloud_answers();
    let target = |a: &Answers| files(a).pop().unwrap();
    for kind in [None, Some(TargetKind::KindOpenSearch)] {
        a.target_kind = kind;
        let f = target(&a);
        assert_eq!(f.path, "terraform/target.tf");
        assert_eq!(f.body, target_domain_tf("3.3"));
        assert!(!f.body.contains("aws_opensearchserverless_collection"));
    }
    a.target_kind = Some(TargetKind::AossServerlessNextGen);
    let f = target(&a);
    assert_eq!(f.path, "terraform/target.tf");
    assert_eq!(f.body, target_collection_tf("ma-demo-target"));
    assert!(f.body.contains("aws_opensearchserverless_collection"));
    assert!(!f.body.contains("aws_opensearch_domain"));
}

#[test]
fn the_collection_file_in_full() {
    assert_eq!(
        target_collection_tf("c"),
        r#"# Target: an Amazon OpenSearch Serverless NextGen collection.
resource "aws_opensearchserverless_collection" "target" {
  name             = "c"
  type             = "SEARCH"
  standby_replicas = "ENABLED"
  depends_on = [
    aws_opensearchserverless_security_policy.encryption,
    aws_opensearchserverless_security_policy.network,
    aws_opensearchserverless_access_policy.data,
  ]
}

output "target_endpoint" {
  value = aws_opensearchserverless_collection.target.collection_endpoint
}

data "aws_caller_identity" "current" {}

resource "aws_opensearchserverless_security_policy" "encryption" {
  name   = "c"
  type   = "encryption"
  policy = <<-EOF
    {"Rules":[{"ResourceType":"collection","Resource":["collection/c"]}],"AWSOwnedKey":true}
  EOF
}

resource "aws_opensearchserverless_security_policy" "network" {
  name   = "c"
  type   = "network"
  policy = <<-EOF
    [{"Rules":[{"ResourceType":"collection","Resource":["collection/c"]}],"AllowFromPublic":true}]
  EOF
}

resource "aws_opensearchserverless_access_policy" "data" {
  name   = "c"
  type   = "data"
  policy = <<-EOF
    [{"Rules":[{"ResourceType":"collection","Resource":["collection/c"],"Permission":["aoss:*"]},{"ResourceType":"index","Resource":["index/c/*"],"Permission":["aoss:*"]}],"Principal":["${data.aws_caller_identity.current.arn}"]}]
  EOF
}
"#
    );
}

#[test]
fn the_target_file_in_full() {
    assert_eq!(
        target_domain_tf("3.3"),
        r#"# Target: a managed Amazon OpenSearch Service domain.
resource "aws_opensearch_domain" "target" {
  domain_name    = "${var.prefix}-target"
  engine_version = "OpenSearch_3.3"

  cluster_config {
    instance_type  = "r6g.large.search"
    instance_count = 2
  }

  ebs_options {
    ebs_enabled = true
    volume_size = 50
  }
}

output "target_endpoint" {
  value = aws_opensearch_domain.target.endpoint
}
"#
    );
}

#[test]
fn the_snapshots_file_in_full() {
    assert_eq!(
        terraform::snapshot_bucket_tf(),
        r#"# S3 bucket for migration snapshots (the backfill source-of-truth).
resource "aws_s3_bucket" "snapshots" {
  bucket_prefix = "${var.prefix}-snapshots-"
  force_destroy = true
}

resource "aws_s3_bucket_versioning" "snapshots" {
  bucket = aws_s3_bucket.snapshots.id
  versioning_configuration {
    status = "Enabled"
  }
}

output "snapshot_bucket" {
  value = aws_s3_bucket.snapshots.bucket
}
"#
    );
}

#[test]
fn the_elasticsearch_source_file_in_full() {
    assert_eq!(
        source_instance_tf(SourceEngine::Elasticsearch, "7.10.2"),
        r#"# Source Elasticsearch 7.10.2 on a single EC2 instance (Dockerized
# for engine/version fidelity — ES/Solr have no managed AWS equivalent).
data "aws_ami" "al2023" {
  most_recent = true
  owners      = ["amazon"]
  filter {
    name   = "name"
    values = ["al2023-ami-*-x86_64"]
  }
}

# A dedicated network: the source has no public address and reaches out through a NAT gateway.
resource "aws_vpc" "source" {
  cidr_block           = "10.42.0.0/16"
  enable_dns_support   = true
  enable_dns_hostnames = true
  tags = { Name = "${var.prefix}-vpc" }
}

resource "aws_subnet" "private" {
  vpc_id                  = aws_vpc.source.id
  cidr_block              = "10.42.1.0/24"
  map_public_ip_on_launch = false
  tags = { Name = "${var.prefix}-private" }
}

resource "aws_internet_gateway" "source" {
  vpc_id = aws_vpc.source.id
}

resource "aws_subnet" "public" {
  vpc_id     = aws_vpc.source.id
  cidr_block = "10.42.0.0/24"
  tags = { Name = "${var.prefix}-public" }
}

resource "aws_route_table" "public" {
  vpc_id = aws_vpc.source.id
  route {
    cidr_block = "0.0.0.0/0"
    gateway_id = aws_internet_gateway.source.id
  }
}

resource "aws_route_table_association" "public" {
  subnet_id      = aws_subnet.public.id
  route_table_id = aws_route_table.public.id
}

resource "aws_eip" "nat" {
  domain = "vpc"
}

resource "aws_nat_gateway" "source" {
  allocation_id = aws_eip.nat.id
  subnet_id     = aws_subnet.public.id
  depends_on    = [aws_internet_gateway.source]
}

resource "aws_route_table" "private" {
  vpc_id = aws_vpc.source.id
  route {
    cidr_block     = "0.0.0.0/0"
    nat_gateway_id = aws_nat_gateway.source.id
  }
}

resource "aws_route_table_association" "private" {
  subnet_id      = aws_subnet.private.id
  route_table_id = aws_route_table.private.id
}

resource "aws_security_group" "source" {
  name_prefix = "${var.prefix}-source-"
  vpc_id      = aws_vpc.source.id
  ingress {
    from_port   = 9200
    to_port     = 9200
    protocol    = "tcp"
    cidr_blocks = ["10.0.0.0/8"]
  }
  egress {
    from_port   = 0
    to_port     = 0
    protocol    = "-1"
    cidr_blocks = ["0.0.0.0/0"]
  }
}

resource "aws_instance" "source" {
  ami                    = data.aws_ami.al2023.id
  instance_type          = "t3.large"
  subnet_id              = aws_subnet.private.id
  vpc_security_group_ids = [aws_security_group.source.id]
  # GUARDRAIL: never assign a public IP (demo policy: no public EC2).
  associate_public_ip_address = false
  user_data = <<-EOF
    #!/bin/bash
    dnf install -y docker
    systemctl enable --now docker
    sysctl -w vm.max_map_count=262144
    docker run -d --restart=always -p 9200:9200 -e discovery.type=single-node -e xpack.security.enabled=false docker.elastic.co/elasticsearch/elasticsearch:7.10.2
  EOF
  tags = { Name = "${var.prefix}-source" }
}

# Fail the plan if a public IP is ever requested on the source instance.
check "no_public_ip" {
  assert {
    condition     = aws_instance.source.associate_public_ip_address == false
    error_message = "The source instance must never have a public IP (demo policy: no public EC2)."
  }
}

output "source_endpoint" {
  value = "http://${aws_instance.source.private_ip}:9200"
}
"#
    );
}

#[test]
fn the_opensearch_source_file_in_full() {
    assert_eq!(
        source_instance_tf(SourceEngine::OpenSearch, "2.15.0"),
        r#"# Source OpenSearch 2.15.0 on a single EC2 instance (Dockerized
# for engine/version fidelity — ES/Solr have no managed AWS equivalent).
data "aws_ami" "al2023" {
  most_recent = true
  owners      = ["amazon"]
  filter {
    name   = "name"
    values = ["al2023-ami-*-x86_64"]
  }
}

# A dedicated network: the source has no public address and reaches out through a NAT gateway.
resource "aws_vpc" "source" {
  cidr_block           = "10.42.0.0/16"
  enable_dns_support   = true
  enable_dns_hostnames = true
  tags = { Name = "${var.prefix}-vpc" }
}

resource "aws_subnet" "private" {
  vpc_id                  = aws_vpc.source.id
  cidr_block              = "10.42.1.0/24"
  map_public_ip_on_launch = false
  tags = { Name = "${var.prefix}-private" }
}

resource "aws_internet_gateway" "source" {
  vpc_id = aws_vpc.source.id
}

resource "aws_subnet" "public" {
  vpc_id     = aws_vpc.source.id
  cidr_block = "10.42.0.0/24"
  tags = { Name = "${var.prefix}-public" }
}

resource "aws_route_table" "public" {
  vpc_id = aws_vpc.source.id
  route {
    cidr_block = "0.0.0.0/0"
    gateway_id = aws_internet_gateway.source.id
  }
}

resource "aws_route_table_association" "public" {
  subnet_id      = aws_subnet.public.id
  route_table_id = aws_route_table.public.id
}

resource "aws_eip" "nat" {
  domain = "vpc"
}

resource "aws_nat_gateway" "source" {
  allocation_id = aws_eip.nat.id
  subnet_id     = aws_subnet.public.id
  depends_on    = [aws_internet_gateway.source]
}

resource "aws_route_table" "private" {
  vpc_id = aws_vpc.source.id
  route {
    cidr_block     = "0.0.0.0/0"
    nat_gateway_id = aws_nat_gateway.source.id
  }
}

resource "aws_route_table_association" "private" {
  subnet_id      = aws_subnet.private.id
  route_table_id = aws_route_table.private.id
}

resource "aws_security_group" "source" {
  name_prefix = "${var.prefix}-source-"
  vpc_id      = aws_vpc.source.id
  ingress {
    from_port   = 9200
    to_port     = 9200
    protocol    = "tcp"
    cidr_blocks = ["10.0.0.0/8"]
  }
  egress {
    from_port   = 0
    to_port     = 0
    protocol    = "-1"
    cidr_blocks = ["0.0.0.0/0"]
  }
}

resource "aws_instance" "source" {
  ami                    = data.aws_ami.al2023.id
  instance_type          = "t3.large"
  subnet_id              = aws_subnet.private.id
  vpc_security_group_ids = [aws_security_group.source.id]
  # GUARDRAIL: never assign a public IP (demo policy: no public EC2).
  associate_public_ip_address = false
  user_data = <<-EOF
    #!/bin/bash
    dnf install -y docker
    systemctl enable --now docker
    sysctl -w vm.max_map_count=262144
    docker run -d --restart=always -p 9200:9200 -e discovery.type=single-node -e DISABLE_SECURITY_PLUGIN=true opensearchproject/opensearch:2.15.0
  EOF
  tags = { Name = "${var.prefix}-source" }
}

# Fail the plan if a public IP is ever requested on the source instance.
check "no_public_ip" {
  assert {
    condition     = aws_instance.source.associate_public_ip_address == false
    error_message = "The source instance must never have a public IP (demo policy: no public EC2)."
  }
}

output "source_endpoint" {
  value = "http://${aws_instance.source.private_ip}:9200"
}
"#
    );
}

#[test]
fn the_solr_source_file_in_full() {
    assert_eq!(
        source_instance_tf(SourceEngine::Solr, "9.7.0"),
        r#"# Source Solr 9.7.0 on a single EC2 instance (Dockerized
# for engine/version fidelity — ES/Solr have no managed AWS equivalent).
data "aws_ami" "al2023" {
  most_recent = true
  owners      = ["amazon"]
  filter {
    name   = "name"
    values = ["al2023-ami-*-x86_64"]
  }
}

# A dedicated network: the source has no public address and reaches out through a NAT gateway.
resource "aws_vpc" "source" {
  cidr_block           = "10.42.0.0/16"
  enable_dns_support   = true
  enable_dns_hostnames = true
  tags = { Name = "${var.prefix}-vpc" }
}

resource "aws_subnet" "private" {
  vpc_id                  = aws_vpc.source.id
  cidr_block              = "10.42.1.0/24"
  map_public_ip_on_launch = false
  tags = { Name = "${var.prefix}-private" }
}

resource "aws_internet_gateway" "source" {
  vpc_id = aws_vpc.source.id
}

resource "aws_subnet" "public" {
  vpc_id     = aws_vpc.source.id
  cidr_block = "10.42.0.0/24"
  tags = { Name = "${var.prefix}-public" }
}

resource "aws_route_table" "public" {
  vpc_id = aws_vpc.source.id
  route {
    cidr_block = "0.0.0.0/0"
    gateway_id = aws_internet_gateway.source.id
  }
}

resource "aws_route_table_association" "public" {
  subnet_id      = aws_subnet.public.id
  route_table_id = aws_route_table.public.id
}

resource "aws_eip" "nat" {
  domain = "vpc"
}

resource "aws_nat_gateway" "source" {
  allocation_id = aws_eip.nat.id
  subnet_id     = aws_subnet.public.id
  depends_on    = [aws_internet_gateway.source]
}

resource "aws_route_table" "private" {
  vpc_id = aws_vpc.source.id
  route {
    cidr_block     = "0.0.0.0/0"
    nat_gateway_id = aws_nat_gateway.source.id
  }
}

resource "aws_route_table_association" "private" {
  subnet_id      = aws_subnet.private.id
  route_table_id = aws_route_table.private.id
}

resource "aws_security_group" "source" {
  name_prefix = "${var.prefix}-source-"
  vpc_id      = aws_vpc.source.id
  ingress {
    from_port   = 8983
    to_port     = 8983
    protocol    = "tcp"
    cidr_blocks = ["10.0.0.0/8"]
  }
  egress {
    from_port   = 0
    to_port     = 0
    protocol    = "-1"
    cidr_blocks = ["0.0.0.0/0"]
  }
}

resource "aws_instance" "source" {
  ami                    = data.aws_ami.al2023.id
  instance_type          = "t3.large"
  subnet_id              = aws_subnet.private.id
  vpc_security_group_ids = [aws_security_group.source.id]
  # GUARDRAIL: never assign a public IP (demo policy: no public EC2).
  associate_public_ip_address = false
  user_data = <<-EOF
    #!/bin/bash
    dnf install -y docker
    systemctl enable --now docker
    sysctl -w vm.max_map_count=262144
    docker run -d --restart=always -p 8983:8983 solr:9.7.0
  EOF
  tags = { Name = "${var.prefix}-source" }
}

# Fail the plan if a public IP is ever requested on the source instance.
check "no_public_ip" {
  assert {
    condition     = aws_instance.source.associate_public_ip_address == false
    error_message = "The source instance must never have a public IP (demo policy: no public EC2)."
  }
}

output "source_endpoint" {
  value = "http://${aws_instance.source.private_ip}:8983"
}
"#
    );
}
