//! The Terraform files of an environment in the cloud, and what applies them.

use crate::collection::{
    access_policy, access_policy_of, encryption_policy, encryption_policy_of, network_policy,
    network_policy_of,
};
use crate::errand::{add_errand, errand_views, Errand, ErrandView};
use crate::manifests::{
    container_port, engine_port, image, image_text, published_image, source_version_of,
};
use crate::model::{
    target_cluster_name, Answers, AnswersView, SnapshotStorage, SourceEngine, TargetKind,
    TargetMode,
};
use crate::passages::{group_contains, lemma_last_three, lemma_spanning};
use crate::plan::target_version_of;
use crate::runner::Ask;
use crate::state::{path_in, path_under};
use crate::text::{
    begins, contains, decimal, law_pieces_hold_no_separator, lemma_contains_in_longer,
    lemma_contains_middle, lemma_one_piece, lemma_pieces_join, number, occurs_at, pieces, split,
    str_texts, texts, Sep,
};
use vstd::prelude::*;

verus! {

/// The providers file, up to what follows the region of the provider.
pub const PROVIDERS_HEAD: &'static str =
    r#"terraform {
  required_version = ">= 1.5.0"
  required_providers {
    aws = {
      source  = "hashicorp/aws"
      version = "~> 5.0"
    }
  }
}

provider "aws" {
  region = var.region
"#;

/// The providers file, from the end of the provider up to the default region.
pub const PROVIDERS_REGION: &'static str =
    r#"}

variable "region" {
  type    = string
  default = ""#;

/// The providers file, after the default region.
pub const PROVIDERS_TAIL: &'static str =
    r#""
}

variable "prefix" {
  type    = string
  default = "ma-demo"
}
"#;

/// The snapshot bucket.
pub const SNAPSHOTS: &'static str =
    r#"# S3 bucket for migration snapshots (the backfill source-of-truth).
resource "aws_s3_bucket" "snapshots" {
  bucket_prefix = "${var.prefix}-snapshots-"
  force_destroy = true
}

resource "aws_s3_bucket_versioning" "snapshots" {
  bucket = aws_s3_bucket.snapshots.id
  versioning_configuration {
    status = "Enabled"
  }
}

output "snapshot_bucket" {
  value = aws_s3_bucket.snapshots.bucket
}
"#;

/// The image of the source instance.
pub const SOURCE_IMAGE: &'static str =
    r#" on a single EC2 instance (Dockerized
# for engine/version fidelity — ES/Solr have no managed AWS equivalent).
data "aws_ami" "al2023" {
  most_recent = true
  owners      = ["amazon"]
  filter {
    name   = "name"
    values = ["al2023-ami-*-x86_64"]
  }
}

"#;

/// The network that is there for the source alone.
pub const VPC: &'static str =
    r#"# A dedicated network: the source has no public address and reaches out through a NAT gateway.
resource "aws_vpc" "source" {
  cidr_block           = "10.42.0.0/16"
  enable_dns_support   = true
  enable_dns_hostnames = true
  tags = { Name = "${var.prefix}-vpc" }
}

"#;

/// The private part of the network.
pub const PRIVATE_SUBNET: &'static str =
    r#"resource "aws_subnet" "private" {
  vpc_id                  = aws_vpc.source.id
  cidr_block              = "10.42.1.0/24"
  map_public_ip_on_launch = false
  tags = { Name = "${var.prefix}-private" }
}

"#;

/// The public part of the network, where nothing but the NAT gateway stands.
pub const NAT_GATEWAY: &'static str =
    r#"resource "aws_internet_gateway" "source" {
  vpc_id = aws_vpc.source.id
}

resource "aws_subnet" "public" {
  vpc_id     = aws_vpc.source.id
  cidr_block = "10.42.0.0/24"
  tags = { Name = "${var.prefix}-public" }
}

resource "aws_route_table" "public" {
  vpc_id = aws_vpc.source.id
  route {
    cidr_block = "0.0.0.0/0"
    gateway_id = aws_internet_gateway.source.id
  }
}

resource "aws_route_table_association" "public" {
  subnet_id      = aws_subnet.public.id
  route_table_id = aws_route_table.public.id
}

resource "aws_eip" "nat" {
  domain = "vpc"
}

resource "aws_nat_gateway" "source" {
  allocation_id = aws_eip.nat.id
  subnet_id     = aws_subnet.public.id
  depends_on    = [aws_internet_gateway.source]
}

"#;

/// The way out of the private part: through the NAT gateway.
pub const PRIVATE_ROUTE: &'static str =
    r#"resource "aws_route_table" "private" {
  vpc_id = aws_vpc.source.id
  route {
    cidr_block     = "0.0.0.0/0"
    nat_gateway_id = aws_nat_gateway.source.id
  }
}

resource "aws_route_table_association" "private" {
  subnet_id      = aws_subnet.private.id
  route_table_id = aws_route_table.private.id
}

"#;

/// What may reach the source instance, up to the port.
pub const SOURCE_ACCESS: &'static str =
    r#"resource "aws_security_group" "source" {
  name_prefix = "${var.prefix}-source-"
  vpc_id      = aws_vpc.source.id
  ingress {
    from_port   = "#;

/// What may reach the source instance, after the port.
pub const SOURCE_EGRESS: &'static str =
    r#"
    protocol    = "tcp"
    cidr_blocks = ["10.0.0.0/8"]
  }
  egress {
    from_port   = 0
    to_port     = 0
    protocol    = "-1"
    cidr_blocks = ["0.0.0.0/0"]
  }
}

"#;

/// The source instance: it stands in the private part of the network.
pub const SOURCE_INSTANCE: &'static str =
    r#"resource "aws_instance" "source" {
  ami                    = data.aws_ami.al2023.id
  instance_type          = "t3.large"
  subnet_id              = aws_subnet.private.id
"#;

/// The source instance, up to whether it has a public address.
pub const SOURCE_GUARDRAIL: &'static str =
    r#"  vpc_security_group_ids = [aws_security_group.source.id]
  # GUARDRAIL: never assign a public IP (demo policy: no public EC2).
  "#;

/// The setting that keeps the source instance private.
pub const NO_PUBLIC_IP: &'static str =
    r#"associate_public_ip_address = false"#;

/// How the source instance starts, up to what it runs.
pub const SOURCE_BOOT: &'static str =
    r#"
  user_data = <<-EOF
    #!/bin/bash
    dnf install -y docker
    systemctl enable --now docker
    sysctl -w vm.max_map_count=262144
    docker run -d --restart=always "#;

/// The tags of the source instance.
pub const SOURCE_TAGS: &'static str =
    r#"
  EOF
  tags = { Name = "${var.prefix}-source" }
}

# Fail the plan if a public IP is ever requested on the source instance.
"#;

/// The check that the source instance stays private.
pub const PRIVATE_CHECK: &'static str =
    r#"check "no_public_ip""#;

/// What is checked, and the endpoint of the source, up to its port.
pub const SOURCE_CHECK: &'static str =
    r#" {
  assert {
    condition     = aws_instance.source.associate_public_ip_address == false
    error_message = "The source instance must never have a public IP (demo policy: no public EC2)."
  }
}

output "source_endpoint" {
  value = "http://${aws_instance.source.private_ip}:"#;

/// The target domain, up to its version.
pub const TARGET_HEAD: &'static str =
    r#"# Target: a managed Amazon OpenSearch Service domain.
resource "aws_opensearch_domain" "target" {
  domain_name    = "${var.prefix}-target"
  engine_version = "OpenSearch_"#;

/// The target domain, after its version.
pub const TARGET_TAIL: &'static str =
    r#""

  cluster_config {
    instance_type  = "r6g.large.search"
    instance_count = 2
  }

  ebs_options {
    ebs_enabled = true
    volume_size = 50
  }
}

output "target_endpoint" {
  value = aws_opensearch_domain.target.endpoint
}
"#;

/// The resource that a managed domain is.
pub const DOMAIN: &'static str = "aws_opensearch_domain";

/// The resource that a serverless collection is.
pub const COLLECTION: &'static str = "aws_opensearchserverless_collection";

/// The target collection, up to what it is.
pub const COLLECTION_HEAD: &'static str =
    r#"# Target: an Amazon OpenSearch Serverless NextGen collection.
resource ""#;

/// The target collection, up to its name.
pub const COLLECTION_NAME: &'static str =
    r#"" "target" {
  name             = ""#;

/// The target collection, after its name.
pub const COLLECTION_TAIL: &'static str =
    r#""
  type             = "SEARCH"
  standby_replicas = "ENABLED"
  depends_on = [
    aws_opensearchserverless_security_policy.encryption,
    aws_opensearchserverless_security_policy.network,
    aws_opensearchserverless_access_policy.data,
  ]
}

output "target_endpoint" {
  value = aws_opensearchserverless_collection.target.collection_endpoint
}

data "aws_caller_identity" "current" {}
"#;

/// The resource that the policies for encryption and network are.
pub const SECURITY_POLICY: &'static str = "aws_opensearchserverless_security_policy";

/// The resource that the policy for data is.
pub const ACCESS_POLICY: &'static str = "aws_opensearchserverless_access_policy";

/// The caller, as Terraform finds it out.
pub const CALLER_ARN: &'static str = "${data.aws_caller_identity.current.arn}";

/// The setting that has the provider use a profile, if one is named.
pub open spec fn profile_setting(profile: Option<Seq<char>>) -> Seq<char> {
    match profile {
        Some(p) => "  profile = \""@ + p + "\"\n"@,
        None => seq![],
    }
}

/// The providers file, for a region and a profile if one is named.
pub open spec fn providers_text(region: Seq<char>, profile: Option<Seq<char>>) -> Seq<char> {
    PROVIDERS_HEAD@ + profile_setting(profile) + PROVIDERS_REGION@ + region + PROVIDERS_TAIL@
}

/// The providers file: the provider, and the variables that the other files share.
pub fn providers_tf(region: &str) -> (r: String)
    ensures
        r@ == providers_text(region@, None),
{
    let r = PROVIDERS_HEAD.to_string().concat(PROVIDERS_REGION).concat(region).concat(
        PROVIDERS_TAIL,
    );
    assert(r@ =~= providers_text(region@, None));
    r
}

/// The providers file of a provider that uses the credentials of `profile`.
pub fn profiled_providers_tf(region: &str, profile: &str) -> (r: String)
    ensures
        r@ == providers_text(region@, Some(profile@)),
{
    let setting = "  profile = \"".to_string().concat(profile).concat("\"\n");
    PROVIDERS_HEAD.to_string().concat(setting.as_str()).concat(PROVIDERS_REGION).concat(
        region,
    ).concat(PROVIDERS_TAIL)
}

/// The snapshot bucket.
pub fn snapshot_bucket_tf() -> (r: String)
    ensures
        r@ == SNAPSHOTS@,
{
    SNAPSHOTS.to_string()
}

/// How the container of an engine is started.
pub open spec fn run_args_text(engine: SourceEngine) -> Seq<char> {
    match engine {
        SourceEngine::Solr => "-p 8983:8983"@,
        SourceEngine::Elasticsearch => "-p 9200:9200 -e discovery.type=single-node -e xpack.security.enabled=false"@,
        SourceEngine::OpenSearch => "-p 9200:9200 -e discovery.type=single-node -e DISABLE_SECURITY_PLUGIN=true"@,
    }
}

/// How the container of an engine is started.
fn run_args(engine: SourceEngine) -> (r: &'static str)
    ensures
        r@ == run_args_text(engine),
{
    match engine {
        SourceEngine::Solr => "-p 8983:8983",
        SourceEngine::Elasticsearch => "-p 9200:9200 -e discovery.type=single-node -e xpack.security.enabled=false",
        SourceEngine::OpenSearch => "-p 9200:9200 -e discovery.type=single-node -e DISABLE_SECURITY_PLUGIN=true",
    }
}

/// The network of the source: one of its own, with a private part that is left through a NAT gateway
/// only.
pub open spec fn network_text() -> Seq<char> {
    VPC@ + PRIVATE_SUBNET@ + NAT_GATEWAY@ + PRIVATE_ROUTE@
}

/// The source: an instance that runs the engine in a container, in a private network.
pub open spec fn source_instance_text(engine: SourceEngine, version: Seq<char>) -> Seq<char> {
    let port = decimal(engine_port(engine) as nat);
    "# Source "@ + engine.label_text() + " "@ + version + SOURCE_IMAGE@ + network_text()
        + SOURCE_ACCESS@ + port + "\n    to_port     = "@ + port + SOURCE_EGRESS@ + SOURCE_INSTANCE@
        + SOURCE_GUARDRAIL@ + NO_PUBLIC_IP@ + SOURCE_BOOT@ + run_args_text(engine) + " "@
        + image_text(engine, version) + SOURCE_TAGS@ + PRIVATE_CHECK@ + SOURCE_CHECK@ + port
        + "\"\n}\n"@
}

/// The source: an instance that runs the engine in a container. It stands in a private network of
/// its own behind a NAT gateway and never has a public address, and a check says so.
pub fn source_instance_tf(engine: SourceEngine, version: &str) -> (r: String)
    ensures
        r@ == source_instance_text(engine, version@),
{
    let port = number(container_port(engine));
    let network = VPC.to_string().concat(PRIVATE_SUBNET).concat(NAT_GATEWAY).concat(PRIVATE_ROUTE);
    "# Source ".to_string().concat(engine.label()).concat(" ").concat(version).concat(
        SOURCE_IMAGE,
    ).concat(network.as_str()).concat(SOURCE_ACCESS).concat(port.as_str()).concat(
        "\n    to_port     = ",
    ).concat(port.as_str()).concat(SOURCE_EGRESS).concat(SOURCE_INSTANCE).concat(
        SOURCE_GUARDRAIL,
    ).concat(NO_PUBLIC_IP).concat(SOURCE_BOOT).concat(run_args(engine)).concat(" ").concat(
        image(engine, version).as_str(),
    ).concat(SOURCE_TAGS).concat(PRIVATE_CHECK).concat(SOURCE_CHECK).concat(port.as_str()).concat(
        "\"\n}\n",
    )
}

/// The target: a managed domain.
pub open spec fn target_domain_text(version: Seq<char>) -> Seq<char> {
    TARGET_HEAD@ + version + TARGET_TAIL@
}

/// The target: a managed domain.
pub fn target_domain_tf(version: &str) -> (r: String)
    ensures
        r@ == target_domain_text(version@),
{
    TARGET_HEAD.to_string().concat(version).concat(TARGET_TAIL)
}

/// One policy of the target collection.
pub open spec fn policy_text(
    resource: Seq<char>,
    kind: Seq<char>,
    name: Seq<char>,
    policy: Seq<char>,
) -> Seq<char> {
    "\nresource \""@ + resource + "\" \""@ + kind + "\" {\n  name   = \""@ + name
        + "\"\n  type   = \""@ + kind + "\"\n  policy = <<-EOF\n    "@ + policy + "\n  EOF\n}\n"@
}

fn policy_tf(resource: &str, kind: &str, name: &str, policy: &str) -> (r: String)
    ensures
        r@ == policy_text(resource@, kind@, name@, policy@),
{
    "\nresource \"".to_string().concat(resource).concat("\" \"").concat(kind).concat(
        "\" {\n  name   = \"",
    ).concat(name).concat("\"\n  type   = \"").concat(kind).concat(
        "\"\n  policy = <<-EOF\n    ",
    ).concat(policy).concat("\n  EOF\n}\n")
}

/// The target: a serverless collection, with the policies for its encryption, network and data.
pub open spec fn target_collection_text(name: Seq<char>) -> Seq<char> {
    COLLECTION_HEAD@ + COLLECTION@ + COLLECTION_NAME@ + name + COLLECTION_TAIL@ + policy_text(
        SECURITY_POLICY@,
        "encryption"@,
        name,
        encryption_policy(name),
    ) + policy_text(SECURITY_POLICY@, "network"@, name, network_policy(name)) + policy_text(
        ACCESS_POLICY@,
        "data"@,
        name,
        access_policy(name, CALLER_ARN@),
    )
}

/// The target: a serverless collection, with the policies for its encryption, network and data. Only
/// the caller is given its data.
pub fn target_collection_tf(name: &str) -> (r: String)
    ensures
        r@ == target_collection_text(name@),
{
    let encryption = encryption_policy_of(name);
    let network = network_policy_of(name);
    let access = access_policy_of(name, CALLER_ARN);
    COLLECTION_HEAD.to_string().concat(COLLECTION).concat(COLLECTION_NAME).concat(name).concat(
        COLLECTION_TAIL,
    ).concat(
        policy_tf(SECURITY_POLICY, "encryption", name, encryption.as_str()).as_str(),
    ).concat(policy_tf(SECURITY_POLICY, "network", name, network.as_str()).as_str()).concat(
        policy_tf(ACCESS_POLICY, "data", name, access.as_str()).as_str(),
    )
}

/// A file to write: its path in the workspace, and its contents.
#[derive(Debug, Clone, PartialEq, Eq)]
pub struct TfFile {
    pub path: String,
    pub body: String,
}

/// What a [`TfFile`] holds.
#[verifier::ext_equal]
pub struct TfFileView {
    pub path: Seq<char>,
    pub body: Seq<char>,
}

impl View for TfFile {
    type V = TfFileView;

    open spec fn view(&self) -> TfFileView {
        TfFileView { path: self.path@, body: self.body@ }
    }
}

/// What each file of a list holds.
pub open spec fn file_views(v: Seq<TfFile>) -> Seq<TfFileView> {
    v.map_values(|f: TfFile| f@)
}

/// The first two numbers of a version.
pub open spec fn major_minor_text(v: Seq<char>) -> Seq<char> {
    let p = pieces(v, Sep::Is('.'));
    if p.len() >= 2 {
        p[0] + "."@ + p[1]
    } else {
        v
    }
}

/// The first two numbers of a version: all that a managed domain can be asked for.
pub fn major_minor(v: &str) -> (r: String)
    ensures
        r@ == major_minor_text(v@),
{
    let p = split(v, Sep::Is('.'));
    assert(texts(p@).len() == p@.len());
    if p.len() >= 2 {
        assert(texts(p@)[0] == p@[0]@ && texts(p@)[1] == p@[1]@);
        p[0].clone().concat(".").concat(p[1].as_str())
    } else {
        v.to_string()
    }
}

/// The files of an environment: the providers and the source; the bucket unless no snapshot storage
/// is wanted; the target if one is provisioned, as a serverless collection or as a managed domain. The
/// provider works in the region and with the profile of the plan.
pub open spec fn files_for(a: AnswersView) -> Seq<TfFileView> {
    let always = seq![
        TfFileView { path: "terraform/providers.tf"@, body: providers_text(a.region(), Some(a.profile())) },
        TfFileView {
            path: "terraform/source.tf"@,
            body: source_instance_text(a.engine(), source_version_of(a)),
        },
    ];
    let bucket = if a.snapshot_storage != Some(SnapshotStorage::NoStorage) {
        seq![TfFileView { path: "terraform/snapshots.tf"@, body: SNAPSHOTS@ }]
    } else {
        seq![]
    };
    let target = if a.aoss_target() {
        seq![
            TfFileView {
                path: "terraform/target.tf"@,
                body: target_collection_text(target_cluster_name()),
            },
        ]
    } else if a.local_target() {
        seq![
            TfFileView {
                path: "terraform/target.tf"@,
                body: target_domain_text(major_minor_text(target_version_of(a))),
            },
        ]
    } else {
        seq![]
    };
    always + bucket + target
}

fn add_file(v: &mut Vec<TfFile>, path: &str, body: String)
    ensures
        file_views(final(v)@) == file_views(old(v)@).push(TfFileView { path: path@, body: body@ }),
{
    let ghost before = file_views(v@);
    let f = TfFile { path: path.to_string(), body };
    v.push(f);
    assert(file_views(v@) =~= before.push(f@));
}

/// The files of an environment in the cloud.
pub fn files(answers: &Answers) -> (r: Vec<TfFile>)
    ensures
        file_views(r@) == files_for(answers@),
{
    let engine = answers.engine_or_default();
    let version = match &answers.source_version {
        Some(v) => v.as_str(),
        None => "7.10.2",
    };
    let mut r: Vec<TfFile> = Vec::new();
    let providers = profiled_providers_tf(
        answers.effective_aws_region(),
        answers.effective_aws_profile(),
    );
    add_file(&mut r, "terraform/providers.tf", providers);
    add_file(&mut r, "terraform/source.tf", source_instance_tf(engine, version));
    if answers.snapshot_storage != Some(SnapshotStorage::NoStorage) {
        add_file(&mut r, "terraform/snapshots.tf", snapshot_bucket_tf());
    }
    if answers.provisions_aoss_target() {
        let name = answers.aoss_collection_name();
        add_file(&mut r, "terraform/target.tf", target_collection_tf(name.as_str()));
    } else if answers.provisions_local_target() {
        let target = match &answers.target_version {
            Some(v) => v.as_str(),
            None => "3.3.0",
        };
        let short = major_minor(target);
        add_file(&mut r, "terraform/target.tf", target_domain_tf(short.as_str()));
    }
    assert(file_views(r@) =~= files_for(answers@));
    r
}

// ---------------------------------------------------------------------------
// Applying the files
// ---------------------------------------------------------------------------

/// The option that has Terraform work where the files are.
pub open spec fn chdir_text(dir: Seq<char>) -> Seq<char> {
    "-chdir="@ + path_in(dir, "terraform"@)
}

/// What applies the files of a workspace, its output going to the terminal.
pub open spec fn application(dir: Seq<char>) -> Seq<ErrandView> {
    seq![
        ErrandView {
            streaming: true,
            ..ErrandView::plain("terraform init"@, "terraform"@, seq![chdir_text(dir), "init"@])
        },
        ErrandView {
            streaming: true,
            ..ErrandView::plain(
                "terraform apply"@,
                "terraform"@,
                seq![chdir_text(dir), "apply"@, "-auto-approve"@],
            )
        },
    ]
}

/// What Terraform does is seen in the terminal while it does it.
pub proof fn law_terraform_is_seen_live(dir: Seq<char>, i: int)
    requires
        0 <= i < application(dir).len(),
    ensures
        application(dir)[i].ask() == Ask::Stream(application(dir)[i].call()),
        application(dir)[i].program == "terraform"@,
{
}

/// What applies the files of a workspace.
pub fn apply_errands(dir: &str) -> (r: Vec<Errand>)
    ensures
        errand_views(r@) == application(dir@),
{
    let place = "-chdir=".to_string().concat(path_under(dir, "terraform").as_str());
    let init: [&str; 2] = [place.as_str(), "init"];
    let apply: [&str; 3] = [place.as_str(), "apply", "-auto-approve"];
    assert(str_texts(init@) =~= seq![chdir_text(dir@), "init"@]);
    assert(str_texts(apply@) =~= seq![chdir_text(dir@), "apply"@, "-auto-approve"@]);
    let mut r: Vec<Errand> = Vec::new();
    add_errand(&mut r, Errand::new("terraform init", "terraform", &init).streamed());
    add_errand(&mut r, Errand::new("terraform apply", "terraform", &apply).streamed());
    assert(errand_views(r@) =~= application(dir@));
    r
}

// ---------------------------------------------------------------------------
// What holds of the files
// ---------------------------------------------------------------------------

/// The parts of the network stand in its text.
proof fn lemma_parts_of_the_network()
    ensures
        contains(network_text(), VPC@),
        contains(network_text(), PRIVATE_SUBNET@),
        contains(network_text(), NAT_GATEWAY@),
        contains(network_text(), PRIVATE_ROUTE@),
{
    let all = network_text();
    let (a, b, c, d) = (VPC@, PRIVATE_SUBNET@, NAT_GATEWAY@, PRIVATE_ROUTE@);
    assert(all =~= seq![] + a + (b + c + d));
    lemma_contains_middle(seq![], a, b + c + d);
    assert(all =~= a + b + (c + d));
    lemma_contains_middle(a, b, c + d);
    lemma_contains_middle(a + b, c, d);
    assert(all =~= (a + b + c) + d + seq![]);
    lemma_contains_middle(a + b + c, d, seq![]);
}

/// The source is private, whatever it runs: there is a network for it alone, which the instance
/// stands in the private part of; that part is left through the NAT gateway; the instance has no
/// public address, and a check guards that.
pub proof fn law_the_source_is_private(engine: SourceEngine, version: Seq<char>)
    ensures
        contains(source_instance_text(engine, version), VPC@),
        contains(source_instance_text(engine, version), PRIVATE_SUBNET@),
        contains(source_instance_text(engine, version), NAT_GATEWAY@),
        contains(source_instance_text(engine, version), PRIVATE_ROUTE@),
        contains(source_instance_text(engine, version), SOURCE_INSTANCE@),
        contains(source_instance_text(engine, version), NO_PUBLIC_IP@),
        contains(source_instance_text(engine, version), PRIVATE_CHECK@),
{
    let port = decimal(engine_port(engine) as nat);
    let all = source_instance_text(engine, version);
    let network = network_text();
    let a = "# Source "@ + engine.label_text() + " "@ + version + SOURCE_IMAGE@;
    let b = SOURCE_ACCESS@ + port + "\n    to_port     = "@ + port + SOURCE_EGRESS@;
    let c = SOURCE_BOOT@ + run_args_text(engine) + " "@ + image_text(engine, version)
        + SOURCE_TAGS@;
    let d = SOURCE_CHECK@ + port + "\"\n}\n"@;
    let (i, g, n, p) = (SOURCE_INSTANCE@, SOURCE_GUARDRAIL@, NO_PUBLIC_IP@, PRIVATE_CHECK@);
    assert(all =~= a + network + b + i + g + n + c + p + d);
    lemma_parts_of_the_network();
    lemma_private(a, network, b, i, g, n, c, p, d);
}

/// What the network holds and the three guards stand in a text that is made of them.
proof fn lemma_private(
    a: Seq<char>,
    network: Seq<char>,
    b: Seq<char>,
    i: Seq<char>,
    g: Seq<char>,
    n: Seq<char>,
    c: Seq<char>,
    p: Seq<char>,
    d: Seq<char>,
)
    ensures
        forall|x: Seq<char>| #[trigger]
            contains(network, x) ==> contains(a + network + b + i + g + n + c + p + d, x),
        contains(a + network + b + i + g + n + c + p + d, i),
        contains(a + network + b + i + g + n + c + p + d, n),
        contains(a + network + b + i + g + n + c + p + d, p),
{
    let all = a + network + b + i + g + n + c + p + d;
    let rest = b + i + g + n + c + p + d;
    assert(all =~= a + network + rest);
    assert forall|x: Seq<char>| #[trigger] contains(network, x) implies contains(all, x) by {
        lemma_contains_in_longer(a, network, rest, x);
    }
    let e = a + network + b;
    assert(all =~= e + i + (g + n + c + p + d));
    lemma_contains_middle(e, i, g + n + c + p + d);
    let f = e + i + g;
    assert(all =~= f + n + (c + p + d));
    lemma_contains_middle(f, n, c + p + d);
    lemma_contains_middle(f + n + c, p, d);
}

/// Whether a file of this path is among the files.
pub open spec fn has_path(files: Seq<TfFileView>, path: Seq<char>) -> bool {
    exists|i: int| 0 <= i < files.len() && (#[trigger] files[i]).path == path
}

/// Which files there are: the providers and the source always, the bucket unless no snapshot storage
/// is wanted, the target if and only if one is provisioned.
pub proof fn law_which_files_there_are(a: AnswersView)
    ensures
        has_path(files_for(a), "terraform/providers.tf"@),
        has_path(files_for(a), "terraform/source.tf"@),
        has_path(files_for(a), "terraform/snapshots.tf"@) <==> a.snapshot_storage != Some(
            SnapshotStorage::NoStorage,
        ),
        has_path(files_for(a), "terraform/target.tf"@) <==> a.target_mode == Some(
            TargetMode::Provision,
        ),
{
    let f = files_for(a);
    reveal_strlit("terraform/providers.tf");
    reveal_strlit("terraform/source.tf");
    reveal_strlit("terraform/snapshots.tf");
    reveal_strlit("terraform/target.tf");
    assert("terraform/snapshots.tf"@[10] == 's' && "terraform/snapshots.tf"@[11] == 'n');
    assert("terraform/source.tf"@[11] == 'o');
    assert("terraform/target.tf"@[10] == 't');
    assert("terraform/providers.tf"@[10] == 'p');
    assert(f[0].path == "terraform/providers.tf"@);
    assert(f[1].path == "terraform/source.tf"@);
    if a.snapshot_storage != Some(SnapshotStorage::NoStorage) {
        assert(f[2].path == "terraform/snapshots.tf"@);
    }
    if a.target_mode == Some(TargetMode::Provision) {
        assert(f[f.len() - 1].path == "terraform/target.tf"@);
    }
}

/// What stands around the version of a domain names a domain, and no collection: it holds the first
/// letters of a collection only where those of a domain follow.
proof fn lemma_around_the_version()
    ensures
        contains(TARGET_HEAD@, DOMAIN@),
        COLLECTION@.len() == 35,
        COLLECTION@[0] == 'a' && COLLECTION@[1] == 'w' && COLLECTION@[14] == 's',
        forall|i: int|
            0 <= i < TARGET_HEAD@.len() && #[trigger] TARGET_HEAD@[i] == 'a' ==> i + 1
                < TARGET_HEAD@.len() && (TARGET_HEAD@[i + 1] == 'w' ==> i + 14 < TARGET_HEAD@.len()
                && TARGET_HEAD@[i + 14] == '_'),
        forall|i: int|
            0 <= i < TARGET_TAIL@.len() && #[trigger] TARGET_TAIL@[i] == 'a' ==> i + 1
                < TARGET_TAIL@.len() && (TARGET_TAIL@[i + 1] == 'w' ==> i + 14 < TARGET_TAIL@.len()
                && TARGET_TAIL@[i + 14] == '_'),
        TARGET_TAIL@.len() > 0 && TARGET_TAIL@[0] == '"',
        forall|k: int| 0 <= k < 35 ==> #[trigger] COLLECTION@[k] != '"',
{
    reveal_strlit("aws_opensearch_domain");
    reveal_strlit("aws_opensearchserverless_collection");
    reveal_strlit(r#"# Target: a managed Amazon OpenSearch Service domain.
resource "aws_opensearch_domain" "target" {
  domain_name    = "${var.prefix}-target"
  engine_version = "OpenSearch_"#);
    reveal_strlit(r#""

  cluster_config {
    instance_type  = "r6g.large.search"
    instance_count = 2
  }

  ebs_options {
    ebs_enabled = true
    volume_size = 50
  }
}

output "target_endpoint" {
  value = aws_opensearch_domain.target.endpoint
}
"#);
    assert(TARGET_HEAD@.subrange(64, 85) =~= DOMAIN@);
    assert(occurs_at(TARGET_HEAD@, DOMAIN@, 64));
}

/// The file of a domain names a collection only where the version that was asked for does.
proof fn lemma_a_domain_is_no_collection(version: Seq<char>)
    ensures
        contains(target_domain_text(version), DOMAIN@),
        contains(target_domain_text(version), COLLECTION@) <==> contains(version, COLLECTION@),
{
    let (h, t, n) = (TARGET_HEAD@, TARGET_TAIL@, COLLECTION@);
    let all = target_domain_text(version);
    lemma_around_the_version();
    assert(all =~= seq![] + h + (version + t));
    lemma_contains_in_longer(seq![], h, version + t, DOMAIN@);
    if contains(version, n) {
        lemma_contains_in_longer(h, version, t, n);
    }
    if contains(all, n) {
        let i = choose|i: int| occurs_at(all, n, i);
        let end = h.len() + version.len();
        assert(forall|k: int| 0 <= k < n.len() ==> all[i + k] == #[trigger] n[k]);
        assert(all[i] == n[0] && all[i + 1] == n[1] && all[i + 14] == n[14]);
        if i < h.len() {
            assert(h[i] == 'a');
            assert(h[i + 1] == all[i + 1]);
            assert(h[i + 14] == all[i + 14]);
        } else if i >= end {
            assert(t[i - end] == 'a');
            assert(t[i - end + 1] == all[i + 1]);
            assert(t[i - end + 14] == all[i + 14]);
        } else if i + n.len() > end {
            assert(all[end as int] == t[0]);
            assert(all[i + (end - i)] == n[end - i]);
        }
        assert(version.subrange(i - h.len(), i - h.len() + n.len()) =~= n);
        assert(occurs_at(version, n, i - h.len()));
    }
}

/// What is provisioned is what was chosen: the file of the target asks for a serverless collection,
/// under the name that it is looked for by, where one was chosen, and for a managed domain of the
/// chosen version where not. It names a collection if and only if one was chosen, but for a version
/// that does so itself.
pub proof fn law_the_target_is_what_was_chosen(a: AnswersView)
    requires
        a.target_mode == Some(TargetMode::Provision),
    ensures
        ({
            let file = files_for(a).last();
            let version = major_minor_text(target_version_of(a));
            &&& file.path == "terraform/target.tf"@
            &&& a.aoss_target() ==> file.body == target_collection_text(target_cluster_name())
            &&& !a.aoss_target() ==> file.body == target_domain_text(version) && contains(
                file.body,
                DOMAIN@,
            )
            &&& contains(file.body, COLLECTION@) <==> a.aoss_target() || contains(
                version,
                COLLECTION@,
            )
        }),
{
    let name = target_cluster_name();
    lemma_a_domain_is_no_collection(major_minor_text(target_version_of(a)));
    let rest = COLLECTION_NAME@ + name + COLLECTION_TAIL@ + policy_text(
        SECURITY_POLICY@,
        "encryption"@,
        name,
        encryption_policy(name),
    ) + policy_text(SECURITY_POLICY@, "network"@, name, network_policy(name)) + policy_text(
        ACCESS_POLICY@,
        "data"@,
        name,
        access_policy(name, CALLER_ARN@),
    );
    assert(target_collection_text(name) =~= COLLECTION_HEAD@ + COLLECTION@ + rest);
    lemma_contains_middle(COLLECTION_HEAD@, COLLECTION@, rest);
}

/// The provider works in the region and with the profile of the plan, which the environment is
/// probed with too.
pub proof fn law_the_provider_follows_the_plan(a: AnswersView)
    ensures
        files_for(a)[0].path == "terraform/providers.tf"@,
        contains(files_for(a)[0].body, "  profile = \""@ + a.profile() + "\"\n"@),
        contains(files_for(a)[0].body, PROVIDERS_REGION@ + a.region() + PROVIDERS_TAIL@),
{
    let setting = profile_setting(Some(a.profile()));
    let end = PROVIDERS_REGION@ + a.region() + PROVIDERS_TAIL@;
    let body = files_for(a)[0].body;
    assert(body =~= PROVIDERS_HEAD@ + setting + end);
    lemma_contains_middle(PROVIDERS_HEAD@, setting, end);
    assert(body =~= (PROVIDERS_HEAD@ + setting) + end + seq![]);
    lemma_contains_middle(PROVIDERS_HEAD@ + setting, end, seq![]);
}

/// The port that an engine is reached at.
pub open spec fn published_port(e: SourceEngine) -> Seq<char> {
    decimal(
        if e == SourceEngine::Solr {
            8983
        } else {
            9200
        },
    )
}

/// The container of an engine as it is started: the port that it publishes, and that it is one node
/// without security.
pub open spec fn published_run(e: SourceEngine) -> Seq<char> {
    if e == SourceEngine::Solr {
        "-p 8983:8983"@
    } else if e == SourceEngine::OpenSearch {
        "-p 9200:9200 -e discovery.type=single-node -e DISABLE_SECURITY_PLUGIN=true"@
    } else {
        "-p 9200:9200 -e discovery.type=single-node -e xpack.security.enabled=false"@
    }
}

/// What opens the port of the source.
proof fn lemma_the_source_opens_its_port(engine: SourceEngine, version: Seq<char>)
    ensures
        contains(
            source_instance_text(engine, version),
            "from_port   = "@ + (published_port(engine) + "\n    to_port     = "@ + published_port(
                engine,
            )) + "\n"@,
        ),
{
    broadcast use group_contains;

    let port = published_port(engine);
    let front = "# Source "@ + engine.label_text() + " "@ + version + SOURCE_IMAGE@ + network_text();
    let (a, b) = (SOURCE_ACCESS@, SOURCE_EGRESS@);
    reveal_strlit(r#"resource "aws_security_group" "source" {
  name_prefix = "${var.prefix}-source-"
  vpc_id      = aws_vpc.source.id
  ingress {
    from_port   = "#);
    reveal_strlit(r#"
    protocol    = "tcp"
    cidr_blocks = ["10.0.0.0/8"]
  }
  egress {
    from_port   = 0
    to_port     = 0
    protocol    = "-1"
    cidr_blocks = ["0.0.0.0/0"]
  }
}

"#);
    reveal_strlit("from_port   = ");
    reveal_strlit("\n");
    assert(a.skip(131) =~= "from_port   = "@);
    assert(b.take(1) =~= "\n"@);
    let m = port + "\n    to_port     = "@ + port;
    lemma_spanning(front, a, m, b, 131, 1);
    lemma_last_three(front + a, port, "\n    to_port     = "@, port);
}

/// What starts the container of the source.
proof fn lemma_the_source_runs_its_image(engine: SourceEngine, version: Seq<char>)
    ensures
        contains(
            source_instance_text(engine, version),
            "docker run -d --restart=always "@ + (published_run(engine) + " "@ + published_image(
                engine,
                version,
            )) + "\n  EOF\n"@,
        ),
{
    broadcast use group_contains;

    let port = published_port(engine);
    let front = "# Source "@ + engine.label_text() + " "@ + version + SOURCE_IMAGE@ + network_text()
        + SOURCE_ACCESS@ + port + "\n    to_port     = "@ + port + SOURCE_EGRESS@ + SOURCE_INSTANCE@
        + SOURCE_GUARDRAIL@ + NO_PUBLIC_IP@;
    let (a, b) = (SOURCE_BOOT@, SOURCE_TAGS@);
    reveal_strlit(r#"
  user_data = <<-EOF
    #!/bin/bash
    dnf install -y docker
    systemctl enable --now docker
    sysctl -w vm.max_map_count=262144
    docker run -d --restart=always "#);
    reveal_strlit(r#"
  EOF
  tags = { Name = "${var.prefix}-source" }
}

# Fail the plan if a public IP is ever requested on the source instance.
"#);
    reveal_strlit("docker run -d --restart=always ");
    reveal_strlit("\n  EOF\n");
    assert(a.skip(140) =~= "docker run -d --restart=always "@);
    assert(b.take(7) =~= "\n  EOF\n"@);
    let m = run_args_text(engine) + " "@ + image_text(engine, version);
    lemma_spanning(front, a, m, b, 140, 7);
    lemma_last_three(front + a, run_args_text(engine), " "@, image_text(engine, version));
}

/// What gives the address of the source out.
proof fn lemma_the_source_gives_its_port_out(engine: SourceEngine, version: Seq<char>)
    ensures
        contains(
            source_instance_text(engine, version),
            "value = \"http://${aws_instance.source.private_ip}:"@ + published_port(engine)
                + "\"\n}\n"@,
        ),
{
    let port = published_port(engine);
    let front = "# Source "@ + engine.label_text() + " "@ + version + SOURCE_IMAGE@ + network_text()
        + SOURCE_ACCESS@ + port + "\n    to_port     = "@ + port + SOURCE_EGRESS@ + SOURCE_INSTANCE@
        + SOURCE_GUARDRAIL@ + NO_PUBLIC_IP@ + SOURCE_BOOT@ + run_args_text(engine) + " "@
        + image_text(engine, version) + SOURCE_TAGS@ + PRIVATE_CHECK@;
    let (a, b) = (SOURCE_CHECK@, "\"\n}\n"@);
    reveal_strlit(r#" {
  assert {
    condition     = aws_instance.source.associate_public_ip_address == false
    error_message = "The source instance must never have a public IP (demo policy: no public EC2)."
  }
}

output "source_endpoint" {
  value = "http://${aws_instance.source.private_ip}:"#);
    reveal_strlit("value = \"http://${aws_instance.source.private_ip}:");
    assert(a.skip(227) =~= "value = \"http://${aws_instance.source.private_ip}:"@);
    assert(b.take(b.len() as int) =~= b);
    lemma_spanning(front, a, port, b, 227, b.len() as int);
}

/// The source in the cloud is the one that was chosen: its file runs the image of that engine in that
/// version, and publishes, opens and gives out the port of that engine.
pub proof fn law_the_cloud_source_is_what_was_chosen(
    a: AnswersView,
    e: SourceEngine,
    version: Seq<char>,
)
    requires
        a.source_engine == Some(e),
        a.source_version == Some(version),
    ensures
        ({
            let file = files_for(a)[1];
            let port = published_port(e);
            &&& file.path == "terraform/source.tf"@
            &&& begins(file.body, "# Source "@ + e.label_text() + " "@ + version)
            &&& contains(
                file.body,
                "docker run -d --restart=always "@ + (published_run(e) + " "@ + published_image(
                    e,
                    version,
                )) + "\n  EOF\n"@,
            )
            &&& contains(
                file.body,
                "from_port   = "@ + (port + "\n    to_port     = "@ + port) + "\n"@,
            )
            &&& contains(
                file.body,
                "value = \"http://${aws_instance.source.private_ip}:"@ + port + "\"\n}\n"@,
            )
        }),
{
    let body = source_instance_text(e, version);
    assert(files_for(a)[1].body == body);
    lemma_the_source_opens_its_port(e, version);
    lemma_the_source_runs_its_image(e, version);
    lemma_the_source_gives_its_port_out(e, version);
    let front = "# Source "@ + e.label_text() + " "@ + version;
    assert(body.take(front.len() as int) =~= front);
    assert(body.subrange(0, front.len() as int) =~= front);
}

/// What is not chosen is Elasticsearch in version 7.10.2.
pub proof fn law_the_cloud_source_by_default(a: AnswersView)
    requires
        a.source_engine is None,
        a.source_version is None,
    ensures
        files_for(a)[1].body == files_for(
            (AnswersView {
                source_engine: Some(SourceEngine::Elasticsearch),
                source_version: Some("7.10.2"@),
                ..a
            }),
        )[1].body,
{
}

/// A managed domain is asked for in the first two numbers of the version that was chosen.
pub proof fn law_the_domain_has_the_chosen_version(
    a: AnswersView,
    major: Seq<char>,
    minor: Seq<char>,
    patch: Seq<char>,
)
    requires
        a.target_mode == Some(TargetMode::Provision),
        a.target_kind != Some(TargetKind::AossServerlessNextGen),
        a.target_version == Some(major + seq!['.'] + minor + seq!['.'] + patch),
        forall|i: int| 0 <= i < major.len() ==> #[trigger] major[i] != '.',
        forall|i: int| 0 <= i < minor.len() ==> #[trigger] minor[i] != '.',
    ensures
        contains(
            files_for(a).last().body,
            "engine_version = \"OpenSearch_"@ + (major + seq!['.'] + minor) + "\"\n"@,
        ),
{
    law_major_minor_keeps_two_numbers(major, minor, patch);
    law_the_target_is_what_was_chosen(a);
    let (h, t) = (TARGET_HEAD@, TARGET_TAIL@);
    reveal_strlit(r#"# Target: a managed Amazon OpenSearch Service domain.
resource "aws_opensearch_domain" "target" {
  domain_name    = "${var.prefix}-target"
  engine_version = "OpenSearch_"#);
    reveal_strlit(r#""

  cluster_config {
    instance_type  = "r6g.large.search"
    instance_count = 2
  }

  ebs_options {
    ebs_enabled = true
    volume_size = 50
  }
}

output "target_endpoint" {
  value = aws_opensearch_domain.target.endpoint
}
"#);
    reveal_strlit("engine_version = \"OpenSearch_");
    reveal_strlit("\"\n");
    assert(h.skip(142) =~= "engine_version = \"OpenSearch_"@);
    assert(t.take(2) =~= "\"\n"@);
    let v = major + seq!['.'] + minor;
    lemma_spanning(seq![], h, v, t, 142, 2);
    assert(seq![] + h + v + t =~= h + v + t);
}

/// The provider works in the region that was chosen, `us-east-1` where none is, and with the profile
/// that was chosen, `default` where none is.
pub proof fn law_the_provider_has_the_chosen_region(a: AnswersView)
    ensures
        contains(
            files_for(a)[0].body,
            "default = \""@ + (match a.aws_region {
                Some(r) => r,
                None => "us-east-1"@,
            }) + "\"\n"@,
        ),
        contains(
            files_for(a)[0].body,
            "  profile = \""@ + (match a.aws_profile {
                Some(p) => p,
                None => "default"@,
            }) + "\"\n"@,
        ),
{
    law_the_provider_follows_the_plan(a);
    let (h, t) = (PROVIDERS_REGION@, PROVIDERS_TAIL@);
    reveal_strlit(r#"}

variable "region" {
  type    = string
  default = ""#);
    reveal_strlit(r#""
}

variable "prefix" {
  type    = string
  default = "ma-demo"
}
"#);
    reveal_strlit("default = \"");
    reveal_strlit("\"\n");
    assert(h.skip(44) =~= "default = \""@);
    assert(t.take(2) =~= "\"\n"@);
    lemma_spanning(
        PROVIDERS_HEAD@ + profile_setting(Some(a.profile())),
        h,
        a.region(),
        t,
        44,
        2,
    );
}

/// A serverless target is asked for under the name that it is later looked for by, with policies for
/// that name, and its data is given to the caller only.
pub proof fn law_the_collection_has_its_name(a: AnswersView)
    requires
        a.target_mode == Some(TargetMode::Provision),
        a.target_kind == Some(TargetKind::AossServerlessNextGen),
    ensures
        ({
            let body = files_for(a).last().body;
            let name = "ma-demo"@ + "-target"@;
            &&& contains(body, "name             = \""@ + name + "\"\n"@)
            &&& contains(body, encryption_policy(name))
            &&& contains(body, network_policy(name))
            &&& contains(body, access_policy(name, CALLER_ARN@))
        }),
{
    broadcast use group_contains;

    law_the_target_is_what_was_chosen(a);
    let name = target_cluster_name();
    let (h, t) = (COLLECTION_NAME@, COLLECTION_TAIL@);
    reveal_strlit(r#"" "target" {
  name             = ""#);
    reveal_strlit(r#""
  type             = "SEARCH"
  standby_replicas = "ENABLED"
  depends_on = [
    aws_opensearchserverless_security_policy.encryption,
    aws_opensearchserverless_security_policy.network,
    aws_opensearchserverless_access_policy.data,
  ]
}

output "target_endpoint" {
  value = aws_opensearchserverless_collection.target.collection_endpoint
}

data "aws_caller_identity" "current" {}
"#);
    reveal_strlit("name             = \"");
    reveal_strlit("\"\n");
    assert(h.skip(15) =~= "name             = \""@);
    assert(t.take(2) =~= "\"\n"@);
    lemma_spanning(COLLECTION_HEAD@ + COLLECTION@, h, name, t, 15, 2);
    assert(contains(target_collection_text(name), encryption_policy(name)));
}

/// Of a version with two or more numbers the first two are kept, and doing so again changes nothing.
pub proof fn law_major_minor_keeps_two_numbers(
    major: Seq<char>,
    minor: Seq<char>,
    rest: Seq<char>,
)
    requires
        forall|i: int| 0 <= i < major.len() ==> #[trigger] major[i] != '.',
        forall|i: int| 0 <= i < minor.len() ==> #[trigger] minor[i] != '.',
    ensures
        major_minor_text(major + seq!['.'] + minor + seq!['.'] + rest) == major + seq!['.'] + minor,
        major_minor_text(major + seq!['.'] + minor) == major + seq!['.'] + minor,
{
    let dot = Sep::Is('.');
    reveal_strlit(".");
    assert("."@ =~= seq!['.']);
    lemma_one_piece(major, dot);
    lemma_one_piece(minor, dot);
    lemma_pieces_join(major, '.', minor, dot);
    let two = major + seq!['.'] + minor;
    assert(major.push('.') + minor =~= two);
    assert(pieces(two, dot) =~= seq![major, minor]);
    lemma_pieces_join(two, '.', rest, dot);
    let all = two + seq!['.'] + rest;
    assert(two.push('.') + rest =~= all);
    assert(pieces(all, dot)[0] == major && pieces(all, dot)[1] == minor);
}

/// Shortening a version twice is the same as shortening it once.
pub proof fn law_major_minor_is_idempotent(v: Seq<char>)
    ensures
        major_minor_text(major_minor_text(v)) == major_minor_text(v),
{
    let dot = Sep::Is('.');
    let p = pieces(v, dot);
    if p.len() >= 2 {
        assert forall|i: int| 0 <= i < p[0].len() implies #[trigger] p[0][i] != '.' by {
            law_pieces_hold_no_separator(v, dot, 0, i);
        }
        assert forall|i: int| 0 <= i < p[1].len() implies #[trigger] p[1][i] != '.' by {
            law_pieces_hold_no_separator(v, dot, 1, i);
        }
        law_major_minor_keeps_two_numbers(p[0], p[1], seq![]);
        reveal_strlit(".");
        assert("."@ =~= seq!['.']);
    }
}

/// Terraform is first made ready and then asked to apply, both in the directory of the files of the
/// workspace, and asks nothing back.
pub proof fn law_terraform_applies_the_files_of_the_workspace(dir: Seq<char>)
    ensures
        ({
            let e = application(dir);
            let place = "-chdir="@ + path_in(dir, "terraform"@);
            &&& e.len() == 2
            &&& e[0].program == "terraform"@ && e[0].args == seq![place, "init"@]
            &&& e[1].program == "terraform"@ && e[1].args == seq![
                place,
                "apply"@,
                "-auto-approve"@,
            ]
            &&& e[0].tolerated.len() == 0 && e[1].tolerated.len() == 0
        }),
{
}

} // verus!
