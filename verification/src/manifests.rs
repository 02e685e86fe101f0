//! The Kubernetes manifests and cluster configurations of a local environment.

use crate::model::{Answers, AnswersView, ClientApp, SourceEngine};
use crate::passages::{
    group_contains, lemma_between, lemma_contains_in_back, lemma_contains_itself, lemma_last_three,
};
use crate::plan::{node_port, service_text, source_node_port, source_service_name};
use crate::text::{
    contains, decimal, lemma_contains_in_longer, lemma_contains_middle, number, texts,
};
use crate::util::{indent, indented, quoted, yaml_quote};
use vstd::prelude::*;

verus! {

/// The namespace that everything runs in.
pub const NAMESPACE: &'static str = "ma-demo";

/// The indices that the sample documents go to.
pub const SEED_INDICES: [&'static str; 3] = ["demo-logs", "demo-users", "demo-products"];

/// The port that every search service listens on inside its cluster.
pub const SEARCH_PORT: u64 = 9200;

// ---------------------------------------------------------------------------
// Building blocks
// ---------------------------------------------------------------------------

/// How an object of a kind starts.
pub open spec fn head_text(api: Seq<char>, kind: Seq<char>, name: Seq<char>) -> Seq<char> {
    "apiVersion:"@ + " "@ + api + "\n"@ + "kind:"@ + " "@ + kind + "\nmetadata:\n  name: "@ + name
        + "\n"@
}

/// How an object of a kind starts.
fn head(api: &str, kind: &str, name: &str) -> (r: String)
    ensures
        r@ == head_text(api@, kind@, name@),
{
    "apiVersion:".to_string().concat(" ").concat(api).concat("\n").concat("kind:").concat(
        " ",
    ).concat(kind).concat("\nmetadata:\n  name: ").concat(name).concat("\n")
}

/// The line that puts an object into the namespace.
pub open spec fn in_namespace() -> Seq<char> {
    "  namespace: "@ + NAMESPACE@ + "\n"@
}

fn in_ns() -> (r: String)
    ensures
        r@ == in_namespace(),
{
    "  namespace: ".to_string().concat(NAMESPACE).concat("\n")
}

/// A service that forwards its port to the pods of the application of the same name; with a node
/// port it can be reached from outside the cluster too.
pub open spec fn service_yaml(name: Seq<char>, port: nat, to: nat, node: Option<nat>) -> Seq<
    char,
> {
    let start = head_text("v1"@, "Service"@, name) + in_namespace() + "spec:\n"@ + (
    if node is Some {
        "  type: NodePort\n"@
    } else {
        ""@
    }) + "  selector:\n    app: "@ + name + "\n  ports:\n    - name: http\n      port: "@
        + decimal(port) + "\n      targetPort: "@ + decimal(to) + "\n"@;
    match node {
        Some(n) => start + "      nodePort: "@ + decimal(n) + "\n"@,
        None => start,
    }
}

fn service(name: &str, port: u64, to: u64, node: Option<u64>) -> (r: String)
    ensures
        r@ == service_yaml(
            name@,
            port as nat,
            to as nat,
            match node {
                Some(n) => Some(n as nat),
                None => None,
            },
        ),
{
    let kind = if node.is_some() {
        "  type: NodePort\n"
    } else {
        ""
    };
    let start = head("v1", "Service", name).concat(in_ns().as_str()).concat("spec:\n").concat(
        kind,
    ).concat("  selector:\n    app: ").concat(name).concat(
        "\n  ports:\n    - name: http\n      port: ",
    ).concat(number(port).as_str()).concat("\n      targetPort: ").concat(
        number(to).as_str(),
    ).concat("\n");
    match node {
        Some(n) => start.concat("      nodePort: ").concat(number(n).as_str()).concat("\n"),
        None => start,
    }
}

/// The part of a workload that selects its pods and starts their template.
pub open spec fn pods_yaml(name: Seq<char>) -> Seq<char> {
    "  selector:\n    matchLabels:\n      app: "@ + name
        + "\n  template:\n    metadata:\n      labels:\n        app: "@ + name
        + "\n    spec:\n      containers:\n        - name: "@ + name + "\n"@
}

fn pods(name: &str) -> (r: String)
    ensures
        r@ == pods_yaml(name@),
{
    "  selector:\n    matchLabels:\n      app: ".to_string().concat(name).concat(
        "\n  template:\n    metadata:\n      labels:\n        app: ",
    ).concat(name).concat("\n    spec:\n      containers:\n        - name: ").concat(name).concat(
        "\n",
    )
}

/// A deployment of one pod that runs `image`.
pub open spec fn deployment_yaml(name: Seq<char>, image: Seq<char>) -> Seq<char> {
    head_text("apps/v1"@, "Deployment"@, name) + in_namespace() + "spec:\n  replicas: 1\n"@
        + pods_yaml(name) + "          image: "@ + image + "\n"@
}

fn deployment(name: &str, image: &str) -> (r: String)
    ensures
        r@ == deployment_yaml(name@, image@),
{
    head("apps/v1", "Deployment", name).concat(in_ns().as_str()).concat(
        "spec:\n  replicas: 1\n",
    ).concat(pods(name).as_str()).concat("          image: ").concat(image).concat("\n")
}

/// A stateful set of one pod that runs `image`, so that the pod has a name that is known.
pub open spec fn stateful_yaml(name: Seq<char>, image: Seq<char>) -> Seq<char> {
    head_text("apps/v1"@, "StatefulSet"@, name) + in_namespace() + "spec:\n  serviceName: "@ + name
        + "\n  replicas: 1\n"@ + pods_yaml(name) + "          image: "@ + image + "\n"@
}

fn stateful(name: &str, image: &str) -> (r: String)
    ensures
        r@ == stateful_yaml(name@, image@),
{
    head("apps/v1", "StatefulSet", name).concat(in_ns().as_str()).concat(
        "spec:\n  serviceName: ",
    ).concat(name).concat("\n  replicas: 1\n").concat(pods(name).as_str()).concat(
        "          image: ",
    ).concat(image).concat("\n")
}

/// What stands between two objects of one manifest.
pub const DIVIDER: &'static str = "---\n";

// ---------------------------------------------------------------------------
// Clusters, namespace, snapshot storage
// ---------------------------------------------------------------------------

/// The configuration of a cluster whose node port is reached under a port of the host.
pub open spec fn kind_config_text(name: Seq<char>, host_port: nat, port: nat) -> Seq<char> {
    "kind: Cluster\napiVersion: kind.x-k8s.io/v1alpha4\nname: "@ + name
        + "\nnodes:\n  - role: control-plane\n    extraPortMappings:\n      - "@
        + "containerPort: "@ + decimal(port) + "\n        "@ + "hostPort: "@ + decimal(host_port)
        + "\n        protocol: TCP\n"@
}

/// The configuration of a cluster whose node port is reached under a port of the host.
pub fn kind_config(name: &str, host_port: u64, port: u64) -> (r: String)
    ensures
        r@ == kind_config_text(name@, host_port as nat, port as nat),
{
    "kind: Cluster\napiVersion: kind.x-k8s.io/v1alpha4\nname: ".to_string().concat(name).concat(
        "\nnodes:\n  - role: control-plane\n    extraPortMappings:\n      - ",
    ).concat("containerPort: ").concat(number(port).as_str()).concat("\n        ").concat(
        "hostPort: ",
    ).concat(number(host_port).as_str()).concat("\n        protocol: TCP\n")
}

/// The namespace that everything runs in.
pub open spec fn namespace_text() -> Seq<char> {
    head_text("v1"@, "Namespace"@, NAMESPACE@)
}

/// The namespace that everything runs in.
pub fn namespace() -> (r: String)
    ensures
        r@ == namespace_text(),
{
    head("v1", "Namespace", NAMESPACE)
}

/// The simulated S3 of a local environment.
pub open spec fn localstack_text() -> Seq<char> {
    service_yaml("localstack"@, 4566, 4566, None) + DIVIDER@ + deployment_yaml(
        "localstack"@,
        "localstack/localstack:3.8"@,
    )
        + "          env:\n            - name: SERVICES\n              value: s3\n          ports:\n            - containerPort: 4566\n"@
}

/// The simulated S3 of a local environment.
pub fn localstack() -> (r: String)
    ensures
        r@ == localstack_text(),
{
    service("localstack", 4566, 4566, None).concat(DIVIDER).concat(
        deployment("localstack", "localstack/localstack:3.8").as_str(),
    ).concat(
        "          env:\n            - name: SERVICES\n              value: s3\n          ports:\n            - containerPort: 4566\n",
    )
}

// ---------------------------------------------------------------------------
// The source
// ---------------------------------------------------------------------------

/// The image of an engine.
pub open spec fn image_text(engine: SourceEngine, version: Seq<char>) -> Seq<char> {
    match engine {
        SourceEngine::Elasticsearch => "docker.elastic.co/elasticsearch/elasticsearch:"@ + version,
        SourceEngine::OpenSearch => "opensearchproject/opensearch:"@ + version,
        SourceEngine::Solr => "solr:"@ + version,
    }
}

/// The image of an engine.
pub fn image(engine: SourceEngine, version: &str) -> (r: String)
    ensures
        r@ == image_text(engine, version@),
{
    match engine {
        SourceEngine::Elasticsearch => "docker.elastic.co/elasticsearch/elasticsearch:",
        SourceEngine::OpenSearch => "opensearchproject/opensearch:",
        SourceEngine::Solr => "solr:",
    }.to_string().concat(version)
}

/// The environment of a single node without security.
pub open spec fn engine_env(engine: SourceEngine) -> Seq<char> {
    match engine {
        SourceEngine::Elasticsearch => "          env:\n            - name: discovery.type\n              value: single-node\n            - name: xpack.security.enabled\n              value: \"false\"\n"@,
        SourceEngine::OpenSearch => "          env:\n            - name: discovery.type\n              value: single-node\n            - name: DISABLE_SECURITY_PLUGIN\n              value: \"true\"\n"@,
        SourceEngine::Solr => ""@,
    }
}

fn env_of(engine: SourceEngine) -> (r: &'static str)
    ensures
        r@ == engine_env(engine),
{
    match engine {
        SourceEngine::Elasticsearch => "          env:\n            - name: discovery.type\n              value: single-node\n            - name: xpack.security.enabled\n              value: \"false\"\n",
        SourceEngine::OpenSearch => "          env:\n            - name: discovery.type\n              value: single-node\n            - name: DISABLE_SECURITY_PLUGIN\n              value: \"true\"\n",
        SourceEngine::Solr => "",
    }
}

/// The port that an engine listens on in its container.
pub open spec fn engine_port(engine: SourceEngine) -> u64 {
    match engine {
        SourceEngine::Solr => 8983,
        _ => 9200,
    }
}

/// The port that an engine listens on in its container.
pub fn container_port(engine: SourceEngine) -> (r: u64)
    ensures
        r == engine_port(engine),
{
    match engine {
        SourceEngine::Solr => 8983,
        _ => 9200,
    }
}

/// The command that installs one plugin.
pub open spec fn install_text(engine: SourceEngine) -> Seq<char> {
    match engine {
        SourceEngine::Elasticsearch => "elasticsearch-plugin install --batch "@,
        _ => "opensearch-plugin install --batch "@,
    }
}

/// The command that starts the engine as its image does.
pub open spec fn entrypoint_text(engine: SourceEngine) -> Seq<char> {
    match engine {
        SourceEngine::Elasticsearch => "exec /usr/local/bin/docker-entrypoint.sh eswrapper"@,
        _ => "exec ./opensearch-docker-entrypoint.sh opensearch"@,
    }
}

/// The commands that install plugins, one after the other.
pub open spec fn installs(engine: SourceEngine, plugins: Seq<Seq<char>>) -> Seq<char>
    decreases plugins.len(),
{
    if plugins.len() == 0 {
        ""@
    } else {
        installs(engine, plugins.drop_last()) + install_text(engine) + plugins.last() + " && "@
    }
}

/// The line that makes a container install its plugins before the engine starts. Without plugins the
/// image starts as it is, and so does Solr, whose extras are configured and not installed.
pub open spec fn boot_text(engine: SourceEngine, plugins: Seq<Seq<char>>) -> Seq<char> {
    if plugins.len() == 0 || engine == SourceEngine::Solr {
        ""@
    } else {
        "          "@ + "command: [\"sh\", \"-c\","@ + " "@ + quoted(
            installs(engine, plugins) + entrypoint_text(engine),
        ) + "]\n"@
    }
}

fn boot(engine: SourceEngine, plugins: &Vec<String>) -> (r: String)
    ensures
        r@ == boot_text(engine, texts(plugins@)),
{
    if plugins.len() == 0 || engine == SourceEngine::Solr {
        return "".to_string();
    }
    let install = match engine {
        SourceEngine::Elasticsearch => "elasticsearch-plugin install --batch ",
        _ => "opensearch-plugin install --batch ",
    };
    let entrypoint = match engine {
        SourceEngine::Elasticsearch => "exec /usr/local/bin/docker-entrypoint.sh eswrapper",
        _ => "exec ./opensearch-docker-entrypoint.sh opensearch",
    };
    let ghost all = texts(plugins@);
    let mut script: String = "".to_string();
    assert(all.take(0) =~= seq![]);
    for i in 0..plugins.len()
        invariant
            all == texts(plugins@),
            install@ == install_text(engine),
            script@ == installs(engine, all.take(i as int)),
    {
        assert(all.take(i + 1).drop_last() =~= all.take(i as int));
        script.append(install);
        script.append(plugins[i].as_str());
        script.append(" && ");
    }
    assert(all.take(all.len() as int) =~= all);
    script.append(entrypoint);
    "          ".to_string().concat("command: [\"sh\", \"-c\",").concat(" ").concat(
        yaml_quote(script.as_str()).as_str(),
    ).concat("]\n")
}

/// The version of the source, `7.10.2` while none is chosen.
pub open spec fn source_version_of(a: AnswersView) -> Seq<char> {
    match a.source_version {
        Some(v) => v,
        None => "7.10.2"@,
    }
}

/// The line that publishes the port of a container.
pub open spec fn port_yaml(port: nat) -> Seq<char> {
    "          ports:\n            - containerPort: "@ + decimal(port) + "\n"@
}

/// The source: its service, and the engine with its plugins behind it.
pub open spec fn source_text(a: AnswersView) -> Seq<char> {
    let e = a.engine();
    let name = service_text(e);
    let img = image_text(e, source_version_of(a));
    service_yaml(name, SEARCH_PORT as nat, engine_port(e) as nat, Some(node_port(e) as nat))
        + DIVIDER@ + (if e == SourceEngine::Solr {
        deployment_yaml(name, img)
    } else {
        stateful_yaml(name, img)
    }) + boot_text(e, a.source_plugins) + engine_env(e) + port_yaml(engine_port(e) as nat)
}

/// The source: its service, and the engine with its plugins behind it.
pub fn source(a: &Answers) -> (r: String)
    ensures
        r@ == source_text(a@),
{
    let e = a.engine_or_default();
    let name = source_service_name(e);
    let version = match &a.source_version {
        Some(v) => v.as_str(),
        None => "7.10.2",
    };
    let img = image(e, version);
    let workload = if e == SourceEngine::Solr {
        deployment(name, img.as_str())
    } else {
        stateful(name, img.as_str())
    };
    let ports = "          ports:\n            - containerPort: ".to_string().concat(
        number(container_port(e)).as_str(),
    ).concat("\n");
    service(name, SEARCH_PORT, container_port(e), Some(source_node_port(e))).concat(DIVIDER).concat(
        workload.as_str(),
    ).concat(boot(e, &a.source_plugins).as_str()).concat(env_of(e)).concat(ports.as_str())
}

// ---------------------------------------------------------------------------
// The target
// ---------------------------------------------------------------------------

/// The service of a local target.
pub const TARGET_SERVICE: &'static str = "target-opensearch";

/// The target: its service, and OpenSearch behind it.
pub open spec fn target_text(version: Seq<char>) -> Seq<char> {
    service_yaml(TARGET_SERVICE@, SEARCH_PORT as nat, 9200, Some(30920)) + DIVIDER@ + stateful_yaml(
        TARGET_SERVICE@,
        image_text(SourceEngine::OpenSearch, version),
    ) + engine_env(SourceEngine::OpenSearch) + port_yaml(9200)
}

/// The target: its service, and OpenSearch behind it.
pub fn target(version: &str) -> (r: String)
    ensures
        r@ == target_text(version@),
{
    let img = image(SourceEngine::OpenSearch, version);
    let ports = "          ports:\n            - containerPort: ".to_string().concat(
        number(9200).as_str(),
    ).concat("\n");
    service(TARGET_SERVICE, SEARCH_PORT, 9200, Some(30920)).concat(DIVIDER).concat(
        stateful(TARGET_SERVICE, img.as_str()).as_str(),
    ).concat(env_of(SourceEngine::OpenSearch)).concat(ports.as_str())
}

// ---------------------------------------------------------------------------
// Client applications
// ---------------------------------------------------------------------------

/// What Locust does, in a loop.
pub const LOCUSTFILE: &'static str = "from locust import HttpUser, task, between\n\nclass SearchUser(HttpUser):\n    wait_time = between(0.5, 2)\n\n    @task(3)\n    def search(self):\n        self.client.get(\"/demo-*/_search?size=5\")\n\n    @task(1)\n    def count(self):\n        self.client.get(\"/demo-logs/_count\")\n";

/// The load generator: its script, and Locust that runs it against `host`.
pub open spec fn locust_text(host: Seq<char>) -> Seq<char> {
    head_text("v1"@, "ConfigMap"@, "locust-script"@) + in_namespace()
        + "data:\n  locustfile.py: |\n"@ + indented(LOCUSTFILE@, 4) + "\n"@ + DIVIDER@
        + deployment_yaml("locust"@, "locustio/locust:2.31.3"@)
        + "          args: [\"-f\", \"/locust/locustfile.py\", \"--headless\", \"-u\", \"10\", \"-r\", \"2\", \"--host\", \"http://"@
        + host + ":"@ + decimal(SEARCH_PORT as nat)
        + "\"]\n          volumeMounts:\n            - name: script\n              mountPath: /locust\n      volumes:\n        - name: script\n          configMap:\n            name: locust-script\n"@
}

fn locust(host: &str) -> (r: String)
    ensures
        r@ == locust_text(host@),
{
    head("v1", "ConfigMap", "locust-script").concat(in_ns().as_str()).concat(
        "data:\n  locustfile.py: |\n",
    ).concat(indent(LOCUSTFILE, 4).as_str()).concat("\n").concat(DIVIDER).concat(
        deployment("locust", "locustio/locust:2.31.3").as_str(),
    ).concat(
        "          args: [\"-f\", \"/locust/locustfile.py\", \"--headless\", \"-u\", \"10\", \"-r\", \"2\", \"--host\", \"http://",
    ).concat(host).concat(":").concat(number(SEARCH_PORT).as_str()).concat(
        "\"]\n          volumeMounts:\n            - name: script\n              mountPath: /locust\n      volumes:\n        - name: script\n          configMap:\n            name: locust-script\n",
    )
}

/// The sample application: a loop of representative queries against `host`.
pub open spec fn sample_app_text(host: Seq<char>) -> Seq<char> {
    deployment_yaml("sample-search-app"@, "curlimages/curl:8.10.1"@)
        + "          env:\n            - name: SEARCH_URL\n              value: \"http://"@ + host
        + ":"@ + decimal(SEARCH_PORT as nat)
        + "\"\n          command: [\"sh\", \"-c\", \"while true; do curl -s $SEARCH_URL/demo-products/_search; sleep 5; done\"]\n"@
}

fn sample_app(host: &str) -> (r: String)
    ensures
        r@ == sample_app_text(host@),
{
    deployment("sample-search-app", "curlimages/curl:8.10.1").concat(
        "          env:\n            - name: SEARCH_URL\n              value: \"http://",
    ).concat(host).concat(":").concat(number(SEARCH_PORT).as_str()).concat(
        "\"\n          command: [\"sh\", \"-c\", \"while true; do curl -s $SEARCH_URL/demo-products/_search; sleep 5; done\"]\n",
    )
}

/// The manifest of a client application that uses `host`.
pub open spec fn client_text(c: ClientApp, host: Seq<char>) -> Seq<char> {
    match c {
        ClientApp::Locust => locust_text(host),
        ClientApp::SampleSearchApp => sample_app_text(host),
    }
}

/// The manifests of client applications, each with its name.
pub open spec fn clients_texts(clients: Seq<ClientApp>, host: Seq<char>) -> Seq<
    (Seq<char>, Seq<char>),
> {
    clients.map_values(|c: ClientApp| (c.id_text(), client_text(c, host)))
}

/// What each pair of a name and a body holds.
pub open spec fn pair_texts(v: Seq<(&'static str, String)>) -> Seq<(Seq<char>, Seq<char>)> {
    v.map_values(|p: (&'static str, String)| (p.0@, p.1@))
}

/// The manifests of the chosen client applications, each with its name.
pub fn client_manifests(a: &Answers, host: &str) -> (r: Vec<(&'static str, String)>)
    ensures
        pair_texts(r@) == clients_texts(a@.clients, host@),
{
    let mut r: Vec<(&'static str, String)> = Vec::new();
    for i in 0..a.clients.len()
        invariant
            r@.len() == i,
            forall|j: int|
                0 <= j < i ==> (#[trigger] r@[j]).0@ == a.clients@[j].id_text() && r@[j].1@
                    == client_text(a.clients@[j], host@),
    {
        let c = a.clients[i];
        let body = match c {
            ClientApp::Locust => locust(host),
            ClientApp::SampleSearchApp => sample_app(host),
        };
        r.push((c.id(), body));
    }
    assert(pair_texts(r@) =~= clients_texts(a@.clients, host@));
    r
}

// ---------------------------------------------------------------------------
// Sample data
// ---------------------------------------------------------------------------

/// Where the documents of an index are posted.
pub open spec fn bulk_url(host: Seq<char>, index: Seq<char>) -> Seq<char> {
    "http://"@ + host + ":9200/"@ + index + "/_bulk"@
}

/// The line of the loader's script that loads `n` documents into one index.
pub open spec fn load_line(host: Seq<char>, index: Seq<char>, n: nat) -> Seq<char> {
    "              for i in $(seq 1 "@ + decimal(n)
        + "); do printf '{\"index\":{}}\\n{\"id\":%d}\\n' $i; done | curl -fsS -H 'Content-Type: application/x-ndjson' --data-binary @- "@
        + bulk_url(host, index) + "\n"@
}

fn load(host: &str, index: &str, n: u64) -> (r: String)
    ensures
        r@ == load_line(host@, index@, n as nat),
{
    let url = "http://".to_string().concat(host).concat(":9200/").concat(index).concat("/_bulk");
    "              for i in $(seq 1 ".to_string().concat(number(n).as_str()).concat(
        "); do printf '{\"index\":{}}\\n{\"id\":%d}\\n' $i; done | curl -fsS -H 'Content-Type: application/x-ndjson' --data-binary @- ",
    ).concat(url.as_str()).concat("\n")
}

/// The job that loads sample documents into every seed index of `host`.
pub open spec fn data_seed_text(host: Seq<char>) -> Seq<char> {
    head_text("batch/v1"@, "Job"@, "data-seed"@) + in_namespace()
        + "spec:\n  backoffLimit: 6\n  template:\n    spec:\n      restartPolicy: OnFailure\n      containers:\n        - name: data-seed\n          image: "@
        + "curlimages/curl:8.10.1"@
        + "\n          command:\n            - sh\n            - -c\n            - |\n              set -e\n"@
        + load_line(host, SEED_INDICES@[0]@, 500) + load_line(host, SEED_INDICES@[1]@, 200)
        + load_line(host, SEED_INDICES@[2]@, 150)
}

/// The job that loads sample documents into every seed index of `host`.
pub fn data_seed_job(host: &str) -> (r: String)
    ensures
        r@ == data_seed_text(host@),
{
    head("batch/v1", "Job", "data-seed").concat(in_ns().as_str()).concat(
        "spec:\n  backoffLimit: 6\n  template:\n    spec:\n      restartPolicy: OnFailure\n      containers:\n        - name: data-seed\n          image: ",
    ).concat("curlimages/curl:8.10.1").concat(
        "\n          command:\n            - sh\n            - -c\n            - |\n              set -e\n",
    ).concat(load(host, SEED_INDICES[0], 500).as_str()).concat(
        load(host, SEED_INDICES[1], 200).as_str(),
    ).concat(load(host, SEED_INDICES[2], 150).as_str())
}

// ---------------------------------------------------------------------------
// What holds of every manifest
// ---------------------------------------------------------------------------

/// Whether a text says which kind of object it describes, and in which version.
#[verifier::opaque]
pub open spec fn structured(s: Seq<char>) -> bool {
    contains(s, "apiVersion:"@) && contains(s, "kind:"@)
}

proof fn lemma_structured(api: Seq<char>, kind: Seq<char>, name: Seq<char>)
    ensures
        structured(head_text(api, kind, name)),
{
    reveal(structured);
    let all = head_text(api, kind, name);
    let tail = " "@ + kind + "\nmetadata:\n  name: "@ + name + "\n"@;
    let front = "apiVersion:"@ + " "@ + api + "\n"@;
    assert(all =~= front + "kind:"@ + tail);
    lemma_contains_middle(front, "kind:"@, tail);
    let after = " "@ + api + "\n"@ + "kind:"@ + tail;
    assert(all =~= seq![] + "apiVersion:"@ + after);
    lemma_contains_middle(seq![], "apiVersion:"@, after);
}

broadcast proof fn lemma_structured_longer(s: Seq<char>, rest: Seq<char>)
    requires
        structured(s),
    ensures
        #[trigger] structured(s + rest),
{
    reveal(structured);
    lemma_contains_in_longer(seq![], s, rest, "apiVersion:"@);
    lemma_contains_in_longer(seq![], s, rest, "kind:"@);
    assert(seq![] + s + rest =~= s + rest);
}

proof fn lemma_structured_service(name: Seq<char>, port: nat, to: nat, node: Option<nat>)
    ensures
        structured(service_yaml(name, port, to, node)),
{
    broadcast use lemma_structured_longer;

    lemma_structured("v1"@, "Service"@, name);
}

/// Every manifest names the version and the kind of what it describes.
pub proof fn law_every_manifest_is_structured(
    a: AnswersView,
    version: Seq<char>,
    c: ClientApp,
    host: Seq<char>,
)
    ensures
        structured(namespace_text()),
        structured(localstack_text()),
        structured(source_text(a)),
        structured(target_text(version)),
        structured(client_text(c, host)),
        structured(data_seed_text(host)),
{
    broadcast use lemma_structured_longer;

    let e = a.engine();
    let port = SEARCH_PORT as nat;
    lemma_structured("v1"@, "Namespace"@, NAMESPACE@);
    lemma_structured_service("localstack"@, 4566, 4566, None);
    lemma_structured_service(
        service_text(e),
        port,
        engine_port(e) as nat,
        Some(node_port(e) as nat),
    );
    lemma_structured_service(TARGET_SERVICE@, port, 9200, Some(30920));
    lemma_structured("v1"@, "ConfigMap"@, "locust-script"@);
    lemma_structured("apps/v1"@, "Deployment"@, "sample-search-app"@);
    lemma_structured("batch/v1"@, "Job"@, "data-seed"@);
}

/// A client application is told the host that it is to use.
pub proof fn law_clients_use_their_host(c: ClientApp, host: Seq<char>)
    ensures
        contains(client_text(c, host), host),
{
    let t = client_text(c, host);
    let front = match c {
        ClientApp::Locust => head_text("v1"@, "ConfigMap"@, "locust-script"@) + in_namespace()
            + "data:\n  locustfile.py: |\n"@ + indented(LOCUSTFILE@, 4) + "\n"@ + DIVIDER@
            + deployment_yaml("locust"@, "locustio/locust:2.31.3"@)
            + "          args: [\"-f\", \"/locust/locustfile.py\", \"--headless\", \"-u\", \"10\", \"-r\", \"2\", \"--host\", \"http://"@,
        ClientApp::SampleSearchApp => deployment_yaml(
            "sample-search-app"@,
            "curlimages/curl:8.10.1"@,
        ) + "          env:\n            - name: SEARCH_URL\n              value: \"http://"@,
    };
    let n = front.len() + host.len();
    let back = t.skip(n as int);
    assert(t =~= front + host + back);
    lemma_contains_middle(front, host, back);
}

/// The seed job loads every seed index.
pub proof fn law_every_seed_index_is_loaded(host: Seq<char>, i: int)
    requires
        0 <= i < 3,
    ensures
        contains(data_seed_text(host), bulk_url(host, SEED_INDICES@[i]@)),
{
    let l0 = load_line(host, SEED_INDICES@[0]@, 500);
    let l1 = load_line(host, SEED_INDICES@[1]@, 200);
    let l2 = load_line(host, SEED_INDICES@[2]@, 150);
    let d = data_seed_text(host);
    let n = (d.len() - l0.len() - l1.len() - l2.len()) as int;
    let front = d.take(n);
    assert(d =~= front + l0 + l1 + l2);
    let (before, line, after, count) = if i == 0 {
        (front, l0, l1 + l2, 500nat)
    } else if i == 1 {
        (front + l0, l1, l2, 200nat)
    } else {
        (front + l0 + l1, l2, Seq::<char>::empty(), 150nat)
    };
    let url = bulk_url(host, SEED_INDICES@[i]@);
    let pre = "              for i in $(seq 1 "@ + decimal(count)
        + "); do printf '{\"index\":{}}\\n{\"id\":%d}\\n' $i; done | curl -fsS -H 'Content-Type: application/x-ndjson' --data-binary @- "@;
    assert(line =~= pre + url + "\n"@);
    lemma_contains_middle(pre, url, "\n"@);
    assert(d =~= before + line + after);
    lemma_contains_in_longer(before, line, after, url);
}

/// A cluster is reached under the port of the host that it was given.
pub proof fn law_clusters_map_their_ports(name: Seq<char>, host_port: nat, port: nat)
    ensures
        contains(kind_config_text(name, host_port, port), "hostPort: "@ + decimal(host_port)),
        contains(kind_config_text(name, host_port, port), "containerPort: "@ + decimal(port)),
{
    let t = kind_config_text(name, host_port, port);
    let front = "kind: Cluster\napiVersion: kind.x-k8s.io/v1alpha4\nname: "@ + name
        + "\nnodes:\n  - role: control-plane\n    extraPortMappings:\n      - "@;
    let inner = "containerPort: "@ + decimal(port);
    let outer = "hostPort: "@ + decimal(host_port);
    let end = "\n        protocol: TCP\n"@;
    assert(t =~= front + inner + ("\n        "@ + outer + end));
    lemma_contains_middle(front, inner, "\n        "@ + outer + end);
    assert(t =~= (front + inner + "\n        "@) + outer + end);
    lemma_contains_middle(front + inner + "\n        "@, outer, end);
}

/// The line of a workload that says which image runs.
pub open spec fn image_line(image: Seq<char>) -> Seq<char> {
    "          image: "@ + image + "\n"@
}

proof fn lemma_image_line(name: Seq<char>, image: Seq<char>)
    ensures
        contains(deployment_yaml(name, image), image_line(image)),
        contains(stateful_yaml(name, image), image_line(image)),
{
    lemma_last_three(
        head_text("apps/v1"@, "Deployment"@, name) + in_namespace() + "spec:\n  replicas: 1\n"@
            + pods_yaml(name),
        "          image: "@,
        image,
        "\n"@,
    );
    lemma_last_three(
        head_text("apps/v1"@, "StatefulSet"@, name) + in_namespace() + "spec:\n  serviceName: "@
            + name + "\n  replicas: 1\n"@ + pods_yaml(name),
        "          image: "@,
        image,
        "\n"@,
    );
}

/// The lines of a service that say where it is reached: under its port inside the cluster, at the
/// port of the pods, and under a port of the node.
pub open spec fn reached_lines(port: nat, to: nat, node: nat) -> Seq<char> {
    "\n  ports:\n    - name: http\n      port: "@ + decimal(port) + "\n      targetPort: "@ + decimal(
        to,
    ) + "\n"@ + "      nodePort: "@ + decimal(node) + "\n"@
}

/// The lines of a service that say whose pods it forwards to.
pub open spec fn selects(name: Seq<char>) -> Seq<char> {
    "  selector:\n    app: "@ + name
}

proof fn lemma_service_lines(name: Seq<char>, port: nat, to: nat, node: nat)
    ensures
        contains(service_yaml(name, port, to, Some(node)), reached_lines(port, to, node)),
        contains(service_yaml(name, port, to, Some(node)), selects(name)),
        contains(service_yaml(name, port, to, Some(node)), "  type: NodePort\n"@),
{
    let all = service_yaml(name, port, to, Some(node));
    let front = head_text("v1"@, "Service"@, name) + in_namespace() + "spec:\n"@
        + "  type: NodePort\n"@;
    let lines = reached_lines(port, to, node);
    assert(all =~= front + selects(name) + lines);
    lemma_contains_itself(lines);
    lemma_contains_in_back(front + selects(name), lines, lines);
    lemma_contains_middle(front, selects(name), lines);
    let head = head_text("v1"@, "Service"@, name) + in_namespace() + "spec:\n"@;
    assert(all =~= head + "  type: NodePort\n"@ + (selects(name) + lines));
    lemma_contains_middle(head, "  type: NodePort\n"@, selects(name) + lines);
}

/// A local target runs OpenSearch in the version that it is given, without security, and is reached
/// as the target service. Manifests for different versions differ.
pub proof fn law_the_target_runs_its_version(version: Seq<char>, other: Seq<char>)
    ensures
        contains(
            target_text(version),
            "          image: "@ + ("opensearchproject/opensearch:"@ + version) + "\n"@,
        ),
        contains(target_text(version), selects("target-opensearch"@)),
        contains(target_text(version), reached_lines(9200, 9200, 30920)),
        contains(target_text(version), engine_env(SourceEngine::OpenSearch)),
        version != other ==> target_text(version) != target_text(other),
{
    broadcast use group_contains;

    let image = "opensearchproject/opensearch:"@ + version;
    lemma_image_line("target-opensearch"@, image);
    lemma_service_lines("target-opensearch"@, 9200, 9200, 30920);
    let front = service_yaml(TARGET_SERVICE@, 9200, 9200, Some(30920)) + DIVIDER@ + (head_text(
        "apps/v1"@,
        "StatefulSet"@,
        TARGET_SERVICE@,
    ) + in_namespace() + "spec:\n  serviceName: "@ + TARGET_SERVICE@ + "\n  replicas: 1\n"@ + pods_yaml(
        TARGET_SERVICE@,
    ) + "          image: "@ + "opensearchproject/opensearch:"@);
    let back = "\n"@ + engine_env(SourceEngine::OpenSearch) + port_yaml(9200);
    assert(target_text(version) =~= front + version + back);
    assert(target_text(other) =~= front + other + back);
    if target_text(version) == target_text(other) {
        lemma_between(front, version, other, back);
    }
}

/// The image that an engine runs in, by its published name.
pub open spec fn published_image(e: SourceEngine, version: Seq<char>) -> Seq<char> {
    (if e == SourceEngine::Solr {
        "solr:"@
    } else if e == SourceEngine::OpenSearch {
        "opensearchproject/opensearch:"@
    } else {
        "docker.elastic.co/elasticsearch/elasticsearch:"@
    }) + version
}

/// The source runs the engine that was chosen in the version that was chosen, is reached as the
/// service of that engine, at the port that the engine listens on, and has its security off.
pub proof fn law_the_source_runs_the_chosen_engine(
    a: AnswersView,
    e: SourceEngine,
    version: Seq<char>,
)
    requires
        a.source_engine == Some(e),
        a.source_version == Some(version),
    ensures
        contains(
            source_text(a),
            "          image: "@ + published_image(e, version) + "\n"@,
        ),
        contains(
            source_text(a),
            selects(
                if e == SourceEngine::Solr {
                    "source-solr"@
                } else if e == SourceEngine::OpenSearch {
                    "source-opensearch"@
                } else {
                    "source-elasticsearch"@
                },
            ),
        ),
        contains(
            source_text(a),
            if e == SourceEngine::Solr {
                reached_lines(9200, 8983, 30983)
            } else {
                reached_lines(9200, 9200, 30920)
            },
        ),
        contains(
            source_text(a),
            if e == SourceEngine::Solr {
                "          ports:\n            - containerPort: "@ + decimal(8983) + "\n"@
            } else {
                "          ports:\n            - containerPort: "@ + decimal(9200) + "\n"@
            },
        ),
        e == SourceEngine::Elasticsearch ==> contains(
            source_text(a),
            "          env:\n            - name: discovery.type\n              value: single-node\n            - name: xpack.security.enabled\n              value: \"false\"\n"@,
        ),
        e == SourceEngine::OpenSearch ==> contains(
            source_text(a),
            "          env:\n            - name: discovery.type\n              value: single-node\n            - name: DISABLE_SECURITY_PLUGIN\n              value: \"true\"\n"@,
        ),
{
    broadcast use group_contains;

    let image = published_image(e, version);
    assert(image == image_text(e, version));
    lemma_image_line(service_text(e), image);
    lemma_service_lines(
        service_text(e),
        9200,
        engine_port(e) as nat,
        node_port(e) as nat,
    );
}

/// A command that installs a plugin into an engine.
pub open spec fn installs_plugin(e: SourceEngine, plugin: Seq<char>) -> Seq<char> {
    (if e == SourceEngine::Elasticsearch {
        "elasticsearch-plugin install --batch "@
    } else {
        "opensearch-plugin install --batch "@
    }) + plugin + " && "@
}

proof fn lemma_installs(e: SourceEngine, plugins: Seq<Seq<char>>, i: int)
    requires
        0 <= i < plugins.len(),
        e != SourceEngine::Solr,
    ensures
        contains(installs(e, plugins), installs_plugin(e, plugins[i])),
    decreases plugins.len(),
{
    broadcast use group_contains;

    let front = installs(e, plugins.drop_last());
    if i == plugins.len() - 1 {
        assert(installs(e, plugins) =~= front + installs_plugin(e, plugins[i]));
    } else {
        lemma_installs(e, plugins.drop_last(), i);
        assert(plugins.drop_last()[i] == plugins[i]);
    }
}

/// Every plugin that was chosen is installed before the engine starts as its image starts it; a
/// source without plugins, and Solr, starts as its image does.
pub proof fn law_the_source_installs_its_plugins(a: AnswersView, e: SourceEngine, i: int)
    requires
        a.source_engine == Some(e),
        e != SourceEngine::Solr,
        0 <= i < a.source_plugins.len(),
    ensures
        exists|script: Seq<char>|
            #![trigger quoted(script)]
            contains(
                source_text(a),
                "          "@ + "command: [\"sh\", \"-c\","@ + " "@ + quoted(script) + "]\n"@,
            ) && contains(script, installs_plugin(e, a.source_plugins[i])) && script.len()
                >= entrypoint_text(e).len() && script.skip(
                script.len() - entrypoint_text(e).len(),
            ) == (if e == SourceEngine::Elasticsearch {
                "exec /usr/local/bin/docker-entrypoint.sh eswrapper"@
            } else {
                "exec ./opensearch-docker-entrypoint.sh opensearch"@
            }),
{
    broadcast use group_contains;

    let script = installs(e, a.source_plugins) + entrypoint_text(e);
    lemma_installs(e, a.source_plugins, i);
    assert(script.skip(script.len() - entrypoint_text(e).len()) =~= entrypoint_text(e));
    assert(contains(script, installs_plugin(e, a.source_plugins[i])));
    assert(contains(source_text(a), boot_text(e, a.source_plugins)));
    assert(quoted(script) == quoted(script));
}

/// A source that installs nothing has no command of its own.
pub proof fn law_no_plugins_no_command(a: AnswersView, b: AnswersView)
    requires
        a.source_engine == b.source_engine,
        a.source_version == b.source_version,
        a.source_plugins.len() == 0,
        b.source_plugins.len() == 0 || b.source_engine == Some(SourceEngine::Solr),
    ensures
        source_text(a) == source_text(b),
{
}

/// A client application runs its published image and is sent to the search port of its host.
pub proof fn law_clients_are_sent_to_the_source(c: ClientApp, host: Seq<char>)
    ensures
        contains(client_text(c, host), "http://"@ + host + ":"@ + decimal(9200)),
        contains(
            client_text(c, host),
            image_line(
                if c == ClientApp::Locust {
                    "locustio/locust:2.31.3"@
                } else {
                    "curlimages/curl:8.10.1"@
                },
            ),
        ),
{
    broadcast use group_contains;

    let url = "http://"@ + host + ":"@ + decimal(9200);
    lemma_image_line("locust"@, "locustio/locust:2.31.3"@);
    lemma_image_line("sample-search-app"@, "curlimages/curl:8.10.1"@);
    reveal_strlit("http://");
    if c == ClientApp::Locust {
        let args = "          args: [\"-f\", \"/locust/locustfile.py\", \"--headless\", \"-u\", \"10\", \"-r\", \"2\", \"--host\", \"http://"@;
        reveal_strlit(
            "          args: [\"-f\", \"/locust/locustfile.py\", \"--headless\", \"-u\", \"10\", \"-r\", \"2\", \"--host\", \"http://",
        );
        let n = (args.len() - 7) as int;
        assert(args.skip(n) =~= "http://"@);
        let t = client_text(c, host);
        let front = head_text("v1"@, "ConfigMap"@, "locust-script"@) + in_namespace()
            + "data:\n  locustfile.py: |\n"@ + indented(LOCUSTFILE@, 4) + "\n"@ + DIVIDER@
            + deployment_yaml("locust"@, "locustio/locust:2.31.3"@);
        let back = t.skip((front + args + host + ":"@ + decimal(9200)).len() as int);
        assert(t =~= (front + args.take(n)) + url + back) by {
            assert(args =~= args.take(n) + "http://"@);
            assert(t =~= front + args + host + ":"@ + decimal(9200) + back);
        }
        lemma_contains_middle(front + args.take(n), url, back);
    } else {
        let env = "          env:\n            - name: SEARCH_URL\n              value: \"http://"@;
        reveal_strlit(
            "          env:\n            - name: SEARCH_URL\n              value: \"http://",
        );
        let n = (env.len() - 7) as int;
        assert(env.skip(n) =~= "http://"@);
        let t = client_text(c, host);
        let front = deployment_yaml("sample-search-app"@, "curlimages/curl:8.10.1"@);
        let back = t.skip((front + env + host + ":"@ + decimal(9200)).len() as int);
        assert(t =~= (front + env.take(n)) + url + back) by {
            assert(env =~= env.take(n) + "http://"@);
            assert(t =~= front + env + host + ":"@ + decimal(9200) + back);
        }
        lemma_contains_middle(front + env.take(n), url, back);
    }
}

/// The simulated S3 is reached at its one port, runs its published image and serves S3.
pub proof fn law_the_simulated_s3_serves_s3()
    ensures
        contains(localstack_text(), image_line("localstack/localstack:3.8"@)),
        contains(localstack_text(), selects("localstack"@)),
{
    broadcast use group_contains;

    lemma_image_line("localstack"@, "localstack/localstack:3.8"@);
    let all = service_yaml("localstack"@, 4566, 4566, None);
    let front = head_text("v1"@, "Service"@, "localstack"@) + in_namespace() + "spec:\n"@ + ""@;
    let back = "\n  ports:\n    - name: http\n      port: "@ + decimal(4566)
        + "\n      targetPort: "@ + decimal(4566) + "\n"@;
    assert(all =~= front + selects("localstack"@) + back);
    lemma_contains_middle(front, selects("localstack"@), back);
}

} // verus!
