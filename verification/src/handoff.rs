//! Handing over to a Migration Assistant that runs in a KIND cluster of its own.

use crate::app::{context_text, kube_context};
use crate::errand::{add_errand, errand_views, Errand, ErrandView};
use crate::model::{ma_cluster_name, Answers};
use crate::plan::MA_NAMESPACE;
use crate::runner::{command, lemma_passes};
use crate::text::{str_texts, texts};
use vstd::prelude::*;

verus! {

/// The image of the cluster's node: the chart needs this release of Kubernetes or a later one.
pub const MA_NODE_IMAGE: &'static str = "kindest/node:v1.35.0";

/// The name of the chart.
pub const MA_CHART: &'static str = "migrationAssistantWithArgo";

/// The name under which the chart is installed.
pub const MA_RELEASE: &'static str = "ma";

/// The settings that choose the images of the chart.
pub const MA_IMAGES: [&'static str; 4] = [
    "images.migrationConsole.repository=opensearchstaging/opensearch-migrations-console",
    "images.captureProxy.repository=opensearchstaging/opensearch-migrations-traffic-capture-proxy",
    "images.trafficReplayer.repository=opensearchstaging/opensearch-migrations-traffic-replayer",
    "images.reindexFromSnapshot.repository=opensearchstaging/opensearch-migrations-reindex-from-snapshot",
];

/// Makes the cluster; one that is there already is kept.
pub open spec fn make_cluster_errand() -> ErrandView {
    ErrandView {
        tolerated: "already exist"@,
        ..ErrandView::plain(
            "create KIND cluster "@ + ma_cluster_name(),
            "kind"@,
            seq![
                "create"@,
                "cluster"@,
                "--name"@,
                ma_cluster_name(),
                "--image"@,
                MA_NODE_IMAGE@,
            ],
        )
    }
}

/// Installs the chart, or brings it up to date.
pub open spec fn chart_errand(chart: Seq<char>) -> ErrandView {
    ErrandView::plain(
        "helm install of the Migration Assistant"@,
        "helm"@,
        seq![
            "--kube-context"@,
            context_text(ma_cluster_name()),
            "upgrade"@,
            "--install"@,
            "--create-namespace"@,
            "--namespace"@,
            MA_NAMESPACE@,
            MA_RELEASE@,
            chart,
            "--set"@,
            MA_IMAGES@[0]@,
            "--set"@,
            MA_IMAGES@[1]@,
            "--set"@,
            MA_IMAGES@[2]@,
            "--set"@,
            MA_IMAGES@[3]@,
        ],
    )
}

/// Waits for the console.
pub open spec fn console_errand() -> ErrandView {
    ErrandView::plain(
        "wait for the migration console"@,
        "kubectl"@,
        seq![
            "--context"@,
            context_text(ma_cluster_name()),
            "-n"@,
            MA_NAMESPACE@,
            "rollout"@,
            "status"@,
            "statefulset/migration-console"@,
            "--timeout=900s"@,
        ],
    )
}

/// What deploys the Migration Assistant: its cluster, the chart, and then its console is waited for.
pub open spec fn deployment(chart: Seq<char>) -> Seq<ErrandView> {
    seq![make_cluster_errand(), chart_errand(chart), console_errand()]
}

/// What deploys the Migration Assistant: its cluster, the chart, and then its console is waited for.
pub fn deploy_errands(chart: &str) -> (r: Vec<Errand>)
    ensures
        errand_views(r@) == deployment(chart@),
{
    let cluster = Answers::new().ma_cluster();
    let context = kube_context(cluster.as_str());
    let title = "create KIND cluster ".to_string().concat(cluster.as_str());
    let make: [&str; 6] = [
        "create",
        "cluster",
        "--name",
        cluster.as_str(),
        "--image",
        MA_NODE_IMAGE,
    ];
    let install: [&str; 17] = [
        "--kube-context",
        context.as_str(),
        "upgrade",
        "--install",
        "--create-namespace",
        "--namespace",
        MA_NAMESPACE,
        MA_RELEASE,
        chart,
        "--set",
        MA_IMAGES[0],
        "--set",
        MA_IMAGES[1],
        "--set",
        MA_IMAGES[2],
        "--set",
        MA_IMAGES[3],
    ];
    let wait: [&str; 8] = [
        "--context",
        context.as_str(),
        "-n",
        MA_NAMESPACE,
        "rollout",
        "status",
        "statefulset/migration-console",
        "--timeout=900s",
    ];
    assert(str_texts(make@) =~= make_cluster_errand().args);
    assert(str_texts(install@) =~= chart_errand(chart@).args);
    assert(str_texts(wait@) =~= console_errand().args);
    let mut r: Vec<Errand> = Vec::new();
    assert(errand_views(r@) =~= seq![]);
    add_errand(&mut r, Errand::new(title.as_str(), "kind", &make).tolerating("already exist"));
    add_errand(&mut r, Errand::new("helm install of the Migration Assistant", "helm", &install));
    add_errand(&mut r, Errand::new("wait for the migration console", "kubectl", &wait));
    assert(errand_views(r@) =~= deployment(chart@));
    r
}

/// The command line that opens a shell in the migration console.
pub open spec fn console_command() -> Seq<Seq<char>> {
    seq![
        "kubectl"@,
        "--context"@,
        context_text(ma_cluster_name()),
        "-n"@,
        MA_NAMESPACE@,
        "exec"@,
        "-it"@,
        "migration-console-0"@,
        "--"@,
        "/bin/bash"@,
    ]
}

/// The command line that opens a shell in the migration console.
pub fn console_argv() -> (r: Vec<String>)
    ensures
        texts(r@) == console_command(),
{
    let context = kube_context(Answers::new().ma_cluster().as_str());
    let r = vec![
        "kubectl".to_string(),
        "--context".to_string(),
        context,
        "-n".to_string(),
        MA_NAMESPACE.to_string(),
        "exec".to_string(),
        "-it".to_string(),
        "migration-console-0".to_string(),
        "--".to_string(),
        "/bin/bash".to_string(),
    ];
    assert(texts(r@) =~= console_command());
    r
}

/// The Migration Assistant is deployed into a cluster of its own: the cluster is made first, from the
/// node image that the chart needs, then the chart that was given is installed into it, and then its
/// console is waited for. The console that is opened is that of the same cluster.
pub proof fn law_the_assistant_has_a_cluster_of_its_own(chart: Seq<char>)
    ensures
        ({
            let errands = deployment(chart);
            let cluster = "ma-demo"@ + "-ma"@;
            let context = "kind-"@ + cluster;
            &&& errands.len() == 3
            &&& errands[0].program == "kind"@ && errands[0].args[0] == "create"@
            &&& errands[0].call().passes("--name"@, cluster)
            &&& errands[0].call().passes("--image"@, "kindest/node:v1.35.0"@)
            &&& errands[1].program == "helm"@
            &&& errands[1].call().passes("--kube-context"@, context)
            &&& errands[1].call().passes("--namespace"@, "ma"@)
            &&& errands[1].call().passes("ma"@, chart)
            &&& errands[1].call().passes("upgrade"@, "--install"@)
            &&& errands[1].call().passes("--install"@, "--create-namespace"@)
            &&& errands[1].args.len() == 17
            &&& forall|i: int|
                0 <= i < 4 ==> errands[1].args[9 + 2 * i] == "--set"@ && #[trigger] MA_IMAGES@[i]@
                    == errands[1].args[10 + 2 * i]
            &&& errands[2].program == "kubectl"@
            &&& errands[2].call().passes("--context"@, context)
            &&& errands[2].call().passes("-n"@, "ma"@)
            &&& errands[2].call().passes("rollout"@, "status"@)
            &&& errands[2].call().passes("status"@, "statefulset/migration-console"@)
            &&& errands[2].args.last() == "--timeout=900s"@
            &&& errands[0].tolerated == "already exist"@
            &&& errands[1].tolerated.len() == 0 && errands[2].tolerated.len() == 0
            &&& forall|i: int| 0 <= i < 3 ==> !(#[trigger] errands[i]).streaming
        }),
        ({
            let line = console_command();
            let call = command(line[0], line.skip(1));
            &&& call.program == "kubectl"@
            &&& call.passes("--context"@, "kind-"@ + ("ma-demo"@ + "-ma"@))
            &&& call.passes("-n"@, "ma"@)
            &&& call.passes("exec"@, "-it"@)
            &&& call.passes("-it"@, "migration-console-0"@)
            &&& call.passes("--"@, "/bin/bash"@)
        }),
{
    let e = deployment(chart);
    let cluster = "ma-demo"@ + "-ma"@;
    let context = "kind-"@ + cluster;
    lemma_passes(e[0].call(), 2, "--name"@, cluster);
    lemma_passes(e[0].call(), 4, "--image"@, "kindest/node:v1.35.0"@);
    lemma_passes(e[1].call(), 0, "--kube-context"@, context);
    lemma_passes(e[1].call(), 5, "--namespace"@, "ma"@);
    lemma_passes(e[1].call(), 7, "ma"@, chart);
    lemma_passes(e[2].call(), 0, "--context"@, context);
    lemma_passes(e[2].call(), 2, "-n"@, "ma"@);
    lemma_passes(e[1].call(), 2, "upgrade"@, "--install"@);
    lemma_passes(e[1].call(), 3, "--install"@, "--create-namespace"@);
    lemma_passes(e[2].call(), 4, "rollout"@, "status"@);
    lemma_passes(e[2].call(), 5, "status"@, "statefulset/migration-console"@);
    let line = console_command();
    let call = command(line[0], line.skip(1));
    assert(call.args[0] == line[1] && call.args[1] == line[2] && call.args[2] == line[3]);
    assert(call.args[3] == line[4] && call.args[5] == line[6] && call.args[6] == line[7]);
    lemma_passes(call, 0, "--context"@, context);
    lemma_passes(call, 2, "-n"@, "ma"@);
    assert(call.args[4] == line[5] && call.args[7] == line[8] && call.args[8] == line[9]);
    lemma_passes(call, 4, "exec"@, "-it"@);
    lemma_passes(call, 5, "-it"@, "migration-console-0"@);
    lemma_passes(call, 7, "--"@, "/bin/bash"@);
}

} // verus!
