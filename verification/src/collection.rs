//! A serverless collection of the NextGen generation as the target.

use crate::errand::{add_errand, errand_views, Errand, ErrandView};
use crate::passages::{group_contains, lemma_spanning};
use crate::runner::lemma_passes;
use crate::text::{contains, str_texts};
use vstd::prelude::*;

verus! {

/// How often an unfinished collection is asked for before it is given up.
pub const MAX_POLLS: u64 = 60;

/// The policy that has AWS encrypt the collection with a key of its own.
pub open spec fn encryption_policy(name: Seq<char>) -> Seq<char> {
    "{\"Rules\":[{\"ResourceType\":\"collection\",\"Resource\":[\"collection/"@ + name
        + "\"]}],\"AWSOwnedKey\":true}"@
}

/// The policy that lets the collection be reached from outside AWS.
pub open spec fn network_policy(name: Seq<char>) -> Seq<char> {
    "[{\"Rules\":[{\"ResourceType\":\"collection\",\"Resource\":[\"collection/"@ + name
        + "\"]}],\"AllowFromPublic\":true}]"@
}

/// The policy that gives `arn`, and nobody else, the data of the collection.
pub open spec fn access_policy(name: Seq<char>, arn: Seq<char>) -> Seq<char> {
    "[{\"Rules\":[{\"ResourceType\":\"collection\",\"Resource\":[\"collection/"@ + name
        + "\"],\"Permission\":[\"aoss:*\"]},{\"ResourceType\":\"index\",\"Resource\":[\"index/"@ + name
        + "/*\"],\"Permission\":[\"aoss:*\"]}],\"Principal\":[\""@ + arn + "\"]}]"@
}

/// The policy that has AWS encrypt the collection with a key of its own.
pub fn encryption_policy_of(name: &str) -> (r: String)
    ensures
        r@ == encryption_policy(name@),
{
    "{\"Rules\":[{\"ResourceType\":\"collection\",\"Resource\":[\"collection/".to_string().concat(
        name,
    ).concat("\"]}],\"AWSOwnedKey\":true}")
}

/// The policy that lets the collection be reached from outside AWS.
pub fn network_policy_of(name: &str) -> (r: String)
    ensures
        r@ == network_policy(name@),
{
    "[{\"Rules\":[{\"ResourceType\":\"collection\",\"Resource\":[\"collection/".to_string().concat(
        name,
    ).concat("\"]}],\"AllowFromPublic\":true}]")
}

/// The policy that gives `arn`, and nobody else, the data of the collection.
pub fn access_policy_of(name: &str, arn: &str) -> (r: String)
    ensures
        r@ == access_policy(name@, arn@),
{
    "[{\"Rules\":[{\"ResourceType\":\"collection\",\"Resource\":[\"collection/".to_string().concat(
        name,
    ).concat(
        "\"],\"Permission\":[\"aoss:*\"]},{\"ResourceType\":\"index\",\"Resource\":[\"index/",
    ).concat(name).concat("/*\"],\"Permission\":[\"aoss:*\"]}],\"Principal\":[\"").concat(arn).concat(
        "\"]}]",
    )
}

/// One command of the control plane. What is there already is kept.
pub open spec fn control(
    title: Seq<char>,
    verb: Seq<char>,
    more: Seq<Seq<char>>,
    profile: Seq<char>,
    region: Seq<char>,
) -> ErrandView {
    ErrandView {
        tolerated: "ConflictException"@,
        ..ErrandView::plain(
            title,
            "aws"@,
            seq!["opensearchserverless"@, verb] + more + seq![
                "--profile"@,
                profile,
                "--region"@,
                region,
            ],
        )
    }
}

/// What provisions a collection: its group with standby replicas, the policies for encryption,
/// network and data, and then the collection.
pub open spec fn provisioning(
    name: Seq<char>,
    profile: Seq<char>,
    region: Seq<char>,
    arn: Seq<char>,
) -> Seq<ErrandView> {
    seq![
        control(
            "create collection group "@ + name,
            "create-collection-group"@,
            seq![
                "--name"@,
                name,
                "--generation"@,
                "NEXTGEN"@,
                "--standby-replicas"@,
                "ENABLED"@,
            ],
            profile,
            region,
        ),
        control(
            "create encryption policy "@ + name,
            "create-security-policy"@,
            seq![
                "--name"@,
                name,
                "--type"@,
                "encryption"@,
                "--policy"@,
                encryption_policy(name),
            ],
            profile,
            region,
        ),
        control(
            "create network policy "@ + name,
            "create-security-policy"@,
            seq!["--name"@, name, "--type"@, "network"@, "--policy"@, network_policy(name)],
            profile,
            region,
        ),
        control(
            "create access policy "@ + name,
            "create-access-policy"@,
            seq!["--name"@, name, "--type"@, "data"@, "--policy"@, access_policy(name, arn)],
            profile,
            region,
        ),
        control(
            "create collection "@ + name,
            "create-collection"@,
            seq!["--name"@, name, "--type"@, "SEARCH"@, "--collection-group-name"@, name],
            profile,
            region,
        ),
    ]
}

fn control_errand(
    title: &str,
    name: &str,
    verb: &str,
    more: &[&str; 6],
    profile: &str,
    region: &str,
) -> (r: Errand)
    ensures
        r@ == control(title@ + name@, verb@, str_texts(more@), profile@, region@),
{
    let args: [&str; 12] = [
        "opensearchserverless",
        verb,
        more[0],
        more[1],
        more[2],
        more[3],
        more[4],
        more[5],
        "--profile",
        profile,
        "--region",
        region,
    ];
    assert(str_texts(args@) =~= seq!["opensearchserverless"@, verb@] + str_texts(more@) + seq![
        "--profile"@,
        profile@,
        "--region"@,
        region@,
    ]);
    Errand::new(title.to_string().concat(name).as_str(), "aws", &args).tolerating(
        "ConflictException",
    )
}

/// What provisions a collection: its group with standby replicas, the policies for encryption,
/// network and data, and then the collection.
pub fn collection_errands(name: &str, profile: &str, region: &str, arn: &str) -> (r: Vec<Errand>)
    ensures
        errand_views(r@) == provisioning(name@, profile@, region@, arn@),
{
    let encryption = encryption_policy_of(name);
    let network = network_policy_of(name);
    let access = access_policy_of(name, arn);
    let group: [&str; 6] = [
        "--name",
        name,
        "--generation",
        "NEXTGEN",
        "--standby-replicas",
        "ENABLED",
    ];
    let encrypted: [&str; 6] = [
        "--name",
        name,
        "--type",
        "encryption",
        "--policy",
        encryption.as_str(),
    ];
    let reached: [&str; 6] = ["--name", name, "--type", "network", "--policy", network.as_str()];
    let granted: [&str; 6] = ["--name", name, "--type", "data", "--policy", access.as_str()];
    let search: [&str; 6] = [
        "--name",
        name,
        "--type",
        "SEARCH",
        "--collection-group-name",
        name,
    ];
    let ghost want = provisioning(name@, profile@, region@, arn@);
    let mut r: Vec<Errand> = Vec::new();
    assert(errand_views(r@) =~= want.take(0));
    assert(str_texts(group@) =~= seq![
        "--name"@,
        name@,
        "--generation"@,
        "NEXTGEN"@,
        "--standby-replicas"@,
        "ENABLED"@,
    ]);
    add_errand(
        &mut r,
        control_errand(
            "create collection group ",
            name,
            "create-collection-group",
            &group,
            profile,
            region,
        ),
    );
    assert(errand_views(r@) =~= want.take(1));
    assert(str_texts(encrypted@) =~= seq![
        "--name"@,
        name@,
        "--type"@,
        "encryption"@,
        "--policy"@,
        encryption_policy(name@),
    ]);
    add_errand(
        &mut r,
        control_errand(
            "create encryption policy ",
            name,
            "create-security-policy",
            &encrypted,
            profile,
            region,
        ),
    );
    assert(errand_views(r@) =~= want.take(2));
    assert(str_texts(reached@) =~= seq![
        "--name"@,
        name@,
        "--type"@,
        "network"@,
        "--policy"@,
        network_policy(name@),
    ]);
    add_errand(
        &mut r,
        control_errand(
            "create network policy ",
            name,
            "create-security-policy",
            &reached,
            profile,
            region,
        ),
    );
    assert(errand_views(r@) =~= want.take(3));
    assert(str_texts(granted@) =~= seq![
        "--name"@,
        name@,
        "--type"@,
        "data"@,
        "--policy"@,
        access_policy(name@, arn@),
    ]);
    add_errand(
        &mut r,
        control_errand(
            "create access policy ",
            name,
            "create-access-policy",
            &granted,
            profile,
            region,
        ),
    );
    assert(errand_views(r@) =~= want.take(4));
    assert(str_texts(search@) =~= seq![
        "--name"@,
        name@,
        "--type"@,
        "SEARCH"@,
        "--collection-group-name"@,
        name@,
    ]);
    add_errand(
        &mut r,
        control_errand("create collection ", name, "create-collection", &search, profile, region),
    );
    assert(errand_views(r@) =~= want);
    r
}

/// The collection is created last, after its group and its policies, and only the caller is given
/// its data.
pub proof fn law_the_collection_is_created_last(
    name: Seq<char>,
    profile: Seq<char>,
    region: Seq<char>,
    arn: Seq<char>,
)
    ensures
        ({
            let errands = provisioning(name, profile, region, arn);
            &&& errands.len() == 5
            &&& errands[4].args[1] == "create-collection"@
            &&& errands[3].args[7] == access_policy(name, arn)
            &&& forall|i: int|
                0 <= i < 5 ==> (#[trigger] errands[i]).program == "aws"@ && errands[i].args[2]
                    == "--name"@ && errands[i].args[3] == name
        }),
{
}

/// Every command for a collection goes to the profile and the region that it is given, names the
/// collection, and keeps what is there already. The policies are for that collection, and the one for
/// its data is for the caller; the collection joins its own group, of the NextGen generation.
pub proof fn law_a_collection_is_provisioned_where_it_should_be(
    name: Seq<char>,
    profile: Seq<char>,
    region: Seq<char>,
    arn: Seq<char>,
    i: int,
)
    requires
        0 <= i < provisioning(name, profile, region, arn).len(),
    ensures
        ({
            let e = provisioning(name, profile, region, arn);
            &&& e[i].program == "aws"@
            &&& e[i].call().passes("--profile"@, profile)
            &&& e[i].call().passes("--region"@, region)
            &&& e[i].call().passes("--name"@, name)
            &&& e[i].tolerated == "ConflictException"@
            &&& e[0].args[1] == "create-collection-group"@
            &&& e[0].call().passes("--generation"@, "NEXTGEN"@)
            &&& e[0].call().passes("--standby-replicas"@, "ENABLED"@)
            &&& e[1].call().passes("--type"@, "encryption"@)
            &&& e[2].call().passes("--type"@, "network"@)
            &&& e[3].call().passes("--type"@, "data"@)
            &&& e[4].call().passes("--type"@, "SEARCH"@)
            &&& e[4].call().passes("--collection-group-name"@, name)
            &&& contains(e[1].args[7], "\"collection/"@ + name + "\""@)
            &&& contains(e[2].args[7], "\"collection/"@ + name + "\""@)
            &&& contains(e[3].args[7], "\"collection/"@ + name + "\""@)
            &&& contains(e[3].args[7], "\"Principal\":[\""@ + arn + "\"]"@)
        }),
{
    let e = provisioning(name, profile, region, arn);
    lemma_controls(name, profile, region, arn, i);
    lemma_passes(e[i].call(), 8, "--profile"@, profile);
    lemma_passes(e[i].call(), 10, "--region"@, region);
    lemma_passes(e[i].call(), 2, "--name"@, name);
    lemma_passes(e[0].call(), 4, "--generation"@, "NEXTGEN"@);
    lemma_passes(e[0].call(), 6, "--standby-replicas"@, "ENABLED"@);
    lemma_passes(e[1].call(), 4, "--type"@, "encryption"@);
    lemma_passes(e[2].call(), 4, "--type"@, "network"@);
    lemma_passes(e[3].call(), 4, "--type"@, "data"@);
    lemma_passes(e[4].call(), 4, "--type"@, "SEARCH"@);
    lemma_passes(e[4].call(), 6, "--collection-group-name"@, name);
    lemma_policies(name, arn);
}

proof fn lemma_controls(
    name: Seq<char>,
    profile: Seq<char>,
    region: Seq<char>,
    arn: Seq<char>,
    i: int,
)
    requires
        0 <= i < provisioning(name, profile, region, arn).len(),
    ensures
        ({
            let e = provisioning(name, profile, region, arn)[i];
            &&& e.program == "aws"@
            &&& e.tolerated == "ConflictException"@
            &&& e.args.len() == 12
            &&& e.args[2] == "--name"@ && e.args[3] == name
            &&& e.args[8] == "--profile"@ && e.args[9] == profile
            &&& e.args[10] == "--region"@ && e.args[11] == region
        }),
{
}

proof fn lemma_policies(name: Seq<char>, arn: Seq<char>)
    ensures
        contains(encryption_policy(name), "\"collection/"@ + name + "\""@),
        contains(network_policy(name), "\"collection/"@ + name + "\""@),
        contains(access_policy(name, arn), "\"collection/"@ + name + "\""@),
        contains(access_policy(name, arn), "\"Principal\":[\""@ + arn + "\"]"@),
{
    broadcast use group_contains;

    let a = "{\"Rules\":[{\"ResourceType\":\"collection\",\"Resource\":[\"collection/"@;
    let b = "[{\"Rules\":[{\"ResourceType\":\"collection\",\"Resource\":[\"collection/"@;
    let c = "\"]}],\"AWSOwnedKey\":true}"@;
    let d = "\"]}],\"AllowFromPublic\":true}]"@;
    let f = "\"],\"Permission\":[\"aoss:*\"]},{\"ResourceType\":\"index\",\"Resource\":[\"index/"@;
    let g = "/*\"],\"Permission\":[\"aoss:*\"]}],\"Principal\":[\""@;
    let h = "\"]}]"@;
    reveal_strlit("{\"Rules\":[{\"ResourceType\":\"collection\",\"Resource\":[\"collection/");
    reveal_strlit("[{\"Rules\":[{\"ResourceType\":\"collection\",\"Resource\":[\"collection/");
    reveal_strlit("\"]}],\"AWSOwnedKey\":true}");
    reveal_strlit("\"]}],\"AllowFromPublic\":true}]");
    reveal_strlit(
        "\"],\"Permission\":[\"aoss:*\"]},{\"ResourceType\":\"index\",\"Resource\":[\"index/",
    );
    reveal_strlit("/*\"],\"Permission\":[\"aoss:*\"]}],\"Principal\":[\"");
    reveal_strlit("\"]}]");
    reveal_strlit("\"collection/");
    reveal_strlit("\"");
    reveal_strlit("\"Principal\":[\"");
    reveal_strlit("\"]");
    let k = "\"collection/"@.len() as int;
    let e = Seq::<char>::empty();
    assert(a.skip(a.len() - k) =~= "\"collection/"@);
    assert(b.skip(b.len() - k) =~= "\"collection/"@);
    assert(c.take(1) =~= "\""@ && d.take(1) =~= "\""@ && f.take(1) =~= "\""@);
    assert(e + a + name + c =~= encryption_policy(name));
    assert(e + b + name + d =~= network_policy(name));
    assert(e + b + name + f =~= b + name + f);
    lemma_spanning(e, a, name, c, a.len() - k, 1);
    lemma_spanning(e, b, name, d, b.len() - k, 1);
    lemma_spanning(e, b, name, f, b.len() - k, 1);
    let p = "\"Principal\":[\""@.len() as int;
    assert(g.skip(g.len() - p) =~= "\"Principal\":[\""@);
    assert(h.take(2) =~= "\"]"@);
    lemma_spanning(b + name + f + name, g, arn, h, g.len() - p, 2);
}

} // verus!
