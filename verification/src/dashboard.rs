//! The status dashboard: what is running, as far as the external tools can tell.
//!
//! [`probe`] asks a runner and puts what it learns into a [`Snapshot`]; what the dashboard shows is a
//! function of that snapshot. A tool that fails never makes a probe fail: what it would have told
//! is shown as pending or down.

use crate::app::{context_text, endpoint_in, kube_context, parse_aoss_endpoint};
use crate::aws::{account_in, caller_identity, identity_in, identity_query};
use crate::manifests::{NAMESPACE, SEED_INDICES, TARGET_SERVICE};
use crate::model::{
    law_cluster_names_are_distinct, ma_cluster_name, source_cluster_name, target_cluster_name,
    Answers, AnswersView, MaHandoff, SnapshotStorage, SourceEngine, Target, TargetKind, TargetMode,
};
use crate::passages::{
    group_contains, lemma_chomped, lemma_contains_beside, lemma_contains_itself,
    lemma_none_in_shorter, lemma_solid, lemma_where_a_char_stands, solid,
};
use crate::plan::{
    aoss_batch_get_args, collection_query, service_text, source_service_name, MA_NAMESPACE,
};
use crate::runner::{
    asks, command, grew, group_runner, lemma_passes, lemma_since, ran, since, Ask, CallView,
    CommandRunner, Event, Logged, OutputView,
};
use crate::styled::line;
use crate::text::{
    after, chomped, contains, decimal, digit, digit_run, find, first_at, has_part, has_text,
    is_digit, join_first, joined, law_join_then_split, law_number_reads_back,
    law_pieces_hold_no_separator, leading_digits, lemma_decimal, lemma_first_at, lemma_one_piece,
    lemma_pieces_join, lemma_pieces_len, lines, lines_of, nonempty, number, occurs_at, parse_number,
    parsed, pieces, same, split, str_texts, texts, trim, trimmed, white, words, words_of, Sep,
};
use crate::tui::{interrupts, is_ctrl_c, Key, KeyPress};
use vstd::prelude::*;

verus! {

broadcast use group_runner;

/// How a resource is doing.
#[derive(Debug, Clone, Copy, PartialEq, Eq, Structural)]
pub enum Health {
    /// It runs.
    Up,
    /// It is on its way.
    Pending,
    /// It cannot be reached, or has failed.
    Down,
    /// It is not part of the plan.
    NotApplicable,
}

impl Health {
    /// The sign for it.
    pub open spec fn glyph_text(self) -> Seq<char> {
        match self {
            Health::Up => "●"@,
            Health::Pending => "◐"@,
            Health::Down => "○"@,
            Health::NotApplicable => "·"@,
        }
    }

    /// The sign for it.
    pub fn glyph(self) -> (r: &'static str)
        ensures
            r@ == self.glyph_text(),
    {
        match self {
            Health::Up => "●",
            Health::Pending => "◐",
            Health::Down => "○",
            Health::NotApplicable => "·",
        }
    }
}

/// One resource on the dashboard.
#[derive(Debug, Clone, PartialEq, Eq)]
pub struct Row {
    pub label: String,
    pub health: Health,
    pub detail: String,
}

/// What a [`Row`] holds.
#[verifier::ext_equal]
pub struct RowView {
    pub label: Seq<char>,
    pub health: Health,
    pub detail: Seq<char>,
}

impl View for Row {
    type V = RowView;

    open spec fn view(&self) -> RowView {
        RowView { label: self.label@, health: self.health, detail: self.detail@ }
    }
}

/// A row of the dashboard.
pub open spec fn row(label: Seq<char>, health: Health, detail: Seq<char>) -> RowView {
    RowView { label, health, detail }
}

/// What each row of a list holds.
pub open spec fn row_views(v: Seq<Row>) -> Seq<RowView> {
    v.map_values(|r: Row| r@)
}

impl Row {
    /// A row of the dashboard.
    pub fn new(label: &str, health: Health, detail: &str) -> (r: Self)
        ensures
            r@ == row(label@, health, detail@),
    {
        Row { label: label.to_string(), health, detail: detail.to_string() }
    }
}

fn add_row(v: &mut Vec<Row>, r: Row)
    ensures
        row_views(final(v)@) == row_views(old(v)@).push(r@),
{
    let ghost before = row_views(v@);
    v.push(r);
    assert(row_views(v@) =~= before.push(r@));
}

fn only(r: Row) -> (v: Vec<Row>)
    ensures
        row_views(v@) == seq![r@],
{
    let v = vec![r];
    assert(row_views(v@) =~= seq![r@]);
    v
}

/// The environment at one instant.
#[derive(Debug, Clone, PartialEq, Eq)]
pub struct Snapshot {
    /// The clusters; for an environment in the cloud, the account.
    pub clusters: Vec<Row>,
    /// What runs in the source cluster.
    pub source_pods: Vec<Row>,
    /// The documents in each index of the source.
    pub indices: Vec<Row>,
    /// The target.
    pub target: Vec<Row>,
    /// The Migration Assistant.
    pub ma: Vec<Row>,
    /// How many probes came before.
    pub tick: u64,
    /// How often the dashboard was drawn.
    pub frame: u64,
}

/// What a [`Snapshot`] holds.
#[verifier::ext_equal]
pub struct SnapshotView {
    pub clusters: Seq<RowView>,
    pub source_pods: Seq<RowView>,
    pub indices: Seq<RowView>,
    pub target: Seq<RowView>,
    pub ma: Seq<RowView>,
    pub tick: u64,
    pub frame: u64,
}

impl View for Snapshot {
    type V = SnapshotView;

    open spec fn view(&self) -> SnapshotView {
        SnapshotView {
            clusters: row_views(self.clusters@),
            source_pods: row_views(self.source_pods@),
            indices: row_views(self.indices@),
            target: row_views(self.target@),
            ma: row_views(self.ma@),
            tick: self.tick,
            frame: self.frame,
        }
    }
}

impl Default for Snapshot {
    fn default() -> (r: Self)
        ensures
            r@ == (SnapshotView {
                clusters: seq![],
                source_pods: seq![],
                indices: seq![],
                target: seq![],
                ma: seq![],
                tick: 0,
                frame: 0,
            }),
    {
        let r = Snapshot {
            clusters: Vec::new(),
            source_pods: Vec::new(),
            indices: Vec::new(),
            target: Vec::new(),
            ma: Vec::new(),
            tick: 0,
            frame: 0,
        };
        assert(r@ =~= SnapshotView {
            clusters: seq![],
            source_pods: seq![],
            indices: seq![],
            target: seq![],
            ma: seq![],
            tick: 0,
            frame: 0,
        });
        r
    }
}

// ---------------------------------------------------------------------------
// The summary
// ---------------------------------------------------------------------------

/// How many rows are up.
pub open spec fn ups(rows: Seq<RowView>) -> nat
    decreases rows.len(),
{
    if rows.len() == 0 {
        0
    } else {
        ups(rows.drop_last()) + if rows.last().health == Health::Up {
            1nat
        } else {
            0
        }
    }
}

/// How many rows are part of the plan.
pub open spec fn wanted(rows: Seq<RowView>) -> nat
    decreases rows.len(),
{
    if rows.len() == 0 {
        0
    } else {
        wanted(rows.drop_last()) + if rows.last().health != Health::NotApplicable {
            1nat
        } else {
            0
        }
    }
}

/// The number that a detail starts with; 0 if it starts with none.
pub open spec fn leading_number(detail: Seq<char>) -> nat {
    let w = words_of(detail);
    if w.len() > 0 {
        match parsed(w[0]) {
            Some(n) => n as nat,
            None => 0,
        }
    } else {
        0
    }
}

/// How many documents the rows count together.
pub open spec fn documents(rows: Seq<RowView>) -> nat
    decreases rows.len(),
{
    if rows.len() == 0 {
        0
    } else {
        documents(rows.drop_last()) + leading_number(rows.last().detail)
    }
}

impl SnapshotView {
    /// Whether the numbers of the summary fit into a machine word.
    pub open spec fn countable(self) -> bool {
        &&& documents(self.indices) <= u64::MAX
        &&& self.clusters.len() + self.source_pods.len() + self.target.len() + self.ma.len()
            <= u64::MAX
    }

    /// How much is up, and how many documents there are.
    pub open spec fn summary_text(self) -> Seq<char> {
        decimal(ups(self.clusters) + ups(self.source_pods) + ups(self.target) + ups(self.ma))
            + "/"@ + decimal(
            wanted(self.clusters) + wanted(self.source_pods) + wanted(self.target) + wanted(
                self.ma,
            ),
        ) + " resources up · "@ + decimal(documents(self.indices)) + " docs seeded"@
    }
}

proof fn lemma_counts(rows: Seq<RowView>)
    ensures
        ups(rows) <= rows.len(),
        wanted(rows) <= rows.len(),
    decreases rows.len(),
{
    if rows.len() > 0 {
        lemma_counts(rows.drop_last());
    }
}

fn count(rows: &Vec<Row>) -> (r: (u64, u64))
    requires
        rows@.len() <= u64::MAX,
    ensures
        r.0 == ups(row_views(rows@)),
        r.1 == wanted(row_views(rows@)),
        r.0 <= rows@.len(),
        r.1 <= rows@.len(),
{
    let ghost all = row_views(rows@);
    let mut up: u64 = 0;
    let mut total: u64 = 0;
    for i in 0..rows.len()
        invariant
            all == row_views(rows@),
            rows@.len() <= u64::MAX,
            up == ups(all.take(i as int)),
            total == wanted(all.take(i as int)),
            up <= i,
            total <= i,
    {
        assert(all.take(i + 1).drop_last() =~= all.take(i as int));
        if rows[i].health == Health::Up {
            up = up + 1;
        }
        if rows[i].health != Health::NotApplicable {
            total = total + 1;
        }
    }
    assert(all.take(all.len() as int) =~= all);
    (up, total)
}

fn number_of(detail: &str) -> (r: u64)
    ensures
        r == leading_number(detail@),
{
    let w = words(detail);
    assert(texts(w@).len() == w@.len());
    if w.len() > 0 {
        assert(texts(w@)[0] == w@[0]@);
        match parse_number(w[0].as_str()) {
            Some(n) => n,
            None => 0,
        }
    } else {
        0
    }
}

proof fn lemma_documents_prefix(rows: Seq<RowView>, n: int)
    requires
        0 <= n <= rows.len(),
    ensures
        documents(rows.take(n)) <= documents(rows),
    decreases rows.len() - n,
{
    if n < rows.len() {
        lemma_documents_prefix(rows, n + 1);
        assert(rows.take(n + 1).drop_last() =~= rows.take(n));
    } else {
        assert(rows.take(n) =~= rows);
    }
}

fn count_documents(rows: &Vec<Row>) -> (r: Option<u64>)
    ensures
        r is Some <==> documents(row_views(rows@)) <= u64::MAX,
        r is Some ==> r->0 == documents(row_views(rows@)),
{
    let ghost all = row_views(rows@);
    let mut sum: u64 = 0;
    for i in 0..rows.len()
        invariant
            all == row_views(rows@),
            sum == documents(all.take(i as int)),
    {
        assert(all.take(i + 1).drop_last() =~= all.take(i as int));
        let n: u64 = number_of(rows[i].detail.as_str());
        proof {
            lemma_documents_prefix(all, i + 1);
        }
        if n > u64::MAX - sum {
            return None;
        }
        sum = sum + n;
    }
    assert(all.take(all.len() as int) =~= all);
    Some(sum)
}

impl Snapshot {
    /// Whether the numbers of the summary fit into a machine word.
    pub fn countable(&self) -> (r: bool)
        ensures
            r == self@.countable(),
    {
        let rows: u128 = self.clusters.len() as u128 + self.source_pods.len() as u128
            + self.target.len() as u128 + self.ma.len() as u128;
        count_documents(&self.indices).is_some() && rows <= u64::MAX as u128
    }

    /// How much is up, and how many documents there are.
    pub fn summary(&self) -> (r: String)
        requires
            self@.countable(),
        ensures
            r@ == self@.summary_text(),
    {
        let (u1, t1): (u64, u64) = count(&self.clusters);
        let (u2, t2): (u64, u64) = count(&self.source_pods);
        let (u3, t3): (u64, u64) = count(&self.target);
        let (u4, t4): (u64, u64) = count(&self.ma);
        let docs: u64 = match count_documents(&self.indices) {
            Some(n) => n,
            None => 0,
        };
        number(u1 + u2 + u3 + u4).concat("/").concat(number(t1 + t2 + t3 + t4).as_str()).concat(
            " resources up · ",
        ).concat(number(docs).as_str()).concat(" docs seeded")
    }
}

/// There are never more resources up than there are in the plan.
pub proof fn law_no_more_up_than_planned(rows: Seq<RowView>)
    ensures
        ups(rows) <= wanted(rows) <= rows.len(),
    decreases rows.len(),
{
    if rows.len() > 0 {
        law_no_more_up_than_planned(rows.drop_last());
    }
}

// ---------------------------------------------------------------------------
// Clusters and pods
// ---------------------------------------------------------------------------

/// The command that lists the clusters.
pub open spec fn clusters_query() -> CallView {
    command("kind"@, seq!["get"@, "clusters"@])
}

/// The cluster names in a list of lines.
pub open spec fn names_in(lines: Seq<Seq<char>>) -> Seq<Seq<char>>
    decreases lines.len(),
{
    if lines.len() == 0 {
        seq![]
    } else {
        let before = names_in(lines.drop_last());
        let name = trimmed(lines.last());
        if name.len() > 0 && !contains(name, "No kind clusters"@) {
            before.push(name)
        } else {
            before
        }
    }
}

/// The clusters that a reply lists; none if the command failed.
pub open spec fn clusters_in(out: OutputView) -> Seq<Seq<char>> {
    if out.ok() {
        names_in(lines_of(out.stdout))
    } else {
        seq![]
    }
}

fn list_clusters<R: CommandRunner>(runner: &mut Logged<R>) -> (r: Vec<String>)
    ensures
        old(runner).leads_to(*final(runner)),
        ran(old(runner).events(), final(runner).events(), clusters_query()),
        texts(r@) == clusters_in(final(runner).events().last().output()),
{
    let args: [&str; 2] = ["get", "clusters"];
    let out = runner.run("kind", &args);
    assert(str_texts(args@) =~= clusters_query().args);
    let mut r: Vec<String> = Vec::new();
    if !out.success() {
        assert(texts(r@) =~= seq![]);
        return r;
    }
    let ls = lines(out.stdout.as_str());
    let ghost all = texts(ls@);
    assert(texts(r@) =~= names_in(all.take(0)));
    for i in 0..ls.len()
        invariant
            all == texts(ls@),
            texts(r@) == names_in(all.take(i as int)),
    {
        let ghost before = texts(r@);
        assert(all.take(i + 1).drop_last() =~= all.take(i as int));
        let name = trim(ls[i].as_str());
        if name.unicode_len() > 0 && !has_part(name, "No kind clusters") {
            r.push(name.to_string());
            assert(texts(r@) =~= before.push(name@));
        }
    }
    assert(all.take(all.len() as int) =~= all);
    r
}

/// The row of a cluster: it is up if it is listed.
pub open spec fn cluster_row_of(
    label: Seq<char>,
    name: Seq<char>,
    existing: Seq<Seq<char>>,
) -> RowView {
    row(
        label,
        if existing.contains(name) {
            Health::Up
        } else {
            Health::Pending
        },
        name,
    )
}

fn cluster_row(label: &str, name: &str, existing: &Vec<String>) -> (r: Row)
    ensures
        r@ == cluster_row_of(label@, name@, texts(existing@)),
{
    let health = if has_text(existing, name) {
        Health::Up
    } else {
        Health::Pending
    };
    Row::new(label, health, name)
}

/// What stands before and after the first slash of `s`.
pub open spec fn halves(s: Seq<char>) -> Option<(Seq<char>, Seq<char>)> {
    match first_at(s, "/"@, 0) {
        Some(i) => Some((s.take(i), s.skip(i + 1))),
        None => None,
    }
}

fn split_at_slash<'a>(s: &'a str) -> (r: Option<(&'a str, &'a str)>)
    ensures
        r is Some <==> halves(s@) is Some,
        r is Some ==> (r->0).0@ == (halves(s@)->0).0 && (r->0).1@ == (halves(s@)->0).1,
{
    proof {
        reveal_strlit("/");
    }
    match find(s, "/") {
        Some(i) => {
            assert(s@.subrange(0, i as int) =~= s@.take(i as int));
            Some((s.substring_char(0, i), after(s, i + 1)))
        },
        None => None,
    }
}

/// Whether a pod is over, as a job's pod is in the end.
pub open spec fn finished(status: Seq<char>) -> bool {
    status == "Completed"@ || status == "Succeeded"@
}

/// How a pod is doing, given its READY and STATUS columns.
pub open spec fn health_of(ready: Seq<char>, status: Seq<char>) -> Health {
    if status == "Running"@ || finished(status) {
        let all_ready = match halves(ready) {
            Some((a, b)) => a == b && a != "0"@,
            None => false,
        };
        if all_ready || finished(status) {
            Health::Up
        } else {
            Health::Pending
        }
    } else if contains(status, "Error"@) || contains(status, "CrashLoop"@) || contains(
        status,
        "Failed"@,
    ) {
        Health::Down
    } else {
        Health::Pending
    }
}

/// How a pod is doing: up if it runs and all its containers are ready, or if it is over; down if it
/// failed.
pub fn pod_health(ready: &str, status: &str) -> (r: Health)
    ensures
        r == health_of(ready@, status@),
{
    let over = same(status, "Completed") || same(status, "Succeeded");
    if same(status, "Running") || over {
        if let Some((a, b)) = split_at_slash(ready) {
            if same(a, b) && !same(a, "0") {
                return Health::Up;
            }
        }
        if over {
            return Health::Up;
        }
        return Health::Pending;
    }
    if has_part(status, "Error") || has_part(status, "CrashLoop") || has_part(status, "Failed") {
        return Health::Down;
    }
    Health::Pending
}

/// Whether `s` consists of digits only, and has one.
pub open spec fn ordinal(s: Seq<char>) -> bool {
    s.len() > 0 && forall|i: int| 0 <= i < s.len() ==> digit(#[trigger] s[i])
}

/// Whether `c` may stand in a generated suffix.
pub open spec fn suffix_char(c: char) -> bool {
    'a' <= c <= 'z' || digit(c)
}

/// Whether a part of a pod's name is generated: five lower-case letters and digits, or eight to ten
/// of them with at least one digit.
pub open spec fn generated(s: Seq<char>) -> bool {
    &&& s.len() > 0
    &&& forall|i: int| 0 <= i < s.len() ==> suffix_char(#[trigger] s[i])
    &&& s.len() == 5 || (8 <= s.len() <= 10 && exists|i: int|
        0 <= i < s.len() && digit(#[trigger] s[i]))
}

/// How many of the first `end` parts are left when the generated ones at the end are dropped; the
/// first part always stays.
pub open spec fn kept(parts: Seq<Seq<char>>, end: int) -> int
    decreases end,
{
    if end > 1 && generated(parts[end - 1]) {
        kept(parts, end - 1)
    } else {
        end
    }
}

/// The name of a pod without what was generated. The name of a stateful set's pod, which ends in an
/// ordinal, is left as it is.
pub open spec fn short_name(name: Seq<char>) -> Seq<char> {
    let parts = pieces(name, Sep::Is('-'));
    if ordinal(parts.last()) {
        name
    } else {
        joined(parts.take(kept(parts, parts.len() as int)), "-"@)
    }
}

fn is_ordinal(s: &str) -> (r: bool)
    ensures
        r == ordinal(s@),
{
    let n: usize = s.unicode_len();
    for i in 0..n
        invariant
            n == s@.len(),
            forall|j: int| 0 <= j < i ==> digit(#[trigger] s@[j]),
    {
        if !is_digit(s.get_char(i)) {
            assert(!digit(s@[i as int]));
            return false;
        }
    }
    n > 0
}

fn is_generated(s: &str) -> (r: bool)
    ensures
        r == generated(s@),
{
    let n: usize = s.unicode_len();
    let mut digits = false;
    for i in 0..n
        invariant
            n == s@.len(),
            forall|j: int| 0 <= j < i ==> suffix_char(#[trigger] s@[j]),
            digits == exists|j: int| 0 <= j < i && digit(#[trigger] s@[j]),
    {
        let c: char = s.get_char(i);
        assert(s@[i as int] == c);
        if !(('a' <= c && c <= 'z') || is_digit(c)) {
            assert(!suffix_char(s@[i as int]));
            return false;
        }
        if is_digit(c) {
            digits = true;
        }
    }
    n == 5 || (8 <= n && n <= 10 && digits)
}

/// The name of a pod without what was generated.
pub fn short_pod_name(name: &str) -> (r: String)
    ensures
        r@ == short_name(name@),
{
    let parts = split(name, Sep::Is('-'));
    let ghost all = texts(parts@);
    let n: usize = parts.len();
    assert(all.len() == n);
    assert(all.last() == parts@[n - 1]@);
    if is_ordinal(parts[n - 1].as_str()) {
        return name.to_string();
    }
    let mut end: usize = n;
    while end > 1 && is_generated(parts[end - 1].as_str())
        invariant
            all == texts(parts@),
            n == parts@.len(),
            1 <= end <= n,
            kept(all, n as int) == kept(all, end as int),
        decreases end,
    {
        assert(all[end - 1] == parts@[end - 1]@);
        end = end - 1;
    }
    assert(end > 1 ==> all[end - 1] == parts@[end - 1]@);
    join_first(&parts, end, "-")
}

/// The command that lists the pods of a namespace.
pub open spec fn pods_query(context: Seq<char>, namespace: Seq<char>) -> CallView {
    command(
        "kubectl"@,
        seq!["--context"@, context, "-n"@, namespace, "get"@, "pods"@, "--no-headers"@],
    )
}

/// A column of a line, or what stands for it where it is missing.
pub open spec fn column(cols: Seq<Seq<char>>, i: int, missing: Seq<char>) -> Seq<char> {
    if i < cols.len() {
        cols[i]
    } else {
        missing
    }
}

/// The row of a pod, given its line in the list.
pub open spec fn pod_row_of(line: Seq<char>) -> RowView {
    let cols = words_of(line);
    let ready = column(cols, 1, "0/0"@);
    let status = column(cols, 2, "?"@);
    row(short_name(column(cols, 0, "?"@)), health_of(ready, status), status + " "@ + ready)
}

/// The rows of the pods in a list of lines; blank lines are passed over.
pub open spec fn pod_rows_of(lines: Seq<Seq<char>>) -> Seq<RowView>
    decreases lines.len(),
{
    if lines.len() == 0 {
        seq![]
    } else {
        let before = pod_rows_of(lines.drop_last());
        if trimmed(lines.last()).len() > 0 {
            before.push(pod_row_of(lines.last()))
        } else {
            before
        }
    }
}

/// The rows of the pods that a reply lists; none if the command failed.
pub open spec fn pods_in(out: OutputView) -> Seq<RowView> {
    if out.ok() {
        pod_rows_of(lines_of(out.stdout))
    } else {
        seq![]
    }
}

fn col<'a>(cols: &'a Vec<String>, i: usize, missing: &'a str) -> (r: &'a str)
    ensures
        r@ == column(texts(cols@), i as int, missing@),
{
    if i < cols.len() {
        cols[i].as_str()
    } else {
        missing
    }
}

fn pod_row(line: &str) -> (r: Row)
    ensures
        r@ == pod_row_of(line@),
{
    let cols = words(line);
    let name = col(&cols, 0, "?");
    let ready = col(&cols, 1, "0/0");
    let status = col(&cols, 2, "?");
    let detail = status.to_string().concat(" ").concat(ready);
    Row::new(short_pod_name(name).as_str(), pod_health(ready, status), detail.as_str())
}

fn pod_rows<R: CommandRunner>(runner: &mut Logged<R>, context: &str, namespace: &str) -> (r: Vec<Row>)
    ensures
        old(runner).leads_to(*final(runner)),
        ran(old(runner).events(), final(runner).events(), pods_query(context@, namespace@)),
        row_views(r@) == pods_in(final(runner).events().last().output()),
{
    let args: [&str; 7] = ["--context", context, "-n", namespace, "get", "pods", "--no-headers"];
    let out = runner.run("kubectl", &args);
    assert(str_texts(args@) =~= pods_query(context@, namespace@).args);
    let mut r: Vec<Row> = Vec::new();
    assert(row_views(r@) =~= seq![]);
    if !out.success() {
        return r;
    }
    let ls = lines(out.stdout.as_str());
    let ghost all = texts(ls@);
    assert(row_views(r@) =~= pod_rows_of(all.take(0)));
    for i in 0..ls.len()
        invariant
            all == texts(ls@),
            row_views(r@) == pod_rows_of(all.take(i as int)),
    {
        assert(all.take(i + 1).drop_last() =~= all.take(i as int));
        if trim(ls[i].as_str()).unicode_len() > 0 {
            add_row(&mut r, pod_row(ls[i].as_str()));
        }
    }
    assert(all.take(all.len() as int) =~= all);
    r
}

// ---------------------------------------------------------------------------
// Index counts
// ---------------------------------------------------------------------------

/// The command that asks the source for the number of documents in an index.
pub open spec fn count_query(context: Seq<char>, host: Seq<char>, index: Seq<char>) -> CallView {
    command(
        "kubectl"@,
        seq![
            "--context"@,
            context,
            "-n"@,
            NAMESPACE@,
            "exec"@,
            host + "-0"@,
            "--"@,
            "curl"@,
            "-s"@,
            "http://"@ + host + ":9200/"@ + index + "/_count"@,
        ],
    )
}

/// The number after the first `"count":` of a text.
pub open spec fn count_of(json: Seq<char>) -> Option<u64> {
    match first_at(json, "\"count\":"@, 0) {
        Some(i) => {
            let rest = json.skip(i + "\"count\":"@.len());
            parsed(rest.take(digit_run(rest) as int))
        },
        None => None,
    }
}

/// The number after the first `"count":` of a text.
pub fn parse_count(json: &str) -> (r: Option<u64>)
    ensures
        r == count_of(json@),
{
    match find(json, "\"count\":") {
        Some(i) => {
            let rest = after(json, i + "\"count\":".unicode_len());
            let n: usize = leading_digits(rest);
            assert(rest@.subrange(0, n as int) =~= rest@.take(n as int));
            parse_number(rest.substring_char(0, n))
        },
        None => None,
    }
}

/// The number of documents that a reply names; none if the command failed.
pub open spec fn count_in(out: OutputView) -> Option<u64> {
    if out.ok() {
        count_of(out.stdout)
    } else {
        None
    }
}

/// The row of an index: up if it holds documents, pending if it is empty, down if it cannot be
/// asked.
pub open spec fn index_row_of(index: Seq<char>, count: Option<u64>) -> RowView {
    match count {
        Some(n) => row(
            index,
            if n > 0 {
                Health::Up
            } else {
                Health::Pending
            },
            decimal(n as nat) + " docs"@,
        ),
        None => row(index, Health::Down, "—"@),
    }
}

/// The pod that stands behind a source service.
pub fn pod_for(host: &str) -> (r: String)
    ensures
        r@ == host@ + "-0"@,
{
    host.to_string().concat("-0")
}

fn index_count<R: CommandRunner>(runner: &mut Logged<R>, context: &str, host: &str, index: &str) -> (r:
    Option<u64>)
    ensures
        old(runner).leads_to(*final(runner)),
        ran(old(runner).events(), final(runner).events(), count_query(context@, host@, index@)),
        r == count_in(final(runner).events().last().output()),
{
    let url = "http://".to_string().concat(host).concat(":9200/").concat(index).concat("/_count");
    let pod = pod_for(host);
    let args: [&str; 10] = [
        "--context",
        context,
        "-n",
        NAMESPACE,
        "exec",
        pod.as_str(),
        "--",
        "curl",
        "-s",
        url.as_str(),
    ];
    let out = runner.run("kubectl", &args);
    assert(str_texts(args@) =~= count_query(context@, host@, index@).args);
    if !out.success() {
        return None;
    }
    parse_count(out.stdout.as_str())
}

fn index_row<R: CommandRunner>(runner: &mut Logged<R>, context: &str, host: &str, index: &str) -> (r: Row)
    ensures
        old(runner).leads_to(*final(runner)),
        ran(old(runner).events(), final(runner).events(), count_query(context@, host@, index@)),
        r@ == index_row_of(index@, count_in(final(runner).events().last().output())),
{
    match index_count(runner, context, host, index) {
        Some(n) => {
            let health = if n > 0 {
                Health::Up
            } else {
                Health::Pending
            };
            Row::new(index, health, number(n).concat(" docs").as_str())
        },
        None => Row::new(index, Health::Down, "—"),
    }
}

// ---------------------------------------------------------------------------
// The cloud
// ---------------------------------------------------------------------------

/// The command that asks for the state of the instance with a name.
pub open spec fn instance_query(name: Seq<char>, profile: Seq<char>, region: Seq<char>) -> CallView {
    command(
        "aws"@,
        seq![
            "ec2"@,
            "describe-instances"@,
            "--profile"@,
            profile,
            "--region"@,
            region,
            "--filters"@,
            "Name=tag:Name,Values="@ + name,
            "Name=instance-state-name,Values=pending,running,stopping,stopped"@,
            "--query"@,
            "Reservations[].Instances[].State.Name"@,
            "--output"@,
            "text"@,
        ],
    )
}

/// How an instance is doing, and in what state it is.
pub open spec fn instance_in(out: OutputView) -> (Health, Seq<char>) {
    let w = words_of(chomped(out.stdout));
    if !out.ok() {
        (Health::Pending, "querying"@)
    } else if w.len() == 0 {
        (Health::Pending, "not created yet"@)
    } else if w[0] == "running"@ {
        (Health::Up, "running"@)
    } else if w[0] == "pending"@ {
        (Health::Pending, "launching"@)
    } else {
        (Health::Pending, w[0])
    }
}

fn ec2_status<R: CommandRunner>(runner: &mut Logged<R>, name: &str, profile: &str, region: &str) -> (r: (
    Health,
    String,
))
    ensures
        old(runner).leads_to(*final(runner)),
        ran(old(runner).events(), final(runner).events(), instance_query(name@, profile@, region@)),
        (r.0, r.1@) == instance_in(final(runner).events().last().output()),
{
    let filter = "Name=tag:Name,Values=".to_string().concat(name);
    let args: [&str; 13] = [
        "ec2",
        "describe-instances",
        "--profile",
        profile,
        "--region",
        region,
        "--filters",
        filter.as_str(),
        "Name=instance-state-name,Values=pending,running,stopping,stopped",
        "--query",
        "Reservations[].Instances[].State.Name",
        "--output",
        "text",
    ];
    let out = runner.run("aws", &args);
    assert(str_texts(args@) =~= instance_query(name@, profile@, region@).args);
    if !out.success() {
        return (Health::Pending, "querying".to_string());
    }
    let w = words(out.trimmed_stdout());
    assert(texts(w@).len() == w@.len());
    if w.len() == 0 {
        return (Health::Pending, "not created yet".to_string());
    }
    assert(texts(w@)[0] == w@[0]@);
    if same(w[0].as_str(), "running") {
        (Health::Up, "running".to_string())
    } else if same(w[0].as_str(), "pending") {
        (Health::Pending, "launching".to_string())
    } else {
        (Health::Pending, w[0].clone())
    }
}

/// The command that asks for the bucket whose name starts with `prefix`.
pub open spec fn bucket_query(prefix: Seq<char>, profile: Seq<char>) -> CallView {
    command(
        "aws"@,
        seq![
            "s3api"@,
            "list-buckets"@,
            "--profile"@,
            profile,
            "--query"@,
            "Buckets[?starts_with(Name, `"@ + prefix + "`)].Name | [0]"@,
            "--output"@,
            "text"@,
        ],
    )
}

/// How the bucket is doing, and its name.
pub open spec fn bucket_in(out: OutputView) -> (Health, Seq<char>) {
    let name = trimmed(chomped(out.stdout));
    if !out.ok() {
        (Health::Pending, "querying"@)
    } else if name.len() == 0 || name == "None"@ {
        (Health::Pending, "not created yet"@)
    } else {
        (Health::Up, name)
    }
}

fn s3_bucket_status<R: CommandRunner>(runner: &mut Logged<R>, prefix: &str, profile: &str) -> (r: (
    Health,
    String,
))
    ensures
        old(runner).leads_to(*final(runner)),
        ran(old(runner).events(), final(runner).events(), bucket_query(prefix@, profile@)),
        (r.0, r.1@) == bucket_in(final(runner).events().last().output()),
{
    let query = "Buckets[?starts_with(Name, `".to_string().concat(prefix).concat(
        "`)].Name | [0]",
    );
    let args: [&str; 8] = [
        "s3api",
        "list-buckets",
        "--profile",
        profile,
        "--query",
        query.as_str(),
        "--output",
        "text",
    ];
    let out = runner.run("aws", &args);
    assert(str_texts(args@) =~= bucket_query(prefix@, profile@).args);
    if !out.success() {
        return (Health::Pending, "querying".to_string());
    }
    let name = trim(out.trimmed_stdout());
    if name.unicode_len() == 0 || same(name, "None") {
        (Health::Pending, "not created yet".to_string())
    } else {
        (Health::Up, name.to_string())
    }
}

/// The command that asks for the state of a managed domain.
pub open spec fn domain_query(name: Seq<char>, profile: Seq<char>, region: Seq<char>) -> CallView {
    command(
        "aws"@,
        seq![
            "opensearch"@,
            "describe-domain"@,
            "--profile"@,
            profile,
            "--region"@,
            region,
            "--domain-name"@,
            name,
            "--query"@,
            "DomainStatus.{processing:Processing,endpoint:Endpoint,created:Created}"@,
            "--output"@,
            "text"@,
        ],
    )
}

/// The first of the words from place `i` on that holds a dot.
pub open spec fn dotted(words: Seq<Seq<char>>, i: int) -> Option<Seq<char>>
    decreases words.len() - i,
{
    if i < 0 || i >= words.len() {
        None
    } else if contains(words[i], "."@) {
        Some(words[i])
    } else {
        dotted(words, i + 1)
    }
}

/// How a managed domain is doing, and its endpoint: it is up once it is not being processed.
pub open spec fn domain_in(out: OutputView) -> (Health, Seq<char>) {
    let s = chomped(out.stdout);
    if !out.ok() {
        (Health::Pending, "not created yet"@)
    } else if contains(s, "False"@) {
        (
            Health::Up,
            match dotted(words_of(s), 0) {
                Some(w) => w,
                None => "active"@,
            },
        )
    } else {
        (Health::Pending, "processing"@)
    }
}

fn opensearch_domain_status<R: CommandRunner>(
    runner: &mut Logged<R>,
    name: &str,
    profile: &str,
    region: &str,
) -> (r: (Health, String))
    ensures
        old(runner).leads_to(*final(runner)),
        ran(old(runner).events(), final(runner).events(), domain_query(name@, profile@, region@)),
        (r.0, r.1@) == domain_in(final(runner).events().last().output()),
{
    let args: [&str; 12] = [
        "opensearch",
        "describe-domain",
        "--profile",
        profile,
        "--region",
        region,
        "--domain-name",
        name,
        "--query",
        "DomainStatus.{processing:Processing,endpoint:Endpoint,created:Created}",
        "--output",
        "text",
    ];
    let out = runner.run("aws", &args);
    assert(str_texts(args@) =~= domain_query(name@, profile@, region@).args);
    if !out.success() {
        return (Health::Pending, "not created yet".to_string());
    }
    let s = out.trimmed_stdout();
    if !has_part(s, "False") {
        return (Health::Pending, "processing".to_string());
    }
    let w = words(s);
    let ghost all = texts(w@);
    for i in 0..w.len()
        invariant
            all == texts(w@),
            all == words_of(s@),
            s@ == chomped(out@.stdout),
            out@ == runner.events().last().output(),
            ran(old(runner).events(), runner.events(), domain_query(name@, profile@, region@)),
            old(runner).leads_to(*runner),
            out@.ok(),
            contains(s@, "False"@),
            dotted(all, 0) == dotted(all, i as int),
    {
        assert(all[i as int] == w@[i as int]@);
        if has_part(w[i].as_str(), ".") {
            return (Health::Up, w[i].clone());
        }
    }
    (Health::Up, "active".to_string())
}

/// The row of a serverless collection.
pub open spec fn collection_row(out: OutputView) -> RowView {
    if !out.ok() {
        row("AOSS collection"@, Health::Pending, "querying"@)
    } else {
        match endpoint_in(out.stdout) {
            Some(e) => row("AOSS NextGen"@, Health::Up, e),
            None => row("AOSS NextGen"@, Health::Pending, "CREATING"@),
        }
    }
}

/// The command that asks for the collection of a plan.
pub open spec fn collection_call(a: AnswersView) -> CallView {
    command("aws"@, collection_query(target_cluster_name(), a.region()))
}

fn aoss_status<R: CommandRunner>(runner: &mut Logged<R>, answers: &Answers) -> (r: Row)
    ensures
        old(runner).leads_to(*final(runner)),
        ran(old(runner).events(), final(runner).events(), collection_call(answers@)),
        r@ == collection_row(final(runner).events().last().output()),
{
    let name = answers.aoss_collection_name();
    let list = aoss_batch_get_args(name.as_str(), answers.effective_aws_region());
    let mut args: Vec<&str> = Vec::new();
    for i in 0..list.len()
        invariant
            args@.len() == i,
            forall|j: int| 0 <= j < i ==> (#[trigger] args@[j])@ == list@[j]@,
    {
        args.push(list[i].as_str());
    }
    let out = runner.run("aws", args.as_slice());
    assert(str_texts(args@) =~= texts(list@));
    if !out.success() {
        return Row::new("AOSS collection", Health::Pending, "querying");
    }
    match parse_aoss_endpoint(out.stdout.as_str()) {
        Some(e) => Row::new("AOSS NextGen", Health::Up, e.as_str()),
        None => Row::new("AOSS NextGen", Health::Pending, "CREATING"),
    }
}

// ---------------------------------------------------------------------------
// The Migration Assistant
// ---------------------------------------------------------------------------

/// The command that asks how many pods of a stateful set are ready.
pub open spec fn replicas_query(
    context: Seq<char>,
    namespace: Seq<char>,
    name: Seq<char>,
) -> CallView {
    command(
        "kubectl"@,
        seq![
            "--context"@,
            context,
            "-n"@,
            namespace,
            "get"@,
            "statefulset"@,
            name,
            "-o"@,
            "jsonpath={.status.readyReplicas}/{.status.replicas}"@,
        ],
    )
}

/// How a stateful set is doing: up if all its pods are ready, and there is one.
pub open spec fn replicas_in(out: OutputView) -> (Health, Seq<char>) {
    let s = trimmed(chomped(out.stdout));
    if !out.ok() {
        (Health::Pending, "deploying"@)
    } else {
        match halves(s) {
            Some((a, b)) => if a == b && a != "0"@ && a.len() > 0 {
                (Health::Up, "ready "@ + s)
            } else {
                (Health::Pending, s + " ready"@)
            },
            None => (Health::Pending, "deploying"@),
        }
    }
}

fn statefulset_ready<R: CommandRunner>(
    runner: &mut Logged<R>,
    context: &str,
    namespace: &str,
    name: &str,
) -> (r: (Health, String))
    ensures
        old(runner).leads_to(*final(runner)),
        ran(
            old(runner).events(),
            final(runner).events(),
            replicas_query(context@, namespace@, name@),
        ),
        (r.0, r.1@) == replicas_in(final(runner).events().last().output()),
{
    let args: [&str; 9] = [
        "--context",
        context,
        "-n",
        namespace,
        "get",
        "statefulset",
        name,
        "-o",
        "jsonpath={.status.readyReplicas}/{.status.replicas}",
    ];
    let out = runner.run("kubectl", &args);
    assert(str_texts(args@) =~= replicas_query(context@, namespace@, name@).args);
    if !out.success() {
        return (Health::Pending, "deploying".to_string());
    }
    let s = trim(out.trimmed_stdout());
    match split_at_slash(s) {
        Some((a, b)) => if same(a, b) && !same(a, "0") && a.unicode_len() > 0 {
            (Health::Up, "ready ".to_string().concat(s))
        } else {
            (Health::Pending, s.to_string().concat(" ready"))
        },
        None => (Health::Pending, "deploying".to_string()),
    }
}

// ---------------------------------------------------------------------------
// Probing a local environment
// ---------------------------------------------------------------------------

/// The rows of the clusters that a plan creates.
pub open spec fn cluster_rows(a: AnswersView, existing: Seq<Seq<char>>) -> Seq<RowView> {
    let s = seq![cluster_row_of("source cluster"@, source_cluster_name(), existing)];
    let t = if a.local_target() {
        s.push(cluster_row_of("target cluster"@, target_cluster_name(), existing))
    } else {
        s
    };
    if a.local_ma() {
        t.push(cluster_row_of("MA cluster"@, ma_cluster_name(), existing))
    } else {
        t
    }
}

/// What is asked about the source: its pods, and then its indices if it can be asked for them;
/// nothing while its cluster does not exist.
pub open spec fn source_asks(a: AnswersView, existing: Seq<Seq<char>>) -> Seq<Ask> {
    let context = context_text(source_cluster_name());
    let host = service_text(a.engine());
    if !existing.contains(source_cluster_name()) {
        seq![]
    } else if a.http_source() {
        seq![
            Ask::Run(pods_query(context, NAMESPACE@)),
            Ask::Run(count_query(context, host, SEED_INDICES@[0]@)),
            Ask::Run(count_query(context, host, SEED_INDICES@[1]@)),
            Ask::Run(count_query(context, host, SEED_INDICES@[2]@)),
        ]
    } else {
        seq![Ask::Run(pods_query(context, NAMESPACE@))]
    }
}

/// What is asked about the target.
pub open spec fn target_asks(a: AnswersView, existing: Seq<Seq<char>>) -> Seq<Ask> {
    if a.local_target() {
        if existing.contains(target_cluster_name()) {
            seq![Ask::Run(pods_query(context_text(target_cluster_name()), NAMESPACE@))]
        } else {
            seq![]
        }
    } else if a.aoss_target() {
        seq![Ask::Run(collection_call(a))]
    } else {
        seq![]
    }
}

/// What is asked about the Migration Assistant.
pub open spec fn ma_asks(a: AnswersView, existing: Seq<Seq<char>>) -> Seq<Ask> {
    if a.local_ma() && existing.contains(ma_cluster_name()) {
        seq![
            Ask::Run(
                replicas_query(
                    context_text(ma_cluster_name()),
                    MA_NAMESPACE@,
                    "migration-console"@,
                ),
            ),
        ]
    } else {
        seq![]
    }
}

/// What a probe of a local environment asks: the clusters first, and of each cluster that exists
/// what runs in it.
pub open spec fn local_asks(a: AnswersView, existing: Seq<Seq<char>>) -> Seq<Ask> {
    seq![Ask::Run(clusters_query())] + source_asks(a, existing) + target_asks(a, existing)
        + ma_asks(a, existing)
}

/// The rows of the source's workloads, given the replies about the source.
pub open spec fn source_rows(
    a: AnswersView,
    existing: Seq<Seq<char>>,
    log: Seq<Event>,
) -> Seq<RowView> {
    if existing.contains(source_cluster_name()) {
        pods_in(log[0].output())
    } else {
        seq![row("source"@, Health::Pending, "cluster not up yet"@)]
    }
}

/// The rows of the source's indices, given the replies about the source.
pub open spec fn index_rows(
    a: AnswersView,
    existing: Seq<Seq<char>>,
    log: Seq<Event>,
) -> Seq<RowView> {
    if existing.contains(source_cluster_name()) && a.http_source() {
        seq![
            index_row_of(SEED_INDICES@[0]@, count_in(log[1].output())),
            index_row_of(SEED_INDICES@[1]@, count_in(log[2].output())),
            index_row_of(SEED_INDICES@[2]@, count_in(log[3].output())),
        ]
    } else {
        seq![]
    }
}

/// The rows of the target, given the replies about the target.
pub open spec fn target_rows(
    a: AnswersView,
    existing: Seq<Seq<char>>,
    log: Seq<Event>,
) -> Seq<RowView> {
    if a.local_target() {
        if !existing.contains(target_cluster_name()) {
            seq![row(TARGET_SERVICE@, Health::Pending, "cluster not up yet"@)]
        } else if pods_in(log[0].output()).len() == 0 {
            seq![row(TARGET_SERVICE@, Health::Pending, "starting"@)]
        } else {
            pods_in(log[0].output())
        }
    } else if a.aoss_target() {
        seq![collection_row(log[0].output())]
    } else {
        seq![row("target"@, Health::NotApplicable, "left to Migration Assistant"@)]
    }
}

/// The rows of the Migration Assistant, given the replies about it.
pub open spec fn ma_rows(
    a: AnswersView,
    existing: Seq<Seq<char>>,
    log: Seq<Event>,
) -> Seq<RowView> {
    if !a.local_ma() {
        seq![row("MA CLI"@, Health::NotApplicable, "installed to workspace bin/"@)]
    } else if existing.contains(ma_cluster_name()) {
        let (health, detail) = replicas_in(log[0].output());
        seq![row("migration-console"@, health, detail)]
    } else {
        seq![row("migration-console"@, Health::Pending, "deploying"@)]
    }
}

/// What a probe of a local environment finds, given the replies to what it asked.
pub open spec fn local_snapshot(a: AnswersView, log: Seq<Event>, tick: u64) -> SnapshotView {
    let existing = clusters_in(log[0].output());
    let source_log = log.skip(1);
    let target_log = source_log.skip(source_asks(a, existing).len() as int);
    let ma_log = target_log.skip(target_asks(a, existing).len() as int);
    SnapshotView {
        clusters: cluster_rows(a, existing),
        source_pods: source_rows(a, existing, source_log),
        indices: index_rows(a, existing, source_log),
        target: target_rows(a, existing, target_log),
        ma: ma_rows(a, existing, ma_log),
        tick,
        frame: 0,
    }
}

/// What a stretch of a log adds to what was asked.
proof fn lemma_asks_concat(a: Seq<Event>, b: Seq<Event>)
    ensures
        asks(a + b) == asks(a) + asks(b),
{
    assert(asks(a + b) =~= asks(a) + asks(b));
}

fn probe_source<R: CommandRunner>(runner: &mut Logged<R>, answers: &Answers, existing: &Vec<String>) -> (r: (
    Vec<Row>,
    Vec<Row>,
))
    ensures
        old(runner).leads_to(*final(runner)),
        grew(old(runner).events(), final(runner).events()),
        asks(since(old(runner).events(), final(runner).events())) == source_asks(
            answers@,
            texts(existing@),
        ),
        row_views(r.0@) == source_rows(
            answers@,
            texts(existing@),
            since(old(runner).events(), final(runner).events()),
        ),
        row_views(r.1@) == index_rows(
            answers@,
            texts(existing@),
            since(old(runner).events(), final(runner).events()),
        ),
{
    let ghost before = runner.events();
    let cluster = answers.source_cluster();
    let mut indices: Vec<Row> = Vec::new();
    assert(row_views(indices@) =~= seq![]);
    if !has_text(existing, cluster.as_str()) {
        proof {
            lemma_since(before, seq![]);
            assert(before + seq![] =~= before);
            assert(asks(seq![]) =~= seq![]);
        }
        return (only(Row::new("source", Health::Pending, "cluster not up yet")), indices);
    }
    let context = kube_context(cluster.as_str());
    let pods = pod_rows(runner, context.as_str(), NAMESPACE);
    let ghost e0 = runner.events().last();
    if !answers.source_is_http() {
        proof {
            lemma_since(before, seq![e0]);
            assert(before + seq![e0] =~= before.push(e0));
            assert(asks(seq![e0]) =~= source_asks(answers@, texts(existing@)));
        }
        return (pods, indices);
    }
    let host = source_service_name(answers.engine_or_default());
    let r1 = index_row(runner, context.as_str(), host, SEED_INDICES[0]);
    let ghost e1 = runner.events().last();
    let r2 = index_row(runner, context.as_str(), host, SEED_INDICES[1]);
    let ghost e2 = runner.events().last();
    let r3 = index_row(runner, context.as_str(), host, SEED_INDICES[2]);
    let ghost e3 = runner.events().last();
    let ghost (v1, v2, v3) = (r1@, r2@, r3@);
    add_row(&mut indices, r1);
    add_row(&mut indices, r2);
    add_row(&mut indices, r3);
    proof {
        let log = seq![e0, e1, e2, e3];
        lemma_since(before, log);
        assert(before + log =~= before.push(e0).push(e1).push(e2).push(e3));
        assert(asks(log) =~= source_asks(answers@, texts(existing@)));
        assert(row_views(indices@) =~= seq![v1, v2, v3]);
    }
    (pods, indices)
}

fn probe_target<R: CommandRunner>(runner: &mut Logged<R>, answers: &Answers, existing: &Vec<String>) -> (r:
    Vec<Row>)
    ensures
        old(runner).leads_to(*final(runner)),
        grew(old(runner).events(), final(runner).events()),
        asks(since(old(runner).events(), final(runner).events())) == target_asks(
            answers@,
            texts(existing@),
        ),
        row_views(r@) == target_rows(
            answers@,
            texts(existing@),
            since(old(runner).events(), final(runner).events()),
        ),
{
    let ghost before = runner.events();
    proof {
        lemma_since(before, seq![]);
        assert(before + seq![] =~= before);
        assert(asks(seq![]) =~= seq![]);
    }
    if answers.provisions_local_target() {
        let cluster = answers.target_cluster();
        if !has_text(existing, cluster.as_str()) {
            return only(Row::new(TARGET_SERVICE, Health::Pending, "cluster not up yet"));
        }
        let context = kube_context(cluster.as_str());
        let pods = pod_rows(runner, context.as_str(), NAMESPACE);
        proof {
            let e = runner.events().last();
            lemma_since(before, seq![e]);
            assert(before + seq![e] =~= before.push(e));
            assert(asks(seq![e]) =~= target_asks(answers@, texts(existing@)));
            assert(row_views(pods@).len() == pods@.len());
        }
        if pods.len() == 0 {
            only(Row::new(TARGET_SERVICE, Health::Pending, "starting"))
        } else {
            pods
        }
    } else if answers.provisions_aoss_target() {
        let r = aoss_status(runner, answers);
        proof {
            let e = runner.events().last();
            lemma_since(before, seq![e]);
            assert(before + seq![e] =~= before.push(e));
            assert(asks(seq![e]) =~= target_asks(answers@, texts(existing@)));
        }
        only(r)
    } else {
        only(Row::new("target", Health::NotApplicable, "left to Migration Assistant"))
    }
}

fn probe_ma<R: CommandRunner>(runner: &mut Logged<R>, answers: &Answers, existing: &Vec<String>) -> (r: Vec<
    Row,
>)
    ensures
        old(runner).leads_to(*final(runner)),
        grew(old(runner).events(), final(runner).events()),
        asks(since(old(runner).events(), final(runner).events())) == ma_asks(
            answers@,
            texts(existing@),
        ),
        row_views(r@) == ma_rows(
            answers@,
            texts(existing@),
            since(old(runner).events(), final(runner).events()),
        ),
{
    let ghost before = runner.events();
    proof {
        lemma_since(before, seq![]);
        assert(before + seq![] =~= before);
        assert(asks(seq![]) =~= seq![]);
    }
    if !answers.deploys_ma_locally() {
        return only(Row::new("MA CLI", Health::NotApplicable, "installed to workspace bin/"));
    }
    let cluster = answers.ma_cluster();
    if !has_text(existing, cluster.as_str()) {
        return only(Row::new("migration-console", Health::Pending, "deploying"));
    }
    let context = kube_context(cluster.as_str());
    let (health, detail) = statefulset_ready(
        runner,
        context.as_str(),
        MA_NAMESPACE,
        "migration-console",
    );
    proof {
        let e = runner.events().last();
        lemma_since(before, seq![e]);
        assert(before + seq![e] =~= before.push(e));
        assert(asks(seq![e]) =~= ma_asks(answers@, texts(existing@)));
    }
    only(Row::new("migration-console", health, detail.as_str()))
}

/// Whether a log shows a probe: what was asked is what a probe asks, given the replies.
pub open spec fn probed_locally(a: AnswersView, log: Seq<Event>) -> bool {
    log.len() > 0 && asks(log) == local_asks(a, clusters_in(log[0].output()))
}

fn probe_clusters(answers: &Answers, existing: &Vec<String>) -> (r: Vec<Row>)
    ensures
        row_views(r@) == cluster_rows(answers@, texts(existing@)),
{
    let mut r: Vec<Row> = Vec::new();
    let source = answers.source_cluster();
    add_row(&mut r, cluster_row("source cluster", source.as_str(), existing));
    if answers.provisions_local_target() {
        let target = answers.target_cluster();
        add_row(&mut r, cluster_row("target cluster", target.as_str(), existing));
    }
    if answers.deploys_ma_locally() {
        let ma = answers.ma_cluster();
        add_row(&mut r, cluster_row("MA cluster", ma.as_str(), existing));
    }
    assert(row_views(r@) =~= cluster_rows(answers@, texts(existing@)));
    r
}

/// The replies of a probe fall into those about the clusters, the source, the target and the
/// Migration Assistant.
proof fn lemma_local_log(
    a: AnswersView,
    first: Event,
    s: Seq<Event>,
    t: Seq<Event>,
    m: Seq<Event>,
    tick: u64,
)
    requires
        first.ask() == Ask::Run(clusters_query()),
        asks(s) == source_asks(a, clusters_in(first.output())),
        asks(t) == target_asks(a, clusters_in(first.output())),
        asks(m) == ma_asks(a, clusters_in(first.output())),
    ensures
        probed_locally(a, seq![first] + s + t + m),
        local_snapshot(a, seq![first] + s + t + m, tick) == ({
            let existing = clusters_in(first.output());
            SnapshotView {
                clusters: cluster_rows(a, existing),
                source_pods: source_rows(a, existing, s),
                indices: index_rows(a, existing, s),
                target: target_rows(a, existing, t),
                ma: ma_rows(a, existing, m),
                tick,
                frame: 0,
            }
        }),
{
    let existing = clusters_in(first.output());
    let log = seq![first] + s + t + m;
    lemma_asks_concat(seq![first], s);
    lemma_asks_concat(seq![first] + s, t);
    lemma_asks_concat(seq![first] + s + t, m);
    assert(asks(seq![first]) =~= seq![Ask::Run(clusters_query())]);
    assert(asks(s).len() == s.len() && asks(t).len() == t.len());
    assert(log[0] == first);
    assert(log.skip(1) =~= s + (t + m));
    assert((s + (t + m)).skip(s.len() as int) =~= t + m);
    assert((t + m).skip(t.len() as int) =~= m);
    lemma_only_the_start_matters(a, existing, s, t + m);
    lemma_only_the_start_matters(a, existing, t, m);
}

/// What was added in several steps.
proof fn lemma_since_steps(
    at0: Seq<Event>,
    at1: Seq<Event>,
    at2: Seq<Event>,
    at3: Seq<Event>,
    at4: Seq<Event>,
)
    requires
        grew(at0, at1),
        grew(at1, at2),
        grew(at2, at3),
        grew(at3, at4),
    ensures
        grew(at0, at4),
        since(at0, at4) == since(at0, at1) + since(at1, at2) + since(at2, at3) + since(at3, at4),
{
    let log = since(at0, at1) + since(at1, at2) + since(at2, at3) + since(at3, at4);
    assert(at1 =~= at0 + since(at0, at1));
    assert(at2 =~= at1 + since(at1, at2));
    assert(at3 =~= at2 + since(at2, at3));
    assert(at4 =~= at3 + since(at3, at4));
    assert(at4 =~= at0 + log);
    lemma_since(at0, log);
}

fn probe_local<R: CommandRunner>(runner: &mut Logged<R>, answers: &Answers, tick: u64) -> (r: Snapshot)
    ensures
        old(runner).leads_to(*final(runner)),
        grew(old(runner).events(), final(runner).events()),
        probed_locally(answers@, since(old(runner).events(), final(runner).events())),
        r@ == local_snapshot(answers@, since(old(runner).events(), final(runner).events()), tick),
{
    let ghost at0 = runner.events();
    let existing = list_clusters(runner);
    let ghost at1 = runner.events();
    let clusters = probe_clusters(answers, &existing);
    let (source_pods, indices) = probe_source(runner, answers, &existing);
    let ghost at2 = runner.events();
    let target = probe_target(runner, answers, &existing);
    let ghost at3 = runner.events();
    let ma = probe_ma(runner, answers, &existing);
    proof {
        let at4 = runner.events();
        let first = at1.last();
        lemma_since(at0, seq![first]);
        assert(at0 + seq![first] =~= at1);
        lemma_since_steps(at0, at1, at2, at3, at4);
        lemma_local_log(
            answers@,
            first,
            since(at1, at2),
            since(at2, at3),
            since(at3, at4),
            tick,
        );
    }
    Snapshot { clusters, source_pods, indices, target, ma, tick, frame: 0 }
}

/// The rows about a part of the environment depend on no reply but those about that part.
proof fn lemma_only_the_start_matters(
    a: AnswersView,
    existing: Seq<Seq<char>>,
    log: Seq<Event>,
    rest: Seq<Event>,
)
    ensures
        log.len() == source_asks(a, existing).len() ==> source_rows(a, existing, log + rest)
            == source_rows(a, existing, log) && index_rows(a, existing, log + rest) == index_rows(
            a,
            existing,
            log,
        ),
        log.len() == target_asks(a, existing).len() ==> target_rows(a, existing, log + rest)
            == target_rows(a, existing, log),
{
    if log.len() == source_asks(a, existing).len() {
        assert(index_rows(a, existing, log + rest) =~= index_rows(a, existing, log));
    }
}

// ---------------------------------------------------------------------------
// Probing an environment in the cloud
// ---------------------------------------------------------------------------

/// What is asked about the account: whether the tool is there, and then who the caller is.
pub open spec fn account_asks(a: AnswersView, log: Seq<Event>) -> Seq<Ask> {
    if log[0].found() {
        seq![Ask::Find("aws"@), Ask::Run(identity_query(a.profile(), a.region()))]
    } else {
        seq![Ask::Find("aws"@)]
    }
}

/// The row of the account.
pub open spec fn account_row(a: AnswersView, log: Seq<Event>) -> RowView {
    if !log[0].found() {
        row("AWS"@, Health::Down, "aws CLI not on PATH"@)
    } else {
        match identity_in(log[1].output()) {
            Some(arn) => row(
                "AWS account"@,
                Health::Up,
                column(pieces(arn, Sep::Is(':')), 4, "?"@) + " · "@ + a.region() + " · profile "@
                    + a.profile(),
            ),
            None => row(
                "AWS account"@,
                Health::Down,
                "creds missing/expired (profile "@ + a.profile() + ")"@,
            ),
        }
    }
}

/// What is asked about the source: the instance, and the bucket unless there is to be none.
pub open spec fn cloud_source_asks(a: AnswersView) -> Seq<Ask> {
    let instance = Ask::Run(instance_query("ma-demo-source"@, a.profile(), a.region()));
    if a.snapshot_storage != Some(SnapshotStorage::NoStorage) {
        seq![instance, Ask::Run(bucket_query("ma-demo-snapshots"@, a.profile()))]
    } else {
        seq![instance]
    }
}

/// The rows of the source.
pub open spec fn cloud_source_rows(a: AnswersView, log: Seq<Event>) -> Seq<RowView> {
    let (ih, id) = instance_in(log[0].output());
    let instance = row("source EC2"@, ih, id);
    if a.snapshot_storage != Some(SnapshotStorage::NoStorage) {
        let (bh, bd) = bucket_in(log[1].output());
        seq![instance, row("S3 snapshots"@, bh, bd)]
    } else {
        seq![instance]
    }
}

/// What is asked about the target.
pub open spec fn cloud_target_asks(a: AnswersView) -> Seq<Ask> {
    if a.aoss_target() {
        seq![Ask::Run(collection_call(a))]
    } else if a.target_mode == Some(TargetMode::Provision) {
        seq![Ask::Run(domain_query("ma-demo-target"@, a.profile(), a.region()))]
    } else {
        seq![]
    }
}

/// The rows of the target.
pub open spec fn cloud_target_rows(a: AnswersView, log: Seq<Event>) -> Seq<RowView> {
    if a.aoss_target() {
        seq![collection_row(log[0].output())]
    } else if a.target_mode == Some(TargetMode::Provision) {
        let (health, detail) = domain_in(log[0].output());
        seq![row("OpenSearch Service"@, health, detail)]
    } else {
        seq![row("target"@, Health::NotApplicable, "left to Migration Assistant"@)]
    }
}

/// What a probe of an environment in the cloud asks.
pub open spec fn cloud_asks(a: AnswersView, log: Seq<Event>) -> Seq<Ask> {
    account_asks(a, log) + cloud_source_asks(a) + cloud_target_asks(a)
}

/// What a probe of an environment in the cloud finds.
pub open spec fn cloud_snapshot(a: AnswersView, log: Seq<Event>, tick: u64) -> SnapshotView {
    let source_log = log.skip(account_asks(a, log).len() as int);
    let target_log = source_log.skip(cloud_source_asks(a).len() as int);
    SnapshotView {
        clusters: seq![account_row(a, log)],
        source_pods: cloud_source_rows(a, source_log),
        indices: seq![],
        target: cloud_target_rows(a, target_log),
        ma: seq![
            row(
                "MA CLI"@,
                Health::NotApplicable,
                "installed to workspace bin/ (deploys to EKS)"@,
            ),
        ],
        tick,
        frame: 0,
    }
}

fn probe_account<R: CommandRunner>(runner: &mut Logged<R>, answers: &Answers) -> (r: Row)
    ensures
        old(runner).leads_to(*final(runner)),
        grew(old(runner).events(), final(runner).events()),
        since(old(runner).events(), final(runner).events()).len() > 0,
        asks(since(old(runner).events(), final(runner).events())) == account_asks(
            answers@,
            since(old(runner).events(), final(runner).events()),
        ),
        r@ == account_row(answers@, since(old(runner).events(), final(runner).events())),
{
    let ghost before = runner.events();
    let region = answers.effective_aws_region();
    let profile = answers.effective_aws_profile();
    let found = runner.has_command("aws");
    let ghost e0 = runner.events().last();
    if !found {
        proof {
            lemma_since(before, seq![e0]);
            assert(before + seq![e0] =~= before.push(e0));
            assert(asks(seq![e0]) =~= seq![Ask::Find("aws"@)]);
        }
        return Row::new("AWS", Health::Down, "aws CLI not on PATH");
    }
    let identity = caller_identity(runner, profile, region);
    proof {
        let e1 = runner.events().last();
        lemma_since(before, seq![e0, e1]);
        assert(before + seq![e0, e1] =~= before.push(e0).push(e1));
        assert(asks(seq![e0, e1]) =~= account_asks(answers@, seq![e0, e1]));
    }
    match identity {
        Some(arn) => {
            let parts = split(arn.as_str(), Sep::Is(':'));
            let detail = col(&parts, 4, "?").to_string().concat(" · ").concat(region).concat(
                " · profile ",
            ).concat(profile);
            Row::new("AWS account", Health::Up, detail.as_str())
        },
        None => {
            let detail = "creds missing/expired (profile ".to_string().concat(profile).concat(")");
            Row::new("AWS account", Health::Down, detail.as_str())
        },
    }
}

fn probe_cloud_source<R: CommandRunner>(runner: &mut Logged<R>, answers: &Answers) -> (r: Vec<Row>)
    ensures
        old(runner).leads_to(*final(runner)),
        grew(old(runner).events(), final(runner).events()),
        asks(since(old(runner).events(), final(runner).events())) == cloud_source_asks(answers@),
        row_views(r@) == cloud_source_rows(
            answers@,
            since(old(runner).events(), final(runner).events()),
        ),
{
    let ghost before = runner.events();
    let region = answers.effective_aws_region();
    let profile = answers.effective_aws_profile();
    let (ih, id) = ec2_status(runner, "ma-demo-source", profile, region);
    let ghost e0 = runner.events().last();
    let mut r = only(Row::new("source EC2", ih, id.as_str()));
    if answers.snapshot_storage != Some(SnapshotStorage::NoStorage) {
        let (bh, bd) = s3_bucket_status(runner, "ma-demo-snapshots", profile);
        let ghost first = row_views(r@)[0];
        let bucket = Row::new("S3 snapshots", bh, bd.as_str());
        let ghost second = bucket@;
        add_row(&mut r, bucket);
        proof {
            let log = seq![e0, runner.events().last()];
            lemma_since(before, log);
            assert(before + log =~= before.push(log[0]).push(log[1]));
            assert(asks(log) =~= cloud_source_asks(answers@));
            assert(row_views(r@) =~= seq![first, second]);
        }
    } else {
        proof {
            lemma_since(before, seq![e0]);
            assert(before + seq![e0] =~= before.push(e0));
            assert(asks(seq![e0]) =~= cloud_source_asks(answers@));
        }
    }
    r
}

fn probe_cloud_target<R: CommandRunner>(runner: &mut Logged<R>, answers: &Answers) -> (r: Vec<Row>)
    ensures
        old(runner).leads_to(*final(runner)),
        grew(old(runner).events(), final(runner).events()),
        asks(since(old(runner).events(), final(runner).events())) == cloud_target_asks(answers@),
        row_views(r@) == cloud_target_rows(
            answers@,
            since(old(runner).events(), final(runner).events()),
        ),
{
    let ghost before = runner.events();
    proof {
        lemma_since(before, seq![]);
        assert(before + seq![] =~= before);
        assert(asks(seq![]) =~= seq![]);
    }
    if answers.provisions_aoss_target() {
        let r = aoss_status(runner, answers);
        proof {
            let e = runner.events().last();
            lemma_since(before, seq![e]);
            assert(before + seq![e] =~= before.push(e));
            assert(asks(seq![e]) =~= cloud_target_asks(answers@));
        }
        only(r)
    } else if answers.target_mode == Some(TargetMode::Provision) {
        let (health, detail) = opensearch_domain_status(
            runner,
            "ma-demo-target",
            answers.effective_aws_profile(),
            answers.effective_aws_region(),
        );
        proof {
            let e = runner.events().last();
            lemma_since(before, seq![e]);
            assert(before + seq![e] =~= before.push(e));
            assert(asks(seq![e]) =~= cloud_target_asks(answers@));
        }
        only(Row::new("OpenSearch Service", health, detail.as_str()))
    } else {
        only(Row::new("target", Health::NotApplicable, "left to Migration Assistant"))
    }
}

/// Whether a log shows a probe of the cloud.
pub open spec fn probed_the_cloud(a: AnswersView, log: Seq<Event>) -> bool {
    log.len() > 0 && asks(log) == cloud_asks(a, log)
}

/// What the three parts of a probe find is what the whole probe finds.
proof fn lemma_cloud_parts(
    a: AnswersView,
    f: Seq<Event>,
    s: Seq<Event>,
    t: Seq<Event>,
    tick: u64,
)
    requires
        f.len() > 0,
        asks(f) == account_asks(a, f),
        asks(s) == cloud_source_asks(a),
        asks(t) == cloud_target_asks(a),
    ensures
        probed_the_cloud(a, f + s + t),
        cloud_snapshot(a, f + s + t, tick).clusters == seq![account_row(a, f)],
        cloud_snapshot(a, f + s + t, tick).source_pods == cloud_source_rows(a, s),
        cloud_snapshot(a, f + s + t, tick).target == cloud_target_rows(a, t),
{
    let log = f + s + t;
    lemma_asks_concat(f, s);
    lemma_asks_concat(f + s, t);
    assert(asks(f).len() == f.len() && asks(s).len() == s.len());
    assert(log[0] == f[0]);
    assert(f[0].found() ==> log[1] == f[1]);
    assert(account_asks(a, log) == account_asks(a, f));
    assert(log.skip(f.len() as int) =~= s + t);
    assert((s + t).skip(s.len() as int) =~= t);
    assert((s + t)[0] == s[0]);
    assert(s.len() > 1 ==> (s + t)[1] == s[1]);
}

fn probe_cloud<R: CommandRunner>(runner: &mut Logged<R>, answers: &Answers, tick: u64) -> (r: Snapshot)
    ensures
        old(runner).leads_to(*final(runner)),
        grew(old(runner).events(), final(runner).events()),
        probed_the_cloud(answers@, since(old(runner).events(), final(runner).events())),
        r@ == cloud_snapshot(answers@, since(old(runner).events(), final(runner).events()), tick),
{
    let ghost before = runner.events();
    let account = probe_account(runner, answers);
    let ghost at1 = runner.events();
    let source_pods = probe_cloud_source(runner, answers);
    let ghost at2 = runner.events();
    let target = probe_cloud_target(runner, answers);
    let ma = Row::new(
        "MA CLI",
        Health::NotApplicable,
        "installed to workspace bin/ (deploys to EKS)",
    );
    let r = Snapshot {
        clusters: only(account),
        source_pods,
        indices: Vec::new(),
        target,
        ma: only(ma),
        tick,
        frame: 0,
    };
    proof {
        let after = runner.events();
        let f = since(before, at1);
        let s = since(at1, at2);
        let t = since(at2, after);
        let log = f + s + t;
        assert(after =~= before + log);
        lemma_since(before, log);
        lemma_cloud_parts(answers@, f, s, t, tick);
        assert(row_views(r.indices@) =~= seq![]);
        assert(r@ =~= cloud_snapshot(answers@, log, tick));
    }
    r
}

/// Whether a log shows a probe of the environment of a plan.
pub open spec fn probed(a: AnswersView, log: Seq<Event>) -> bool {
    if a.target == Some(Target::Cloud) {
        probed_the_cloud(a, log)
    } else {
        probed_locally(a, log)
    }
}

/// What a probe finds, given the replies to what it asked.
pub open spec fn snapshot_of(a: AnswersView, log: Seq<Event>, tick: u64) -> SnapshotView {
    if a.target == Some(Target::Cloud) {
        cloud_snapshot(a, log, tick)
    } else {
        local_snapshot(a, log, tick)
    }
}

/// Looks at the environment of a plan: at the AWS resources of one in the cloud, at the KIND
/// clusters of any other.
pub fn probe<R: CommandRunner>(runner: &mut Logged<R>, answers: &Answers, tick: u64) -> (r: Snapshot)
    ensures
        old(runner).leads_to(*final(runner)),
        grew(old(runner).events(), final(runner).events()),
        probed(answers@, since(old(runner).events(), final(runner).events())),
        r@ == snapshot_of(answers@, since(old(runner).events(), final(runner).events()), tick),
{
    if answers.target == Some(Target::Cloud) {
        probe_cloud(runner, answers, tick)
    } else {
        probe_local(runner, answers, tick)
    }
}

// ---------------------------------------------------------------------------
// What holds of every probe
// ---------------------------------------------------------------------------

/// A probe of the cloud uses nothing but the `aws` tool: there are no clusters to look for.
pub proof fn law_the_cloud_is_probed_with_aws_only(a: AnswersView, log: Seq<Event>, i: int)
    requires
        probed_the_cloud(a, log),
        0 <= i < log.len(),
    ensures
        match log[i].ask() {
            Ask::Run(call) => call.program == "aws"@,
            Ask::Stream(_) => false,
            Ask::Find(program) => program == "aws"@,
        },
{
    assert(asks(log).len() == log.len());
    assert(asks(log)[i] == log[i].ask());
    let n = account_asks(a, log).len() as int;
    let m = cloud_source_asks(a).len() as int;
    if i < n {
        assert(cloud_asks(a, log)[i] == account_asks(a, log)[i]);
    } else if i < n + m {
        assert(cloud_asks(a, log)[i] == cloud_source_asks(a)[i - n]);
    } else {
        assert(cloud_asks(a, log)[i] == cloud_target_asks(a)[i - n - m]);
    }
}

/// A probe of a local environment asks `kind` first, then `kubectl`, and `aws` only about a
/// serverless target.
pub proof fn law_a_local_probe_asks_about_the_plan_only(a: AnswersView, log: Seq<Event>, i: int)
    requires
        probed_locally(a, log),
        0 <= i < log.len(),
    ensures
        log[i].ask() matches Ask::Run(call) && (call.program == "kind"@ || call.program
            == "kubectl"@ || (call.program == "aws"@ && a.aoss_target())),
        i == 0 ==> log[i].ask() == Ask::Run(clusters_query()),
{
    assert(asks(log).len() == log.len());
    assert(asks(log)[i] == log[i].ask());
    let existing = clusters_in(log[0].output());
    let n = source_asks(a, existing).len() as int;
    let m = target_asks(a, existing).len() as int;
    let all = local_asks(a, existing);
    if i == 0 {
        assert(all[0] == Ask::Run(clusters_query()));
    } else if i < 1 + n {
        assert(all[i] == source_asks(a, existing)[i - 1]);
    } else if i < 1 + n + m {
        assert(all[i] == target_asks(a, existing)[i - 1 - n]);
    } else {
        assert(all[i] == ma_asks(a, existing)[i - 1 - n - m]);
    }
}

/// While no cluster exists, every cluster is pending, the source too, and nothing is asked about what
/// would run in them.
pub proof fn law_nothing_is_up_without_clusters(a: AnswersView, log: Seq<Event>, tick: u64, i: int)
    requires
        probed_locally(a, log),
        clusters_in(log[0].output()).len() == 0,
        0 <= i < local_snapshot(a, log, tick).clusters.len(),
    ensures
        local_snapshot(a, log, tick).clusters[i].health == Health::Pending,
        local_snapshot(a, log, tick).source_pods == seq![
            row("source"@, Health::Pending, "cluster not up yet"@),
        ],
        local_snapshot(a, log, tick).indices.len() == 0,
        !a.aoss_target() ==> log.len() == 1,
{
    assert(asks(log).len() == log.len());
}

/// A cluster is shown for the target if and only if the target is to run in one.
pub proof fn law_a_target_cluster_is_shown_if_planned(a: AnswersView, existing: Seq<Seq<char>>)
    ensures
        (exists|i: int|
            0 <= i < cluster_rows(a, existing).len() && (#[trigger] cluster_rows(a, existing)[i]).detail
                == target_cluster_name()) <==> a.local_target(),
{
    law_cluster_names_are_distinct();
    if a.local_target() {
        assert(cluster_rows(a, existing)[1].detail == target_cluster_name());
    }
}

proof fn lemma_one_word(w: Seq<char>)
    requires
        solid(w),
    ensures
        words_of(w) == seq![w],
{
    lemma_one_piece(w, Sep::White);
    assert(seq![w].drop_last() =~= Seq::<Seq<char>>::empty());
    reveal_with_fuel(nonempty, 3);
    assert(words_of(w) =~= seq![w]);
}

#[verifier::spinoff_prover]
proof fn lemma_three_words(a: Seq<char>, b: Seq<char>, c: Seq<char>, sep: char)
    requires
        solid(a),
        solid(b),
        solid(c),
        white(sep),
    ensures
        words_of(a + seq![sep] + b + seq![sep] + c) == seq![a, b, c],
{
    let all = a + seq![sep] + b + seq![sep] + c;
    lemma_one_piece(a, Sep::White);
    lemma_one_piece(b, Sep::White);
    lemma_one_piece(c, Sep::White);
    let two = a.push(sep) + b;
    lemma_pieces_join(a, sep, b, Sep::White);
    lemma_pieces_join(two, sep, c, Sep::White);
    assert(two.push(sep) + c =~= all);
    let p = seq![a, b, c];
    assert(pieces(all, Sep::White) =~= p);
    reveal_with_fuel(nonempty, 4);
    assert(p.drop_last() =~= seq![a, b]);
    assert(seq![a, b].drop_last() =~= seq![a]);
    assert(seq![a].drop_last() =~= Seq::<Seq<char>>::empty());
    assert(words_of(all) =~= p);
}

/// What the columns of a reply hold without white space in it, one of the columns holds.
proof fn lemma_in_a_column(
    a: Seq<char>,
    b: Seq<char>,
    c: Seq<char>,
    sep: char,
    needle: Seq<char>,
)
    requires
        !needle.contains(sep),
    ensures
        contains(a + seq![sep] + b + seq![sep] + c, needle) <==> contains(a, needle) || contains(
            b,
            needle,
        ) || contains(c, needle),
{
    broadcast use group_contains;

    let two = a + seq![sep] + b;
    let all = two + seq![sep] + c;
    if contains(all, needle) {
        lemma_contains_beside(two, sep, c, needle);
        if contains(two, needle) {
            lemma_contains_beside(a, sep, b, needle);
        }
    }
}

/// The reply about a domain has three columns: whether it was created, its endpoint, and whether it
/// is being processed. The domain is up if and only if the last one says `False`, with its endpoint
/// once that is known, and pending while it says `True`.
pub proof fn law_a_domain_is_up_once_processed(
    out: OutputView,
    endpoint: Seq<char>,
    processing: bool,
    sep: char,
)
    requires
        out.status == 0,
        sep == ' ' || sep == '\t',
        solid(endpoint),
        !contains(endpoint, "True"@),
        !contains(endpoint, "False"@),
        ({
            let last = if processing {
                "True"@
            } else {
                "False"@
            };
            let line = "True"@ + seq![sep] + endpoint + seq![sep] + last;
            out.stdout == line || out.stdout == line + seq!['\n']
        }),
    ensures
        domain_in(out).0 == Health::Up <==> !processing,
        processing ==> domain_in(out) == (Health::Pending, "processing"@),
        !processing && endpoint.contains('.') ==> domain_in(out).1 == endpoint,
        !processing && !endpoint.contains('.') ==> domain_in(out).1 == "active"@,
{
    if processing {
        lemma_domain_reply(out, endpoint, "True"@, sep);
    } else {
        lemma_domain_reply(out, endpoint, "False"@, sep);
    }
}

/// What a reply about a domain comes to, by its last column.
#[verifier::spinoff_prover]
proof fn lemma_domain_reply(out: OutputView, endpoint: Seq<char>, last: Seq<char>, sep: char)
    requires
        out.status == 0,
        sep == ' ' || sep == '\t',
        solid(endpoint),
        !contains(endpoint, "False"@),
        last == "True"@ || last == "False"@,
        out.stdout == "True"@ + seq![sep] + endpoint + seq![sep] + last || out.stdout == "True"@
            + seq![sep] + endpoint + seq![sep] + last + seq!['\n'],
    ensures
        last == "False"@ ==> domain_in(out) == (
            Health::Up,
            if endpoint.contains('.') {
                endpoint
            } else {
                "active"@
            },
        ),
        last == "True"@ ==> domain_in(out) == (Health::Pending, "processing"@),
{
    let f = domain_in(out);
    let w = seq!["True"@, endpoint, "False"@];
    assert({
        &&& "True"@ != "False"@
        &&& contains(chomped(out.stdout), "False"@) <==> last == "False"@
        &&& words_of(chomped(out.stdout)) == seq!["True"@, endpoint, last]
    }) by {
        lemma_true_and_false(sep);
        lemma_reply_of_columns(endpoint, "True"@, "False"@, last, sep, out.stdout);
    }
    assert(dotted(w, 0) == if endpoint.contains('.') {
        Some(endpoint)
    } else {
        None
    }) by {
        lemma_true_and_false(sep);
        lemma_the_dotted_word(endpoint);
    }
    if last == "False"@ {
        assert(words_of(chomped(out.stdout)) == w);
        assert(f.0 == Health::Up);
    } else {
        assert(f.0 == Health::Pending);
    }
}

/// A reply of three columns, the first being one of two words and the last either of them, holds the
/// second word if and only if that is its last column.
#[verifier::spinoff_prover]
proof fn lemma_reply_of_columns(
    middle: Seq<char>,
    yes: Seq<char>,
    no: Seq<char>,
    last: Seq<char>,
    sep: char,
    reply: Seq<char>,
)
    requires
        sep == ' ' || sep == '\t',
        solid(yes),
        solid(no),
        solid(middle),
        !no.contains(sep),
        !contains(yes, no),
        !contains(middle, no),
        last == yes || last == no,
        reply == yes + seq![sep] + middle + seq![sep] + last || reply == yes + seq![sep] + middle
            + seq![sep] + last + seq!['\n'],
    ensures
        yes != no,
        contains(chomped(reply), no) <==> last == no,
        words_of(chomped(reply)) == seq![yes, middle, last],
{
    lemma_contains_itself(no);
    lemma_columns(yes, middle, last, sep, reply);
    lemma_in_a_column(yes, middle, last, sep, no);
}

/// A reply of three columns, with or without a newline after it.
proof fn lemma_columns(a: Seq<char>, b: Seq<char>, c: Seq<char>, sep: char, reply: Seq<char>)
    requires
        sep == ' ' || sep == '\t',
        solid(a),
        solid(b),
        solid(c),
        reply == a + seq![sep] + b + seq![sep] + c || reply == a + seq![sep] + b + seq![sep] + c
            + seq!['\n'],
    ensures
        chomped(reply) == a + seq![sep] + b + seq![sep] + c,
        words_of(chomped(reply)) == seq![a, b, c],
{
    let line = a + seq![sep] + b + seq![sep] + c;
    assert(line.last() == c.last());
    assert(!white(c[c.len() - 1]));
    lemma_chomped(line);
    lemma_three_words(a, b, c, sep);
}

proof fn lemma_true_and_false(sep: char)
    requires
        white(sep),
    ensures
        solid("True"@) && solid("False"@),
        !"False"@.contains(sep),
        !contains("True"@, "False"@),
        !"True"@.contains('.') && !"False"@.contains('.'),
{
    assert("True"@.len() == 4 && solid("True"@) && !"True"@.contains('.')) by {
        reveal_strlit("True");
    }
    assert("False"@.len() == 5 && solid("False"@) && !"False"@.contains('.')) by {
        reveal_strlit("False");
    }
    lemma_none_in_shorter("True"@, "False"@);
    lemma_solid("False"@, sep);
}

#[verifier::spinoff_prover]
proof fn lemma_the_dotted_word(endpoint: Seq<char>)
    requires
        !"True"@.contains('.') && !"False"@.contains('.'),
    ensures
        dotted(seq!["True"@, endpoint, "False"@], 0) == if endpoint.contains('.') {
            Some(endpoint)
        } else {
            None
        },
{
    let w = seq!["True"@, endpoint, "False"@];
    lemma_dot(endpoint);
    lemma_dot("True"@);
    lemma_dot("False"@);
    assert(dotted(w, 3) is None);
    assert(dotted(w, 2) == dotted(w, 3));
    assert(dotted(w, 0) == dotted(w, 1));
}

proof fn lemma_dot(s: Seq<char>)
    ensures
        contains(s, "."@) <==> s.contains('.'),
{
    reveal_strlit(".");
    assert("."@ =~= seq!['.']);
    if s.contains('.') {
        let i = choose|i: int| 0 <= i < s.len() && s[i] == '.';
        lemma_where_a_char_stands(s, '.', i);
    }
    if contains(s, "."@) {
        let i = choose|i: int| occurs_at(s, "."@, i);
        lemma_where_a_char_stands(s, '.', i);
    }
}

/// A domain that cannot be described is not created yet.
pub proof fn law_an_unknown_domain_is_pending(out: OutputView)
    requires
        out.status != 0,
    ensures
        domain_in(out) == (Health::Pending, "not created yet"@),
{
}

/// An instance is up if and only if it is running; while it is in another state it is pending, with
/// that state, and without a reply it is not created yet.
pub proof fn law_an_instance_is_up_while_running(out: OutputView, state: Seq<char>)
    requires
        solid(state),
    ensures
        out.status == 0 && (out.stdout == state || out.stdout == state + seq!['\n']) ==> {
            &&& instance_in(out).0 == Health::Up <==> state == "running"@
            &&& state == "running"@ ==> instance_in(out).1 == "running"@
            &&& state != "running"@ ==> instance_in(out).0 == Health::Pending
            &&& state == "pending"@ ==> instance_in(out).1 == "launching"@
            &&& state != "running"@ && state != "pending"@ ==> instance_in(out).1 == state
        },
        out.status != 0 ==> instance_in(out) == (Health::Pending, "querying"@),
        out.status == 0 && out.stdout.len() == 0 ==> instance_in(out) == (
            Health::Pending,
            "not created yet"@,
        ),
{
    assert(!white(state.last()));
    lemma_chomped(state);
    lemma_one_word(state);
    reveal_strlit("running");
    reveal_strlit("pending");
    assert("running"@[0] == 'r' && "pending"@[0] == 'p');
    if out.stdout.len() == 0 {
        let e = Seq::<char>::empty();
        assert(out.stdout =~= e);
        assert(pieces(e, Sep::White) =~= seq![e]);
        assert(seq![e].drop_last() =~= Seq::<Seq<char>>::empty());
        reveal_with_fuel(nonempty, 2);
        assert(words_of(e) =~= Seq::<Seq<char>>::empty());
    }
}

/// A bucket is up once it has a name, and shown under it.
pub proof fn law_a_bucket_is_up_once_named(out: OutputView, name: Seq<char>)
    requires
        solid(name),
    ensures
        out.status == 0 && (out.stdout == name || out.stdout == name + seq!['\n']) ==> {
            &&& bucket_in(out).0 == Health::Up <==> name != "None"@
            &&& name != "None"@ ==> bucket_in(out).1 == name
            &&& name == "None"@ ==> bucket_in(out) == (Health::Pending, "not created yet"@)
        },
        out.status == 0 && out.stdout.len() == 0 ==> bucket_in(out) == (
            Health::Pending,
            "not created yet"@,
        ),
        out.status != 0 ==> bucket_in(out) == (Health::Pending, "querying"@),
{
    assert(!white(name.last()) && !white(name.first()));
    lemma_chomped(name);
    assert(trimmed(name) == name);
}

/// A pod is up if it runs and all of its containers are ready, and there is one; it is pending while
/// some are not. A pod that is over is up. Any other is down if its status tells of an error, a crash
/// or a failure, and pending if not.
pub proof fn law_when_a_pod_is_up(n: Seq<char>, m: Seq<char>, ready: Seq<char>, status: Seq<char>)
    requires
        !n.contains('/'),
    ensures
        ready == n + seq!['/'] + m && status == "Running"@ ==> health_of(ready, status) == (if n == m
            && n != "0"@ {
            Health::Up
        } else {
            Health::Pending
        }),
        status == "Completed"@ || status == "Succeeded"@ ==> health_of(ready, status) == Health::Up,
        status != "Running"@ && status != "Completed"@ && status != "Succeeded"@ ==> health_of(
            ready,
            status,
        ) == (if contains(status, "Error"@) || contains(status, "CrashLoop"@) || contains(
            status,
            "Failed"@,
        ) {
            Health::Down
        } else {
            Health::Pending
        }),
{
    reveal_strlit("Running");
    reveal_strlit("Completed");
    reveal_strlit("Succeeded");
    assert("Running"@.len() == 7 && "Completed"@.len() == 9 && "Succeeded"@.len() == 9);
    lemma_halves(n, m);
}

proof fn lemma_halves(n: Seq<char>, m: Seq<char>)
    requires
        !n.contains('/'),
    ensures
        halves(n + seq!['/'] + m) == Some((n, m)),
{
    let s = n + seq!['/'] + m;
    let k = n.len() as int;
    reveal_strlit("/");
    assert("/"@ =~= seq!['/']);
    lemma_where_a_char_stands(s, '/', k);
    lemma_first_at(s, seq!['/'], 0);
    assert(first_at(s, seq!['/'], 0) is Some);
    let i = first_at(s, seq!['/'], 0)->0;
    lemma_where_a_char_stands(s, '/', i);
    if i < k {
        assert(n[i] == '/');
        assert(n.contains('/'));
    }
    assert(i == k);
    assert(s.take(k) =~= n);
    assert(s.skip(k + 1) =~= m);
}

/// A stateful set is up once all of its pods are ready, and there is one.
pub proof fn law_when_a_stateful_set_is_up(out: OutputView, n: Seq<char>, m: Seq<char>)
    requires
        solid(n),
        solid(m),
        !n.contains('/'),
    ensures
        out.status == 0 && (out.stdout == n + seq!['/'] + m || out.stdout == n + seq!['/'] + m
            + seq!['\n']) ==> replicas_in(out) == (if n == m && n != "0"@ {
            (Health::Up, "ready "@ + (n + seq!['/'] + m))
        } else {
            (Health::Pending, (n + seq!['/'] + m) + " ready"@)
        }),
        out.status != 0 ==> replicas_in(out) == (Health::Pending, "deploying"@),
{
    let s = n + seq!['/'] + m;
    assert(s.first() == n.first() && s.last() == m.last());
    assert(!white(n[0]) && !white(m[m.len() - 1]));
    lemma_chomped(s);
    assert(trimmed(s) == s);
    lemma_halves(n, m);
}

/// The row of a pod shows the name, the status and the ready containers of its line.
pub proof fn law_a_pod_row_shows_its_line(
    name: Seq<char>,
    ready: Seq<char>,
    status: Seq<char>,
    sep: char,
)
    requires
        solid(name),
        solid(ready),
        solid(status),
        sep == ' ' || sep == '\t',
    ensures
        ({
            let r = pod_row_of(name + seq![sep] + ready + seq![sep] + status);
            &&& r.label == short_name(name)
            &&& r.health == health_of(ready, status)
            &&& r.detail == status + " "@ + ready
        }),
{
    lemma_three_words(name, ready, status, sep);
}

/// The number of documents is read from a reply, whatever it holds after the number.
pub proof fn law_a_count_is_read(n: u64, rest: Seq<char>)
    requires
        rest.len() > 0 ==> !digit(rest.first()),
    ensures
        count_of("{\"count\":"@ + decimal(n as nat) + rest) == Some(n),
{
    let key = "\"count\":"@;
    let head = "{\"count\":"@;
    let d = decimal(n as nat);
    let json = head + d + rest;
    reveal_strlit("\"count\":");
    reveal_strlit("{\"count\":");
    assert(json.subrange(1, 9) =~= key);
    assert(occurs_at(json, key, 1));
    assert(json.subrange(0, 8)[0] == '{');
    assert(!occurs_at(json, key, 0));
    reveal_with_fuel(first_at, 3);
    assert(first_at(json, key, 0) == Some(1int));
    let tail = json.skip(1 + key.len() as int);
    assert(tail =~= d + rest);
    lemma_decimal(n as nat);
    lemma_digit_run(d, rest);
    assert(tail.take(d.len() as int) =~= d);
    law_number_reads_back(n);
}

proof fn lemma_digit_run(d: Seq<char>, rest: Seq<char>)
    requires
        forall|i: int| 0 <= i < d.len() ==> digit(#[trigger] d[i]),
        rest.len() > 0 ==> !digit(rest.first()),
    ensures
        digit_run(d + rest) == d.len(),
    decreases d.len(),
{
    if d.len() > 0 {
        lemma_digit_run(d.drop_first(), rest);
        assert((d + rest).drop_first() =~= d.drop_first() + rest);
        assert((d + rest).first() == d[0]);
    } else {
        assert(d + rest =~= rest);
    }
}

/// An index is up if it holds documents, pending while it is empty, down if it cannot be asked; its
/// row shows how many it holds.
pub proof fn law_when_an_index_is_up(index: Seq<char>, count: Option<u64>)
    ensures
        index_row_of(index, count).label == index,
        index_row_of(index, count).health == Health::Up <==> count is Some && count->0 > 0,
        index_row_of(index, count).health == Health::Pending <==> count == Some(0u64),
        index_row_of(index, count).health == Health::Down <==> count is None,
        count is Some ==> index_row_of(index, count).detail == decimal(count->0 as nat) + " docs"@,
{
}

/// A cluster is up if and only if it is listed, and its row names it.
pub proof fn law_when_a_cluster_is_up(
    label: Seq<char>,
    name: Seq<char>,
    existing: Seq<Seq<char>>,
)
    ensures
        cluster_row_of(label, name, existing).health == Health::Up <==> existing.contains(name),
        cluster_row_of(label, name, existing).health != Health::Up ==> cluster_row_of(
            label,
            name,
            existing,
        ).health == Health::Pending,
        cluster_row_of(label, name, existing).detail == name,
        cluster_row_of(label, name, existing).label == label,
{
}

/// The clusters of a reply are its lines; a failed command lists none.
pub proof fn law_clusters_are_listed_line_by_line(out: OutputView, a: Seq<char>, b: Seq<char>)
    requires
        solid(a),
        solid(b),
        !contains(a, "No kind clusters"@),
        !contains(b, "No kind clusters"@),
    ensures
        out.status == 0 && out.stdout == a + seq!['\n'] + b + seq!['\n'] ==> clusters_in(out) == seq![
            a,
            b,
        ],
        out.status != 0 ==> clusters_in(out).len() == 0,
{
    if out.status == 0 && out.stdout == a + seq!['\n'] + b + seq!['\n'] {
        let nl = Sep::Is('\n');
        lemma_one_piece(a, nl);
        lemma_one_piece(b, nl);
        lemma_pieces_join(a, '\n', b, nl);
        let two = a.push('\n') + b;
        let e = Seq::<char>::empty();
        lemma_pieces_join(two, '\n', e, nl);
        assert(two.push('\n') + e =~= out.stdout);
        assert(pieces(e, nl) =~= seq![e]);
        assert(pieces(out.stdout, nl) =~= seq![a, b, e]);
        assert(!white(a.last()) && !white(b.last()) && !white(a.first()) && !white(b.first()));
        let ls = lines_of(out.stdout);
        assert(ls =~= seq![a, b]);
        assert(trimmed(a) == a && trimmed(b) == b);
        reveal_with_fuel(names_in, 3);
        assert(seq![a, b].drop_last() =~= seq![a]);
        assert(seq![a].drop_last() =~= Seq::<Seq<char>>::empty());
        assert(names_in(ls) =~= seq![a, b]);
    }
}

/// The rows of two lists are counted as those of one, a row that is up counts as up, one that is not
/// part of the plan is not wanted, and the documents of the rows are added.
pub proof fn law_rows_are_counted_one_by_one(rows: Seq<RowView>, r: RowView)
    ensures
        ups(rows.push(r)) == ups(rows) + (if r.health == Health::Up {
            1nat
        } else {
            0
        }),
        wanted(rows.push(r)) == wanted(rows) + (if r.health == Health::NotApplicable {
            0nat
        } else {
            1
        }),
        ups(Seq::empty()) == 0,
        wanted(Seq::empty()) == 0,
        documents(Seq::empty()) == 0,
        forall|n: u64|
            #![trigger index_row_of(r.label, Some(n))]
            documents(rows.push(index_row_of(r.label, Some(n)))) == documents(rows) + n,
{
    assert(rows.push(r).drop_last() =~= rows);
    assert forall|n: u64|
        #![trigger index_row_of(r.label, Some(n))]
        documents(rows.push(index_row_of(r.label, Some(n)))) == documents(rows) + n by {
        let x = index_row_of(r.label, Some(n));
        assert(rows.push(x).drop_last() =~= rows);
        let d = decimal(n as nat);
        lemma_decimal(n as nat);
        reveal_strlit(" docs");
        reveal_strlit("docs");
        let docs = "docs"@;
        assert(solid(docs));
        assert(solid(d)) by {
            assert forall|i: int| 0 <= i < d.len() implies !white(#[trigger] d[i]) by {
                assert(digit(d[i]));
            }
        }
        assert(x.detail =~= d.push(' ') + docs);
        lemma_one_piece(d, Sep::White);
        lemma_one_piece(docs, Sep::White);
        lemma_pieces_join(d, ' ', docs, Sep::White);
        let p = seq![d, docs];
        assert(pieces(x.detail, Sep::White) =~= p);
        reveal_with_fuel(nonempty, 3);
        assert(p.drop_last() =~= seq![d]);
        assert(seq![d].drop_last() =~= Seq::<Seq<char>>::empty());
        assert(words_of(x.detail) =~= p);
        law_number_reads_back(n);
    }
}

/// The summary counts what is up against what is wanted over the clusters, the source, the target and
/// the Migration Assistant, and the documents of the indices.
pub proof fn law_the_summary_counts_everything(s: SnapshotView)
    ensures
        s.summary_text() == decimal(ups(s.clusters + s.source_pods + s.target + s.ma)) + "/"@
            + decimal(wanted(s.clusters + s.source_pods + s.target + s.ma)) + " resources up · "@
            + decimal(documents(s.indices)) + " docs seeded"@,
{
    lemma_counts_concat(s.clusters, s.source_pods);
    lemma_counts_concat(s.clusters + s.source_pods, s.target);
    lemma_counts_concat(s.clusters + s.source_pods + s.target, s.ma);
}

proof fn lemma_counts_concat(a: Seq<RowView>, b: Seq<RowView>)
    ensures
        ups(a + b) == ups(a) + ups(b),
        wanted(a + b) == wanted(a) + wanted(b),
    decreases b.len(),
{
    if b.len() > 0 {
        lemma_counts_concat(a, b.drop_last());
        assert((a + b).drop_last() =~= a + b.drop_last());
    } else {
        assert(a + b =~= a);
    }
}

/// Shortening a pod's name twice is the same as shortening it once.
pub proof fn law_shortening_is_idempotent(name: Seq<char>)
    ensures
        short_name(short_name(name)) == short_name(name),
{
    let parts = pieces(name, Sep::Is('-'));
    lemma_pieces_len(name, Sep::Is('-'));
    if !ordinal(parts.last()) {
        let k = kept(parts, parts.len() as int);
        lemma_kept(parts, parts.len() as int);
        let left = parts.take(k);
        assert forall|j: int, i: int| 0 <= j < left.len() && 0 <= i < left[j].len() implies #[trigger]
            left[j][i] != '-' by {
            law_pieces_hold_no_separator(name, Sep::Is('-'), j, i);
        }
        law_join_then_split(left, '-');
        reveal_strlit("-");
        assert("-"@ =~= seq!['-']);
        assert(left.last() == parts[k - 1]);
        assert(kept(left, left.len() as int) == left.len());
        assert(left.take(left.len() as int) =~= left);
    }
}

proof fn lemma_kept(parts: Seq<Seq<char>>, end: int)
    requires
        1 <= end <= parts.len(),
    ensures
        1 <= kept(parts, end) <= end,
        kept(parts, end) > 1 ==> !generated(parts[kept(parts, end) - 1]),
    decreases end,
{
    if end > 1 && generated(parts[end - 1]) {
        lemma_kept(parts, end - 1);
    }
}

// ---------------------------------------------------------------------------
// The loop
// ---------------------------------------------------------------------------

/// Whether a key closes the dashboard.
pub open spec fn quits(key: Key) -> bool {
    key == Key::Char('q') || key == Key::Char('Q') || key == Key::Esc
}

/// Whether a key closes the dashboard.
pub fn key_quits(key: Key) -> (r: bool)
    ensures
        r == quits(key),
{
    match key {
        Key::Char(c) => c == 'q' || c == 'Q',
        Key::Esc => true,
        _ => false,
    }
}

/// What the dashboard does next.
#[derive(Debug, Clone, Copy, PartialEq, Eq, Structural)]
pub enum Turn {
    /// It closes.
    Quit,
    /// It is drawn again.
    Redraw,
    /// The environment is probed again, and then it is drawn.
    Reprobe,
}

/// How often the dashboard was drawn, and the environment probed.
#[derive(Debug, Clone, Copy, PartialEq, Eq, Structural)]
pub struct Pace {
    pub frame: u64,
    pub tick: u64,
}

/// The number after `n`, or 0 after the last.
pub open spec fn next_count(n: u64) -> u64 {
    if n == u64::MAX {
        0
    } else {
        (n + 1) as u64
    }
}

/// What follows a key, or the lack of one: the key may close the dashboard. Otherwise it is drawn
/// again, after another probe if one is due.
pub open spec fn turned(p: Pace, press: Option<KeyPress>, due: bool) -> (Pace, Turn) {
    if press is Some && (quits(press->0.key) || interrupts(press->0)) {
        (p, Turn::Quit)
    } else if due {
        (Pace { frame: next_count(p.frame), tick: next_count(p.tick) }, Turn::Reprobe)
    } else {
        (Pace { frame: next_count(p.frame), ..p }, Turn::Redraw)
    }
}

impl Pace {
    /// Before the first drawing.
    pub fn new() -> (r: Self)
        ensures
            r == (Pace { frame: 0, tick: 0 }),
    {
        Pace { frame: 0, tick: 0 }
    }

    /// What follows a key, or the lack of one. The frames are counted on every turn, the ticks only
    /// when a probe is due.
    pub fn turn(&mut self, press: Option<KeyPress>, due: bool) -> (r: Turn)
        ensures
            (*final(self), r) == turned(*old(self), press, due),
    {
        if let Some(k) = press {
            if key_quits(k.key) || is_ctrl_c(k) {
                return Turn::Quit;
            }
        }
        self.frame = self.frame.wrapping_add(1);
        if due {
            self.tick = self.tick.wrapping_add(1);
            Turn::Reprobe
        } else {
            Turn::Redraw
        }
    }
}

/// Every query of a probe names what it asks about: the pods of a namespace in a cluster, an index of
/// the source at its host, an instance, a bucket, a domain or a collection of a profile and region.
pub proof fn law_queries_name_what_they_ask_about(
    context: Seq<char>,
    namespace: Seq<char>,
    host: Seq<char>,
    index: Seq<char>,
    name: Seq<char>,
    profile: Seq<char>,
    region: Seq<char>,
)
    ensures
        ({
            let c = pods_query(context, namespace);
            &&& c.program == "kubectl"@
            &&& c.passes("--context"@, context)
            &&& c.passes("-n"@, namespace)
            &&& c.passes("get"@, "pods"@)
        }),
        ({
            let c = count_query(context, host, index);
            &&& c.program == "kubectl"@
            &&& c.passes("--context"@, context)
            &&& c.passes("-n"@, "ma-demo"@)
            &&& c.passes("exec"@, host + "-0"@)
            &&& c.args.last() == "http://"@ + host + ":9200/"@ + index + "/_count"@
        }),
        ({
            let c = replicas_query(context, namespace, name);
            &&& c.program == "kubectl"@
            &&& c.passes("--context"@, context)
            &&& c.passes("-n"@, namespace)
            &&& c.passes("statefulset"@, name)
        }),
        ({
            let c = instance_query(name, profile, region);
            &&& c.program == "aws"@
            &&& c.passes("ec2"@, "describe-instances"@)
            &&& c.passes("--profile"@, profile)
            &&& c.passes("--region"@, region)
            &&& c.passes("--filters"@, "Name=tag:Name,Values="@ + name)
        }),
        ({
            let c = bucket_query(name, profile);
            &&& c.program == "aws"@
            &&& c.passes("s3api"@, "list-buckets"@)
            &&& c.passes("--profile"@, profile)
            &&& c.passes("--query"@, "Buckets[?starts_with(Name, `"@ + name + "`)].Name | [0]"@)
        }),
        ({
            let c = domain_query(name, profile, region);
            &&& c.program == "aws"@
            &&& c.passes("opensearch"@, "describe-domain"@)
            &&& c.passes("--profile"@, profile)
            &&& c.passes("--region"@, region)
            &&& c.passes("--domain-name"@, name)
        }),
        ({
            let c = command("aws"@, collection_query(name, region));
            &&& c.passes("opensearchserverless"@, "batch-get-collection"@)
            &&& c.passes("--names"@, name)
            &&& c.passes("--region"@, region)
        }),
        clusters_query().program == "kind"@,
        clusters_query().passes("get"@, "clusters"@),
{
    let c = pods_query(context, namespace);
    lemma_passes(c, 0, "--context"@, context);
    lemma_passes(c, 2, "-n"@, namespace);
    lemma_passes(c, 4, "get"@, "pods"@);
    let c = count_query(context, host, index);
    lemma_passes(c, 0, "--context"@, context);
    lemma_passes(c, 2, "-n"@, "ma-demo"@);
    lemma_passes(c, 4, "exec"@, host + "-0"@);
    let c = replicas_query(context, namespace, name);
    lemma_passes(c, 0, "--context"@, context);
    lemma_passes(c, 2, "-n"@, namespace);
    lemma_passes(c, 5, "statefulset"@, name);
    let c = instance_query(name, profile, region);
    lemma_passes(c, 0, "ec2"@, "describe-instances"@);
    lemma_passes(c, 2, "--profile"@, profile);
    lemma_passes(c, 4, "--region"@, region);
    lemma_passes(c, 6, "--filters"@, "Name=tag:Name,Values="@ + name);
    let c = bucket_query(name, profile);
    lemma_passes(c, 0, "s3api"@, "list-buckets"@);
    lemma_passes(c, 2, "--profile"@, profile);
    lemma_passes(c, 4, "--query"@, "Buckets[?starts_with(Name, `"@ + name + "`)].Name | [0]"@);
    let c = domain_query(name, profile, region);
    lemma_passes(c, 0, "opensearch"@, "describe-domain"@);
    lemma_passes(c, 2, "--profile"@, profile);
    lemma_passes(c, 4, "--region"@, region);
    lemma_passes(c, 6, "--domain-name"@, name);
    let c = command("aws"@, collection_query(name, region));
    lemma_passes(c, 0, "opensearchserverless"@, "batch-get-collection"@);
    lemma_passes(c, 2, "--names"@, name);
    lemma_passes(c, 4, "--region"@, region);
    lemma_passes(clusters_query(), 0, "get"@, "clusters"@);
}

/// A local probe shows what it was told. Each cluster of the plan has a row; once the source cluster
/// is there, its pods are those of the reply about them, and each seed index has the count of the
/// reply about that very index.
pub proof fn law_a_local_probe_shows_the_source(a: AnswersView, log: Seq<Event>, tick: u64)
    requires
        probed_locally(a, log),
    ensures
        ({
            let s = local_snapshot(a, log, tick);
            let existing = clusters_in(log[0].output());
            let cluster = "ma-demo"@ + "-source"@;
            let context = "kind-"@ + cluster;
            let there = existing.contains(cluster);
            let http = a.source_engine == Some(SourceEngine::Elasticsearch) || a.source_engine
                == Some(SourceEngine::OpenSearch);
            let host = if a.source_engine == Some(SourceEngine::OpenSearch) {
                "source-opensearch"@
            } else {
                "source-elasticsearch"@
            };
            &&& s.tick == tick
            &&& s.clusters[0] == cluster_row_of("source cluster"@, cluster, existing)
            &&& !there ==> s.source_pods == seq![
                row("source"@, Health::Pending, "cluster not up yet"@),
            ]
            &&& there ==> log[1].ask() == Ask::Run(pods_query(context, "ma-demo"@))
                && s.source_pods == pods_in(log[1].output())
            &&& there && http ==> {
                &&& s.indices.len() == 3
                &&& log[2].ask() == Ask::Run(count_query(context, host, "demo-logs"@))
                &&& s.indices[0] == index_row_of("demo-logs"@, count_in(log[2].output()))
                &&& log[3].ask() == Ask::Run(count_query(context, host, "demo-users"@))
                &&& s.indices[1] == index_row_of("demo-users"@, count_in(log[3].output()))
                &&& log[4].ask() == Ask::Run(count_query(context, host, "demo-products"@))
                &&& s.indices[2] == index_row_of("demo-products"@, count_in(log[4].output()))
            }
            &&& !there || !http ==> s.indices.len() == 0
        }),
{
    let existing = clusters_in(log[0].output());
    let all = local_asks(a, existing);
    let src = source_asks(a, existing);
    assert(asks(log).len() == log.len());
    if existing.contains(source_cluster_name()) {
        assert(log.skip(1)[0] == log[1]);
        assert(all[1] == src[0] && asks(log)[1] == log[1].ask());
        if a.http_source() {
            assert(all[2] == src[1] && asks(log)[2] == log[2].ask());
            assert(all[3] == src[2] && asks(log)[3] == log[3].ask());
            assert(all[4] == src[3] && asks(log)[4] == log[4].ask());
            assert(log.skip(1)[1] == log[2] && log.skip(1)[2] == log[3] && log.skip(1)[3] == log[4]);
        }
    }
    if let Some(e) = a.source_engine {
        assert(e == SourceEngine::Elasticsearch || e == SourceEngine::OpenSearch || e
            == SourceEngine::Solr);
    }
}

/// A local probe shows the target that was planned: the pods of its cluster once that is there, or the
/// collection, as the reply about it says; a target that is left alone is not part of the plan.
pub proof fn law_a_local_probe_shows_the_target(a: AnswersView, log: Seq<Event>, tick: u64)
    requires
        probed_locally(a, log),
    ensures
        ({
            let s = local_snapshot(a, log, tick);
            let existing = clusters_in(log[0].output());
            let cluster = "ma-demo"@ + "-target"@;
            let k = (1 + source_asks(a, existing).len()) as int;
            let provisions = a.target_mode == Some(TargetMode::Provision);
            let serverless = a.target_kind == Some(TargetKind::AossServerlessNextGen);
            &&& !provisions ==> s.target == seq![
                row("target"@, Health::NotApplicable, "left to Migration Assistant"@),
            ]
            &&& provisions && serverless ==> log[k].ask() == Ask::Run(
                command("aws"@, collection_query(cluster, a.region())),
            ) && s.target == seq![collection_row(log[k].output())]
            &&& provisions && !serverless && !existing.contains(cluster) ==> s.target == seq![
                row("target-opensearch"@, Health::Pending, "cluster not up yet"@),
            ]
            &&& provisions && !serverless && existing.contains(cluster) ==> {
                &&& log[k].ask() == Ask::Run(pods_query("kind-"@ + cluster, "ma-demo"@))
                &&& pods_in(log[k].output()).len() > 0 ==> s.target == pods_in(log[k].output())
                &&& pods_in(log[k].output()).len() == 0 ==> s.target == seq![
                    row("target-opensearch"@, Health::Pending, "starting"@),
                ]
            }
        }),
{
    let existing = clusters_in(log[0].output());
    let all = local_asks(a, existing);
    let src = source_asks(a, existing);
    let t = target_asks(a, existing);
    let k = (1 + src.len()) as int;
    assert(asks(log).len() == log.len());
    if t.len() > 0 {
        assert(all[k] == t[0] && asks(log)[k] == log[k].ask());
        assert(log.skip(1).skip(src.len() as int)[0] == log[k]);
    }
}

/// A local probe shows the Migration Assistant that was planned: its console, as the reply about it
/// says, where it runs in a cluster of its own; else that its command line is installed.
pub proof fn law_a_local_probe_shows_the_assistant(a: AnswersView, log: Seq<Event>, tick: u64)
    requires
        probed_locally(a, log),
    ensures
        ({
            let s = local_snapshot(a, log, tick);
            let existing = clusters_in(log[0].output());
            let cluster = "ma-demo"@ + "-ma"@;
            let k = log.len() - 1;
            let planned = a.ma_handoff == Some(MaHandoff::DeployLocalHelm);
            &&& !planned ==> s.ma == seq![
                row("MA CLI"@, Health::NotApplicable, "installed to workspace bin/"@),
            ]
            &&& planned && !existing.contains(cluster) ==> s.ma == seq![
                row("migration-console"@, Health::Pending, "deploying"@),
            ]
            &&& planned && existing.contains(cluster) ==> log[k].ask() == Ask::Run(
                replicas_query("kind-"@ + cluster, "ma"@, "migration-console"@),
            ) && s.ma == seq![
                row(
                    "migration-console"@,
                    replicas_in(log[k].output()).0,
                    replicas_in(log[k].output()).1,
                ),
            ]
            &&& planned ==> s.clusters.last() == cluster_row_of("MA cluster"@, cluster, existing)
        }),
{
    let existing = clusters_in(log[0].output());
    let all = local_asks(a, existing);
    let src = source_asks(a, existing);
    let t = target_asks(a, existing);
    let m = ma_asks(a, existing);
    let k = log.len() - 1;
    assert(asks(log).len() == log.len());
    if m.len() > 0 {
        assert(all[k] == m[0] && asks(log)[k] == log[k].ask());
        assert(log.skip(1).skip(src.len() as int).skip(t.len() as int)[0] == log[k]);
    }
}

/// A probe of the cloud shows what it was told: the caller's account, or that there are no
/// credentials; the instance of the source; the bucket unless no snapshots are stored; the target that
/// was planned.
pub proof fn law_a_cloud_probe_shows_what_it_was_told(a: AnswersView, log: Seq<Event>, tick: u64)
    requires
        probed_the_cloud(a, log),
    ensures
        ({
            let s = cloud_snapshot(a, log, tick);
            let n = if log[0].found() {
                2int
            } else {
                1
            };
            let stores = a.snapshot_storage != Some(SnapshotStorage::NoStorage);
            let k = n + if stores {
                2int
            } else {
                1
            };
            let serverless = a.target_kind == Some(TargetKind::AossServerlessNextGen);
            let provisions = a.target_mode == Some(TargetMode::Provision);
            &&& s.tick == tick && s.indices.len() == 0 && s.clusters.len() == 1
            &&& !log[0].found() ==> s.clusters[0] == row(
                "AWS"@,
                Health::Down,
                "aws CLI not on PATH"@,
            )
            &&& log[0].found() ==> log[1].ask() == Ask::Run(
                identity_query(a.profile(), a.region()),
            ) && (s.clusters[0].health == Health::Up <==> identity_in(log[1].output()) is Some)
            &&& log[0].found() && identity_in(log[1].output()) is None ==> s.clusters[0] == row(
                "AWS account"@,
                Health::Down,
                "creds missing/expired (profile "@ + a.profile() + ")"@,
            )
            &&& log[n].ask() == Ask::Run(
                instance_query("ma-demo-source"@, a.profile(), a.region()),
            )
            &&& s.source_pods[0] == row(
                "source EC2"@,
                instance_in(log[n].output()).0,
                instance_in(log[n].output()).1,
            )
            &&& s.source_pods.len() == if stores {
                2int
            } else {
                1
            }
            &&& stores ==> log[n + 1].ask() == Ask::Run(
                bucket_query("ma-demo-snapshots"@, a.profile()),
            ) && s.source_pods[1] == row(
                "S3 snapshots"@,
                bucket_in(log[n + 1].output()).0,
                bucket_in(log[n + 1].output()).1,
            )
            &&& provisions && serverless ==> log[k].ask() == Ask::Run(
                command("aws"@, collection_query("ma-demo"@ + "-target"@, a.region())),
            ) && s.target == seq![collection_row(log[k].output())]
            &&& provisions && !serverless ==> log[k].ask() == Ask::Run(
                domain_query("ma-demo-target"@, a.profile(), a.region()),
            ) && s.target == seq![
                row(
                    "OpenSearch Service"@,
                    domain_in(log[k].output()).0,
                    domain_in(log[k].output()).1,
                ),
            ]
            &&& !provisions ==> s.target == seq![
                row("target"@, Health::NotApplicable, "left to Migration Assistant"@),
            ]
        }),
{
    let acc = account_asks(a, log);
    let src = cloud_source_asks(a);
    let t = cloud_target_asks(a);
    let all = cloud_asks(a, log);
    let n = acc.len() as int;
    let k = n + src.len();
    assert(asks(log).len() == log.len());
    assert(all[n] == src[0] && asks(log)[n] == log[n].ask());
    assert(log.skip(n)[0] == log[n]);
    if log[0].found() {
        assert(all[1] == acc[1] && asks(log)[1] == log[1].ask());
    }
    if src.len() == 2 {
        assert(all[n + 1] == src[1] && asks(log)[n + 1] == log[n + 1].ask());
        assert(log.skip(n)[1] == log[n + 1]);
    }
    if t.len() > 0 {
        assert(all[k] == t[0] && asks(log)[k] == log[k].ask());
        assert(log.skip(n).skip(src.len() as int)[0] == log[k]);
    }
}

/// The account of the caller is shown with the region and the profile that are probed.
pub proof fn law_the_account_row_names_the_account(
    a: AnswersView,
    log: Seq<Event>,
    arn: Seq<char>,
    account: Seq<char>,
)
    requires
        log[0].found(),
        identity_in(log[1].output()) == Some(arn),
        account_in(arn) == Some(account),
    ensures
        account_row(a, log) == row(
            "AWS account"@,
            Health::Up,
            account + " · "@ + a.region() + " · profile "@ + a.profile(),
        ),
{
}

/// A collection is up once it can be reached, at the endpoint of the reply, and pending till then.
pub proof fn law_when_a_collection_is_up(out: OutputView)
    ensures
        collection_row(out).health == Health::Up <==> out.status == 0 && endpoint_in(out.stdout)
            is Some,
        collection_row(out).health == Health::Up ==> collection_row(out).detail == endpoint_in(
            out.stdout,
        )->0,
        collection_row(out).health != Health::Up ==> collection_row(out).health == Health::Pending,
{
}

/// What the clusters of a plan are called on the dashboard, and that there is a row for each of them
/// and no other.
pub proof fn law_the_cluster_rows_of_a_plan(a: AnswersView, existing: Seq<Seq<char>>)
    ensures
        ({
            let rows = cluster_rows(a, existing);
            let target = a.target_mode == Some(TargetMode::Provision) && a.target_kind != Some(
                TargetKind::AossServerlessNextGen,
            );
            let ma = a.ma_handoff == Some(MaHandoff::DeployLocalHelm);
            &&& rows.len() == 1 + (if target {
                1int
            } else {
                0
            }) + (if ma {
                1int
            } else {
                0
            })
            &&& rows[0] == cluster_row_of("source cluster"@, "ma-demo"@ + "-source"@, existing)
            &&& target ==> rows[1] == cluster_row_of(
                "target cluster"@,
                "ma-demo"@ + "-target"@,
                existing,
            )
            &&& ma ==> rows.last() == cluster_row_of("MA cluster"@, "ma-demo"@ + "-ma"@, existing)
        }),
{
}

/// Every pod of a reply has a row, in the order of the reply; blank lines have none, and a failed
/// command shows no pods.
pub proof fn law_every_pod_has_a_row(out: OutputView, lines: Seq<Seq<char>>, line: Seq<char>)
    ensures
        trimmed(line).len() > 0 ==> pod_rows_of(lines.push(line)) == pod_rows_of(lines).push(
            pod_row_of(line),
        ),
        trimmed(line).len() == 0 ==> pod_rows_of(lines.push(line)) == pod_rows_of(lines),
        pod_rows_of(Seq::empty()).len() == 0,
        out.status != 0 ==> pods_in(out).len() == 0,
        out.status == 0 ==> pods_in(out) == pod_rows_of(lines_of(out.stdout)),
{
    assert(lines.push(line).drop_last() =~= lines);
}

/// What is generated is left out of the name of a pod, and an ordinal is not.
pub proof fn law_generated_parts_are_left_out(
    base: Seq<char>,
    hash: Seq<char>,
    suffix: Seq<char>,
    number: Seq<char>,
)
    requires
        base.len() > 0,
        !base.contains('-'),
        8 <= hash.len() <= 10,
        forall|i: int| 0 <= i < hash.len() ==> 'a' <= #[trigger] hash[i] <= 'z' || digit(hash[i]),
        exists|i: int| 0 <= i < hash.len() && digit(#[trigger] hash[i]),
        suffix.len() == 5,
        forall|i: int|
            0 <= i < suffix.len() ==> 'a' <= #[trigger] suffix[i] <= 'z' || digit(suffix[i]),
        exists|i: int| 0 <= i < suffix.len() && !digit(#[trigger] suffix[i]),
        number.len() > 0,
        forall|i: int| 0 <= i < number.len() ==> digit(#[trigger] number[i]),
    ensures
        short_name(base + seq!['-'] + hash + seq!['-'] + suffix) == base,
        short_name(base + seq!['-'] + number) == base + seq!['-'] + number,
{
    let dash = Sep::Is('-');
    assert forall|i: int| 0 <= i < base.len() implies !dash.hits(#[trigger] base[i]) by {
        assert(base.contains(base[i]));
    }
    assert forall|i: int| 0 <= i < hash.len() implies !dash.hits(#[trigger] hash[i]) by {
        assert(suffix_char(hash[i]));
    }
    assert forall|i: int| 0 <= i < suffix.len() implies !dash.hits(#[trigger] suffix[i]) by {
        assert(suffix_char(suffix[i]));
    }
    lemma_one_piece(base, dash);
    lemma_one_piece(hash, dash);
    lemma_one_piece(suffix, dash);
    lemma_one_piece(number, dash);
    lemma_pieces_join(base, '-', hash, dash);
    let two = base.push('-') + hash;
    lemma_pieces_join(two, '-', suffix, dash);
    let name = base + seq!['-'] + hash + seq!['-'] + suffix;
    assert(two.push('-') + suffix =~= name);
    let parts = pieces(name, dash);
    assert(parts =~= seq![base, hash, suffix]);
    assert(generated(suffix) && generated(hash));
    assert(!ordinal(suffix));
    assert(kept(parts, 1) == 1);
    assert(kept(parts, 2) == 1);
    assert(kept(parts, 3) == 1);
    assert(parts.take(1) =~= seq![base]);
    lemma_pieces_join(base, '-', number, dash);
    assert(base.push('-') + number =~= base + seq!['-'] + number);
    assert(pieces(base + seq!['-'] + number, dash) =~= seq![base, number]);
}

/// The dashboard closes on `q`, `Q`, Esc and an interrupt, and on nothing else; it is probed again
/// when a probe is due, and drawn again in any case, and both are counted.
pub proof fn law_when_the_dashboard_closes(p: Pace, press: Option<KeyPress>, due: bool)
    ensures
        turned(p, press, due).1 == Turn::Quit <==> press is Some && (press->0.key == Key::Char('q')
            || press->0.key == Key::Char('Q') || press->0.key == Key::Esc || (press->0.control && (
        press->0.key == Key::Char('c') || press->0.key == Key::Char('d')))),
        turned(p, press, due).1 == Turn::Quit ==> turned(p, press, due).0 == p,
        turned(p, press, due).1 != Turn::Quit ==> (turned(p, press, due).1 == Turn::Reprobe
            <==> due),
        turned(p, None, due).1 != Turn::Quit,
        p.frame < u64::MAX && p.tick < u64::MAX && turned(p, press, due).1 != Turn::Quit ==> {
            &&& turned(p, press, due).0.frame == p.frame + 1
            &&& turned(p, press, due).0.tick == p.tick + if due {
                1int
            } else {
                0
            }
        },
{
}

} // verus!
