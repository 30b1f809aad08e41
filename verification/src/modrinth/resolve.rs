//! Resolving the required dependencies of a version, step by step: the
//! resolver asks for the best version of a project and is handed the
//! answer, until it has a plan or a conflict.
use crate::error::MonoryxError;
use crate::modrinth::dependencies::{holds_id, DepInfo, DependencyPlan, ResolvedDep};
use crate::modrinth::models::{DependencyType, ProjectVersion, VersionDependency};
use crate::text::{concat2, from_chars, lit, to_chars};
use vstd::prelude::*;
use vstd::seq_lib::{to_multiset_contains, to_multiset_insert, to_multiset_remove};

verus! {

/// A resolution in progress.
pub struct ResolveState {
    /// The version whose dependencies are resolved.
    pub root: ProjectVersion,
    /// Projects and versions already installed or resolved.
    pub done: Vec<String>,
    /// Versions whose dependencies are still to be scanned: the root
    /// (`None`) or an index into `ordered`, with its depth.
    pub stack: Vec<(Option<usize>, usize)>,
    /// The version being scanned, its depth, and its next dependency.
    pub current: Option<(Option<usize>, usize, usize)>,
    /// The project asked for, with the depth of the version that needs it.
    pub awaiting: Option<(String, usize)>,
    pub ordered: Vec<ResolvedDep>,
    pub optional: Vec<DepInfo>,
    pub warnings: Vec<String>,
    /// The ids done when the resolution began: the installed ones, then the
    /// root's project.
    pub installed: Ghost<Seq<Seq<char>>>,
    /// Every version resolved so far, in the order resolved; kept when the
    /// plan is handed out.
    pub resolved: Ghost<Seq<ResolvedDep>>,
    /// For each resolved version, the project that was asked for.
    pub asked_for: Ghost<Seq<Seq<char>>>,
    /// Each answer so far: the project asked for, and the project of the
    /// version that came back.
    pub answers: Ghost<Seq<(Seq<char>, Seq<char>)>>,
}

/// What the resolver needs next: the best compatible version of a
/// project, or nothing more.
pub enum ResolveAction {
    Fetch(String),
    Finished(Result<DependencyPlan, MonoryxError>),
}

/// No project is resolved twice.
pub open spec fn distinct_projects(s: Seq<ResolvedDep>) -> bool {
    forall|i: int, j: int| 0 <= i < j < s.len() ==> s[i].project_id@ != s[j].project_id@
}

/// The deepest dependencies come first.
pub open spec fn deepest_first(s: Seq<ResolvedDep>) -> bool {
    forall|k: int| 0 <= k < s.len() - 1 ==> #[trigger] s[k].depth >= s[k + 1].depth
}

impl ResolveState {
    /// The well-formedness the steps keep: every index refers to a resolved
    /// version, a scan position lies within its version's dependencies,
    /// each resolved entry names its version's project and id, and no
    /// project is resolved twice.
    pub open spec fn wf(&self) -> bool {
        &&& distinct_projects(self.ordered@)
        &&& forall|k: int| 0 <= k < self.ordered@.len() ==> (#[trigger] self.ordered@[k]).project_id@
            == self.ordered@[k].version.project_id@ && self.ordered@[k].version_id@ == self.ordered@[k].version.id@
        &&& forall|k: int| 0 <= k < self.stack@.len() && (#[trigger] self.stack@[k]).0 is Some ==> self.stack@[k].0->0
            < self.ordered@.len()
        &&& match self.current {
            Some((Some(i), _, k)) => i < self.ordered@.len() && k <= self.ordered@[i as int].version.dependencies@.len(),
            Some((None, _, k)) => k <= self.root.dependencies@.len(),
            None => true,
        }
    }

    /// The bookkeeping every step keeps: each resolved version was asked
    /// for as a project that is now done and was not done at the start, and
    /// everything done at the start is still done.
    pub open spec fn ghosts_ok(&self) -> bool {
        &&& self.asked_for@.len() == self.resolved@.len()
        &&& forall|k: int| 0 <= k < self.resolved@.len() ==> holds_id(self.done@, #[trigger] self.asked_for@[k])
        &&& forall|k: int| 0 <= k < self.resolved@.len() ==> !self.installed@.contains(#[trigger] self.asked_for@[k])
        &&& forall|k: int| 0 <= k < self.installed@.len() ==> holds_id(self.done@, #[trigger] self.installed@[k])
    }

    /// Every answer so far was a version of the project asked for.
    pub open spec fn all_matched(&self) -> bool {
        &&& forall|k: int| 0 <= k < self.answers@.len() ==> (#[trigger] self.answers@[k]).0 == self.answers@[k].1
        &&& forall|k: int| 0 <= k < self.resolved@.len() ==> (#[trigger] self.resolved@[k]).project_id@
            == self.asked_for@[k]
    }

    /// The dependencies of a version of the resolution: the root's (`-1`)
    /// or the `i`-th resolved version's.
    pub open spec fn slot_deps(&self, i: int) -> Seq<VersionDependency> {
        if i < 0 {
            self.root.dependencies@
        } else {
            self.resolved@[i].version.dependencies@
        }
    }

    /// A version still waits on the stack to be scanned.
    pub open spec fn on_stack(&self, i: int) -> bool {
        exists|j: int| 0 <= j < self.stack@.len() && slot_of((#[trigger] self.stack@[j]).0) == i
    }

    /// The first `k` dependencies of the version being scanned are settled,
    /// but for the last of them when its project is being fetched.
    pub open spec fn current_ok(&self, i: int, k: int) -> bool {
        forall|j: int|
            0 <= j < k ==> dep_settled(self.done@, #[trigger] self.slot_deps(i)[j]) || awaited_at(
                self.awaiting,
                self.slot_deps(i)[j],
                j == k - 1,
            )
    }

    /// A version is waiting to be scanned, being scanned, or has all its
    /// dependencies settled.
    pub open spec fn slot_ok(&self, i: int) -> bool {
        ||| self.on_stack(i)
        ||| (self.current matches Some((x, _, k)) && slot_of(x) == i && self.current_ok(i, k as int))
        ||| settled_below(self.done@, self.slot_deps(i), self.slot_deps(i).len() as int)
    }

    /// What holds between the steps of a running resolution: the resolved
    /// versions are those listed, a project being fetched is not done, and
    /// (when every answer matched its question) every version is waiting,
    /// being scanned, or settled.
    pub open spec fn running(&self) -> bool {
        &&& self.ordered@ == self.resolved@
        &&& (self.awaiting matches Some((p, _)) ==> !holds_id(self.done@, p@))
        &&& (self.all_matched() ==> forall|i: int| -1 <= i < self.resolved@.len() ==> #[trigger] self.slot_ok(i))
    }

    /// Every required dependency of the root and of every resolved version
    /// is settled.
    pub open spec fn complete(&self) -> bool {
        forall|i: int|
            -1 <= i < self.resolved@.len() ==> #[trigger] settled_below(
                self.done@,
                self.slot_deps(i),
                self.slot_deps(i).len() as int,
            )
    }
}

/// The position a stack entry stands for: `-1` for the root.
pub open spec fn slot_of(x: Option<usize>) -> int {
    match x {
        None => -1,
        Some(i) => i as int,
    }
}

/// A required dependency that names a project is settled once its project,
/// or the version it names, is done.
pub open spec fn dep_settled(done: Seq<String>, d: VersionDependency) -> bool {
    (d.dependency_type == DependencyType::Required && d.project_id is Some) ==> (holds_id(done, d.project_id->0@) || (
    d.version_id is Some && holds_id(done, d.version_id->0@)))
}

/// The first `n` dependencies are settled.
pub open spec fn settled_below(done: Seq<String>, deps: Seq<VersionDependency>, n: int) -> bool {
    forall|j: int| 0 <= j < n ==> dep_settled(done, #[trigger] deps[j])
}

/// An answer to the awaited fetch, if any, is a version of the project
/// asked for.
pub open spec fn answer_matches(awaiting: Option<(String, usize)>, fetched: Option<Option<ProjectVersion>>) -> bool {
    match (awaiting, fetched) {
        (Some((p, _)), Some(Some(v))) => v.project_id@ == p@,
        _ => true,
    }
}

/// The dependency names the project being fetched, and `last` holds.
pub open spec fn awaited_at(awaiting: Option<(String, usize)>, d: VersionDependency, last: bool) -> bool {
    last && match (awaiting, d.project_id) {
        (Some((p, _)), Some(q)) => q@ == p@,
        _ => false,
    }
}

/// A required dependency on project `p`.
pub open spec fn fetch_of(d: VersionDependency, p: Seq<char>) -> bool {
    d.dependency_type == DependencyType::Required && match d.project_id {
        Some(q) => q@ == p,
        None => false,
    }
}

/// An incompatible dependency on a project that is done.
pub open spec fn conflict_of(done: Seq<String>, d: VersionDependency) -> bool {
    d.dependency_type == DependencyType::Incompatible && match d.project_id {
        Some(q) => holds_id(done, q@),
        None => false,
    }
}

/// The project `p` is being fetched for the dependency just scanned: a
/// required dependency on `p` of the version being scanned.
pub open spec fn fetch_target(s: ResolveState, p: Seq<char>) -> bool {
    &&& match s.awaiting {
        Some((a, _)) => a@ == p,
        None => false,
    }
    &&& match s.current {
        Some((x, _, k)) => 1 <= k <= s.slot_deps(slot_of(x)).len() && fetch_of(s.slot_deps(slot_of(x))[k - 1], p),
        None => false,
    }
}

/// The dependency just scanned is incompatible with a project that is done.
pub open spec fn incompatible_scanned(s: ResolveState) -> bool {
    match s.current {
        Some((x, _, k)) => 1 <= k <= s.slot_deps(slot_of(x)).len() && conflict_of(s.done@, s.slot_deps(slot_of(x))[k - 1]),
        None => false,
    }
}

/// The awaited fetch failed: no compatible version came back, or a version
/// of a project already resolved at another version.
pub open spec fn fetch_failed(s: ResolveState, fetched: Option<Option<ProjectVersion>>) -> bool {
    match (s.awaiting, fetched) {
        (Some(_), Some(None)) => true,
        (Some(_), Some(Some(v))) => match resolved_index(s.ordered@, v.project_id@, 0) {
            Some(i) => s.ordered@[i].version_id@ != v.id@,
            None => false,
        },
        _ => false,
    }
}

/// What an answer to the awaited fetch leads to, as seen in the ids done and
/// the versions resolved after the step: no version ends the resolution
/// (see `resolve_step`); a version of the project asked for, while every
/// earlier answer matched too, is resolved one level deeper than the
/// version that needs it, and its project and id are done.
pub open spec fn answered(
    s: ResolveState,
    fetched: Option<Option<ProjectVersion>>,
    done: Seq<String>,
    resolved: Seq<ResolvedDep>,
) -> bool {
    match (s.awaiting, fetched) {
        (Some((p, d)), Some(Some(v))) => (v.project_id@ == p@ && s.all_matched()) ==> {
            &&& holds_id(done, p@)
            &&& holds_id(done, v.id@)
            &&& resolved.len() == s.resolved@.len() + 1
            &&& resolved[s.resolved@.len() as int].version == v
            &&& resolved[s.resolved@.len() as int].depth == (if d < usize::MAX { d + 1 } else { d as int })
        },
        _ => true,
    }
}

/// A resolution of `root`'s dependencies, with `installed` (project ids and
/// version ids) counting as done, as the root's own project does.
pub fn resolve_start(root: ProjectVersion, installed: &Vec<String>) -> (r: ResolveState)
    ensures
        r.wf(),
        r.running(),
        r.ghosts_ok(),
        r.ordered@.len() == 0,
        r.resolved@.len() == 0,
        r.answers@.len() == 0,
        r.awaiting is None,
        r.installed@ == installed@.map_values(|s: String| s@).push(root.project_id@),
        forall|k: int| 0 <= k < installed@.len() ==> holds_id(r.done@, #[trigger] installed@[k]@),
        holds_id(r.done@, root.project_id@),
{
    let mut done: Vec<String> = Vec::new();
    let mut i: usize = 0;
    while i < installed.len()
        invariant
            i <= installed@.len(),
            done@.len() == i,
            forall|k: int| 0 <= k < i ==> #[trigger] done@[k]@ == installed@[k]@,
        decreases installed.len() - i,
    {
        done.push(installed[i].clone());
        i += 1;
    }
    let ghost before = done@;
    done.push(root.project_id.clone());
    proof {
        assert forall|k: int| 0 <= k < installed@.len() implies holds_id(done@, #[trigger] installed@[k]@) by {
            assert(done@[k]@ == installed@[k]@);
        }
        assert(done@[installed@.len() as int]@ == root.project_id@);
    }
    let mut stack: Vec<(Option<usize>, usize)> = Vec::new();
    stack.push((None, 0));
    let ghost start = done@.map_values(|s: String| s@);
    proof {
        assert(start =~= installed@.map_values(|s: String| s@).push(root.project_id@));
    }
    let r = ResolveState {
        root,
        done,
        stack,
        current: None,
        awaiting: None,
        ordered: Vec::new(),
        optional: Vec::new(),
        warnings: Vec::new(),
        installed: Ghost(start),
        resolved: Ghost(Seq::empty()),
        asked_for: Ghost(Seq::empty()),
        answers: Ghost(Seq::empty()),
    };
    proof {
        assert(slot_of(r.stack@[0].0) == -1);
        assert(r.on_stack(-1));
        assert(r.slot_ok(-1));
        assert forall|k: int| 0 <= k < r.installed@.len() implies holds_id(r.done@, #[trigger] r.installed@[k]) by {
            assert(r.done@[k]@ == r.installed@[k]);
        }
    }
    r
}

fn holds_id_exec(ids: &Vec<String>, id: &str) -> (r: bool)
    ensures
        r == holds_id(ids@, id@),
{
    crate::modrinth::models::has_text(ids, id)
}


/// The text of an optional id, or `fallback`.
pub open spec fn id_or(id: Option<String>, fallback: Seq<char>) -> Seq<char> {
    match id {
        Some(s) => s@,
        None => fallback,
    }
}

/// What scanning one dependency calls for.
pub enum DepDecision {
    /// Nothing to do.
    Skip,
    /// A warning to record.
    Warn(String),
    /// An optional dependency to offer.
    Optional(DepInfo),
    /// A conflict that ends the resolution.
    Conflict(MonoryxError),
    /// A project whose best version is needed.
    Fetch(String),
}

/// The decision for one dependency of the version of `owner`, given what is
/// done: embedded ones are skipped with a warning; an incompatible one
/// conflicts when its project is done; optional ones are offered; a
/// required one is skipped when its version or project is done or it
/// names no project (with a warning when it names only a version), and is
/// fetched otherwise.
pub fn decide_dependency(owner: &str, dep: &VersionDependency, done: &Vec<String>) -> (r: DepDecision)
    ensures
        !(r is Fetch) && !(r is Conflict) ==> dep_settled(done@, *dep),
        r matches DepDecision::Fetch(p) ==> fetch_of(*dep, p@) && !holds_id(done@, p@),
        r is Conflict ==> conflict_of(done@, *dep),
        dep.dependency_type == DependencyType::Embedded ==> (r matches DepDecision::Warn(w) && w@
            == "embedded dependency skipped ("@ + id_or(dep.project_id, "unknown"@) + ")"@),
        dep.dependency_type == DependencyType::Incompatible && dep.project_id is Some && holds_id(
            done@,
            dep.project_id->0@,
        ) ==> (r matches DepDecision::Conflict(MonoryxError::DependencyConflict(m)) && m@ == owner@
            + " is incompatible with installed "@ + dep.project_id->0@),
        dep.dependency_type == DependencyType::Incompatible && !(dep.project_id is Some && holds_id(
            done@,
            dep.project_id->0@,
        )) ==> r is Skip,
        dep.dependency_type == DependencyType::Optional ==> (r matches DepDecision::Optional(info) && info.project_id
            == dep.project_id && info.version_id == dep.version_id && info.file_name == dep.file_name),
        dep.dependency_type == DependencyType::Required && dep.version_id is Some && holds_id(done@, dep.version_id->0@)
            ==> r is Skip,
        dep.dependency_type == DependencyType::Required && dep.version_id is Some && !holds_id(done@, dep.version_id->0@)
            && dep.project_id is None ==> (r matches DepDecision::Warn(w) && w@ == "required dependency "@
            + dep.version_id->0@ + " has no project id; skipping"@),
        dep.dependency_type == DependencyType::Required && dep.version_id is None && dep.project_id is None ==> r is Skip,
        dep.dependency_type == DependencyType::Required && !(dep.version_id is Some && holds_id(
            done@,
            dep.version_id->0@,
        )) && dep.project_id is Some ==> (if holds_id(done@, dep.project_id->0@) {
            r is Skip
        } else {
            r matches DepDecision::Fetch(p) && p@ == dep.project_id->0@
        }),
{
    match dep.dependency_type {
        DependencyType::Embedded => {
            let name = match &dep.project_id {
                Some(p) => to_chars(p.as_str()),
                None => lit("unknown"),
            };
            let a = concat2(&lit("embedded dependency skipped ("), &name);
            DepDecision::Warn(from_chars(&concat2(&a, &lit(")"))))
        },
        DependencyType::Incompatible => {
            if let Some(pid) = &dep.project_id {
                if holds_id_exec(done, pid.as_str()) {
                    let a = concat2(&to_chars(owner), &lit(" is incompatible with installed "));
                    let m = concat2(&a, &to_chars(pid.as_str()));
                    return DepDecision::Conflict(MonoryxError::DependencyConflict(from_chars(&m)));
                }
            }
            DepDecision::Skip
        },
        DependencyType::Optional => DepDecision::Optional(
            DepInfo {
                project_id: dep.project_id.clone(),
                version_id: dep.version_id.clone(),
                file_name: dep.file_name.clone(),
            },
        ),
        DependencyType::Required => {
            if let Some(vid) = &dep.version_id {
                if holds_id_exec(done, vid.as_str()) {
                    return DepDecision::Skip;
                }
                if dep.project_id.is_none() {
                    let a = concat2(&lit("required dependency "), &to_chars(vid.as_str()));
                    let m = concat2(&a, &lit(" has no project id; skipping"));
                    return DepDecision::Warn(from_chars(&m));
                }
            }
            match &dep.project_id {
                None => DepDecision::Skip,
                Some(pid) => if holds_id_exec(done, pid.as_str()) {
                    DepDecision::Skip
                } else {
                    DepDecision::Fetch(pid.clone())
                },
            }
        },
    }
}

/// The first resolved entry of a project.
pub open spec fn resolved_index(ordered: Seq<ResolvedDep>, project: Seq<char>, i: int) -> Option<int>
    decreases ordered.len() - i,
{
    if i < 0 || i >= ordered.len() {
        None
    } else if ordered[i].project_id@ == project {
        Some(i)
    } else {
        resolved_index(ordered, project, i + 1)
    }
}

fn find_resolved(ordered: &Vec<ResolvedDep>, project: &str) -> (r: Option<usize>)
    ensures
        r matches Some(i) ==> resolved_index(ordered@, project@, 0) == Some(i as int) && i < ordered@.len(),
        r is None ==> resolved_index(ordered@, project@, 0) is None && forall|k: int|
            0 <= k < ordered@.len() ==> #[trigger] ordered@[k].project_id@ != project@,
{
    let mut i: usize = 0;
    while i < ordered.len()
        invariant
            i <= ordered@.len(),
            resolved_index(ordered@, project@, 0) == resolved_index(ordered@, project@, i as int),
            forall|k: int| 0 <= k < i ==> #[trigger] ordered@[k].project_id@ != project@,
        decreases ordered.len() - i,
    {
        if crate::text::same_text(ordered[i].project_id.as_str(), project) {
            return Some(i);
        }
        i += 1;
    }
    None
}

/// Element-wise distinct sequences keep distinct projects when reordered.
proof fn lemma_reordered_distinct(a: Seq<ResolvedDep>, b: Seq<ResolvedDep>)
    requires
        a.to_multiset() == b.to_multiset(),
        distinct_projects(a),
    ensures
        distinct_projects(b),
{
    broadcast use vstd::seq_lib::group_to_multiset_ensures;

    assert(a.no_duplicates()) by {
        assert forall|i: int, j: int| 0 <= i < a.len() && 0 <= j < a.len() && i != j implies a[i] != a[j] by {
            if i < j {
                assert(a[i].project_id@ != a[j].project_id@);
            } else {
                assert(a[j].project_id@ != a[i].project_id@);
            }
        }
    }
    a.lemma_multiset_has_no_duplicates();
    b.lemma_multiset_has_no_duplicates_conv();
    assert forall|i: int, j: int| 0 <= i < j < b.len() implies b[i].project_id@ != b[j].project_id@ by {
        assert(b[i] != b[j]);
        assert(b.contains(b[i]));
        assert(b.contains(b[j]));
        assert(a.to_multiset().count(b[i]) > 0);
        assert(a.to_multiset().count(b[j]) > 0);
        assert(a.contains(b[i]));
        assert(a.contains(b[j]));
        let p = choose|p: int| 0 <= p < a.len() && a[p] == b[i];
        let q = choose|q: int| 0 <= q < a.len() && a[q] == b[j];
        if p < q {
            assert(a[p].project_id@ != a[q].project_id@);
        } else {
            assert(p != q);
            assert(a[q].project_id@ != a[p].project_id@);
        }
    }
}

/// The entries ordered deepest first; entries of equal depth keep their
/// order.
fn sort_by_depth(v: Vec<ResolvedDep>) -> (r: Vec<ResolvedDep>)
    ensures
        r@.to_multiset() == v@.to_multiset(),
        deepest_first(r@),
{
    let mut v = v;
    let ghost orig = v@;
    let mut out: Vec<ResolvedDep> = Vec::new();
    proof {
        broadcast use vstd::multiset::group_multiset_axioms;
        vstd::seq_lib::to_multiset_len(out@);
        vstd::multiset::lemma_multiset_empty_len(out@.to_multiset());
        assert(out@.to_multiset() =~= vstd::multiset::Multiset::<ResolvedDep>::empty());
        assert(out@.to_multiset().add(v@.to_multiset()) =~= orig.to_multiset());
    }
    while v.len() > 0
        invariant
            out@.to_multiset().add(v@.to_multiset()) == orig.to_multiset(),
            deepest_first(out@),
        decreases v@.len(),
    {
        let ghost old_v = v@;
        let ghost old_out = out@;
        let x = v.remove(0);
        proof {
            to_multiset_remove(old_v, 0);
            assert(v@ == old_v.remove(0));
            assert(old_v.contains(x)) by {
                assert(old_v[0] == x);
            }
            to_multiset_contains(old_v, x);
        }
        let mut p = out.len();
        while p > 0 && out[p - 1].depth < x.depth
            invariant
                p <= out@.len(),
                p < out@.len() ==> out@[p as int].depth < x.depth,
            decreases p,
        {
            p -= 1;
        }
        let ghost before = out@;
        out.insert(p, x);
        proof {
            to_multiset_insert(before, p as int, x);
            broadcast use vstd::multiset::group_multiset_axioms;
            assert(out@.to_multiset().add(v@.to_multiset()) =~= orig.to_multiset());
            assert forall|k: int| 0 <= k < out@.len() - 1 implies #[trigger] out@[k].depth >= out@[k + 1].depth by {
                if k + 1 < p {
                    assert(out@[k] == before[k] && out@[k + 1] == before[k + 1]);
                } else if k + 1 == p {
                    assert(out@[k] == before[k] && out@[k + 1] == x);
                } else if k == p {
                    assert(out@[k] == x && out@[k + 1] == before[k]);
                } else {
                    assert(out@[k] == before[k - 1] && out@[k + 1] == before[k]);
                }
            }
        }
    }
    proof {
        broadcast use vstd::multiset::group_multiset_axioms;
        vstd::seq_lib::to_multiset_len(v@);
        vstd::multiset::lemma_multiset_empty_len(v@.to_multiset());
        assert(v@.to_multiset() =~= vstd::multiset::Multiset::<ResolvedDep>::empty());
        assert(out@.to_multiset() =~= out@.to_multiset().add(v@.to_multiset()));
    }
    out
}


/// The number of dependencies of a scanned version.
pub open spec fn deps_len(state: ResolveState, idx: Option<usize>) -> int {
    match idx {
        None => state.root.dependencies@.len() as int,
        Some(i) => state.ordered@[i as int].version.dependencies@.len() as int,
    }
}

/// How much scanning is left before the next fetch or the end.
pub open spec fn scan_measure(state: ResolveState) -> (int, int) {
    match state.current {
        Some((idx, _, k)) => (2 * (state.stack@.len() as int) + 1, deps_len(state, idx) - k),
        None => (2 * state.stack@.len() as int, 0),
    }
}

/// Everything done before stays done: `after` extends `before`.
pub open spec fn keeps_done(before: Seq<String>, after: Seq<String>) -> bool {
    before.len() <= after.len() && forall|k: int| 0 <= k < before.len() ==> #[trigger] after[k] == before[k]
}

/// An id that is done (installed, the root's project, or resolved) stays
/// done through every later step of a resolution, so no later step asks
/// for it.
pub proof fn law_done_stays_done(before: Seq<String>, after: Seq<String>, x: Seq<char>)
    requires
        keeps_done(before, after),
        holds_id(before, x),
    ensures
        holds_id(after, x),
{
    let k = choose|k: int| 0 <= k < before.len() && #[trigger] before[k]@ == x;
    assert(after[k] == before[k]);
}

/// Records the answer to a fetch: the project's best version is resolved
/// one level deeper than the version that needs it, unless the project is
/// already resolved. `None` in `Ok` means that scanning goes on; `Some`
/// holds the conflict that ends the resolution: no compatible version, or
/// another version of the project already resolved.
fn take_fetched(state: &mut ResolveState, pid: String, depth: usize, best: Option<ProjectVersion>) -> (r: Option<
    MonoryxError,
>)
    requires
        old(state).wf(),
    ensures
        final(state).wf(),
        final(state).root == old(state).root,
        final(state).current == old(state).current,
        final(state).awaiting == old(state).awaiting,
        final(state).installed == old(state).installed,
        final(state).resolved == old(state).resolved,
        final(state).asked_for == old(state).asked_for,
        final(state).answers == old(state).answers,
        keeps_done(old(state).done@, final(state).done@),
        best is None ==> (r matches Some(MonoryxError::DependencyConflict(m)) && m@ == "required dependency "@
            + pid@ + " has no compatible version"@),
        best is Some ==> (match resolved_index(old(state).ordered@, best->0.project_id@, 0) {
            Some(i) => if old(state).ordered@[i].version_id@ != best->0.id@ {
                r matches Some(MonoryxError::DependencyConflict(m)) && m@ == "conflicting versions for "@
                    + best->0.project_id@ + ": "@ + old(state).ordered@[i].version_id@ + " vs "@ + best->0.id@
            } else {
                r is None && final(state).ordered@ == old(state).ordered@ && final(state).stack@ == old(
                    state,
                ).stack@
            },
            None => r is None && final(state).ordered@ == old(state).ordered@.push(final(state).ordered@.last())
                && final(state).ordered@.last().version == best->0
                && final(state).ordered@.last().project_id@ == best->0.project_id@
                && final(state).ordered@.last().version_id@ == best->0.id@
                && final(state).ordered@.last().depth == (if depth < usize::MAX { depth + 1 } else { depth as int })
                && final(state).stack@ == old(state).stack@.push(
                (Some(old(state).ordered@.len() as usize), final(state).ordered@.last().depth),
            ) && holds_id(final(state).done@, pid@) && holds_id(final(state).done@, best->0.id@),
        }),
{
    let best = match best {
        None => {
            let a = concat2(&lit("required dependency "), &to_chars(pid.as_str()));
            let m = concat2(&a, &lit(" has no compatible version"));
            return Some(MonoryxError::DependencyConflict(from_chars(&m)));
        },
        Some(b) => b,
    };
    match find_resolved(&state.ordered, best.project_id.as_str()) {
        Some(i) => {
            if !crate::text::same_text(state.ordered[i].version_id.as_str(), best.id.as_str()) {
                let a = concat2(&lit("conflicting versions for "), &to_chars(best.project_id.as_str()));
                let b = concat2(&a, &lit(": "));
                let c = concat2(&b, &to_chars(state.ordered[i].version_id.as_str()));
                let d = concat2(&c, &lit(" vs "));
                let m = concat2(&d, &to_chars(best.id.as_str()));
                return Some(MonoryxError::DependencyConflict(from_chars(&m)));
            }
            None
        },
        None => {
            let next_depth = if depth < usize::MAX { depth + 1 } else { depth };
            let ghost done0 = state.done@;
            state.done.push(pid);
            state.done.push(best.id.clone());
            proof {
                assert(state.done@[done0.len() as int]@ == pid@);
                assert(state.done@[done0.len() as int + 1]@ == best.id@);
            }
            let idx = state.ordered.len();
            let ghost ord0 = state.ordered@;
            let entry = ResolvedDep {
                project_id: best.project_id.clone(),
                version_id: best.id.clone(),
                version: best,
                depth: next_depth,
            };
            state.ordered.push(entry);
            state.stack.push((Some(idx), next_depth));
            proof {
                assert forall|a: int, b: int| 0 <= a < b < state.ordered@.len() implies state.ordered@[a].project_id@
                    != state.ordered@[b].project_id@ by {
                    if b < ord0.len() {
                        assert(state.ordered@[a] == ord0[a] && state.ordered@[b] == ord0[b]);
                    } else {
                        assert(state.ordered@[a] == ord0[a]);
                    }
                }
                assert forall|k: int| 0 <= k < state.stack@.len() && (#[trigger] state.stack@[k]).0 is Some implies state.stack@[k].0->0
                    < state.ordered@.len() by {}
                match state.current {
                    Some((Some(i), _, k)) => {
                        assert(state.ordered@[i as int] == ord0[i as int]);
                    },
                    _ => {},
                }
            }
            None
        },
    }
}

/// A resolved entry found by `resolved_index` names the project.
proof fn lemma_resolved_index(s: Seq<ResolvedDep>, p: Seq<char>, j: int)
    requires
        0 <= j,
        resolved_index(s, p, j) is Some,
    ensures
        j <= resolved_index(s, p, j)->0 < s.len(),
        s[resolved_index(s, p, j)->0].project_id@ == p,
    decreases s.len() - j,
{
    if j < s.len() && s[j].project_id@ != p {
        lemma_resolved_index(s, p, j + 1);
    }
}

/// Settled dependencies stay settled as more is done.
proof fn lemma_settled_grows(d1: Seq<String>, d2: Seq<String>, d: VersionDependency)
    requires
        keeps_done(d1, d2),
        dep_settled(d1, d),
    ensures
        dep_settled(d2, d),
{
    if d.dependency_type == DependencyType::Required && d.project_id is Some {
        if holds_id(d1, d.project_id->0@) {
            law_done_stays_done(d1, d2, d.project_id->0@);
        } else {
            law_done_stays_done(d1, d2, d.version_id->0@);
        }
    }
}

/// One step of a resolution. When a fetch is awaited, `fetched` holds its
/// answer (the project's best compatible version, if any), which is
/// recorded first (see `take_fetched`). Then the dependencies still to be
/// scanned are taken in order, depth first from the most recently
/// resolved version, each as `decide_dependency` says, until a project
/// must be fetched, a conflict ends the resolution, or nothing is left;
/// the plan then lists the resolved versions deepest first, with the
/// optional dependencies and warnings met on the way.
///
/// While every answer is a version of the project asked for, a step only
/// asks for a project that is not done (so never for an installed one, the
/// root's, or one asked for before), the answer's project becomes done and
/// its version resolved, no resolved project was done at the start, and a
/// plan is only handed out once every required dependency of the root and
/// of every resolved version is done.
pub fn resolve_step(state: &mut ResolveState, fetched: Option<Option<ProjectVersion>>) -> (r: ResolveAction)
    requires
        old(state).wf(),
        old(state).ghosts_ok(),
        old(state).running(),
        old(state).awaiting is Some ==> fetched is Some,
    ensures
        final(state).wf(),
        final(state).ghosts_ok(),
        !(r is Finished) ==> final(state).running(),
        final(state).root == old(state).root,
        final(state).installed == old(state).installed,
        keeps_done(old(state).done@, final(state).done@),
        final(state).resolved@.len() >= old(state).resolved@.len(),
        forall|k: int|
            0 <= k < old(state).resolved@.len() ==> #[trigger] final(state).resolved@[k] == old(state).resolved@[k],
        final(state).all_matched() == (old(state).all_matched() && answer_matches(old(state).awaiting, fetched)),
        answered(*old(state), fetched, final(state).done@, final(state).resolved@),
        (old(state).awaiting is Some && fetched == Some(None::<ProjectVersion>)) ==> (r matches ResolveAction::Finished(
            Err(MonoryxError::DependencyConflict(m)),
        ) && m@ == "required dependency "@ + (old(state).awaiting->0).0@ + " has no compatible version"@),
        r matches ResolveAction::Fetch(p) ==> !holds_id(old(state).done@, p@) && !holds_id(final(state).done@, p@)
            && fetch_target(*final(state), p@),
        r matches ResolveAction::Finished(Ok(plan)) ==> deepest_first(plan.ordered@) && distinct_projects(plan.ordered@)
            && plan.ordered@.to_multiset() == final(state).resolved@.to_multiset(),
        (r is Finished && r->Finished_0 is Ok && final(state).all_matched()) ==> final(state).complete(),
        final(state).all_matched() ==> forall|k: int|
            0 <= k < final(state).resolved@.len() ==> !final(state).installed@.contains(
                #[trigger] final(state).resolved@[k].project_id@,
            ),
        r matches ResolveAction::Finished(Err(e)) ==> e is DependencyConflict && (fetch_failed(*old(state), fetched)
            || incompatible_scanned(*final(state))),
{
    let ghost start = *state;
    let ghost fv = fetched;
    if let Some((pid, depth)) = state.awaiting.take() {
        let answer = match fetched {
            Some(a) => a,
            None => None,
        };
        let ghost pidv = pid@;
        match &answer {
            Some(v) => {
                state.answers = Ghost(state.answers@.push((pid@, v.project_id@)));
            },
            None => {},
        }
        let ghost s1 = *state;
        let n0 = state.ordered.len();
        let e = take_fetched(state, pid, depth, answer);
        proof {
            assert forall|k: int| 0 <= k < state.resolved@.len() implies holds_id(state.done@, #[trigger] state.asked_for@[k]) by {
                law_done_stays_done(start.done@, state.done@, state.asked_for@[k]);
            }
            assert forall|k: int| 0 <= k < state.installed@.len() implies holds_id(state.done@, #[trigger] state.installed@[k]) by {
                law_done_stays_done(start.done@, state.done@, state.installed@[k]);
            }
            assert(state.all_matched() == (start.all_matched() && answer_matches(start.awaiting, fv))) by {
                match fv {
                    Some(Some(v)) => {
                        assert(state.answers@ == start.answers@.push((pidv, v.project_id@)));
                        if state.all_matched() {
                            assert forall|k: int| 0 <= k < start.answers@.len() implies (#[trigger] start.answers@[k]).0
                                == start.answers@[k].1 by {
                                assert(state.answers@[k] == start.answers@[k]);
                            }
                            assert(state.answers@[start.answers@.len() as int].0 == state.answers@[start.answers@.len() as int].1);
                        }
                    },
                    _ => {
                        assert(state.answers@ == start.answers@);
                    },
                }
            }
        }
        proof {
            match fv {
                Some(Some(v)) => {
                    if v.project_id@ == pidv && start.all_matched() && resolved_index(s1.ordered@, v.project_id@, 0) is Some {
                        lemma_resolved_index(s1.ordered@, v.project_id@, 0);
                        let i = resolved_index(s1.ordered@, v.project_id@, 0)->0;
                        assert(start.resolved@[i].project_id@ == start.asked_for@[i]);
                        assert(holds_id(start.done@, start.asked_for@[i]));
                        assert(false);
                    }
                },
                _ => {},
            }
        }
        if let Some(e) = e {
            return ResolveAction::Finished(Err(e));
        }
        if state.ordered.len() > n0 {
            state.resolved = Ghost(state.ordered@);
            state.asked_for = Ghost(state.asked_for@.push(pidv));
            proof {
                let v = fv->0->0;
                let n = start.resolved@.len() as int;
                assert(state.ordered@ == s1.ordered@.push(state.ordered@.last()));
                assert(holds_id(state.done@, pidv));
                assert(!state.installed@.contains(pidv)) by {
                    if state.installed@.contains(pidv) {
                        let m = choose|m: int| 0 <= m < start.installed@.len() && start.installed@[m] == pidv;
                        assert(holds_id(start.done@, start.installed@[m]));
                    }
                }
                assert forall|k: int| 0 <= k < state.resolved@.len() implies holds_id(state.done@, #[trigger] state.asked_for@[k]) by {
                    if k < n {
                        law_done_stays_done(start.done@, state.done@, start.asked_for@[k]);
                    }
                }
                assert forall|k: int| 0 <= k < state.resolved@.len() implies !state.installed@.contains(#[trigger] state.asked_for@[k]) by {
                    if k < n {
                        assert(state.asked_for@[k] == start.asked_for@[k]);
                    }
                }
                assert(state.all_matched() == (start.all_matched() && answer_matches(start.awaiting, fv))) by {
                    assert(state.answers@ == start.answers@.push((pidv, v.project_id@)));
                    if state.all_matched() {
                        assert(state.answers@[n0 as int - n0 as int + start.answers@.len()].0 == state.answers@[start.answers@.len() as int].1);
                        assert forall|k: int| 0 <= k < start.answers@.len() implies (#[trigger] start.answers@[k]).0
                            == start.answers@[k].1 by {
                            assert(state.answers@[k] == start.answers@[k]);
                        }
                        assert forall|k: int| 0 <= k < n implies (#[trigger] start.resolved@[k]).project_id@ == start.asked_for@[k] by {
                            assert(state.resolved@[k] == start.resolved@[k]);
                            assert(state.asked_for@[k] == start.asked_for@[k]);
                        }
                    }
                    if start.all_matched() && answer_matches(start.awaiting, fv) {
                        assert(state.resolved@[n].project_id@ == v.project_id@);
                        assert forall|k: int| 0 <= k < state.resolved@.len() implies (#[trigger] state.resolved@[k]).project_id@
                            == state.asked_for@[k] by {
                            if k < n {
                                assert(state.resolved@[k] == start.resolved@[k]);
                                assert(state.asked_for@[k] == start.asked_for@[k]);
                            }
                        }
                    }
                }
                if state.all_matched() {
                    assert forall|i: int| -1 <= i < state.resolved@.len() implies #[trigger] state.slot_ok(i) by {
                        if i == n {
                            let j = state.stack@.len() - 1;
                            assert(slot_of(state.stack@[j].0) == n);
                            assert(state.on_stack(i));
                        } else {
                            assert(start.slot_ok(i));
                            assert(state.slot_deps(i) == start.slot_deps(i));
                            if start.on_stack(i) {
                                let j = choose|j: int| 0 <= j < start.stack@.len() && slot_of((#[trigger] start.stack@[j]).0) == i;
                                assert(state.stack@[j] == start.stack@[j]);
                                assert(state.on_stack(i));
                            } else if settled_below(start.done@, start.slot_deps(i), start.slot_deps(i).len() as int) {
                                assert forall|j: int| 0 <= j < state.slot_deps(i).len() implies dep_settled(state.done@, #[trigger] state.slot_deps(i)[j]) by {
                                    lemma_settled_grows(start.done@, state.done@, start.slot_deps(i)[j]);
                                }
                            } else {
                                let k = (start.current->0).2 as int;
                                assert forall|j: int| 0 <= j < k implies dep_settled(state.done@, #[trigger] state.slot_deps(i)[j]) || awaited_at(state.awaiting, state.slot_deps(i)[j], j == k - 1) by {
                                    let d = start.slot_deps(i)[j];
                                    if dep_settled(start.done@, d) {
                                        lemma_settled_grows(start.done@, state.done@, d);
                                    } else {
                                        assert(awaited_at(start.awaiting, d, j == k - 1));
                                        assert(d.project_id->0@ == pidv);
                                    }
                                }
                                assert(state.current_ok(i, k));
                            }
                        }
                    }
                }
            }
        } else {
            proof {
                if state.all_matched() {
                    let v = fv->0->0;
                    lemma_resolved_index(s1.ordered@, v.project_id@, 0);
                    let i = resolved_index(s1.ordered@, v.project_id@, 0)->0;
                    assert(state.answers@[start.answers@.len() as int] == (pidv, v.project_id@));
                    assert(start.resolved@[i].project_id@ == start.asked_for@[i]);
                    assert(holds_id(start.done@, start.asked_for@[i]));
                    assert(false);
                }
            }
        }
        proof {
            assert(answered(start, fv, state.done@, state.resolved@));
        }
    }
    let ghost done1 = state.done@;
    let ghost res1 = state.resolved@;
    let ghost ask1 = state.asked_for@;
    let ghost ans1 = state.answers@;
    assert(answered(start, fv, done1, res1));
    loop
        invariant
            start == *old(state),
            fv == fetched,
            !(start.awaiting is Some && fv == Some(None::<ProjectVersion>)),
            state.wf(),
            state.ghosts_ok(),
            state.running(),
            state.awaiting is None,
            state.root == start.root,
            state.installed == start.installed,
            state.done@ == done1,
            state.resolved@ == res1,
            state.asked_for@ == ask1,
            state.answers@ == ans1,
            keeps_done(start.done@, done1),
            res1.len() >= start.resolved@.len(),
            forall|k: int| 0 <= k < start.resolved@.len() ==> #[trigger] res1[k] == start.resolved@[k],
            state.all_matched() == (start.all_matched() && answer_matches(start.awaiting, fv)),
            answered(start, fv, done1, res1),
        decreases scan_measure(*state).0, scan_measure(*state).1,
    {
        let ghost s = *state;
        match state.current {
            None => {
                match state.stack.pop() {
                    None => {
                        let mut ordered: Vec<ResolvedDep> = Vec::new();
                        std::mem::swap(&mut ordered, &mut state.ordered);
                        let ghost all = ordered@;
                        let sorted = sort_by_depth(ordered);
                        proof {
                            lemma_reordered_distinct(all, sorted@);
                            if state.all_matched() {
                                assert forall|i: int| -1 <= i < state.resolved@.len() implies #[trigger] settled_below(
                                    state.done@,
                                    state.slot_deps(i),
                                    state.slot_deps(i).len() as int,
                                ) by {
                                    assert(s.slot_ok(i));
                                    assert(!s.on_stack(i));
                                }
                            }
                        }
                        let mut optional: Vec<DepInfo> = Vec::new();
                        std::mem::swap(&mut optional, &mut state.optional);
                        let mut warnings: Vec<String> = Vec::new();
                        std::mem::swap(&mut warnings, &mut state.warnings);
                        proof {
                            assert(state.answers == s.answers);
                            assert(state.resolved == s.resolved);
                            assert(state.asked_for == s.asked_for);
                            assert(state.done == s.done);
                            assert(state.root == s.root);
                            assert(state.all_matched() == s.all_matched());
                            if state.all_matched() {
                                assert forall|i: int| -1 <= i < state.resolved@.len() implies #[trigger] settled_below(
                                    state.done@,
                                    state.slot_deps(i),
                                    state.slot_deps(i).len() as int,
                                ) by {
                                    assert(s.slot_ok(i));
                                    assert(!s.on_stack(i));
                                    assert(state.slot_deps(i) == s.slot_deps(i));
                                }
                                assert(state.complete());
                            }
                        }
                        return ResolveAction::Finished(Ok(DependencyPlan { ordered: sorted, optional, warnings }));
                    },
                    Some((idx, d)) => {
                        state.current = Some((idx, d, 0));
                        proof {
                            if state.all_matched() {
                                assert forall|i: int| -1 <= i < state.resolved@.len() implies #[trigger] state.slot_ok(i) by {
                                    assert(s.slot_ok(i));
                                    if i != slot_of(idx) && s.on_stack(i) {
                                        let j = choose|j: int| 0 <= j < s.stack@.len() && slot_of((#[trigger] s.stack@[j]).0) == i;
                                        assert(j != s.stack@.len() - 1);
                                        assert(state.stack@[j] == s.stack@[j]);
                                        assert(state.on_stack(i));
                                    }
                                }
                            }
                        }
                    },
                }
            },
            Some((idx, d, k)) => {
                let n = match idx {
                    None => state.root.dependencies.len(),
                    Some(i) => state.ordered[i].version.dependencies.len(),
                };
                proof {
                    assert(n == s.slot_deps(slot_of(idx)).len());
                }
                if k >= n {
                    state.current = None;
                    proof {
                        if state.all_matched() {
                            assert forall|i: int| -1 <= i < state.resolved@.len() implies #[trigger] state.slot_ok(i) by {
                                assert(s.slot_ok(i));
                                if i == slot_of(idx) && !s.on_stack(i) && s.current_ok(i, k as int) {
                                    assert(state.slot_deps(i) == s.slot_deps(i));
                                    assert forall|j: int| 0 <= j < state.slot_deps(i).len() implies dep_settled(state.done@, #[trigger] state.slot_deps(i)[j]) by {
                                        assert(dep_settled(s.done@, s.slot_deps(i)[j]) || awaited_at(s.awaiting, s.slot_deps(i)[j], j == k - 1));
                                    }
                                }
                                if s.on_stack(i) {
                                    let j = choose|j: int| 0 <= j < s.stack@.len() && slot_of((#[trigger] s.stack@[j]).0) == i;
                                    assert(state.stack@[j] == s.stack@[j]);
                                }
                            }
                        }
                    }
                } else {
                    let (owner, dep) = match idx {
                        None => (state.root.project_id.clone(), &state.root.dependencies[k]),
                        Some(i) => (state.ordered[i].version.project_id.clone(), &state.ordered[i].version.dependencies[k]),
                    };
                    let ghost depv = *dep;
                    assert(depv == s.slot_deps(slot_of(idx))[k as int]);
                    let decision = decide_dependency(owner.as_str(), dep, &state.done);
                    state.current = Some((idx, d, k + 1));
                    let ghost s2 = *state;
                    proof {
                        if state.all_matched() && !(decision is Fetch) {
                            assert forall|i: int| -1 <= i < state.resolved@.len() implies #[trigger] state.slot_ok(i) by {
                                assert(s.slot_ok(i));
                                if s.on_stack(i) {
                                    let j = choose|j: int| 0 <= j < s.stack@.len() && slot_of((#[trigger] s.stack@[j]).0) == i;
                                    assert(state.stack@[j] == s.stack@[j]);
                                    assert(state.on_stack(i));
                                } else if i == slot_of(idx) && s.current_ok(i, k as int) {
                                    assert forall|j: int| 0 <= j < k + 1 implies dep_settled(state.done@, #[trigger] state.slot_deps(i)[j]) || awaited_at(state.awaiting, state.slot_deps(i)[j], j == k) by {
                                        if j < k {
                                            assert(dep_settled(s.done@, s.slot_deps(i)[j]) || awaited_at(s.awaiting, s.slot_deps(i)[j], j == k - 1));
                                        }
                                    }
                                    assert(state.current_ok(i, k + 1));
                                }
                            }
                        }
                    }
                    match decision {
                        DepDecision::Skip => {},
                        DepDecision::Warn(w) => {
                            state.warnings.push(w);
                        },
                        DepDecision::Optional(info) => {
                            state.optional.push(info);
                        },
                        DepDecision::Conflict(e) => {
                            return ResolveAction::Finished(Err(e));
                        },
                        DepDecision::Fetch(p) => {
                            state.awaiting = Some((p.clone(), d));
                            proof {
                                if holds_id(start.done@, p@) {
                                    law_done_stays_done(start.done@, state.done@, p@);
                                }
                                if state.all_matched() {
                                    assert forall|i: int| -1 <= i < state.resolved@.len() implies #[trigger] state.slot_ok(i) by {
                                        assert(s.slot_ok(i));
                                        if s.on_stack(i) {
                                            let j = choose|j: int| 0 <= j < s.stack@.len() && slot_of((#[trigger] s.stack@[j]).0) == i;
                                            assert(state.stack@[j] == s.stack@[j]);
                                            assert(state.on_stack(i));
                                        } else if i == slot_of(idx) && s.current_ok(i, k as int) {
                                            assert forall|j: int| 0 <= j < k + 1 implies dep_settled(state.done@, #[trigger] state.slot_deps(i)[j]) || awaited_at(state.awaiting, state.slot_deps(i)[j], j == k) by {
                                                if j < k {
                                                    assert(dep_settled(s.done@, s.slot_deps(i)[j]) || awaited_at(s.awaiting, s.slot_deps(i)[j], j == k - 1));
                                                }
                                            }
                                            assert(state.current_ok(i, k + 1));
                                        }
                                    }
                                }
                            }
                            return ResolveAction::Fetch(p);
                        },
                    }
                    proof {
                        assert(state.stack == s2.stack);
                        assert(state.current == s2.current);
                        assert(state.done == s2.done);
                        assert(state.resolved == s2.resolved);
                        assert(state.awaiting == s2.awaiting);
                        assert(state.all_matched() == s2.all_matched());
                        if state.all_matched() {
                            assert forall|i: int| -1 <= i < state.resolved@.len() implies #[trigger] state.slot_ok(i) by {
                                assert(s2.slot_ok(i));
                                assert(state.slot_deps(i) == s2.slot_deps(i));
                                if s2.on_stack(i) {
                                    let j = choose|j: int| 0 <= j < s2.stack@.len() && slot_of((#[trigger] s2.stack@[j]).0) == i;
                                    assert(state.stack@[j] == s2.stack@[j]);
                                    assert(state.on_stack(i));
                                }
                            }
                        }
                    }
                }
            },
        }
    }
}

} // verus!
