//! Dependencies between Modrinth versions.
use crate::minecraft::libraries::{lookup, lookup_exec};
use crate::modrinth::models::{DependencyType, ProjectVersion};
use crate::text::{concat2, from_chars, lit, to_chars};
use vstd::prelude::*;

verus! {

#[derive(Debug, Clone)]
pub struct DependencyPlan {
    pub ordered: Vec<ResolvedDep>,
    pub optional: Vec<DepInfo>,
    pub warnings: Vec<String>,
}

#[derive(Debug, Clone)]
pub struct ResolvedDep {
    pub project_id: String,
    pub version_id: String,
    pub version: ProjectVersion,
    pub depth: usize,
}

#[derive(Debug, Clone)]
pub struct DepInfo {
    pub project_id: Option<String>,
    pub version_id: Option<String>,
    pub file_name: Option<String>,
}

/// Whether a list of ids holds `id`.
pub open spec fn holds_id(ids: Seq<String>, id: Seq<char>) -> bool {
    exists|i: int| 0 <= i < ids.len() && #[trigger] ids[i]@ == id
}

/// The warnings for a version's incompatible dependencies that are
/// installed, each naming the project (by its name when known), in the
/// order the dependencies are listed.
pub open spec fn incompatibility_warnings(
    deps: Seq<crate::modrinth::models::VersionDependency>,
    installed: Seq<String>,
    id_to_name: Seq<(String, String)>,
) -> Seq<Seq<char>>
    decreases deps.len(),
{
    if deps.len() == 0 {
        seq![]
    } else {
        let rest = incompatibility_warnings(deps.drop_last(), installed, id_to_name);
        let d = deps.last();
        if d.dependency_type == DependencyType::Incompatible && d.project_id is Some && holds_id(
            installed,
            d.project_id->0@,
        ) {
            let pid = d.project_id->0@;
            let name = match lookup(id_to_name, pid) {
                Some(n) => n,
                None => pid,
            };
            rest.push("incompatible with installed "@ + name)
        } else {
            rest
        }
    }
}

fn holds_id_exec(ids: &Vec<String>, id: &str) -> (r: bool)
    ensures
        r == holds_id(ids@, id@),
{
    let mut i: usize = 0;
    while i < ids.len()
        invariant
            i <= ids@.len(),
            forall|j: int| 0 <= j < i ==> #[trigger] ids@[j]@ != id@,
        decreases ids.len() - i,
    {
        if crate::text::same_text(ids[i].as_str(), id) {
            return true;
        }
        i += 1;
    }
    false
}

/// Warnings for the installed projects that the version declares itself
/// incompatible with. `installed_project_ids` is the set of installed
/// project ids; `id_to_name` maps an id to its name, each id once.
pub fn find_incompatibilities(
    version: &ProjectVersion,
    installed_project_ids: &Vec<String>,
    id_to_name: &Vec<(String, String)>,
) -> (r: Vec<String>)
    ensures
        r.deep_view() == incompatibility_warnings(version.dependencies@, installed_project_ids@, id_to_name@),
{
    let mut out: Vec<String> = Vec::new();
    let mut i: usize = 0;
    let deps = &version.dependencies;
    assert(out.deep_view() =~= Seq::<Seq<char>>::empty());
    assert(deps@.take(0) =~= Seq::<crate::modrinth::models::VersionDependency>::empty());
    while i < deps.len()
        invariant
            i <= deps@.len(),
            deps@ == version.dependencies@,
            out.deep_view() == incompatibility_warnings(deps@.take(i as int), installed_project_ids@, id_to_name@),
        decreases deps.len() - i,
    {
        let d = &deps[i];
        assert(deps@.take(i + 1).drop_last() =~= deps@.take(i as int));
        assert(deps@.take(i + 1).last() == *d);
        if d.dependency_type == DependencyType::Incompatible {
            if let Some(pid) = &d.project_id {
                if holds_id_exec(installed_project_ids, pid.as_str()) {
                    let name = match lookup_exec(id_to_name.as_slice(), &to_chars(pid.as_str())) {
                        Some(n) => n,
                        None => pid.clone(),
                    };
                    let w = concat2(&lit("incompatible with installed "), &to_chars(name.as_str()));
                    let ghost before = out.deep_view();
                    out.push(from_chars(&w));
                    assert(out.deep_view() =~= before.push(w@));
                }
            }
        }
        i += 1;
    }
    assert(deps@.take(deps.len() as int) =~= deps@);
    out
}

} // verus!
