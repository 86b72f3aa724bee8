//! Workspace assembly and the outcome of a manifest search.

use vstd::prelude::*;
use vstd::string::*;
use crate::error::ProjectError;
use crate::member::{parsed_as, WorkspaceMember};
use crate::package::{
    gap_fill, merge_auto_includes, merge_package_with_raw_generic, normalize_error, normalized,
    override_with, package_from, AutoIncludes, PackageInfo, PackageView, RawPackage,
};
use crate::paths::{join_path, joined, parent_of, parent_path};

verus! {

/// The file names that a search looks for, and the build-output directory.
#[derive(Clone, Debug)]
pub struct SearchConfig {
    pub workspace_manifest: String,
    pub package_manifest: String,
    pub target_dir: String,
}

impl SearchConfig {
    /// `dist-workspace.toml`, `dist.toml` and `target`.
    pub fn dist() -> (r: SearchConfig)
        ensures
            r.workspace_manifest@ == "dist-workspace.toml"@,
            r.package_manifest@ == "dist.toml"@,
            r.target_dir@ == "target"@,
    {
        SearchConfig {
            workspace_manifest: String::from_str("dist-workspace.toml"),
            package_manifest: String::from_str("dist.toml"),
            target_dir: String::from_str("target"),
        }
    }
}

/// Which ecosystem's rules assembled a workspace.
#[derive(Clone, Copy, Debug, PartialEq, Eq, Structural)]
pub enum WorkspaceKind {
    Generic,
    Rust,
    Javascript,
}

/// A resolved workspace.
#[derive(Debug)]
pub struct WorkspaceInfo {
    pub kind: WorkspaceKind,
    pub workspace_dir: String,
    pub manifest_path: String,
    pub target_dir: String,
    pub sub_workspaces: Vec<WorkspaceSearch>,
    pub packages: Vec<PackageInfo>,
    pub root_auto_includes: AutoIncludes,
    pub warnings: Vec<String>,
}

/// The outcome of a search for a workspace.
#[derive(Debug)]
pub enum WorkspaceSearch {
    Found(WorkspaceInfo),
    Broken { manifest_path: String, cause: ProjectError },
    Missing(ProjectError),
}

/// A package of the interpreted ecosystem, with the package table of the
/// generic manifest found beside it, if any.
#[derive(Clone, Debug)]
pub struct NpmPackage {
    pub package: PackageInfo,
    pub companion: Option<RawPackage>,
}

/// What was loaded for one workspace member, in declaration order.
#[derive(Debug)]
pub enum MemberInput {
    /// A generic member: its package manifest's path and table, and the
    /// auto-includes of its directory.
    Generic { manifest_path: String, raw: RawPackage, auto_includes: AutoIncludes },
    /// What the compiled ecosystem's resolver found in the member.
    Cargo(WorkspaceSearch),
    /// The packages that the interpreted ecosystem's resolver found.
    Npm(Vec<NpmPackage>),
    /// Loading or resolving the member failed.
    Failed(ProjectError),
}

/// What a manifest search settled on.
#[derive(Clone, Debug)]
pub enum ManifestChoice {
    Workspace(String),
    Package(String),
    Missing(ProjectError),
}

/// A member that does not fail the workspace.
pub open spec fn member_ok(m: MemberInput) -> bool {
    match m {
        MemberInput::Generic { manifest_path, raw, auto_includes } =>
            normalized(manifest_path@, raw, auto_includes) is Some,
        MemberInput::Failed(_) => false,
        _ => true,
    }
}

pub open spec fn members_ok(ms: Seq<MemberInput>) -> bool {
    forall|i: int| 0 <= i < ms.len() ==> member_ok(#[trigger] ms[i])
}

/// The error with which member `m` fails the workspace.
pub open spec fn member_error(m: MemberInput, e: ProjectError) -> bool {
    match m {
        MemberInput::Generic { manifest_path, raw, .. } => normalize_error(manifest_path@, raw, e),
        MemberInput::Failed(f) => e == f,
        _ => false,
    }
}

/// An interpreted-ecosystem package once its companion manifest overrides
/// it and the workspace's auto-includes fill what is unset.
pub open spec fn finish_npm(np: NpmPackage, root: AutoIncludes) -> PackageView {
    let merged = match np.companion {
        Some(raw) => override_with(np.package.view(), raw),
        None => np.package.view(),
    };
    gap_fill(merged, root)
}

/// The packages that member `m` contributes.
pub open spec fn member_packages(m: MemberInput, root: AutoIncludes) -> Seq<PackageView> {
    match m {
        MemberInput::Generic { manifest_path, raw, auto_includes } =>
            seq![gap_fill(normalized(manifest_path@, raw, auto_includes)->Some_0, root)],
        MemberInput::Npm(pkgs) => pkgs@.map_values(|np: NpmPackage| finish_npm(np, root)),
        _ => Seq::empty(),
    }
}

/// The packages of a workspace, member after member.
pub open spec fn expected_packages(ms: Seq<MemberInput>, root: AutoIncludes) -> Seq<PackageView>
    decreases ms.len(),
{
    if ms.len() == 0 {
        Seq::empty()
    } else {
        expected_packages(ms.drop_last(), root) + member_packages(ms.last(), root)
    }
}

/// The nested outcomes of the compiled-ecosystem members, in order.
pub open spec fn expected_subs(ms: Seq<MemberInput>) -> Seq<WorkspaceSearch>
    decreases ms.len(),
{
    if ms.len() == 0 {
        Seq::empty()
    } else {
        expected_subs(ms.drop_last()) + match ms.last() {
            MemberInput::Cargo(s) => seq![s],
            _ => Seq::<WorkspaceSearch>::empty(),
        }
    }
}

pub open spec fn package_views(ps: Seq<PackageInfo>) -> Seq<PackageView> {
    ps.map_values(|p: PackageInfo| p.view())
}

/// The frame of a workspace whose manifest is at `manifest_path`.
pub open spec fn workspace_frame(
    w: WorkspaceInfo,
    manifest_path: Seq<char>,
    workspace_dir: Seq<char>,
    root: AutoIncludes,
    config: SearchConfig,
) -> bool {
    &&& w.kind == WorkspaceKind::Generic
    &&& w.manifest_path@ == manifest_path
    &&& w.workspace_dir@ == workspace_dir
    &&& w.target_dir@ == joined(workspace_dir, config.target_dir@)
    &&& w.root_auto_includes == root
    &&& w.warnings@.len() == 0
}

/// Parses the member directives of a workspace manifest, in order; the
/// first malformed one fails them all.
pub fn parse_members(members: &Vec<String>) -> (r: Result<Vec<WorkspaceMember>, ProjectError>)
    ensures
        match r {
            Ok(ms) => ms@.len() == members@.len() && forall|i: int|
                0 <= i < members@.len() ==> parsed_as(
                    members@[i]@,
                    Ok::<WorkspaceMember, crate::member::MemberParseError>(#[trigger] ms@[i]),
                ),
            Err(e) => exists|i: int|
                0 <= i < members@.len() && (forall|j: int|
                    0 <= j < i ==> crate::member::spec_parse(#[trigger] members@[j]@) is Ok) && (
                e matches ProjectError::MemberDirective(pe) && parsed_as(
                    #[trigger] members@[i]@,
                    Err::<WorkspaceMember, crate::member::MemberParseError>(pe),
                )),
        },
{
    let mut out: Vec<WorkspaceMember> = Vec::new();
    let mut i: usize = 0;
    while i < members.len()
        invariant
            i <= members@.len(),
            out@.len() == i,
            forall|j: int|
                0 <= j < i ==> parsed_as(
                    members@[j]@,
                    Ok::<WorkspaceMember, crate::member::MemberParseError>(#[trigger] out@[j]),
                ),
        decreases members@.len() - i,
    {
        match WorkspaceMember::from_str(members[i].as_str()) {
            Ok(m) => {
                out.push(m);
            },
            Err(pe) => {
                assert(forall|j: int|
                    0 <= j < i ==> parsed_as(
                        members@[j]@,
                        Ok::<WorkspaceMember, crate::member::MemberParseError>(out@[j]),
                    ));
                return Err(ProjectError::MemberDirective(pe));
            },
        }
        i = i + 1;
    }
    Ok(out)
}

/// The directory of a member, relative to the workspace directory.
pub fn member_dir(workspace_dir: &str, member: &WorkspaceMember) -> (r: String)
    ensures
        r@ == joined(workspace_dir@, member.path()),
{
    match member {
        WorkspaceMember::Generic(p) => join_path(workspace_dir, p.as_str()),
        WorkspaceMember::Cargo(p) => join_path(workspace_dir, p.as_str()),
        WorkspaceMember::Npm(p) => join_path(workspace_dir, p.as_str()),
    }
}

/// The path of the package manifest inside `dir`.
pub fn package_manifest_in(dir: &str, config: &SearchConfig) -> (r: String)
    ensures
        r@ == joined(dir@, config.package_manifest@),
{
    join_path(dir, config.package_manifest.as_str())
}


fn push_npm(packages: &mut Vec<PackageInfo>, pkgs: Vec<NpmPackage>, root: &AutoIncludes)
    ensures
        package_views(final(packages)@) == package_views(old(packages)@) + pkgs@.map_values(
            |np: NpmPackage| finish_npm(np, *root),
        ),
{
    let ghost orig = pkgs@;
    let ghost start = package_views(packages@);
    let mut rest = pkgs;
    let ghost mut k: int = 0;
    while rest.len() > 0
        invariant
            0 <= k <= orig.len(),
            rest@ == orig.subrange(k, orig.len() as int),
            package_views(packages@) == start + orig.subrange(0, k).map_values(
                |np: NpmPackage| finish_npm(np, *root),
            ),
        decreases rest@.len(),
    {
        let np = rest.remove(0);
        proof {
            assert(np == orig[k]);
        }
        let NpmPackage { package, companion } = np;
        let mut package = package;
        if let Some(raw) = companion {
            merge_package_with_raw_generic(&mut package, raw);
        }
        merge_auto_includes(&mut package, root);
        let ghost before = packages@;
        packages.push(package);
        proof {
            assert(package_views(packages@) =~= package_views(before) + seq![package.view()]);
            assert(orig.subrange(0, k + 1).map_values(|np: NpmPackage| finish_npm(np, *root))
                =~= orig.subrange(0, k).map_values(|np: NpmPackage| finish_npm(np, *root)) + seq![
                finish_npm(orig[k], *root)]);
            k = k + 1;
            assert(rest@ =~= orig.subrange(k, orig.len() as int));
        }
    }
    assert(orig.subrange(0, k) =~= orig);
}

proof fn lemma_prefix_step(ms: Seq<MemberInput>, k: int, root: AutoIncludes)
    requires
        0 <= k < ms.len(),
    ensures
        expected_packages(ms.subrange(0, k + 1), root) == expected_packages(ms.subrange(0, k), root)
            + member_packages(ms[k], root),
        expected_subs(ms.subrange(0, k + 1)) == expected_subs(ms.subrange(0, k)) + match ms[k] {
            MemberInput::Cargo(s) => seq![s],
            _ => Seq::<WorkspaceSearch>::empty(),
        },
{
    assert(ms.subrange(0, k + 1).drop_last() =~= ms.subrange(0, k));
}

/// Assembles the workspace whose manifest is at `manifest_path` from what
/// was loaded for its members, in order. Generic members are normalized and
/// filled from the workspace's auto-includes; interpreted-ecosystem packages
/// are overridden by their companion manifest, then filled; both are
/// appended to `packages`. A compiled-ecosystem outcome, failed or not, is
/// kept in `sub_workspaces`. Any other failure fails the workspace.
pub fn workspace_from(
    manifest_path: String,
    root_auto_includes: AutoIncludes,
    members: Vec<MemberInput>,
    config: &SearchConfig,
) -> (r: Result<WorkspaceInfo, ProjectError>)
    ensures
        parent_of(manifest_path@) is None ==> (r matches Err(e) && e is NoParentDir
            && e->NoParentDir_path@ == manifest_path@),
        parent_of(manifest_path@) is Some ==> (r is Ok <==> members_ok(members@)),
        r matches Ok(w) ==> {
            &&& workspace_frame(
                w,
                manifest_path@,
                parent_of(manifest_path@)->Some_0,
                root_auto_includes,
                *config,
            )
            &&& package_views(w.packages@) == expected_packages(members@, root_auto_includes)
            &&& w.sub_workspaces@ == expected_subs(members@)
        },
        parent_of(manifest_path@) is Some ==> (r matches Err(e) ==> exists|i: int|
            0 <= i < members@.len() && members_ok(members@.subrange(0, i)) && member_error(
                #[trigger] members@[i],
                e,
            )),
{
    let workspace_dir = match parent_path(manifest_path.as_str()) {
        Some(d) => d,
        None => {
            return Err(ProjectError::NoParentDir { path: manifest_path });
        },
    };
    let ghost orig = members@;
    let ghost root = root_auto_includes;
    let mut rest = members;
    let mut packages: Vec<PackageInfo> = Vec::new();
    let mut sub_workspaces: Vec<WorkspaceSearch> = Vec::new();
    let ghost mut k: int = 0;
    assert(orig.subrange(0, 0) =~= Seq::<MemberInput>::empty());
    assert(package_views(packages@) =~= Seq::<PackageView>::empty());
    while rest.len() > 0
        invariant
            0 <= k <= orig.len(),
            rest@ == orig.subrange(k, orig.len() as int),
            members_ok(orig.subrange(0, k)),
            package_views(packages@) == expected_packages(orig.subrange(0, k), root),
            sub_workspaces@ == expected_subs(orig.subrange(0, k)),
            root_auto_includes == root,
            orig == members@,
            parent_of(manifest_path@) == Some(workspace_dir@),
        decreases rest@.len(),
    {
        let m = rest.remove(0);
        proof {
            assert(m == orig[k]);
            lemma_prefix_step(orig, k, root);
        }
        match m {
            MemberInput::Generic { manifest_path: member_manifest, raw, auto_includes } => {
                let ghost path = member_manifest@;
                let ghost raw0 = raw;
                let ghost auto0 = auto_includes;
                match package_from(member_manifest, raw, &auto_includes) {
                    Ok(package) => {
                        let mut package = package;
                        merge_auto_includes(&mut package, &root_auto_includes);
                        let ghost before = packages@;
                        packages.push(package);
                        assert(package_views(packages@) =~= package_views(before) + seq![
                            package.view()]);
                        assert(member_packages(orig[k], root) =~= seq![package.view()]);
                    },
                    Err(e) => {
                        assert(member_error(orig[k], e));
                        assert(!member_ok(orig[k]));
                        return Err(e);
                    },
                }
            },
            MemberInput::Cargo(search) => {
                sub_workspaces.push(search);
            },
            MemberInput::Npm(pkgs) => {
                push_npm(&mut packages, pkgs, &root_auto_includes);
            },
            MemberInput::Failed(e) => {
                assert(member_error(orig[k], e));
                assert(!member_ok(orig[k]));
                return Err(e);
            },
        }
        proof {
            assert forall|j: int| 0 <= j < k + 1 implies member_ok(
                #[trigger] orig.subrange(0, k + 1)[j],
            ) by {
                if j < k {
                    assert(orig.subrange(0, k + 1)[j] == orig.subrange(0, k)[j]);
                }
            }
            k = k + 1;
            assert(rest@ =~= orig.subrange(k, orig.len() as int));
        }
    }
    assert(orig.subrange(0, k) =~= orig);
    let target_dir = join_path(workspace_dir.as_str(), config.target_dir.as_str());
    Ok(WorkspaceInfo {
        kind: WorkspaceKind::Generic,
        workspace_dir,
        manifest_path,
        target_dir,
        sub_workspaces,
        packages,
        root_auto_includes,
        warnings: Vec::new(),
    })
}

/// Makes a workspace of the single package whose manifest is at
/// `manifest_path`: the package's root is the workspace directory, and
/// `auto_includes` are the auto-includes found there.
pub fn single_package_workspace_from(
    manifest_path: String,
    raw: RawPackage,
    auto_includes: AutoIncludes,
    config: &SearchConfig,
) -> (r: Result<WorkspaceInfo, ProjectError>)
    ensures
        match r {
            Ok(w) => {
                let p = normalized(manifest_path@, raw, auto_includes)->Some_0;
                &&& normalized(manifest_path@, raw, auto_includes) is Some
                &&& workspace_frame(w, manifest_path@, p.package_root, auto_includes, *config)
                &&& package_views(w.packages@) == seq![p]
                &&& w.sub_workspaces@.len() == 0
            },
            Err(e) => normalized(manifest_path@, raw, auto_includes) is None && normalize_error(
                manifest_path@,
                raw,
                e,
            ),
        },
{
    let package = match package_from(manifest_path, raw, &auto_includes) {
        Ok(p) => p,
        Err(e) => {
            return Err(e);
        },
    };
    let workspace_dir = package.package_root.clone();
    let manifest = package.manifest_path.clone();
    let target_dir = join_path(workspace_dir.as_str(), config.target_dir.as_str());
    let mut packages: Vec<PackageInfo> = Vec::new();
    packages.push(package);
    assert(package_views(packages@) =~= seq![package.view()]);
    Ok(WorkspaceInfo {
        kind: WorkspaceKind::Generic,
        workspace_dir,
        manifest_path: manifest,
        target_dir,
        sub_workspaces: Vec::new(),
        packages,
        root_auto_includes: auto_includes,
        warnings: Vec::new(),
    })
}

/// Settles a search: a workspace manifest found upward wins; only without
/// one does a package manifest count; with neither, the search is missing.
pub fn select_manifest(
    workspace_hit: Option<String>,
    package_hit: Option<String>,
    config: &SearchConfig,
    start_dir: &str,
) -> (r: ManifestChoice)
    ensures
        workspace_hit matches Some(p) ==> r == ManifestChoice::Workspace(p),
        workspace_hit is None && package_hit is Some ==> r == ManifestChoice::Package(
            package_hit->Some_0,
        ),
        workspace_hit is None && package_hit is None ==> (r matches ManifestChoice::Missing(e)
            && e is NotFound && e->NotFound_filename@ == config.package_manifest@
            && e->NotFound_start_dir@ == start_dir@),
{
    match workspace_hit {
        Some(p) => ManifestChoice::Workspace(p),
        None => match package_hit {
            Some(p) => ManifestChoice::Package(p),
            None => ManifestChoice::Missing(
                ProjectError::NotFound {
                    filename: config.package_manifest.clone(),
                    start_dir: start_dir.to_owned(),
                },
            ),
        },
    }
}

/// The outcome of reading the manifest found at `manifest_path`: found, or
/// broken with the path kept for diagnostics.
pub fn search_outcome(manifest_path: String, result: Result<WorkspaceInfo, ProjectError>) -> (r:
    WorkspaceSearch)
    ensures
        match result {
            Ok(w) => r == WorkspaceSearch::Found(w),
            Err(e) => r == (WorkspaceSearch::Broken { manifest_path, cause: e }),
        },
{
    match result {
        Ok(w) => WorkspaceSearch::Found(w),
        Err(e) => WorkspaceSearch::Broken { manifest_path, cause: e },
    }
}

/// Packages keep the order of the members that declared them: in a
/// workspace of well-formed generic members, package `i` is the one of
/// member `i`.
pub proof fn lemma_generic_member_order(ms: Seq<MemberInput>, root: AutoIncludes)
    requires
        forall|i: int| 0 <= i < ms.len() ==> #[trigger] ms[i] is Generic,
        members_ok(ms),
    ensures
        expected_packages(ms, root).len() == ms.len(),
        forall|i: int|
            0 <= i < ms.len() ==> expected_packages(ms, root)[i] == gap_fill(
                normalized(
                    (#[trigger] ms[i])->Generic_manifest_path@,
                    ms[i]->Generic_raw,
                    ms[i]->Generic_auto_includes,
                )->Some_0,
                root,
            ),
    decreases ms.len(),
{
    if ms.len() > 0 {
        let init = ms.drop_last();
        assert forall|i: int| 0 <= i < init.len() implies #[trigger] init[i] is Generic by {
            assert(init[i] == ms[i]);
        }
        assert forall|i: int| 0 <= i < init.len() implies member_ok(#[trigger] init[i]) by {
            assert(init[i] == ms[i]);
        }
        lemma_generic_member_order(init, root);
        assert(ms.last() == ms[ms.len() - 1]);
        assert forall|i: int| 0 <= i < ms.len() implies expected_packages(ms, root)[i] == gap_fill(
            normalized(
                (#[trigger] ms[i])->Generic_manifest_path@,
                ms[i]->Generic_raw,
                ms[i]->Generic_auto_includes,
            )->Some_0,
            root,
        ) by {
            if i < init.len() {
                assert(init[i] == ms[i]);
            }
        }
    }
}

/// A compiled-ecosystem member never decides whether the workspace
/// resolves, nor which packages it has: whatever its outcome (broken or
/// missing included), the other members resolve as before.
pub proof fn lemma_compiled_member_isolated(
    ms: Seq<MemberInput>,
    root: AutoIncludes,
    i: int,
    outcome: WorkspaceSearch,
)
    requires
        0 <= i < ms.len(),
        ms[i] is Cargo,
    ensures
        members_ok(ms.update(i, MemberInput::Cargo(outcome))) == members_ok(ms),
        expected_packages(ms.update(i, MemberInput::Cargo(outcome)), root) == expected_packages(
            ms,
            root,
        ),
    decreases ms.len(),
{
    let ms2 = ms.update(i, MemberInput::Cargo(outcome));
    assert forall|j: int| 0 <= j < ms.len() implies member_ok(#[trigger] ms2[j]) == member_ok(
        ms[j],
    ) by {}
    if members_ok(ms) {
        assert forall|j: int| 0 <= j < ms2.len() implies member_ok(#[trigger] ms2[j]) by {
            assert(member_ok(ms[j]));
        }
    }
    if members_ok(ms2) {
        assert forall|j: int| 0 <= j < ms.len() implies member_ok(#[trigger] ms[j]) by {
            assert(member_ok(ms2[j]));
        }
    }
    if i == ms.len() - 1 {
        assert(ms2.drop_last() =~= ms.drop_last());
    } else {
        assert(ms2.drop_last() =~= ms.drop_last().update(i, MemberInput::Cargo(outcome)));
        lemma_compiled_member_isolated(ms.drop_last(), root, i, outcome);
        assert(ms2.last() == ms.last());
    }
}

} // verus!
