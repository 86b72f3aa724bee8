//! Package records: normalization of a package manifest, gap-fill of
//! auto-detected metadata, and the override merge of a companion manifest.

use vstd::prelude::*;
use vstd::string::*;
use crate::error::ProjectError;
use crate::paths::{parent_of, parent_path};

verus! {

/// A semantic version, as plain values.
#[derive(Clone, Debug, PartialEq, Eq)]
pub struct SemVer {
    pub major: u64,
    pub minor: u64,
    pub patch: u64,
    pub pre: String,
    pub build: String,
}

/// A version, tagged with the ecosystem whose rules it follows.
#[derive(Clone, Debug, PartialEq, Eq)]
pub enum Version {
    Generic(SemVer),
    Cargo(SemVer),
    Npm(SemVer),
}

/// The package table of a package manifest, as read: every field optional.
#[derive(Clone, Debug, Default)]
pub struct RawPackage {
    pub name: Option<String>,
    pub repository: Option<String>,
    pub homepage: Option<String>,
    pub documentation: Option<String>,
    pub description: Option<String>,
    pub readme: Option<String>,
    pub authors: Option<Vec<String>>,
    pub binaries: Option<Vec<String>>,
    pub license: Option<String>,
    pub changelog: Option<String>,
    pub license_files: Option<Vec<String>>,
    pub cstaticlibs: Option<Vec<String>>,
    pub cdylibs: Option<Vec<String>>,
    pub build_command: Option<Vec<String>>,
    pub version: Option<SemVer>,
}

/// Metadata inferred from the conventional files of a directory.
#[derive(Clone, Debug, Default)]
pub struct AutoIncludes {
    pub readme: Option<String>,
    pub license: Option<String>,
    pub licenses: Vec<String>,
    pub changelog: Option<String>,
}

/// A normalized package.
#[derive(Clone, Debug)]
pub struct PackageInfo {
    pub manifest_path: String,
    pub package_root: String,
    pub name: String,
    pub version: Option<Version>,
    pub description: Option<String>,
    pub authors: Vec<String>,
    pub license: Option<String>,
    pub publish: bool,
    pub repository_url: Option<String>,
    pub homepage_url: Option<String>,
    pub documentation_url: Option<String>,
    pub readme_file: Option<String>,
    pub license_files: Vec<String>,
    pub changelog_file: Option<String>,
    pub binaries: Vec<String>,
    pub cstaticlibs: Vec<String>,
    pub cdylibs: Vec<String>,
    pub build_command: Option<Vec<String>>,
}

/// A package with its lists seen as sequences.
pub struct PackageView {
    pub manifest_path: Seq<char>,
    pub package_root: Seq<char>,
    pub name: String,
    pub version: Option<Version>,
    pub description: Option<String>,
    pub authors: Seq<String>,
    pub license: Option<String>,
    pub publish: bool,
    pub repository_url: Option<String>,
    pub homepage_url: Option<String>,
    pub documentation_url: Option<String>,
    pub readme_file: Option<String>,
    pub license_files: Seq<String>,
    pub changelog_file: Option<String>,
    pub binaries: Seq<String>,
    pub cstaticlibs: Seq<String>,
    pub cdylibs: Seq<String>,
    pub build_command: Option<Seq<String>>,
}

pub open spec fn opt_list(o: Option<Vec<String>>) -> Option<Seq<String>> {
    match o {
        Some(v) => Some(v@),
        None => None,
    }
}

/// A list that is absent counts as empty.
pub open spec fn list_or_empty(o: Option<Vec<String>>) -> Seq<String> {
    match o {
        Some(v) => v@,
        None => Seq::empty(),
    }
}

pub open spec fn generic_version(v: Option<SemVer>) -> Option<Version> {
    match v {
        Some(s) => Some(Version::Generic(s)),
        None => None,
    }
}

impl PackageInfo {
    pub open spec fn view(&self) -> PackageView {
        PackageView {
            manifest_path: self.manifest_path@,
            package_root: self.package_root@,
            name: self.name,
            version: self.version,
            description: self.description,
            authors: self.authors@,
            license: self.license,
            publish: self.publish,
            repository_url: self.repository_url,
            homepage_url: self.homepage_url,
            documentation_url: self.documentation_url,
            readme_file: self.readme_file,
            license_files: self.license_files@,
            changelog_file: self.changelog_file,
            binaries: self.binaries@,
            cstaticlibs: self.cstaticlibs@,
            cdylibs: self.cdylibs@,
            build_command: opt_list(self.build_command),
        }
    }
}

/// Fills the fields that `p` leaves unset from `a`; set fields stay.
pub open spec fn gap_fill(p: PackageView, a: AutoIncludes) -> PackageView {
    PackageView {
        readme_file: if p.readme_file is None { a.readme } else { p.readme_file },
        changelog_file: if p.changelog_file is None { a.changelog } else { p.changelog_file },
        license: if p.license is None { a.license } else { p.license },
        license_files: if p.license_files.len() == 0 { a.licenses@ } else { p.license_files },
        ..p
    }
}

/// Every field that `raw` holds replaces the one of `p`; a version is
/// tagged as generic.
pub open spec fn override_with(p: PackageView, raw: RawPackage) -> PackageView {
    PackageView {
        name: if let Some(v) = raw.name { v } else { p.name },
        repository_url: if raw.repository is Some { raw.repository } else { p.repository_url },
        homepage_url: if raw.homepage is Some { raw.homepage } else { p.homepage_url },
        documentation_url: if raw.documentation is Some { raw.documentation } else { p.documentation_url },
        description: if raw.description is Some { raw.description } else { p.description },
        readme_file: if raw.readme is Some { raw.readme } else { p.readme_file },
        changelog_file: if raw.changelog is Some { raw.changelog } else { p.changelog_file },
        authors: if let Some(v) = raw.authors { v@ } else { p.authors },
        binaries: if let Some(v) = raw.binaries { v@ } else { p.binaries },
        license: if raw.license is Some { raw.license } else { p.license },
        license_files: if let Some(v) = raw.license_files { v@ } else { p.license_files },
        cstaticlibs: if let Some(v) = raw.cstaticlibs { v@ } else { p.cstaticlibs },
        cdylibs: if let Some(v) = raw.cdylibs { v@ } else { p.cdylibs },
        build_command: if let Some(v) = raw.build_command { Some(v@) } else { p.build_command },
        version: if raw.version is Some { generic_version(raw.version) } else { p.version },
        ..p
    }
}

/// The package that a manifest at `manifest_path` with package table `raw`
/// describes, before auto-includes, with `package_root` as its root.
pub open spec fn from_raw(manifest_path: Seq<char>, package_root: Seq<char>, raw: RawPackage) -> PackageView {
    PackageView {
        manifest_path,
        package_root,
        name: raw.name->Some_0,
        version: generic_version(raw.version),
        description: raw.description,
        authors: list_or_empty(raw.authors),
        license: raw.license,
        publish: true,
        repository_url: raw.repository,
        homepage_url: raw.homepage,
        documentation_url: raw.documentation,
        readme_file: raw.readme,
        license_files: list_or_empty(raw.license_files),
        changelog_file: raw.changelog,
        binaries: list_or_empty(raw.binaries),
        cstaticlibs: list_or_empty(raw.cstaticlibs),
        cdylibs: list_or_empty(raw.cdylibs),
        build_command: opt_list(raw.build_command),
    }
}

/// The package that normalization makes of a manifest at `manifest_path`
/// with package table `raw`, its own auto-includes being `auto`: none when
/// `build-command` or `name` is absent or the path has no parent.
pub open spec fn normalized(manifest_path: Seq<char>, raw: RawPackage, auto: AutoIncludes) -> Option<PackageView> {
    if raw.build_command is Some && raw.name is Some && parent_of(manifest_path) is Some {
        Some(gap_fill(from_raw(manifest_path, parent_of(manifest_path)->Some_0, raw), auto))
    } else {
        None
    }
}

/// `e` reports that the manifest at `manifest_path` lacks `field`, at its
/// first character.
pub open spec fn is_missing_field(e: ProjectError, manifest_path: Seq<char>, field: Seq<char>) -> bool {
    &&& e is MissingField
    &&& e->MissingField_manifest_path@ == manifest_path
    &&& e->MissingField_field@ == field
    &&& e->MissingField_line == 1
    &&& e->MissingField_column == 1
}

/// The error that normalization reports: `build-command` is checked first,
/// then `name`, then the manifest's parent directory.
pub open spec fn normalize_error(manifest_path: Seq<char>, raw: RawPackage, e: ProjectError) -> bool {
    if raw.build_command is None {
        is_missing_field(e, manifest_path, "build-command"@)
    } else if raw.name is None {
        is_missing_field(e, manifest_path, "name"@)
    } else {
        e is NoParentDir && e->NoParentDir_path@ == manifest_path
    }
}

fn clone_opt(o: &Option<String>) -> (r: Option<String>)
    ensures
        r == *o,
{
    match o {
        Some(s) => Some(s.clone()),
        None => None,
    }
}

fn clone_list(v: &Vec<String>) -> (r: Vec<String>)
    ensures
        r@ == v@,
{
    let mut r: Vec<String> = Vec::new();
    let mut i: usize = 0;
    while i < v.len()
        invariant
            i <= v.len(),
            r@ == v@.subrange(0, i as int),
        decreases v.len() - i,
    {
        r.push(v[i].clone());
        i = i + 1;
        assert(r@ =~= v@.subrange(0, i as int));
    }
    assert(v@.subrange(0, v.len() as int) =~= v@);
    r
}

fn list_or_default(o: Option<Vec<String>>) -> (r: Vec<String>)
    ensures
        r@ == list_or_empty(o),
{
    match o {
        Some(v) => v,
        None => Vec::new(),
    }
}

fn override_opt(slot: &mut Option<String>, val: Option<String>)
    ensures
        *final(slot) == if val is Some { val } else { *old(slot) },
{
    if val.is_some() {
        *slot = val;
    }
}

fn override_list(slot: &mut Vec<String>, val: Option<Vec<String>>)
    ensures
        final(slot)@ == if let Some(v) = val { v@ } else { old(slot)@ },
{
    if let Some(v) = val {
        *slot = v;
    }
}

/// Fills the fields of `package` that are unset (no readme, changelog or
/// license, no license files) from `auto_includes`; never overwrites.
pub fn merge_auto_includes(package: &mut PackageInfo, auto_includes: &AutoIncludes)
    ensures
        final(package).view() == gap_fill(old(package).view(), *auto_includes),
{
    if package.readme_file.is_none() {
        package.readme_file = clone_opt(&auto_includes.readme);
    }
    if package.changelog_file.is_none() {
        package.changelog_file = clone_opt(&auto_includes.changelog);
    }
    if package.license.is_none() {
        package.license = clone_opt(&auto_includes.license);
    }
    if package.license_files.len() == 0 {
        package.license_files = clone_list(&auto_includes.licenses);
    }
}

/// Applies every field that `generic` holds to `package`, replacing what
/// was there; a version becomes a generic one.
pub fn merge_package_with_raw_generic(package: &mut PackageInfo, generic: RawPackage)
    ensures
        final(package).view() == override_with(old(package).view(), generic),
{
    let RawPackage {
        name,
        repository,
        homepage,
        documentation,
        description,
        readme,
        authors,
        binaries,
        license,
        changelog,
        license_files,
        cstaticlibs,
        cdylibs,
        build_command,
        version,
    } = generic;
    if let Some(val) = name {
        package.name = val;
    }
    override_opt(&mut package.repository_url, repository);
    override_opt(&mut package.homepage_url, homepage);
    override_opt(&mut package.documentation_url, documentation);
    override_opt(&mut package.description, description);
    override_opt(&mut package.readme_file, readme);
    override_opt(&mut package.changelog_file, changelog);
    override_list(&mut package.authors, authors);
    override_list(&mut package.binaries, binaries);
    override_opt(&mut package.license, license);
    override_list(&mut package.license_files, license_files);
    override_list(&mut package.cstaticlibs, cstaticlibs);
    override_list(&mut package.cdylibs, cdylibs);
    if let Some(val) = build_command {
        package.build_command = Some(val);
    }
    if let Some(val) = version {
        package.version = Some(Version::Generic(val));
    }
}

/// Normalizes the package table `raw` of the manifest at `manifest_path`:
/// `build-command` and `name` are required, the root is the manifest's
/// directory, absent lists become empty, `publish` is true, and the
/// package's own auto-includes fill what is unset.
pub fn package_from(manifest_path: String, raw: RawPackage, auto_includes: &AutoIncludes)
    -> (r: Result<PackageInfo, ProjectError>)
    ensures
        match r {
            Ok(p) => normalized(manifest_path@, raw, *auto_includes) == Some(p.view()),
            Err(e) => normalized(manifest_path@, raw, *auto_includes) is None
                && normalize_error(manifest_path@, raw, e),
        },
{
    let version = match raw.version {
        Some(v) => Some(Version::Generic(v)),
        None => None,
    };
    let build_command = match raw.build_command {
        Some(b) => b,
        None => {
            return Err(ProjectError::MissingField {
                manifest_path,
                field: String::from_str("build-command"),
                line: 1,
                column: 1,
            });
        },
    };
    let name = match raw.name {
        Some(n) => n,
        None => {
            return Err(ProjectError::MissingField {
                manifest_path,
                field: String::from_str("name"),
                line: 1,
                column: 1,
            });
        },
    };
    let package_root = match parent_path(manifest_path.as_str()) {
        Some(p) => p,
        None => {
            return Err(ProjectError::NoParentDir { path: manifest_path });
        },
    };
    let mut info = PackageInfo {
        manifest_path,
        package_root,
        name,
        version,
        description: raw.description,
        authors: list_or_default(raw.authors),
        license: raw.license,
        publish: true,
        repository_url: raw.repository,
        homepage_url: raw.homepage,
        documentation_url: raw.documentation,
        readme_file: raw.readme,
        license_files: list_or_default(raw.license_files),
        changelog_file: raw.changelog,
        binaries: list_or_default(raw.binaries),
        cstaticlibs: list_or_default(raw.cstaticlibs),
        cdylibs: list_or_default(raw.cdylibs),
        build_command: Some(build_command),
    };
    merge_auto_includes(&mut info, auto_includes);
    Ok(info)
}

/// Auto-detection never overwrites an explicit license, and fills an unset
/// one.
pub proof fn lemma_license_gap_fill(p: PackageView, a: AutoIncludes)
    ensures
        p.license is Some ==> gap_fill(p, a).license == p.license,
        p.license is None ==> gap_fill(p, a).license == a.license,
{
}

/// A license in the companion manifest replaces the package's, whatever it
/// was.
pub proof fn lemma_override_license(p: PackageView, raw: RawPackage)
    ensures
        raw.license is Some ==> override_with(p, raw).license == raw.license,
        raw.license is None ==> override_with(p, raw).license == p.license,
{
}

/// A manifest without `name` does not normalize, and its error names the
/// manifest's own path.
pub proof fn lemma_missing_name_reports_path(
    manifest_path: Seq<char>,
    raw: RawPackage,
    auto: AutoIncludes,
    e: ProjectError,
)
    requires
        raw.name is None,
        normalize_error(manifest_path, raw, e),
    ensures
        normalized(manifest_path, raw, auto) is None,
        e is MissingField,
        e->MissingField_manifest_path@ == manifest_path,
{
}

} // verus!
