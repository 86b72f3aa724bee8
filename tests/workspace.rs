use axoproject::error::ProjectError;
use axoproject::member::{MemberParseError, WorkspaceMember};
use axoproject::net::ClientSettings;
use axoproject::package::{
    merge_auto_includes, merge_package_with_raw_generic, package_from, AutoIncludes, PackageInfo,
    RawPackage, SemVer, Version,
};
use axoproject::workspace::{
    member_dir, package_manifest_in, parse_members, search_outcome, select_manifest,
    single_package_workspace_from, workspace_from, ManifestChoice, MemberInput, NpmPackage,
    SearchConfig, WorkspaceSearch,
};

fn strings(xs: &[&str]) -> Vec<String> {
    xs.iter().map(|s| s.to_string()).collect()
}

fn semver(major: u64, minor: u64, patch: u64) -> SemVer {
    SemVer { major, minor, patch, pre: String::new(), build: String::new() }
}

fn raw_pkg(name: &str) -> RawPackage {
    RawPackage {
        name: Some(name.to_string()),
        build_command: Some(strings(&["make"])),
        ..RawPackage::default()
    }
}

fn member_text(m: &WorkspaceMember) -> String {
    m.to_string()
}

#[test]
fn member_round_trip() {
    for text in ["dist:pkg-a", "cargo:crates/x", "npm:web:app", "dist:"] {
        let first = WorkspaceMember::from_str(text).unwrap();
        let rendered = member_text(&first);
        assert_eq!(rendered, text);
        let second = WorkspaceMember::from_str(&rendered).unwrap();
        assert_eq!(member_text(&second), member_text(&first));
    }
}

#[test]
fn member_variants() {
    assert!(matches!(WorkspaceMember::from_str("dist:a"), Ok(WorkspaceMember::Generic(p)) if p == "a"));
    assert!(matches!(WorkspaceMember::from_str("cargo:b"), Ok(WorkspaceMember::Cargo(p)) if p == "b"));
    assert!(matches!(WorkspaceMember::from_str("npm:c:d"), Ok(WorkspaceMember::Npm(p)) if p == "c:d"));
}

#[test]
fn member_without_separator_is_no_prefix() {
    for text in ["pkg-a", "", "dist"] {
        match WorkspaceMember::from_str(text) {
            Err(MemberParseError::NoPrefix { val }) => assert_eq!(val, text),
            other => panic!("unexpected {other:?}"),
        }
    }
}

#[test]
fn member_with_unknown_prefix() {
    match WorkspaceMember::from_str("bogus:foo") {
        Err(MemberParseError::UnknownPrefix { prefix, val }) => {
            assert_eq!(prefix, "bogus");
            assert_eq!(val, "bogus:foo");
        }
        other => panic!("unexpected {other:?}"),
    }
}

#[test]
fn parse_members_stops_at_first_bad_one() {
    let ok = parse_members(&strings(&["dist:a", "npm:b"])).unwrap();
    assert_eq!(ok.len(), 2);
    match parse_members(&strings(&["dist:a", "x", "bogus:y"])) {
        Err(ProjectError::MemberDirective(MemberParseError::NoPrefix { val })) => assert_eq!(val, "x"),
        other => panic!("unexpected {other:?}"),
    }
}

#[test]
fn discovery_missing_without_manifests() {
    let config = SearchConfig::dist();
    match select_manifest(None, None, &config, "/work/project") {
        ManifestChoice::Missing(ProjectError::NotFound { filename, start_dir }) => {
            assert_eq!(filename, "dist.toml");
            assert_eq!(start_dir, "/work/project");
        }
        other => panic!("unexpected {other:?}"),
    }
}

#[test]
fn discovery_prefers_workspace_manifest() {
    let config = SearchConfig::dist();
    let choice = select_manifest(
        Some("/w/dist-workspace.toml".to_string()),
        Some("/w/dist.toml".to_string()),
        &config,
        "/w",
    );
    assert!(matches!(choice, ManifestChoice::Workspace(p) if p == "/w/dist-workspace.toml"));
    let choice = select_manifest(None, Some("/w/dist.toml".to_string()), &config, "/w");
    assert!(matches!(choice, ManifestChoice::Package(p) if p == "/w/dist.toml"));
}

#[test]
fn missing_name_reports_manifest_path() {
    let raw = RawPackage { name: None, ..raw_pkg("x") };
    match package_from("/w/pkg/dist.toml".to_string(), raw, &AutoIncludes::default()) {
        Err(ProjectError::MissingField { manifest_path, field, line, column }) => {
            assert_eq!(manifest_path, "/w/pkg/dist.toml");
            assert_eq!(field, "name");
            assert_eq!((line, column), (1, 1));
        }
        other => panic!("unexpected {other:?}"),
    }
}

#[test]
fn missing_build_command_is_reported_first() {
    let raw = RawPackage::default();
    match package_from("/w/dist.toml".to_string(), raw, &AutoIncludes::default()) {
        Err(ProjectError::MissingField { manifest_path, field, .. }) => {
            assert_eq!(manifest_path, "/w/dist.toml");
            assert_eq!(field, "build-command");
        }
        other => panic!("unexpected {other:?}"),
    }
}

#[test]
fn manifest_without_parent_is_rejected() {
    match package_from("/".to_string(), raw_pkg("x"), &AutoIncludes::default()) {
        Err(ProjectError::NoParentDir { path }) => assert_eq!(path, "/"),
        other => panic!("unexpected {other:?}"),
    }
}

fn auto_with_license() -> AutoIncludes {
    AutoIncludes {
        readme: Some("/w/README.md".to_string()),
        license: Some("MIT".to_string()),
        licenses: strings(&["/w/LICENSE"]),
        changelog: Some("/w/CHANGELOG.md".to_string()),
    }
}

#[test]
fn explicit_license_is_not_overwritten() {
    let raw = RawPackage { license: Some("Apache-2.0".to_string()), ..raw_pkg("x") };
    let p = package_from("/w/dist.toml".to_string(), raw, &auto_with_license()).unwrap();
    assert_eq!(p.license.as_deref(), Some("Apache-2.0"));
    assert_eq!(p.license_files, strings(&["/w/LICENSE"]));
}

#[test]
fn unset_license_is_filled() {
    let p = package_from("/w/dist.toml".to_string(), raw_pkg("x"), &auto_with_license()).unwrap();
    assert_eq!(p.license.as_deref(), Some("MIT"));
    assert_eq!(p.readme_file.as_deref(), Some("/w/README.md"));
    assert_eq!(p.changelog_file.as_deref(), Some("/w/CHANGELOG.md"));
}

#[test]
fn gap_fill_keeps_set_fields() {
    let mut p = package_from("/w/dist.toml".to_string(), raw_pkg("x"), &AutoIncludes::default()).unwrap();
    p.readme_file = Some("docs/README".to_string());
    p.license_files = strings(&["COPYING"]);
    merge_auto_includes(&mut p, &auto_with_license());
    assert_eq!(p.readme_file.as_deref(), Some("docs/README"));
    assert_eq!(p.license_files, strings(&["COPYING"]));
    assert_eq!(p.changelog_file.as_deref(), Some("/w/CHANGELOG.md"));
}

fn npm_package(name: &str, root: &str) -> PackageInfo {
    PackageInfo {
        manifest_path: format!("{root}/package.json"),
        package_root: root.to_string(),
        name: name.to_string(),
        version: Some(Version::Npm(semver(0, 1, 0))),
        description: None,
        authors: vec![],
        license: Some("MIT".to_string()),
        publish: true,
        repository_url: None,
        homepage_url: None,
        documentation_url: None,
        readme_file: None,
        license_files: vec![],
        changelog_file: None,
        binaries: strings(&["npm-bin"]),
        cstaticlibs: vec![],
        cdylibs: vec![],
        build_command: None,
    }
}

#[test]
fn override_replaces_license() {
    let mut p = npm_package("web", "/w/web");
    let raw = RawPackage { license: Some("Apache-2.0".to_string()), ..RawPackage::default() };
    merge_package_with_raw_generic(&mut p, raw);
    assert_eq!(p.license.as_deref(), Some("Apache-2.0"));
    assert_eq!(p.name, "web");
    assert_eq!(p.binaries, strings(&["npm-bin"]));
}

#[test]
fn override_retags_version_and_replaces_fields() {
    let mut p = npm_package("web", "/w/web");
    let raw = RawPackage {
        name: Some("site".to_string()),
        version: Some(semver(2, 0, 0)),
        binaries: Some(strings(&["site"])),
        build_command: Some(strings(&["npm", "run", "build"])),
        ..RawPackage::default()
    };
    merge_package_with_raw_generic(&mut p, raw);
    assert_eq!(p.name, "site");
    assert_eq!(p.version, Some(Version::Generic(semver(2, 0, 0))));
    assert_eq!(p.binaries, strings(&["site"]));
    assert_eq!(p.build_command, Some(strings(&["npm", "run", "build"])));
    assert_eq!(p.license.as_deref(), Some("MIT"));
}

fn generic_input(dir: &str, name: &str) -> MemberInput {
    MemberInput::Generic {
        manifest_path: format!("{dir}/dist.toml"),
        raw: raw_pkg(name),
        auto_includes: AutoIncludes::default(),
    }
}

fn names(ps: &[PackageInfo]) -> Vec<&str> {
    ps.iter().map(|p| p.name.as_str()).collect()
}

#[test]
fn packages_follow_member_order() {
    let config = SearchConfig::dist();
    let members = vec![
        generic_input("/w/c", "c"),
        MemberInput::Npm(vec![
            NpmPackage { package: npm_package("a", "/w/js/a"), companion: None },
            NpmPackage { package: npm_package("b", "/w/js/b"), companion: None },
        ]),
        generic_input("/w/z", "z"),
    ];
    let ws = workspace_from(
        "/w/dist-workspace.toml".to_string(),
        AutoIncludes::default(),
        members,
        &config,
    )
    .unwrap();
    assert_eq!(names(&ws.packages), vec!["c", "a", "b", "z"]);
}

#[test]
fn broken_compiled_member_does_not_block_siblings() {
    let config = SearchConfig::dist();
    let members = vec![
        generic_input("/w/a", "a"),
        MemberInput::Cargo(WorkspaceSearch::Broken {
            manifest_path: "/w/rs/Cargo.toml".to_string(),
            cause: ProjectError::Delegated { details: "bad".to_string() },
        }),
        MemberInput::Cargo(WorkspaceSearch::Missing(ProjectError::NotFound {
            filename: "Cargo.toml".to_string(),
            start_dir: "/w/none".to_string(),
        })),
        MemberInput::Npm(vec![NpmPackage { package: npm_package("b", "/w/js"), companion: None }]),
    ];
    let ws = workspace_from(
        "/w/dist-workspace.toml".to_string(),
        AutoIncludes::default(),
        members,
        &config,
    )
    .unwrap();
    assert_eq!(names(&ws.packages), vec!["a", "b"]);
    assert_eq!(ws.sub_workspaces.len(), 2);
    assert!(matches!(&ws.sub_workspaces[0], WorkspaceSearch::Broken { manifest_path, .. } if manifest_path == "/w/rs/Cargo.toml"));
    assert!(matches!(&ws.sub_workspaces[1], WorkspaceSearch::Missing(_)));
}

#[test]
fn failing_member_fails_workspace() {
    let config = SearchConfig::dist();
    let members = vec![
        generic_input("/w/a", "a"),
        MemberInput::Generic {
            manifest_path: "/w/b/dist.toml".to_string(),
            raw: RawPackage::default(),
            auto_includes: AutoIncludes::default(),
        },
        MemberInput::Failed(ProjectError::Load {
            manifest_path: "/w/c/dist.toml".to_string(),
            details: "unreadable".to_string(),
        }),
    ];
    let r = workspace_from("/w/dist-workspace.toml".to_string(), AutoIncludes::default(), members, &config);
    match r {
        Err(ProjectError::MissingField { manifest_path, field, .. }) => {
            assert_eq!(manifest_path, "/w/b/dist.toml");
            assert_eq!(field, "build-command");
        }
        other => panic!("unexpected {other:?}"),
    }
    let members = vec![MemberInput::Failed(ProjectError::Delegated { details: "npm".to_string() })];
    let r = workspace_from("/w/dist-workspace.toml".to_string(), AutoIncludes::default(), members, &config);
    assert!(matches!(r, Err(ProjectError::Delegated { details }) if details == "npm"));
}

#[test]
fn companion_manifest_overrides_then_root_fills() {
    let config = SearchConfig::dist();
    let companion = RawPackage { license: Some("Apache-2.0".to_string()), ..RawPackage::default() };
    let mut pkg = npm_package("web", "/w/web");
    pkg.license = None;
    let members = vec![
        MemberInput::Npm(vec![NpmPackage { package: npm_package("web", "/w/web"), companion: Some(companion) }]),
        MemberInput::Npm(vec![NpmPackage { package: pkg, companion: None }]),
    ];
    let root = auto_with_license();
    let ws = workspace_from("/w/dist-workspace.toml".to_string(), root, members, &config).unwrap();
    assert_eq!(ws.packages[0].license.as_deref(), Some("Apache-2.0"));
    assert_eq!(ws.packages[1].license.as_deref(), Some("MIT"));
    assert_eq!(ws.packages[0].readme_file.as_deref(), Some("/w/README.md"));
}

#[test]
fn end_to_end_single_generic_member() {
    let config = SearchConfig::dist();
    let workspace_manifest = "ws/dist-workspace.toml".to_string();
    let members = parse_members(&strings(&["dist:pkg-a"])).unwrap();
    let dir = member_dir("ws", &members[0]);
    assert_eq!(dir, "ws/pkg-a");
    let manifest_path = package_manifest_in(&dir, &config);
    assert_eq!(manifest_path, "ws/pkg-a/dist.toml");
    let raw = RawPackage {
        name: Some("a".to_string()),
        build_command: Some(strings(&["make"])),
        version: Some(semver(1, 2, 3)),
        ..RawPackage::default()
    };
    let inputs = vec![MemberInput::Generic { manifest_path, raw, auto_includes: AutoIncludes::default() }];
    let ws = workspace_from(workspace_manifest, AutoIncludes::default(), inputs, &config).unwrap();
    assert_eq!(ws.workspace_dir, "ws");
    assert_eq!(ws.target_dir, "ws/target");
    assert_eq!(ws.manifest_path, "ws/dist-workspace.toml");
    assert!(ws.sub_workspaces.is_empty());
    assert!(ws.warnings.is_empty());
    assert_eq!(ws.packages.len(), 1);
    let p = &ws.packages[0];
    assert_eq!(p.name, "a");
    assert_eq!(p.version, Some(Version::Generic(semver(1, 2, 3))));
    assert_eq!(p.build_command, Some(strings(&["make"])));
    assert!(p.publish);
    assert!(p.authors.is_empty());
    assert!(p.license_files.is_empty());
    assert!(p.binaries.is_empty());
    assert!(p.cstaticlibs.is_empty());
    assert!(p.cdylibs.is_empty());
    assert_eq!(p.package_root, "ws/pkg-a");
    assert_eq!(p.manifest_path, "ws/pkg-a/dist.toml");
}

#[test]
fn single_package_fallback() {
    let config = SearchConfig::dist();
    let ws = single_package_workspace_from(
        "/p/dist.toml".to_string(),
        raw_pkg("solo"),
        auto_with_license(),
        &config,
    )
    .unwrap();
    assert_eq!(ws.workspace_dir, "/p");
    assert_eq!(ws.target_dir, "/p/target");
    assert_eq!(ws.manifest_path, "/p/dist.toml");
    assert_eq!(names(&ws.packages), vec!["solo"]);
    assert!(ws.sub_workspaces.is_empty());
    assert!(matches!(
        single_package_workspace_from("/p/dist.toml".to_string(), RawPackage::default(), AutoIncludes::default(), &config),
        Err(ProjectError::MissingField { .. })
    ));
}

#[test]
fn search_outcome_keeps_path_when_broken() {
    let out = search_outcome(
        "/w/dist-workspace.toml".to_string(),
        Err(ProjectError::Delegated { details: "x".to_string() }),
    );
    assert!(matches!(out, WorkspaceSearch::Broken { manifest_path, .. } if manifest_path == "/w/dist-workspace.toml"));
    let config = SearchConfig::dist();
    let ws = single_package_workspace_from("/p/dist.toml".to_string(), raw_pkg("solo"), AutoIncludes::default(), &config);
    assert!(matches!(search_outcome("/p/dist.toml".to_string(), ws), WorkspaceSearch::Found(_)));
}

#[test]
fn workspace_manifest_without_parent() {
    let config = SearchConfig::dist();
    let r = workspace_from("/".to_string(), AutoIncludes::default(), vec![], &config);
    assert!(matches!(r, Err(ProjectError::NoParentDir { path }) if path == "/"));
}

#[test]
fn client_settings_new() {
    assert!(ClientSettings::new(true).prefer_native_tls);
    assert!(!ClientSettings::new(false).prefer_native_tls);
}
