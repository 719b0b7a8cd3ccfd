use std::path::{Path, PathBuf};

use thirdpass_rs::cargo::{
    cargo_metadata, cargo_metadata_arguments, crates_io_dependencies_from_metadata,
    get_registry_host_name, is_crates_io_source, validate_crate_name, Argument, CargoMetadata,
    CargoPackage, CommandOutcome, TargetPackage, CARGO_PROGRAM,
};
use thirdpass_rs::interface::{CargoFailure, ExtensionError};
use thirdpass_rs::project::{
    find_manifest_path, get_file_defined_dependencies, get_source_path, FileDefinedDependencySet,
    ManifestSearch, ManifestStep, ProjectStep, CARGO_LOCK_FILE_NAME, CARGO_MANIFEST_FILE_NAME,
};

const GIT_INDEX: &str = "registry+https://github.com/rust-lang/crates.io-index";

fn package(name: &str, version: &str, source: Option<&str>) -> CargoPackage {
    CargoPackage {
        name: name.to_string(),
        version: version.to_string(),
        source: source.map(|text| text.to_string()),
    }
}

fn metadata(workspace_root: &str, packages: Vec<CargoPackage>) -> CargoMetadata {
    CargoMetadata {
        packages,
        workspace_root: PathBuf::from(workspace_root),
    }
}

fn names_and_versions(metadata: &CargoMetadata, target: Option<&TargetPackage>) -> Vec<String> {
    crates_io_dependencies_from_metadata(metadata, target)
        .iter()
        .map(|dependency| {
            format!(
                "{} {}",
                dependency.name,
                dependency.version.clone().expect("resolved version")
            )
        })
        .collect()
}

fn search_manifest(start: &Path, is_file: &dyn Fn(&Path) -> bool) -> Option<PathBuf> {
    let mut search = ManifestSearch {
        directory: start.to_path_buf(),
    };
    loop {
        let candidate = search.candidate();
        let found = is_file(&candidate);
        match find_manifest_path(search, found) {
            ManifestStep::Found(path) => return Some(path),
            ManifestStep::Probe(next) => search = next,
            ManifestStep::Exhausted => return None,
        }
    }
}

fn finished(success: bool, stderr: &[u8], metadata: Result<CargoMetadata, String>) -> CommandOutcome {
    CommandOutcome::Finished {
        success,
        stderr: stderr.to_vec(),
        metadata,
    }
}

#[test]
fn dependency_selection_filters_to_crates_io() {
    let metadata = metadata(
        "/tmp/project",
        vec![
            package("workspace-crate", "0.1.0", None),
            package("serde", "1.0.0", Some(GIT_INDEX)),
            package(
                "internal",
                "1.0.0",
                Some("registry+https://example.com/index"),
            ),
        ],
    );

    let dependencies = crates_io_dependencies_from_metadata(&metadata, None);

    assert_eq!(dependencies.len(), 1);
    assert_eq!(dependencies[0].name, "serde");
    assert_eq!(dependencies[0].version, Ok("1.0.0".to_string()));
}

#[test]
fn dependency_selection_excludes_target_package() {
    let metadata = metadata(
        "/tmp/project",
        vec![
            package("serde", "1.0.0", Some(GIT_INDEX)),
            package("serde_derive", "1.0.0", Some(GIT_INDEX)),
        ],
    );
    let target = TargetPackage {
        name: "serde",
        version: "1.0.0",
    };

    let dependencies = crates_io_dependencies_from_metadata(&metadata, Some(&target));

    assert_eq!(dependencies.len(), 1);
    assert_eq!(dependencies[0].name, "serde_derive");
}

#[test]
fn find_manifest_walks_up_from_child_directory() {
    let root = PathBuf::from("/tmp/thirdpass_rs_manifest_test");
    let child = root.join("src").join("nested");
    let manifest = root.join(CARGO_MANIFEST_FILE_NAME);

    let manifest_path =
        search_manifest(&child, &|path| path == manifest).expect("manifest path");

    assert_eq!(manifest_path, root.join(CARGO_MANIFEST_FILE_NAME));
}

#[test]
fn file_defined_dependencies_resolve_current_project_from_child_directory() {
    let manifest_dir = PathBuf::from("/work/thirdpass-rs");
    let child = manifest_dir.join("src");
    let manifest = manifest_dir.join(CARGO_MANIFEST_FILE_NAME);
    let lock = manifest_dir.join(CARGO_LOCK_FILE_NAME);
    let is_file = |path: &Path| path == manifest || path == lock;

    let mut step = get_file_defined_dependencies(&child);
    let dependency_set: FileDefinedDependencySet = loop {
        step = match step {
            ProjectStep::FindManifest(search) => {
                let found = is_file(&search.candidate());
                search.resume(found)
            }
            ProjectStep::RunCargo(project) => {
                assert_eq!(project.manifest_path, manifest);
                project.resume(finished(
                    true,
                    b"",
                    Ok(metadata(
                        "/work/thirdpass-rs",
                        vec![
                            package("thirdpass-rs", "0.1.0", None),
                            package("thirdpass-core", "0.5.2", None),
                            package("serde", "1.0.229", Some(GIT_INDEX)),
                            package("anyhow", "1.0.104", Some(GIT_INDEX)),
                        ],
                    )),
                ))
            }
            ProjectStep::FindLock(project) => break project.resume(is_file(&project.lock_path())),
            ProjectStep::NoProject => panic!("expected current Cargo project"),
            ProjectStep::Failed(error) => panic!("{:?}", error),
        };
    };

    assert_eq!(dependency_set.path, manifest_dir.join(CARGO_LOCK_FILE_NAME));
    assert!(
        dependency_set
            .dependencies
            .iter()
            .any(|dependency| dependency.name == "anyhow"
                && matches!(&dependency.version, Ok(version) if !version.is_empty())),
        "expected resolved anyhow dependency in {:?}",
        dependency_set.dependencies
    );
    assert!(
        dependency_set
            .dependencies
            .iter()
            .any(|dependency| dependency.name == "serde"
                && matches!(&dependency.version, Ok(version) if !version.is_empty())),
        "expected resolved serde dependency in {:?}",
        dependency_set.dependencies
    );
    assert!(
        !dependency_set
            .dependencies
            .iter()
            .any(|dependency| dependency.name == "thirdpass-core"),
        "path dependencies should not be reported as crates.io dependencies"
    );
    assert_eq!(dependency_set.clone().dependencies, dependency_set.dependencies);
}

#[test]
fn registry_host_is_crates_io() {
    assert_eq!(get_registry_host_name(), "crates.io");
}

#[test]
fn dependencies_are_sorted_and_listed_once() {
    let one = metadata(
        "/p",
        vec![
            package("b", "1.0.0", Some(GIT_INDEX)),
            package("a", "10.0.0", Some(GIT_INDEX)),
            package("a", "2.0.0", Some(GIT_INDEX)),
            package("a-b", "0.1.0", Some(GIT_INDEX)),
            package("b", "1.0.0", Some(GIT_INDEX)),
        ],
    );
    let other = metadata(
        "/p",
        vec![
            package("a-b", "0.1.0", Some(GIT_INDEX)),
            package("a", "2.0.0", Some(GIT_INDEX)),
            package("b", "1.0.0", Some(GIT_INDEX)),
            package("a", "10.0.0", Some(GIT_INDEX)),
        ],
    );

    let expected = vec!["a 10.0.0", "a 2.0.0", "a-b 0.1.0", "b 1.0.0"];
    assert_eq!(names_and_versions(&one, None), expected);
    assert_eq!(names_and_versions(&other, None), expected);
}

#[test]
fn only_the_exact_target_is_left_out() {
    let metadata = metadata(
        "/p",
        vec![
            package("a", "1.0.0", Some(GIT_INDEX)),
            package("a", "2.0.0", Some(GIT_INDEX)),
            package("b", "1.0.0", Some(GIT_INDEX)),
        ],
    );
    let target = TargetPackage {
        name: "a",
        version: "1.0.0",
    };

    assert_eq!(
        names_and_versions(&metadata, Some(&target)),
        vec!["a 2.0.0", "b 1.0.0"]
    );
}

#[test]
fn a_path_package_does_not_hide_the_same_release_of_crates_io() {
    let with_both = metadata(
        "/p",
        vec![
            package("a", "1.0.0", None),
            package("a", "1.0.0", Some(GIT_INDEX)),
        ],
    );
    let with_path_only = metadata("/p", vec![package("a", "1.0.0", None)]);

    assert_eq!(names_and_versions(&with_both, None), vec!["a 1.0.0"]);
    assert!(names_and_versions(&with_path_only, None).is_empty());
}

#[test]
fn order_of_names_goes_by_code_points() {
    let metadata = metadata(
        "/p",
        vec![
            package("\u{1F980}", "1", Some(GIT_INDEX)),
            package("\u{FFFD}", "1", Some(GIT_INDEX)),
            package("\u{E9}", "1", Some(GIT_INDEX)),
            package("Z", "1", Some(GIT_INDEX)),
            package("a", "1", Some(GIT_INDEX)),
        ],
    );
    let mut sorted: Vec<String> = metadata
        .packages
        .iter()
        .map(|package| format!("{} {}", package.name, package.version))
        .collect();
    sorted.sort();

    assert_eq!(names_and_versions(&metadata, None), sorted);
}

#[test]
fn crates_io_sources_are_recognised() {
    assert!(is_crates_io_source(GIT_INDEX));
    assert!(is_crates_io_source("sparse+https://index.crates.io/"));
    assert!(is_crates_io_source("sparse+https://index.crates.io/config"));
    assert!(is_crates_io_source("registry+https://index.crates.io/"));
    assert!(!is_crates_io_source(
        "registry+https://github.com/rust-lang/crates.io-index#abc"
    ));
    assert!(!is_crates_io_source("sparse+https://index.crates.io"));
    assert!(!is_crates_io_source("git+https://github.com/serde-rs/serde"));
    assert!(!is_crates_io_source(""));
}

#[test]
fn crate_names_are_checked() {
    assert!(validate_crate_name("serde_json-2").is_ok());
    assert!(matches!(
        validate_crate_name(""),
        Err(ExtensionError::EmptyCrateName)
    ));
    assert!(matches!(
        validate_crate_name("serde json"),
        Err(ExtensionError::InvalidCrateName { name }) if name == "serde json"
    ));
    assert!(validate_crate_name("caf\u{E9}").is_err());
    assert!(validate_crate_name("a/b").is_err());
    assert!(validate_crate_name("a\"").is_err());
}

#[test]
fn search_prefers_the_nearest_manifest() {
    let outer = PathBuf::from("/work/Cargo.toml");
    let inner = PathBuf::from("/work/member/Cargo.toml");
    let is_file = |path: &Path| path == outer || path == inner;

    assert_eq!(
        search_manifest(Path::new("/work/member/src"), &is_file),
        Some(inner.clone())
    );
    assert_eq!(
        search_manifest(Path::new("/work/member"), &is_file),
        Some(inner.clone())
    );
    assert_eq!(
        search_manifest(Path::new("/work/docs"), &is_file),
        Some(outer.clone())
    );
}

#[test]
fn search_ends_at_the_root() {
    let mut probed: Vec<PathBuf> = Vec::new();
    let mut search = ManifestSearch {
        directory: PathBuf::from("/a/b"),
    };
    loop {
        probed.push(search.candidate());
        match find_manifest_path(search, false) {
            ManifestStep::Probe(next) => search = next,
            ManifestStep::Exhausted => break,
            ManifestStep::Found(path) => panic!("{:?}", path),
        }
    }

    assert_eq!(
        probed,
        vec![
            PathBuf::from("/a/b/Cargo.toml"),
            PathBuf::from("/a/Cargo.toml"),
            PathBuf::from("/Cargo.toml"),
        ]
    );
}

#[test]
fn search_of_a_relative_directory_ends_where_it_is() {
    let found = search_manifest(Path::new("a/b"), &|path| path == Path::new("Cargo.toml"));

    assert_eq!(found, Some(PathBuf::from("Cargo.toml")));
    assert_eq!(search_manifest(Path::new(""), &|_| false), None);
}

#[test]
fn a_directory_without_project_is_reported_as_such() {
    let mut step = get_file_defined_dependencies(&PathBuf::from("/"));
    if let ProjectStep::FindManifest(search) = step {
        step = search.resume(false);
    }
    assert!(matches!(step, ProjectStep::NoProject));
}

#[test]
fn source_path_falls_back_to_the_manifest() {
    let metadata = metadata("/work", Vec::new());
    let manifest = PathBuf::from("/work/member/Cargo.toml");

    assert_eq!(
        get_source_path(&metadata, &manifest, true),
        PathBuf::from("/work/Cargo.lock")
    );
    assert_eq!(get_source_path(&metadata, &manifest, false), manifest);
}

#[test]
fn cargo_is_asked_for_metadata() {
    let manifest = PathBuf::from("/work/Cargo.toml");
    let shown = |locked: bool| -> Vec<String> {
        cargo_metadata_arguments(&manifest, locked)
            .iter()
            .map(|argument| match argument {
                Argument::Text(text) => text.clone(),
                Argument::Path(path) => format!("<{}>", path.display()),
            })
            .collect()
    };

    assert_eq!(CARGO_PROGRAM, "cargo");
    assert_eq!(
        shown(false),
        vec![
            "metadata",
            "--format-version",
            "1",
            "--manifest-path",
            "</work/Cargo.toml>"
        ]
    );
    assert_eq!(
        shown(true),
        vec![
            "metadata",
            "--format-version",
            "1",
            "--manifest-path",
            "</work/Cargo.toml>",
            "--locked"
        ]
    );
}

#[test]
fn failures_of_cargo_are_told_apart() {
    let manifest = PathBuf::from("/work/Cargo.toml");

    let not_run = cargo_metadata(
        &manifest,
        CommandOutcome::NotRun {
            cause: "No such file".to_string(),
        },
    )
    .unwrap_err();
    assert_eq!(
        not_run.message(),
        "Failed to run cargo metadata.: No such file"
    );

    let failed = cargo_metadata(
        &manifest,
        finished(
            false,
            b"\n\t error: lock file \xff\xc2\xa0 \n",
            Err("unread".to_string()),
        ),
    )
    .unwrap_err();
    assert_eq!(
        failed,
        CargoFailure::Failed {
            manifest: "/work/Cargo.toml".to_string(),
            stderr: "error: lock file \u{FFFD}".to_string(),
        }
    );
    assert_eq!(
        failed.message(),
        "cargo metadata failed for /work/Cargo.toml:\nerror: lock file \u{FFFD}"
    );

    let invalid =
        cargo_metadata(&manifest, finished(true, b"", Err("line 1".to_string()))).unwrap_err();
    assert_eq!(
        invalid.message(),
        "cargo metadata returned invalid JSON.: line 1"
    );

    let read = cargo_metadata(
        &manifest,
        finished(true, b"warning", Ok(metadata("/work", Vec::new()))),
    )
    .unwrap();
    assert_eq!(read.workspace_root, PathBuf::from("/work"));
}

#[test]
fn a_project_that_cannot_be_resolved_is_an_error() {
    let search = ManifestSearch {
        directory: PathBuf::from("/work"),
    };
    let project = match search.resume(true) {
        ProjectStep::RunCargo(project) => project,
        other => panic!("{:?}", other),
    };
    assert_eq!(project.arguments().len(), 6);

    let error = match project.resume(finished(false, b" stale lock \n", Err(String::new()))) {
        ProjectStep::Failed(error) => error,
        other => panic!("{:?}", other),
    };
    assert_eq!(
        error.message(),
        "Failed to resolve Rust dependencies for /work/Cargo.toml. Rust dependency discovery \
             requires a current Cargo.lock.\ncargo metadata failed for /work/Cargo.toml:\nstale lock"
    );
}
