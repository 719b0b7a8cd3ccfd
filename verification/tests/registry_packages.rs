use std::path::PathBuf;

use thirdpass_rs::cargo::{CargoMetadata, CargoPackage, CommandOutcome};
use thirdpass_rs::extension::RsExtension;
use thirdpass_rs::interface::ExtensionError;
use thirdpass_rs::json::{Json, Member};
use thirdpass_rs::package::{get_package_dependencies, PackageStep};
use thirdpass_rs::probe::{toml_basic_string, write_probe_project};
use thirdpass_rs::project::FileDefinedDependencySet;
use thirdpass_rs::registry::{
    get_archive_url, get_latest_version, get_latest_version_from_entry_json,
    get_registry_human_url, registry_entry_has_version, registry_entry_json, registry_entry_url,
    user_agent, UrlError,
};
use thirdpass_rs::text::{precedes, same_text, starts_with, trim_text};

const ENTRY: &str = r#"{
    "crate": {
        "max_stable_version": "1.1.0",
        "max_version": "2.0.0-alpha.1",
        "newest_version": "2.0.0-alpha.1"
    },
    "versions": [ { "num": "1.0.0" }, { "num": "1.1.0" }, { "num": "2.0.0-alpha.1" } ]
}"#;

fn entry(text: &str) -> Json {
    registry_entry_json(text).expect("well-formed entry")
}

fn latest(text: &str) -> Option<String> {
    get_latest_version_from_entry_json(&entry(text))
}

#[test]
fn latest_version_prefers_stable_version() {
    let registry_entry_json = entry(
        r#"{
            "crate": {
                "max_stable_version": "1.2.3",
                "max_version": "2.0.0-alpha.1",
                "newest_version": "2.0.0-alpha.1"
            }
        }"#,
    );

    assert_eq!(
        get_latest_version_from_entry_json(&registry_entry_json),
        Some("1.2.3".to_string())
    );
}

#[test]
fn registry_entry_version_lookup_matches_version_numbers() {
    let registry_entry_json = entry(
        r#"{
            "versions": [
                { "num": "1.0.0" },
                { "num": "1.1.0" }
            ]
        }"#,
    );

    assert!(registry_entry_has_version(&registry_entry_json, "1.1.0"));
    assert!(!registry_entry_has_version(&registry_entry_json, "1.2.0"));
}

#[test]
fn registry_urls_match_crates_io_routes() -> Result<(), UrlError> {
    assert_eq!(
        get_registry_human_url("serde", "1.0.0")?.as_str(),
        "https://crates.io/crates/serde/1.0.0"
    );
    assert_eq!(
        get_archive_url("serde", "1.0.0")?.as_str(),
        "https://static.crates.io/crates/serde/serde-1.0.0.crate"
    );
    Ok(())
}

#[test]
fn review_target_policy_skips_generated_cargo_metadata() {
    let policy = RsExtension::new().review_target_policy();

    assert!(policy.excludes_exact_path(".cargo_vcs_info.json"));
    assert!(policy.excludes_exact_path("Cargo.lock"));
    assert!(!policy.excludes_exact_path("Cargo.toml"));
}

#[test]
fn review_target_policy_agrees_with_the_core_policy() {
    let policy = RsExtension::new().review_target_policy();
    let core = thirdpass_core::extension::ReviewTargetPolicy {
        excluded_exact_paths: policy.excluded_exact_paths.clone(),
    };

    for path in ["Cargo.lock", "cargo.lock", "src/Cargo.lock", ""] {
        assert_eq!(policy.excludes_exact_path(path), core.excludes_exact_path(path));
    }
}

#[test]
fn extension_knows_its_name_and_registry() {
    let extension = RsExtension::new();

    assert_eq!(extension.name(), "rs");
    assert_eq!(extension.registries(), vec!["crates.io".to_string()]);
    assert_eq!(extension.clone().name(), "rs");
    assert_eq!(extension.clone().registries(), extension.registries());
}

#[test]
fn latest_version_falls_back_over_missing_and_empty_fields() {
    assert_eq!(
        latest(r#"{ "crate": { "max_stable_version": null, "max_version": "0.1.0-rc.1" } }"#),
        Some("0.1.0-rc.1".to_string())
    );
    assert_eq!(
        latest(
            r#"{ "crate": { "max_stable_version": "", "max_version": "", "newest_version": "3" } }"#
        ),
        Some("3".to_string())
    );
    assert_eq!(
        latest(r#"{ "crate": { "max_stable_version": 1, "newest_version": "" } }"#),
        None
    );
    assert_eq!(latest(r#"{ "crate": "serde" }"#), None);
    assert_eq!(latest(r#"{ "versions": [] }"#), None);
    assert_eq!(latest("[]"), None);
}

#[test]
fn version_lookup_ignores_other_shapes() {
    assert!(!registry_entry_has_version(&entry("{}"), "1.0.0"));
    assert!(!registry_entry_has_version(
        &entry(r#"{ "versions": { "num": "1.0.0" } }"#),
        "1.0.0"
    ));
    assert!(!registry_entry_has_version(
        &entry(r#"{ "versions": [ "1.0.0", { "num": 1 }, null ] }"#),
        "1.0.0"
    ));
    assert!(registry_entry_has_version(
        &entry(r#"{ "versions": [ null, { "num": "1.0.0", "yanked": true } ] }"#),
        "1.0.0"
    ));
}

#[test]
fn documents_hold_what_the_parser_read() {
    let value: serde_json::Value = serde_json::from_str(
        r#"{ "n": 12, "t": "aé", "l": [true, null], "o": { "k": "v" }, "t2": "last", "t2": "wins" }"#,
    )
    .unwrap();
    let json = Json::from_value(&value);

    assert_eq!(json.get("t").and_then(|text| text.as_str()), Some("a\u{E9}"));
    assert_eq!(json.get("t2").and_then(|text| text.as_str()), Some("wins"));
    assert!(matches!(json.get("n"), Some(Json::Number(digits)) if digits == "12"));
    let items = json.get("l").and_then(|list| list.as_array()).unwrap();
    assert!(matches!(items[0], Json::Bool(true)));
    assert!(matches!(items[1], Json::Null));
    assert_eq!(items.len(), 2);
    let inner = json.get("o").unwrap();
    assert_eq!(inner.get("k").and_then(|text| text.as_str()), Some("v"));
    assert!(json.get("missing").is_none());
    assert!(inner.as_array().is_none());
    assert!(inner.as_str().is_none());
}

#[test]
fn the_first_of_equal_members_is_read() {
    let member = |text: &str| Member {
        name: "k".to_string(),
        value: Json::Text(text.to_string()),
    };
    let json = Json::Object(vec![member("first"), member("second")]);

    assert_eq!(json.get("k").and_then(|text| text.as_str()), Some("first"));
}

#[test]
fn malformed_replies_are_reported_with_their_text() {
    let error = get_latest_version("<html>").unwrap_err();

    let expected = serde_json::from_str::<serde_json::Value>("<html>").unwrap_err();
    assert_eq!(
        error,
        ExtensionError::MalformedEntry {
            body: "<html>".to_string(),
            cause: expected.to_string(),
        }
    );
    assert_eq!(error.message(), "JSON was not well-formatted:\n<html>");
    assert_eq!(
        Json::parse("[1,").unwrap_err().message,
        "EOF while parsing a value at line 1 column 3"
    );
    assert_eq!(get_latest_version(ENTRY).unwrap(), Some("1.1.0".to_string()));
    assert_eq!(get_latest_version("{}").unwrap(), None);
}

#[test]
fn registry_is_asked_at_its_api() {
    assert_eq!(
        registry_entry_url("serde"),
        "https://crates.io/api/v1/crates/serde"
    );
    assert_eq!(user_agent("0.3.1"), "thirdpass-rs/0.3.1");
}

#[test]
fn urls_of_odd_names_are_normalised() {
    assert_eq!(
        get_registry_human_url("a b", "1 \u{E9}").unwrap(),
        "https://crates.io/crates/a%20b/1%20%C3%A9"
    );
    assert_eq!(
        get_registry_human_url("..", "x").unwrap(),
        "https://crates.io/x"
    );
    assert_eq!(
        get_archive_url("a_b-c", "1.0.0+build.5").unwrap(),
        "https://static.crates.io/crates/a_b-c/a_b-c-1.0.0+build.5.crate"
    );
    assert_eq!(
        get_registry_human_url("a", "1?b c").unwrap(),
        "https://crates.io/crates/a/1?b%20c"
    );
    assert_eq!(
        get_archive_url("a", "1#b c").unwrap(),
        "https://static.crates.io/crates/a/a-1#b%20c.crate"
    );
}

#[test]
fn metadata_describes_the_requested_release() {
    let metadata = RsExtension::new()
        .registries_package_metadata("serde", &Some("1.0.0"), ENTRY)
        .unwrap();

    assert_eq!(metadata.len(), 1);
    assert_eq!(metadata[0].registry_host_name, "crates.io");
    assert_eq!(metadata[0].package_version, "1.0.0");
    assert!(metadata[0].is_primary);
    assert_eq!(
        metadata[0].human_url,
        "https://crates.io/crates/serde/1.0.0"
    );
    assert_eq!(
        metadata[0].artifact_url,
        "https://static.crates.io/crates/serde/serde-1.0.0.crate"
    );
}

#[test]
fn metadata_without_request_describes_the_latest_release() {
    let extension = RsExtension::new();
    let metadata = extension
        .package_metadata("serde", &None, &entry(ENTRY))
        .unwrap();

    assert_eq!(metadata[0].package_version, "1.1.0");
    assert!(matches!(
        extension.registries_package_metadata("serde", &None, "{}"),
        Err(ExtensionError::NoLatestVersion)
    ));
    assert!(matches!(
        extension.registries_package_metadata("serde", &None, "{"),
        Err(ExtensionError::MalformedEntry { .. })
    ));
}

#[test]
fn metadata_of_an_unknown_version_is_refused() {
    let error = RsExtension::new()
        .registries_package_metadata("serde", &Some("9.9.9"), ENTRY)
        .unwrap_err();

    assert_eq!(
        error.message(),
        "Package version not found in crates.io registry: serde 9.9.9"
    );
}

#[test]
fn messages_of_errors() {
    assert_eq!(
        ExtensionError::EmptyCrateName.message(),
        "Crate name is empty."
    );
    assert_eq!(
        ExtensionError::InvalidCrateName {
            name: "a b".to_string()
        }
        .message(),
        "Invalid crate name: a b"
    );
    assert_eq!(
        ExtensionError::NoLatestVersion.message(),
        "Failed to find latest package version."
    );
    assert_eq!(
        ExtensionError::InvalidUrl {
            cause: url::ParseError::Overflow.to_string()
        }
        .message(),
        "URLs more than 4 GB are not supported"
    );
}

#[test]
fn toml_strings_are_escaped() {
    assert_eq!(toml_basic_string("serde_json"), "serde_json");
    assert_eq!(toml_basic_string(r#"a"b\c"#), r#"a\"b\\c"#);
    assert_eq!(toml_basic_string(r#"\""#), r#"\\\""#);
    assert_eq!(toml_basic_string(""), "");
}

#[test]
fn probe_project_depends_on_the_release() {
    let project = write_probe_project("serde", "1.0.0");

    assert_eq!(project.library, "pub fn probe() {}\n");
    assert_eq!(
        project.manifest,
        "[package]\nname = \"thirdpass-rs-dependency-probe\"\nversion = \"0.0.0\"\nedition = \"2018\"\n\
         publish = false\n\n[dependencies]\ntarget-package = { package = \"serde\", version = \"=1.0.0\" }\n"
    );
    assert!(write_probe_project("serde", "1\"")
        .manifest
        .ends_with("version = \"=1\\\"\" }\n"));
}

#[test]
fn archive_urls_tell_releases_apart() {
    assert_ne!(get_archive_url("a-1", "0"), get_archive_url("a", "1-0"));
    assert_ne!(
        get_registry_human_url("a", "1.0.0"),
        get_registry_human_url("a", "1.0.1")
    );
    assert_eq!(
        get_archive_url("a-1", "0").unwrap(),
        "https://static.crates.io/crates/a-1/a-1-0.crate"
    );
}

#[test]
fn no_version_is_answered_as_the_latest() {
    let extension = RsExtension::new();

    assert_eq!(
        extension.registries_package_metadata("serde", &None, ENTRY),
        extension.registries_package_metadata("serde", &Some("1.1.0"), ENTRY)
    );
}

#[test]
fn manifests_of_different_releases_differ() {
    let manifest = |name: &str, version: &str| write_probe_project(name, version).manifest;

    assert_ne!(manifest("a", "1\", version = \"=2"), manifest("a\", version = \"=1", "2"));
    assert_ne!(manifest("a", "1\\"), manifest("a", "1\\\\"));
    assert_eq!(manifest("a", "1"), manifest("a", "1"));
}

#[test]
fn a_given_version_is_not_asked_of_the_registry() {
    let extension = RsExtension::new();

    match extension.identify_package_dependencies("serde", &Some("1.0.0"), &[]) {
        PackageStep::RunCargo(query) => {
            assert_eq!(query.package_name, "serde");
            assert_eq!(query.package_version, "1.0.0");
            assert_eq!(
                query.project.manifest,
                write_probe_project("serde", "1.0.0").manifest
            );
            assert_eq!(query.arguments(&PathBuf::from("/p/Cargo.toml")).len(), 5);
        }
        other => panic!("{:?}", other),
    }
    assert!(matches!(
        extension.identify_package_dependencies("se rde", &Some("1.0.0"), &[]),
        PackageStep::Failed(ExtensionError::InvalidCrateName { .. })
    ));
    assert!(matches!(
        get_package_dependencies("", "1.0.0"),
        Err(ExtensionError::EmptyCrateName)
    ));
}

#[test]
fn a_missing_version_is_asked_of_the_registry() {
    let extension = RsExtension::new();
    let query = match extension.identify_package_dependencies("serde", &None, &[]) {
        PackageStep::FetchEntry(query) => query,
        other => panic!("{:?}", other),
    };
    assert_eq!(query.url(), "https://crates.io/api/v1/crates/serde");

    match query.resume(ENTRY) {
        PackageStep::RunCargo(probe) => assert_eq!(probe.package_version, "1.1.0"),
        other => panic!("{:?}", other),
    }
    assert!(matches!(
        query.resume("{}"),
        PackageStep::Failed(ExtensionError::NoLatestVersion)
    ));
    assert!(matches!(
        query.resume("nothing"),
        PackageStep::Failed(ExtensionError::MalformedEntry { .. })
    ));
}

#[test]
fn dependencies_of_a_release_do_not_hold_the_release() {
    let package = |name: &str, source: Option<&str>| CargoPackage {
        name: name.to_string(),
        version: "1.0.0".to_string(),
        source: source.map(|text| text.to_string()),
    };
    let registry = Some("sparse+https://index.crates.io/");
    let query = get_package_dependencies("serde", "1.0.0").unwrap();
    let manifest = PathBuf::from("/p/Cargo.toml");

    let dependencies = query
        .resume(
            &manifest,
            CommandOutcome::Finished {
                success: true,
                stderr: Vec::new(),
                metadata: Ok(CargoMetadata {
                    packages: vec![
                        package("thirdpass-rs-dependency-probe", None),
                        package("serde", registry),
                        package("serde_core", registry),
                    ],
                    workspace_root: PathBuf::from("/p"),
                }),
            },
        )
        .unwrap();
    let report = RsExtension::new().package_report("1.0.0", dependencies);
    assert_eq!(report.len(), 1);
    assert_eq!(report[0].package_version, Ok("1.0.0".to_string()));
    assert_eq!(report[0].registry_host_name, "crates.io");
    assert_eq!(report[0].dependencies.len(), 1);
    assert_eq!(report[0].dependencies[0].name, "serde_core");

    let error = query
        .resume(
            &manifest,
            CommandOutcome::NotRun {
                cause: "gone".to_string(),
            },
        )
        .unwrap_err();
    assert_eq!(
        error.message(),
        "Failed to resolve Rust package dependencies for serde 1.0.0.\n\
             Failed to run cargo metadata.: gone"
    );
}

#[test]
fn project_report_holds_the_project_or_nothing() {
    let extension = RsExtension::new();
    let set = FileDefinedDependencySet {
        path: PathBuf::from("/work/Cargo.lock"),
        dependencies: Vec::new(),
    };

    let report = extension.project_report(Some(set));
    assert_eq!(report.len(), 1);
    assert_eq!(report[0].path, PathBuf::from("/work/Cargo.lock"));
    assert_eq!(report[0].registry_host_name, "crates.io");
    assert!(report[0].dependencies.is_empty());
    assert!(extension.project_report(None).is_empty());
}

#[test]
fn texts_are_compared_like_strings() {
    let texts = ["", "a", "ab", "b", "B", "\u{E9}", "\u{FFFD}", "\u{1F980}", "a\u{E9}"];
    for left in texts {
        for right in texts {
            assert_eq!(same_text(left, right), left == right);
            assert_eq!(precedes(left, right), left < right);
            assert_eq!(starts_with(left, right), left.starts_with(right));
        }
    }
    for text in ["", "  ", "\u{3000}x y\u{85}\n", "x", "\u{200B} x", "\u{180E}\t"] {
        assert_eq!(trim_text(text), text.trim());
    }
}

#[test]
fn whitespace_is_that_of_unicode() {
    for code in 0u32..0x11000 {
        if let Some(c) = char::from_u32(code) {
            let text = format!("{}x{}", c, c);
            assert_eq!(trim_text(&text), text.trim());
        }
    }
}
