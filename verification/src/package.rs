//! Finding the dependencies of one release.

use std::path::PathBuf;
use vstd::prelude::*;

use crate::cargo::{
    cargo_metadata, cargo_metadata_arguments, crates_io_dependencies_from_metadata,
    dependency_lists_are_the_same, explains, has_crate_name_chars, is_crate_name,
    is_crate_name_char, is_dependency, lists_dependencies, metadata_arguments, outcome_metadata,
    target_view, validate_crate_name,
};
use crate::cargo::{Argument, CargoMetadata, CommandOutcome, TargetPackage};
use crate::interface::dependency_releases;
use crate::interface::{CargoFailure, Dependency, ExtensionError};
use crate::json::{parsed_json, Json, JsonError};
use crate::probe::{escaped, manifest_text, plain_values_are_not_changed, write_probe_project};
use crate::probe::{ProbeProject, PROBE_LIBRARY};
use crate::registry::{
    entry_route, get_latest_version_from_entry_json, latest_version, registry_entry_json,
    registry_entry_url,
};
use crate::release::ReleaseView;

verus! {

/// A package of which the latest release is asked for.
#[derive(Debug)]
pub struct VersionQuery {
    pub package_name: String,
}

/// A release whose dependencies are asked for, and the project that tells them.
#[derive(Debug)]
pub struct ProbeQuery {
    pub package_name: String,
    pub package_version: String,
    pub project: ProbeProject,
}

/// What comes next on the way to the dependencies of a package.
#[derive(Debug)]
pub enum PackageStep {
    /// Fetch the entry of the package, and go on with [`VersionQuery::resume`].
    FetchEntry(VersionQuery),
    /// Write the project, run Cargo over it, and end with [`ProbeQuery::resume`].
    RunCargo(ProbeQuery),
    /// There is no answer.
    Failed(ExtensionError),
}

impl ProbeQuery {
    /// The query is about this release, and its project depends on it.
    pub open spec fn is_about(self, name: Seq<char>, version: Seq<char>) -> bool {
        &&& self.package_name@ == name
        &&& self.package_version@ == version
        &&& self.project.library@ == PROBE_LIBRARY@
        &&& self.project.manifest@ == manifest_text(name, version)
    }

    /// The release.
    pub open spec fn release(self) -> ReleaseView {
        ReleaseView { name: self.package_name@, version: self.package_version@ }
    }
}

/// The error is the one that a name gets which is no crate name.
pub open spec fn refuses_name(error: ExtensionError, name: Seq<char>) -> bool {
    match error {
        ExtensionError::EmptyCrateName => name.len() == 0,
        ExtensionError::InvalidCrateName { name: refused } => refused@ == name && name.len() > 0
            && !has_crate_name_chars(name),
        _ => false,
    }
}

/// The step asks Cargo about a release, or refuses the name of the package.
pub open spec fn probes_release(step: PackageStep, name: Seq<char>, version: Seq<char>) -> bool {
    if is_crate_name(name) {
        step matches PackageStep::RunCargo(query) && query.is_about(name, version)
    } else {
        step matches PackageStep::Failed(error) && refuses_name(error, name)
    }
}

/// A crate name stands in the manifest of the project as it is.
pub proof fn crate_names_need_no_escaping(name: Seq<char>)
    requires
        is_crate_name(name),
    ensures
        escaped(name) == name,
{
    assert forall|i: int| 0 <= i < name.len() implies #[trigger] name[i] != '\\' && name[i]
        != '"' by {
        assert(is_crate_name_char(name[i]));
    }
    plain_values_are_not_changed(name);
}

/// Resolve dependencies for a specific crates.io package release: begins with the project
/// that depends on it.
pub fn get_package_dependencies(package_name: &str, package_version: &str) -> (result: Result<
    ProbeQuery,
    ExtensionError,
>)
    ensures
        (match result {
            Ok(query) => is_crate_name(package_name@) && query.is_about(
                package_name@,
                package_version@,
            ),
            Err(error) => !is_crate_name(package_name@) && refuses_name(error, package_name@),
        }),
{
    match validate_crate_name(package_name) {
        Ok(()) => Ok(
            ProbeQuery {
                package_name: package_name.to_string(),
                package_version: package_version.to_string(),
                project: write_probe_project(package_name, package_version),
            },
        ),
        Err(error) => Err(error),
    }
}

/// The step towards the dependencies of a release.
pub fn package_step(package_name: &str, package_version: &str) -> (step: PackageStep)
    ensures
        probes_release(step, package_name@, package_version@),
{
    match get_package_dependencies(package_name, package_version) {
        Ok(query) => PackageStep::RunCargo(query),
        Err(error) => PackageStep::Failed(error),
    }
}

impl VersionQuery {
    /// Where the registry describes the package.
    pub fn url(&self) -> (url: String)
        ensures
            url@ == entry_route(self.package_name@),
    {
        registry_entry_url(self.package_name.as_str())
    }

    /// Goes on with what the registry replied.
    pub fn resume(&self, body: &str) -> (step: PackageStep)
        ensures
            (match parsed_json(body@) {
                Ok(entry) => (match latest_version(entry) {
                    Some(version) => probes_release(step, self.package_name@, version),
                    None => step == PackageStep::Failed(ExtensionError::NoLatestVersion),
                }),
                Err(message) => {
                    &&& step matches PackageStep::Failed(
                        ExtensionError::MalformedEntry { body: text, cause },
                    )
                    &&& text@ == body@
                    &&& cause@ == message
                },
            }),
    {
        match registry_entry_json(body) {
            Ok(entry) => self.resume_with_entry(&entry),
            Err(error) => PackageStep::Failed(error),
        }
    }

    /// Goes on with the entry of the package.
    pub fn resume_with_entry(&self, entry: &Json) -> (step: PackageStep)
        ensures
            (match latest_version(entry@) {
                Some(version) => probes_release(step, self.package_name@, version),
                None => step == PackageStep::Failed(ExtensionError::NoLatestVersion),
            }),
    {
        match get_latest_version_from_entry_json(entry) {
            Some(version) => package_step(self.package_name.as_str(), version.as_str()),
            None => PackageStep::Failed(ExtensionError::NoLatestVersion),
        }
    }
}

impl ProbeQuery {
    /// The arguments for Cargo, where the manifest of the project has been written. The
    /// project has no lock file yet.
    pub fn arguments(&self, manifest_path: &PathBuf) -> (arguments: Vec<Argument>)
        ensures
            arguments@.map_values(|argument: Argument| argument@) == metadata_arguments(
                *manifest_path,
                false,
            ),
    {
        cargo_metadata_arguments(manifest_path, false)
    }

    /// The dependencies of the release, once Cargo has been run over the written manifest.
    pub fn resume(&self, manifest_path: &PathBuf, outcome: CommandOutcome) -> (result: Result<
        Vec<Dependency>,
        ExtensionError,
    >)
        ensures
            (match outcome_metadata(outcome) {
                Some(metadata) => {
                    &&& result matches Ok(dependencies)
                    &&& lists_dependencies(dependencies@, metadata@.packages, Some(self.release()))
                },
                None => {
                    &&& result matches Err(
                        ExtensionError::UnresolvedPackage { name, version, failure },
                    )
                    &&& name@ == self.package_name@
                    &&& version@ == self.package_version@
                    &&& explains(failure, *manifest_path, outcome)
                },
            }),
    {
        match cargo_metadata(manifest_path, outcome) {
            Ok(metadata) => {
                let target = TargetPackage {
                    name: self.package_name.as_str(),
                    version: self.package_version.as_str(),
                };
                Ok(crates_io_dependencies_from_metadata(&metadata, Some(&target)))
            },
            Err(failure) => Err(
                ExtensionError::UnresolvedPackage {
                    name: self.package_name.clone(),
                    version: self.package_version.clone(),
                    failure,
                },
            ),
        }
    }
}

/// The dependencies of a release are asked of a project that depends on exactly that release;
/// a name that is refused is refused for the same reason.
pub proof fn release_is_asked_of_its_own_project(
    package_name: &str,
    package_version: &str,
    result: Result<ProbeQuery, ExtensionError>,
    validity: Result<(), ExtensionError>,
    project: ProbeProject,
)
    requires
        call_ensures(get_package_dependencies, (package_name, package_version), result),
        call_ensures(validate_crate_name, (package_name,), validity),
        call_ensures(write_probe_project, (package_name, package_version), project),
    ensures
        (match validity {
            Ok(_) => {
                &&& result matches Ok(query)
                &&& query.package_name@ == package_name@
                &&& query.package_version@ == package_version@
                &&& query.project.library@ == project.library@
                &&& query.project.manifest@ == project.manifest@
            },
            Err(ExtensionError::EmptyCrateName) => result matches Err(
                ExtensionError::EmptyCrateName,
            ),
            Err(_) => result matches Err(ExtensionError::InvalidCrateName { name }) && name@
                == package_name@,
        }),
{
}

/// The step towards the dependencies of a release is to run Cargo over its project, or to fail.
pub proof fn step_runs_cargo_over_the_project(
    package_name: &str,
    package_version: &str,
    step: PackageStep,
    result: Result<ProbeQuery, ExtensionError>,
)
    requires
        call_ensures(package_step, (package_name, package_version), step),
        call_ensures(get_package_dependencies, (package_name, package_version), result),
    ensures
        (match result {
            Ok(expected) => {
                &&& step matches PackageStep::RunCargo(query)
                &&& query.package_name@ == expected.package_name@
                &&& query.package_version@ == expected.package_version@
                &&& query.project.library@ == expected.project.library@
                &&& query.project.manifest@ == expected.project.manifest@
            },
            Err(ExtensionError::EmptyCrateName) => step matches PackageStep::Failed(
                ExtensionError::EmptyCrateName,
            ),
            Err(_) => step matches PackageStep::Failed(ExtensionError::InvalidCrateName { name })
                && name@ == package_name@,
        }),
{
}

/// Without a version, the release that is asked about is the latest one that the entry of the
/// package names; if it names none, there is no answer.
pub proof fn latest_release_is_asked_about(
    query: &VersionQuery,
    entry: &Json,
    step: PackageStep,
    latest: Option<String>,
    package_name: &str,
    package_version: &str,
    expected: PackageStep,
)
    requires
        call_ensures(VersionQuery::resume_with_entry, (query, entry), step),
        call_ensures(get_latest_version_from_entry_json, (entry,), latest),
        package_name@ == query.package_name@,
        latest matches Some(version) ==> package_version@ == version@,
        call_ensures(package_step, (package_name, package_version), expected),
    ensures
        latest is None ==> step == PackageStep::Failed(ExtensionError::NoLatestVersion),
        latest is Some ==> (match expected {
            PackageStep::RunCargo(other) => {
                &&& step matches PackageStep::RunCargo(probe)
                &&& probe.package_name@ == other.package_name@
                &&& probe.package_version@ == other.package_version@
                &&& probe.project.library@ == other.project.library@
                &&& probe.project.manifest@ == other.project.manifest@
            },
            PackageStep::Failed(ExtensionError::EmptyCrateName) => step matches PackageStep::Failed(
                ExtensionError::EmptyCrateName,
            ),
            _ => step matches PackageStep::Failed(ExtensionError::InvalidCrateName { name })
                && name@ == package_name@,
        }),
{
}

/// The entry of a package is fetched from where the registry describes the package, and its
/// reply is taken as the document that it is, or refused together with the reason.
pub proof fn reply_is_taken_as_its_document(
    query: &VersionQuery,
    url: String,
    body: &str,
    step: PackageStep,
    parsed: Result<Json, JsonError>,
    expected: PackageStep,
)
    requires
        call_ensures(VersionQuery::url, (query,), url),
        call_ensures(VersionQuery::resume, (query, body), step),
        call_ensures(Json::parse, (body,), parsed),
        parsed matches Ok(entry) ==> call_ensures(
            VersionQuery::resume_with_entry,
            (query, &entry),
            expected,
        ),
    ensures
        url@ == "https://crates.io/api/v1/crates/"@ + query.package_name@,
        parsed matches Err(error) ==> {
            &&& step matches PackageStep::Failed(
                ExtensionError::MalformedEntry { body: text, cause },
            )
            &&& text@ == body@
            &&& cause@ == error.message@
        },
        parsed is Ok ==> (match expected {
            PackageStep::RunCargo(other) => {
                &&& step matches PackageStep::RunCargo(probe)
                &&& probe.package_name@ == other.package_name@
                &&& probe.package_version@ == other.package_version@
                &&& probe.project.library@ == other.project.library@
                &&& probe.project.manifest@ == other.project.manifest@
            },
            PackageStep::Failed(ExtensionError::EmptyCrateName) => step matches PackageStep::Failed(
                ExtensionError::EmptyCrateName,
            ),
            PackageStep::Failed(ExtensionError::NoLatestVersion) => step
                matches PackageStep::Failed(ExtensionError::NoLatestVersion),
            _ => step matches PackageStep::Failed(ExtensionError::InvalidCrateName { name })
                && name@ == query.package_name@,
        }),
{
}

/// Of the project of a release, which has no lock file, Cargo is asked without one.
pub proof fn projects_of_releases_are_asked_without_lock_file(
    query: &ProbeQuery,
    manifest_path: &PathBuf,
    arguments: Vec<Argument>,
    expected: Vec<Argument>,
)
    requires
        call_ensures(ProbeQuery::arguments, (query, manifest_path), arguments),
        call_ensures(cargo_metadata_arguments, (manifest_path, false), expected),
    ensures
        arguments@.len() == expected@.len(),
        forall|i: int|
            0 <= i < arguments@.len() ==> (match #[trigger] arguments@[i] {
                Argument::Text(text) => expected@[i] matches Argument::Text(other) && other@
                    == text@,
                Argument::Path(path) => expected@[i] == Argument::Path(path),
            }),
{
    let views = arguments@.map_values(|argument: Argument| argument@);
    let expected_views = expected@.map_values(|argument: Argument| argument@);
    assert(views == expected_views);
    assert forall|i: int| 0 <= i < arguments@.len() implies (match #[trigger] arguments@[i] {
        Argument::Text(text) => expected@[i] matches Argument::Text(other) && other@ == text@,
        Argument::Path(path) => expected@[i] == Argument::Path(path),
    }) by {
        assert(views[i] == arguments@[i]@);
        assert(views[i] == expected_views[i]);
    }
}

/// The dependencies of a release are those that Cargo tells of its project, without the release
/// itself; if Cargo tells nothing, the failure is passed on with the name and the version.
pub proof fn release_is_not_among_its_dependencies(
    query: &ProbeQuery,
    manifest_path: &PathBuf,
    outcome: CommandOutcome,
    result: Result<Vec<Dependency>, ExtensionError>,
    told: Result<CargoMetadata, CargoFailure>,
    target: TargetPackage,
    expected: Vec<Dependency>,
)
    requires
        call_ensures(ProbeQuery::resume, (query, manifest_path, outcome), result),
        call_ensures(cargo_metadata, (manifest_path, outcome), told),
        target.name@ == query.package_name@,
        target.version@ == query.package_version@,
        told matches Ok(metadata) ==> call_ensures(
            crates_io_dependencies_from_metadata,
            (&metadata, Some(&target)),
            expected,
        ),
    ensures
        told is Ok ==> {
            &&& result matches Ok(dependencies)
            &&& dependencies@.len() == expected@.len()
            &&& forall|i: int|
                0 <= i < expected@.len() ==> {
                    &&& (#[trigger] dependencies@[i]).name@ == expected@[i].name@
                    &&& dependencies@[i].version is Ok
                    &&& expected@[i].version is Ok
                    &&& dependencies@[i].version->Ok_0@ == expected@[i].version->Ok_0@
                    &&& !(dependencies@[i].name@ == query.package_name@
                        && dependencies@[i].version->Ok_0@ == query.package_version@)
                }
        },
        told matches Err(failure) ==> {
            &&& result matches Err(
                ExtensionError::UnresolvedPackage { name, version, failure: passed },
            )
            &&& name@ == query.package_name@
            &&& version@ == query.package_version@
            &&& (match failure {
                CargoFailure::NotRun { cause } => passed matches CargoFailure::NotRun {
                    cause: other,
                } && other@ == cause@,
                CargoFailure::Failed { manifest: of, stderr } => passed matches
                    CargoFailure::Failed { manifest: other, stderr: text } && other@ == of@ && text@
                    == stderr@,
                CargoFailure::InvalidJson { cause } => passed matches CargoFailure::InvalidJson {
                    cause: other,
                } && other@ == cause@,
            })
        },
{
    if let Ok(metadata) = told {
        let dependencies = result->Ok_0@;
        let release = query.release();
        assert(target_view(Some(&target)) == Some(release));
        dependency_lists_are_the_same(
            dependencies,
            expected@,
            metadata@.packages,
            Some(release),
        );
        let releases = dependency_releases(dependencies);
        assert forall|i: int| 0 <= i < dependencies.len() implies !((#[trigger] dependencies[
            i
        ]).name@ == query.package_name@ && dependencies[i].version->Ok_0@
            == query.package_version@) by {
            assert(releases.contains(releases[i]));
            assert(is_dependency(metadata@.packages, Some(release), releases[i]));
        }
    }
}

} // verus!
