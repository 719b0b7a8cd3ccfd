//! The extension for Rust packages.

use std::path::PathBuf;
use vstd::prelude::*;

use crate::cargo::{get_registry_host_name, HOST_NAME};
use crate::interface::text_views;
use crate::interface::{
    Dependency, ExtensionError, FileDefinedDependencies, PackageDependencies,
    RegistryPackageMetadata, ReviewTargetPolicy,
};
use crate::json::{parsed_json, Json, JsonError, JsonView};
use crate::package::{package_step, probes_release, PackageStep, VersionQuery};
use crate::project::{get_file_defined_dependencies, FileDefinedDependencySet, ProjectStep};
use crate::registry::{
    archive_route, get_archive_url, get_latest_version_from_entry_json, get_registry_human_url,
    human_route, is_plain_release, is_readable, latest_version, lists_version, parsed_url,
    registry_entry_has_version, registry_entry_json, UrlError,
};

verus! {

/// The short name of the extension.
pub const EXTENSION_NAME: &'static str = "rs";

/// Rust package registry extension backed by crates.io and Cargo metadata.
#[derive(Debug)]
pub struct RsExtension {
    name_: String,
    registry_host_names_: Vec<String>,
}

/// The extension, mathematically.
pub struct RsExtensionView {
    pub name: Seq<char>,
    pub registry_host_names: Seq<Seq<char>>,
}

impl View for RsExtension {
    type V = RsExtensionView;

    closed spec fn view(&self) -> RsExtensionView {
        RsExtensionView {
            name: self.name_@,
            registry_host_names: text_views(self.registry_host_names_@),
        }
    }
}

/// The one extension that there is: it is named `rs` and knows crates.io.
pub open spec fn rust_extension() -> RsExtensionView {
    RsExtensionView { name: EXTENSION_NAME@, registry_host_names: seq![HOST_NAME@] }
}

/// The version that a request for a package means: the requested one, if the registry
/// lists it; without a request, the latest one.
pub open spec fn chosen_version(entry: JsonView, requested: Option<Seq<char>>) -> Option<Seq<char>> {
    match requested {
        Some(version) => if lists_version(entry, version) {
            Some(version)
        } else {
            None
        },
        None => latest_version(entry),
    }
}

/// The requested version, if there is one.
pub open spec fn requested_version(package_version: &Option<&str>) -> Option<Seq<char>> {
    match package_version {
        Some(version) => Some(version@),
        None => None,
    }
}

/// The error is the one for a request that means no version.
pub open spec fn refuses_version(
    error: ExtensionError,
    package_name: Seq<char>,
    requested: Option<Seq<char>>,
) -> bool {
    match error {
        ExtensionError::UnknownVersion { name, version } => requested == Some(version@) && name@
            == package_name,
        ExtensionError::NoLatestVersion => requested is None,
        _ => false,
    }
}

/// Metadata of a package, mathematically.
pub struct PackageMetadataView {
    pub registry_host_name: Seq<char>,
    pub human_url: Seq<char>,
    pub artifact_url: Seq<char>,
    pub is_primary: bool,
    pub package_version: Seq<char>,
}

/// The metadata of a list.
pub open spec fn metadata_views(metadata: Seq<RegistryPackageMetadata>) -> Seq<PackageMetadataView> {
    metadata.map_values(
        |package: RegistryPackageMetadata|
            PackageMetadataView {
                registry_host_name: package.registry_host_name@,
                human_url: package.human_url@,
                artifact_url: package.artifact_url@,
                is_primary: package.is_primary,
                package_version: package.package_version@,
            },
    )
}

/// The metadata of a release at crates.io: a list of one.
pub open spec fn release_metadata(
    human_url: Seq<char>,
    artifact_url: Seq<char>,
    version: Seq<char>,
) -> Seq<PackageMetadataView> {
    seq![
        PackageMetadataView {
            registry_host_name: HOST_NAME@,
            human_url,
            artifact_url,
            is_primary: true,
            package_version: version,
        },
    ]
}

/// The result of a request for the metadata of a release that the registry has. The first of
/// the two URLs that cannot be had is the cause of a failure.
pub open spec fn is_release_result(
    result: Result<Vec<RegistryPackageMetadata>, ExtensionError>,
    name: Seq<char>,
    version: Seq<char>,
) -> bool {
    let human = human_route(name, version);
    let archive = archive_route(name, version);
    &&& (match (parsed_url(human), parsed_url(archive)) {
        (Ok(human_url), Ok(artifact_url)) => {
            &&& result matches Ok(metadata)
            &&& metadata_views(metadata@) == release_metadata(human_url, artifact_url, version)
        },
        (Err(message), _) => {
            &&& result matches Err(ExtensionError::InvalidUrl { cause })
            &&& cause@ == message
        },
        (Ok(_), Err(message)) => {
            &&& result matches Err(ExtensionError::InvalidUrl { cause })
            &&& cause@ == message
        },
    })
    &&& is_readable(human) && is_readable(archive) ==> result is Ok
    &&& is_plain_release(name, version) ==> {
        &&& result matches Ok(metadata)
        &&& metadata_views(metadata@) == release_metadata(human, archive, version)
    }
}

/// The result of a request for the metadata of a package whose entry is known.
pub open spec fn is_metadata_result(
    result: Result<Vec<RegistryPackageMetadata>, ExtensionError>,
    name: Seq<char>,
    requested: Option<Seq<char>>,
    entry: JsonView,
) -> bool {
    match chosen_version(entry, requested) {
        None => result matches Err(error) && refuses_version(error, name, requested),
        Some(version) => is_release_result(result, name, version),
    }
}

/// To ask for no version is to ask for the latest one, if the registry lists it.
pub proof fn no_version_means_the_latest(entry: JsonView, version: Seq<char>)
    requires
        latest_version(entry) == Some(version),
        lists_version(entry, version),
    ensures
        chosen_version(entry, None) == chosen_version(entry, Some(version)),
{
}

/// A request without a version is answered as one for the latest version, if the registry
/// lists it: with the same metadata, or with the same failure.
pub proof fn no_version_is_answered_as_the_latest(
    name: Seq<char>,
    entry: JsonView,
    version: Seq<char>,
    result: Result<Vec<RegistryPackageMetadata>, ExtensionError>,
    latest_result: Result<Vec<RegistryPackageMetadata>, ExtensionError>,
)
    requires
        latest_version(entry) == Some(version),
        lists_version(entry, version),
        is_metadata_result(result, name, None, entry),
        is_metadata_result(latest_result, name, Some(version), entry),
    ensures
        (match result {
            Ok(metadata) => latest_result matches Ok(latest_metadata) && metadata_views(metadata@)
                == metadata_views(latest_metadata@),
            Err(error) => latest_result matches Err(latest_error) && error.message_text()
                == latest_error.message_text(),
        }),
{
    no_version_means_the_latest(entry, version);
}

impl Clone for RsExtension {
    fn clone(&self) -> (copy: RsExtension)
        ensures
            copy@ == self@,
    {
        proof {
            use_type_invariant(self);
        }
        RsExtension { name_: self.name_.clone(), registry_host_names_: self.registries() }
    }
}

impl RsExtension {
    #[verifier::type_invariant]
    spec fn is_rust_extension(self) -> bool {
        self@ == rust_extension()
    }

    /// The extension.
    pub fn new() -> (extension: RsExtension)
        ensures
            extension@ == rust_extension(),
    {
        let mut registry_host_names: Vec<String> = Vec::new();
        registry_host_names.push(get_registry_host_name());
        assert(text_views(registry_host_names@) == seq![HOST_NAME@]);
        RsExtension {
            name_: EXTENSION_NAME.to_string(),
            registry_host_names_: registry_host_names,
        }
    }

    /// The short name of the extension.
    pub fn name(&self) -> (name: String)
        ensures
            name@ == self@.name,
            name@ == EXTENSION_NAME@,
    {
        proof {
            use_type_invariant(self);
        }
        self.name_.clone()
    }

    /// The hosts of the registries that the extension knows.
    pub fn registries(&self) -> (host_names: Vec<String>)
        ensures
            text_views(host_names@) == self@.registry_host_names,
            text_views(host_names@) == seq![HOST_NAME@],
    {
        proof {
            use_type_invariant(self);
        }
        let mut host_names: Vec<String> = Vec::new();
        for i in 0..self.registry_host_names_.len()
            invariant
                text_views(host_names@) == text_views(self.registry_host_names_@).take(i as int),
        {
            let ghost before = host_names@;
            host_names.push(self.registry_host_names_[i].clone());
            assert(text_views(host_names@) == text_views(before).push(
                self.registry_host_names_@[i as int]@,
            ));
        }
        host_names
    }

    /// What Cargo generates is no target of an automatic review.
    pub fn review_target_policy(&self) -> (policy: ReviewTargetPolicy)
        ensures
            text_views(policy.excluded_exact_paths@) == seq![
                ".cargo_vcs_info.json"@,
                "Cargo.lock"@,
            ],
    {
        let mut excluded_exact_paths: Vec<String> = Vec::new();
        excluded_exact_paths.push(".cargo_vcs_info.json".to_string());
        excluded_exact_paths.push("Cargo.lock".to_string());
        ReviewTargetPolicy { excluded_exact_paths }
    }

    /// Returns resolved dependencies for a crates.io package release: begins with the given
    /// version, or by asking the registry for the latest one.
    pub fn identify_package_dependencies(
        &self,
        package_name: &str,
        package_version: &Option<&str>,
        _extension_args: &[String],
    ) -> (step: PackageStep)
        ensures
            (match requested_version(package_version) {
                Some(version) => probes_release(step, package_name@, version),
                None => {
                    &&& step matches PackageStep::FetchEntry(query)
                    &&& query.package_name@ == package_name@
                },
            }),
    {
        match package_version {
            Some(version) => package_step(package_name, version),
            None => PackageStep::FetchEntry(
                VersionQuery { package_name: package_name.to_string() },
            ),
        }
    }

    /// The dependencies of a release, as a report.
    pub fn package_report(
        &self,
        package_version: &str,
        dependencies: Vec<Dependency>,
    ) -> (report: Vec<PackageDependencies>)
        ensures
            report@.len() == 1,
            report@[0].package_version is Ok,
            report@[0].package_version->Ok_0@ == package_version@,
            report@[0].registry_host_name@ == HOST_NAME@,
            report@[0].dependencies == dependencies,
    {
        let mut report: Vec<PackageDependencies> = Vec::new();
        report.push(
            PackageDependencies {
                package_version: Ok(package_version.to_string()),
                registry_host_name: get_registry_host_name(),
                dependencies,
            },
        );
        report
    }

    /// Returns the dependencies of the Cargo project around a directory: begins with the
    /// directory itself.
    pub fn identify_file_defined_dependencies(
        &self,
        working_directory: &PathBuf,
        _extension_args: &[String],
    ) -> (step: ProjectStep)
        ensures
            step matches ProjectStep::FindManifest(search) && search.directory
                == *working_directory,
    {
        get_file_defined_dependencies(working_directory)
    }

    /// The dependencies of a project, as a report; an empty one without a project.
    pub fn project_report(
        &self,
        dependency_set: Option<FileDefinedDependencySet>,
    ) -> (report: Vec<FileDefinedDependencies>)
        ensures
            (match dependency_set {
                Some(set) => {
                    &&& report@.len() == 1
                    &&& report@[0].path == set.path
                    &&& report@[0].registry_host_name@ == HOST_NAME@
                    &&& report@[0].dependencies == set.dependencies
                },
                None => report@.len() == 0,
            }),
    {
        let mut report: Vec<FileDefinedDependencies> = Vec::new();
        if let Some(set) = dependency_set {
            report.push(
                FileDefinedDependencies {
                    path: set.path,
                    registry_host_name: get_registry_host_name(),
                    dependencies: set.dependencies,
                },
            );
        }
        report
    }

    /// Where crates.io shows and keeps a package, told from what the registry replied when it
    /// was asked for the package.
    pub fn registries_package_metadata(
        &self,
        package_name: &str,
        package_version: &Option<&str>,
        body: &str,
    ) -> (result: Result<Vec<RegistryPackageMetadata>, ExtensionError>)
        ensures
            (match parsed_json(body@) {
                Ok(entry) => is_metadata_result(
                    result,
                    package_name@,
                    requested_version(package_version),
                    entry,
                ),
                Err(message) => {
                    &&& result matches Err(ExtensionError::MalformedEntry { body: text, cause })
                    &&& text@ == body@
                    &&& cause@ == message
                },
            }),
    {
        match registry_entry_json(body) {
            Ok(entry) => self.package_metadata(package_name, package_version, &entry),
            Err(error) => Err(error),
        }
    }

    /// Where crates.io shows and keeps a package, told from the entry of the package.
    pub fn package_metadata(
        &self,
        package_name: &str,
        package_version: &Option<&str>,
        entry: &Json,
    ) -> (result: Result<Vec<RegistryPackageMetadata>, ExtensionError>)
        ensures
            is_metadata_result(
                result,
                package_name@,
                requested_version(package_version),
                entry@,
            ),
    {
        proof {
            use_type_invariant(self);
            assert(text_views(self.registry_host_names_@).len() == 1);
            assert(text_views(self.registry_host_names_@)[0] == HOST_NAME@);
        }
        let version: String = match package_version {
            Some(version) => {
                if !registry_entry_has_version(entry, version) {
                    return Err(
                        ExtensionError::UnknownVersion {
                            name: package_name.to_string(),
                            version: (*version).to_string(),
                        },
                    );
                }
                (*version).to_string()
            },
            None => match get_latest_version_from_entry_json(entry) {
                Some(version) => version,
                None => {
                    return Err(ExtensionError::NoLatestVersion);
                },
            },
        };
        let registry_host_name = self.registry_host_names_[0].clone();
        let human_url = match get_registry_human_url(package_name, version.as_str()) {
            Ok(url) => url,
            Err(error) => {
                return Err(ExtensionError::InvalidUrl { cause: error.message });
            },
        };
        let artifact_url = match get_archive_url(package_name, version.as_str()) {
            Ok(url) => url,
            Err(error) => {
                return Err(ExtensionError::InvalidUrl { cause: error.message });
            },
        };
        let mut metadata: Vec<RegistryPackageMetadata> = Vec::new();
        metadata.push(
            RegistryPackageMetadata {
                registry_host_name,
                human_url,
                artifact_url,
                is_primary: true,
                package_version: version,
            },
        );
        assert(metadata_views(metadata@) == release_metadata(human_url@, artifact_url@, version@));
        Ok(metadata)
    }
}

/// A version that was asked for is answered only if the registry lists it, and is never
/// exchanged for another one. The answer is a single record of crates.io, with that version and
/// with the URLs of that release.
pub proof fn requested_version_is_answered_if_listed(
    extension: &RsExtension,
    package_name: &str,
    version: &str,
    entry: &Json,
    result: Result<Vec<RegistryPackageMetadata>, ExtensionError>,
    listed: bool,
    human: Result<String, UrlError>,
    archive: Result<String, UrlError>,
)
    requires
        call_ensures(
            RsExtension::package_metadata,
            (extension, package_name, &Some(version), entry),
            result,
        ),
        call_ensures(registry_entry_has_version, (entry, version), listed),
        call_ensures(get_registry_human_url, (package_name, version), human),
        call_ensures(get_archive_url, (package_name, version), archive),
    ensures
        !listed ==> {
            &&& result matches Err(ExtensionError::UnknownVersion { name, version: refused })
            &&& name@ == package_name@
            &&& refused@ == version@
        },
        listed ==> (match (human, archive) {
            (Ok(human_url), Ok(artifact_url)) => {
                &&& result matches Ok(metadata)
                &&& metadata@.len() == 1
                &&& metadata@[0].registry_host_name@ == "crates.io"@
                &&& metadata@[0].human_url@ == human_url@
                &&& metadata@[0].artifact_url@ == artifact_url@
                &&& metadata@[0].is_primary
                &&& metadata@[0].package_version@ == version@
            },
            (Err(error), _) => {
                &&& result matches Err(ExtensionError::InvalidUrl { cause })
                &&& cause@ == error.message@
            },
            (Ok(_), Err(error)) => {
                &&& result matches Err(ExtensionError::InvalidUrl { cause })
                &&& cause@ == error.message@
            },
        }),
{
    if let Ok(metadata) = result {
        record_is_the_release(metadata, version@);
    }
}

/// A request without a version is answered with the latest one that the registry names; if it
/// names none, it is refused. The answer is a single record of crates.io, with that version and
/// with the URLs of that release.
pub proof fn request_without_version_is_answered_with_the_latest(
    extension: &RsExtension,
    package_name: &str,
    entry: &Json,
    result: Result<Vec<RegistryPackageMetadata>, ExtensionError>,
    latest: Option<String>,
    version: &str,
    human: Result<String, UrlError>,
    archive: Result<String, UrlError>,
)
    requires
        call_ensures(
            RsExtension::package_metadata,
            (extension, package_name, &None::<&str>, entry),
            result,
        ),
        call_ensures(get_latest_version_from_entry_json, (entry,), latest),
        latest matches Some(text) ==> text@ == version@,
        call_ensures(get_registry_human_url, (package_name, version), human),
        call_ensures(get_archive_url, (package_name, version), archive),
    ensures
        latest is None ==> (result matches Err(ExtensionError::NoLatestVersion)),
        latest is Some ==> (match (human, archive) {
            (Ok(human_url), Ok(artifact_url)) => {
                &&& result matches Ok(metadata)
                &&& metadata@.len() == 1
                &&& metadata@[0].registry_host_name@ == "crates.io"@
                &&& metadata@[0].human_url@ == human_url@
                &&& metadata@[0].artifact_url@ == artifact_url@
                &&& metadata@[0].is_primary
                &&& metadata@[0].package_version@ == version@
            },
            (Err(error), _) => {
                &&& result matches Err(ExtensionError::InvalidUrl { cause })
                &&& cause@ == error.message@
            },
            (Ok(_), Err(error)) => {
                &&& result matches Err(ExtensionError::InvalidUrl { cause })
                &&& cause@ == error.message@
            },
        }),
{
    if let Ok(metadata) = result {
        record_is_the_release(metadata, version@);
    }
}

proof fn record_is_the_release(metadata: Vec<RegistryPackageMetadata>, version: Seq<char>)
    ensures
        forall|human_url: Seq<char>, artifact_url: Seq<char>| #[trigger]
            release_metadata(human_url, artifact_url, version) == metadata_views(metadata@) ==> {
                &&& metadata@.len() == 1
                &&& metadata@[0].registry_host_name@ == HOST_NAME@
                &&& metadata@[0].human_url@ == human_url
                &&& metadata@[0].artifact_url@ == artifact_url
                &&& metadata@[0].is_primary
                &&& metadata@[0].package_version@ == version
            },
{
    assert forall|human_url: Seq<char>, artifact_url: Seq<char>| #[trigger]
        release_metadata(human_url, artifact_url, version) == metadata_views(metadata@) implies {
        &&& metadata@.len() == 1
        &&& metadata@[0].registry_host_name@ == HOST_NAME@
        &&& metadata@[0].human_url@ == human_url
        &&& metadata@[0].artifact_url@ == artifact_url
        &&& metadata@[0].is_primary
        &&& metadata@[0].package_version@ == version
    } by {
        let expected = release_metadata(human_url, artifact_url, version);
        assert(metadata_views(metadata@).len() == 1);
        assert(metadata_views(metadata@)[0] == expected[0]);
    }
}

/// The reply of the registry is answered as the document that it is, or refused together with
/// the reason.
pub proof fn reply_is_answered_as_its_document(
    extension: &RsExtension,
    package_name: &str,
    package_version: &Option<&str>,
    body: &str,
    result: Result<Vec<RegistryPackageMetadata>, ExtensionError>,
    parsed: Result<Json, JsonError>,
    expected: Result<Vec<RegistryPackageMetadata>, ExtensionError>,
)
    requires
        call_ensures(
            RsExtension::registries_package_metadata,
            (extension, package_name, package_version, body),
            result,
        ),
        call_ensures(Json::parse, (body,), parsed),
        parsed matches Ok(entry) ==> call_ensures(
            RsExtension::package_metadata,
            (extension, package_name, package_version, &entry),
            expected,
        ),
    ensures
        parsed matches Err(error) ==> {
            &&& result matches Err(ExtensionError::MalformedEntry { body: text, cause })
            &&& text@ == body@
            &&& cause@ == error.message@
        },
        parsed is Ok ==> (match expected {
            Ok(others) => {
                &&& result matches Ok(metadata)
                &&& metadata@.len() == others@.len()
                &&& forall|i: int|
                    0 <= i < others@.len() ==> {
                        &&& (#[trigger] metadata@[i]).registry_host_name@
                            == others@[i].registry_host_name@
                        &&& metadata@[i].human_url@ == others@[i].human_url@
                        &&& metadata@[i].artifact_url@ == others@[i].artifact_url@
                        &&& metadata@[i].is_primary == others@[i].is_primary
                        &&& metadata@[i].package_version@ == others@[i].package_version@
                    }
            },
            Err(ExtensionError::UnknownVersion { name, version }) => result matches Err(
                ExtensionError::UnknownVersion { name: of, version: refused },
            ) && of@ == name@ && refused@ == version@,
            Err(ExtensionError::NoLatestVersion) => result matches Err(
                ExtensionError::NoLatestVersion,
            ),
            Err(ExtensionError::InvalidUrl { cause }) => result matches Err(
                ExtensionError::InvalidUrl { cause: other },
            ) && other@ == cause@,
            Err(_) => false,
        }),
{
    if parsed is Ok && expected is Ok {
        let metadata = result->Ok_0@;
        let others = expected->Ok_0@;
        let views = metadata_views(metadata);
        let other_views = metadata_views(others);
        assert(views == other_views);
        assert(metadata.len() == views.len() && others.len() == other_views.len());
        assert forall|i: int| 0 <= i < others.len() implies {
            &&& (#[trigger] metadata[i]).registry_host_name@ == others[i].registry_host_name@
            &&& metadata[i].human_url@ == others[i].human_url@
            &&& metadata[i].artifact_url@ == others[i].artifact_url@
            &&& metadata[i].is_primary == others[i].is_primary
            &&& metadata[i].package_version@ == others[i].package_version@
        } by {
            assert(views[i] == other_views[i]);
        }
    }
}

/// The dependencies of a package are those of the version that is asked for; without one, the
/// registry is asked for the latest version of that package.
pub proof fn dependencies_are_those_of_the_requested_version(
    extension: &RsExtension,
    package_name: &str,
    package_version: &Option<&str>,
    extension_args: &[String],
    step: PackageStep,
    version: &str,
    expected: PackageStep,
)
    requires
        call_ensures(
            RsExtension::identify_package_dependencies,
            (extension, package_name, package_version, extension_args),
            step,
        ),
        package_version matches Some(requested) ==> requested@ == version@,
        call_ensures(package_step, (package_name, version), expected),
    ensures
        package_version is None ==> (step matches PackageStep::FetchEntry(query)
            && query.package_name@ == package_name@),
        package_version is Some ==> (match expected {
            PackageStep::RunCargo(other) => {
                &&& step matches PackageStep::RunCargo(probe)
                &&& probe.package_name@ == other.package_name@
                &&& probe.package_version@ == other.package_version@
                &&& probe.project.library@ == other.project.library@
                &&& probe.project.manifest@ == other.project.manifest@
            },
            PackageStep::Failed(ExtensionError::EmptyCrateName) => step matches PackageStep::Failed(
                ExtensionError::EmptyCrateName,
            ),
            _ => step matches PackageStep::Failed(ExtensionError::InvalidCrateName { name })
                && name@ == package_name@,
        }),
{
}

/// A project is looked for from the working directory itself.
pub proof fn project_is_looked_for_from_the_working_directory(
    extension: &RsExtension,
    working_directory: &PathBuf,
    extension_args: &[String],
    step: ProjectStep,
)
    requires
        call_ensures(
            RsExtension::identify_file_defined_dependencies,
            (extension, working_directory, extension_args),
            step,
        ),
    ensures
        step matches ProjectStep::FindManifest(search) && search.directory == *working_directory,
{
}

/// Reports are about crates.io, and hold the version, the file and the dependencies that they
/// are made of; without a project the report is empty.
pub proof fn reports_hold_what_they_are_made_of(
    extension: &RsExtension,
    package_version: &str,
    dependencies: Vec<Dependency>,
    package_report: Vec<PackageDependencies>,
    dependency_set: Option<FileDefinedDependencySet>,
    project_report: Vec<FileDefinedDependencies>,
)
    requires
        call_ensures(
            RsExtension::package_report,
            (extension, package_version, dependencies),
            package_report,
        ),
        call_ensures(RsExtension::project_report, (extension, dependency_set), project_report),
    ensures
        package_report@.len() == 1,
        package_report@[0].package_version matches Ok(version) && version@ == package_version@,
        package_report@[0].registry_host_name@ == "crates.io"@,
        package_report@[0].dependencies == dependencies,
        (match dependency_set {
            Some(set) => {
                &&& project_report@.len() == 1
                &&& project_report@[0].path == set.path
                &&& project_report@[0].registry_host_name@ == "crates.io"@
                &&& project_report@[0].dependencies == set.dependencies
            },
            None => project_report@.len() == 0,
        }),
{
}

/// The extension is named `rs`, knows crates.io and no other registry, and leaves out of
/// automatic reviews the two files that Cargo generates, and no others.
pub proof fn extension_knows_crates_io_alone(
    extension: &RsExtension,
    name: String,
    host_names: Vec<String>,
    policy: ReviewTargetPolicy,
    path: &str,
    excluded: bool,
)
    requires
        call_ensures(RsExtension::name, (extension,), name),
        call_ensures(RsExtension::registries, (extension,), host_names),
        call_ensures(RsExtension::review_target_policy, (extension,), policy),
        call_ensures(ReviewTargetPolicy::excludes_exact_path, (&policy, path), excluded),
    ensures
        name@ == "rs"@,
        host_names@.len() == 1,
        host_names@[0]@ == "crates.io"@,
        excluded <==> path@ == ".cargo_vcs_info.json"@ || path@ == "Cargo.lock"@,
{
    let hosts = text_views(host_names@);
    assert(hosts.len() == 1 && hosts[0] == host_names@[0]@);
    let paths = text_views(policy.excluded_exact_paths@);
    assert(paths == seq![".cargo_vcs_info.json"@, "Cargo.lock"@]);
    assert(paths[0] == ".cargo_vcs_info.json"@ && paths[1] == "Cargo.lock"@);
}

} // verus!
