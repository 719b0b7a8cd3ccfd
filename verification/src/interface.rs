//! What an extension reports: dependencies, registry metadata and failures.

use std::path::PathBuf;
use vstd::prelude::*;
use vstd::string::StringExecFns;

use crate::release::ReleaseView;
use crate::text::same_text;

verus! {

/// Why the version of a dependency is not known.
#[derive(Debug, PartialEq, Eq)]
pub enum VersionError {
    Missing,
    Unparsed(String),
}

/// A dependency and its version, if that could be told.
#[derive(Debug, PartialEq, Eq)]
pub struct Dependency {
    pub name: String,
    pub version: Result<String, VersionError>,
}

impl Clone for VersionError {
    fn clone(&self) -> (copy: VersionError)
        ensures
            copy == *self,
    {
        match self {
            VersionError::Missing => VersionError::Missing,
            VersionError::Unparsed(version) => VersionError::Unparsed(version.clone()),
        }
    }
}

impl Clone for Dependency {
    fn clone(&self) -> (copy: Dependency)
        ensures
            copy == *self,
    {
        let version = match &self.version {
            Ok(version) => Ok(version.clone()),
            Err(error) => Err(error.clone()),
        };
        Dependency { name: self.name.clone(), version }
    }
}

/// The dependencies of a package in a registry.
#[derive(Debug, PartialEq, Eq)]
pub struct PackageDependencies {
    pub package_version: Result<String, VersionError>,
    pub registry_host_name: String,
    pub dependencies: Vec<Dependency>,
}

/// The dependencies that a file defines.
#[derive(Debug, PartialEq, Eq)]
pub struct FileDefinedDependencies {
    pub path: PathBuf,
    pub registry_host_name: String,
    pub dependencies: Vec<Dependency>,
}

/// Where a registry shows and keeps a package.
#[derive(Debug, PartialEq, Eq)]
pub struct RegistryPackageMetadata {
    pub registry_host_name: String,
    pub human_url: String,
    pub artifact_url: String,
    pub is_primary: bool,
    pub package_version: String,
}

/// Which files of a package are no targets of an automatic review.
#[derive(Debug, PartialEq, Eq)]
pub struct ReviewTargetPolicy {
    pub excluded_exact_paths: Vec<String>,
}

/// Every version is known.
pub open spec fn all_resolved(dependencies: Seq<Dependency>) -> bool {
    forall|i: int| 0 <= i < dependencies.len() ==> (#[trigger] dependencies[i]).version is Ok
}

/// The releases that dependencies with known versions name.
pub open spec fn dependency_releases(dependencies: Seq<Dependency>) -> Seq<ReleaseView> {
    dependencies.map_values(
        |dependency: Dependency|
            ReleaseView { name: dependency.name@, version: dependency.version->Ok_0@ },
    )
}

/// The strings of a list.
pub open spec fn text_views(texts: Seq<String>) -> Seq<Seq<char>> {
    texts.map_values(|text: String| text@)
}

impl ReviewTargetPolicy {
    /// Whether the policy leaves out the file at exactly this path within the package.
    pub fn excludes_exact_path(&self, package_relative_path: &str) -> (excluded: bool)
        ensures
            excluded == text_views(self.excluded_exact_paths@).contains(package_relative_path@),
    {
        let ghost paths = text_views(self.excluded_exact_paths@);
        for i in 0..self.excluded_exact_paths.len()
            invariant
                paths == text_views(self.excluded_exact_paths@),
                forall|j: int| 0 <= j < i ==> paths[j] != package_relative_path@,
        {
            if same_text(self.excluded_exact_paths[i].as_str(), package_relative_path) {
                assert(paths[i as int] == package_relative_path@);
                return true;
            }
        }
        false
    }
}

/// Why Cargo told nothing about a project.
#[derive(Debug, PartialEq, Eq)]
pub enum CargoFailure {
    /// The command could not be run.
    NotRun { cause: String },
    /// The command failed and wrote `stderr`.
    Failed { manifest: String, stderr: String },
    /// The command succeeded, but what it wrote could not be read.
    InvalidJson { cause: String },
}

impl CargoFailure {
    /// The message of the failure.
    pub open spec fn message_text(self) -> Seq<char> {
        match self {
            CargoFailure::NotRun { cause } => "Failed to run cargo metadata.: "@ + cause@,
            CargoFailure::Failed { manifest, stderr } => "cargo metadata failed for "@ + manifest@
                + ":\n"@ + stderr@,
            CargoFailure::InvalidJson { cause } => "cargo metadata returned invalid JSON.: "@
                + cause@,
        }
    }

    /// The message of the failure.
    pub fn message(&self) -> (text: String)
        ensures
            text@ == self.message_text(),
    {
        match self {
            CargoFailure::NotRun { cause } => "Failed to run cargo metadata.: ".to_string().concat(
                cause.as_str(),
            ),
            CargoFailure::Failed { manifest, stderr } => {
                let text = "cargo metadata failed for ".to_string().concat(manifest.as_str());
                text.concat(":\n").concat(stderr.as_str())
            },
            CargoFailure::InvalidJson { cause } => {
                "cargo metadata returned invalid JSON.: ".to_string().concat(cause.as_str())
            },
        }
    }
}

/// Why an extension has no answer.
#[derive(Debug, PartialEq, Eq)]
pub enum ExtensionError {
    /// The name of the crate is empty.
    EmptyCrateName,
    /// The name of the crate holds a character that no crate name has.
    InvalidCrateName { name: String },
    /// The dependencies of a project could not be resolved.
    UnresolvedProject { manifest: String, failure: CargoFailure },
    /// The dependencies of a release could not be resolved.
    UnresolvedPackage { name: String, version: String, failure: CargoFailure },
    /// The reply of the registry is no JSON document, for the given cause.
    MalformedEntry { body: String, cause: String },
    /// The registry names no latest version.
    NoLatestVersion,
    /// The registry does not have the version.
    UnknownVersion { name: String, version: String },
    /// The registry has no URL for the release, for the given cause.
    InvalidUrl { cause: String },
}

impl ExtensionError {
    /// The message of the error.
    pub open spec fn message_text(self) -> Seq<char> {
        match self {
            ExtensionError::EmptyCrateName => "Crate name is empty."@,
            ExtensionError::InvalidCrateName { name } => "Invalid crate name: "@ + name@,
            ExtensionError::UnresolvedProject { manifest, failure } => {
                "Failed to resolve Rust dependencies for "@ + manifest@
                    + ". Rust dependency discovery requires a current Cargo.lock.\n"@
                    + failure.message_text()
            },
            ExtensionError::UnresolvedPackage { name, version, failure } => {
                "Failed to resolve Rust package dependencies for "@ + name@ + " "@ + version@
                    + ".\n"@ + failure.message_text()
            },
            ExtensionError::MalformedEntry { body, .. } => {
                "JSON was not well-formatted:\n"@ + body@
            },
            ExtensionError::NoLatestVersion => "Failed to find latest package version."@,
            ExtensionError::UnknownVersion { name, version } => {
                "Package version not found in crates.io registry: "@ + name@ + " "@ + version@
            },
            ExtensionError::InvalidUrl { cause } => cause@,
        }
    }

    /// The message of the error.
    pub fn message(&self) -> (text: String)
        ensures
            text@ == self.message_text(),
    {
        match self {
            ExtensionError::EmptyCrateName => "Crate name is empty.".to_string(),
            ExtensionError::InvalidCrateName { name } => {
                "Invalid crate name: ".to_string().concat(name.as_str())
            },
            ExtensionError::UnresolvedProject { manifest, failure } => {
                "Failed to resolve Rust dependencies for ".to_string().concat(
                    manifest.as_str(),
                ).concat(". Rust dependency discovery requires a current Cargo.lock.\n").concat(
                    failure.message().as_str(),
                )
            },
            ExtensionError::UnresolvedPackage { name, version, failure } => {
                "Failed to resolve Rust package dependencies for ".to_string().concat(
                    name.as_str(),
                ).concat(" ").concat(version.as_str()).concat(".\n").concat(
                    failure.message().as_str(),
                )
            },
            ExtensionError::MalformedEntry { body, .. } => {
                "JSON was not well-formatted:\n".to_string().concat(body.as_str())
            },
            ExtensionError::NoLatestVersion => {
                "Failed to find latest package version.".to_string()
            },
            ExtensionError::UnknownVersion { name, version } => {
                "Package version not found in crates.io registry: ".to_string().concat(
                    name.as_str(),
                ).concat(" ").concat(version.as_str())
            },
            ExtensionError::InvalidUrl { cause } => cause.clone(),
        }
    }
}

/// The message of a failure of Cargo says what happened, and why or where.
pub proof fn messages_of_cargo_failures_say_why(failure: &CargoFailure, text: String)
    requires
        call_ensures(CargoFailure::message, (failure,), text),
    ensures
        (match *failure {
            CargoFailure::NotRun { cause } => text@ == "Failed to run cargo metadata.: "@ + cause@,
            CargoFailure::Failed { manifest, stderr } => text@ == "cargo metadata failed for "@
                + manifest@ + ":\n"@ + stderr@,
            CargoFailure::InvalidJson { cause } => text@
                == "cargo metadata returned invalid JSON.: "@ + cause@,
        }),
{
}

/// The message of an error says what happened, and names what it happened to.
pub proof fn messages_of_errors_name_their_objects(
    error: &ExtensionError,
    text: String,
    failure_text: String,
)
    requires
        call_ensures(ExtensionError::message, (error,), text),
        error matches ExtensionError::UnresolvedProject { failure, .. } ==> call_ensures(
            CargoFailure::message,
            (&failure,),
            failure_text,
        ),
        error matches ExtensionError::UnresolvedPackage { failure, .. } ==> call_ensures(
            CargoFailure::message,
            (&failure,),
            failure_text,
        ),
    ensures
        (match *error {
            ExtensionError::EmptyCrateName => text@ == "Crate name is empty."@,
            ExtensionError::InvalidCrateName { name } => text@ == "Invalid crate name: "@ + name@,
            ExtensionError::UnresolvedProject { manifest, .. } => text@
                == "Failed to resolve Rust dependencies for "@ + manifest@
                + ". Rust dependency discovery requires a current Cargo.lock.\n"@ + failure_text@,
            ExtensionError::UnresolvedPackage { name, version, .. } => text@
                == "Failed to resolve Rust package dependencies for "@ + name@ + " "@ + version@
                + ".\n"@ + failure_text@,
            ExtensionError::MalformedEntry { body, .. } => text@
                == "JSON was not well-formatted:\n"@ + body@,
            ExtensionError::NoLatestVersion => text@ == "Failed to find latest package version."@,
            ExtensionError::UnknownVersion { name, version } => text@
                == "Package version not found in crates.io registry: "@ + name@ + " "@ + version@,
            ExtensionError::InvalidUrl { cause } => text@ == cause@,
        }),
{
}

/// A policy leaves out exactly the paths that it lists.
pub proof fn policy_leaves_out_what_it_lists(
    policy: &ReviewTargetPolicy,
    package_relative_path: &str,
    excluded: bool,
)
    requires
        call_ensures(
            ReviewTargetPolicy::excludes_exact_path,
            (policy, package_relative_path),
            excluded,
        ),
    ensures
        excluded <==> exists|i: int|
            0 <= i < policy.excluded_exact_paths@.len() && (#[trigger] policy.excluded_exact_paths@[
                i
            ])@ == package_relative_path@,
{
    let paths = text_views(policy.excluded_exact_paths@);
    if excluded {
        let i = choose|i: int| 0 <= i < paths.len() && paths[i] == package_relative_path@;
        assert(policy.excluded_exact_paths@[i]@ == package_relative_path@);
    }
    assert forall|i: int|
        0 <= i < policy.excluded_exact_paths@.len() && (#[trigger] policy.excluded_exact_paths@[i])@
            == package_relative_path@ implies excluded by {
        assert(paths[i] == package_relative_path@);
    }
}

} // verus!
