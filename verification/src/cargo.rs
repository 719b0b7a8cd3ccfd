//! What `cargo metadata` is asked, and what is taken from its answer.

use std::path::PathBuf;
use vstd::prelude::*;
use vstd::utf8::{decode_utf8, valid_utf8};

use crate::interface::{all_resolved, dependency_releases};
use crate::interface::{CargoFailure, Dependency, ExtensionError};
use crate::path::{display_path, path_text, path_view, PathView};
use crate::release::{
    release_lt, release_order_is_irreflexive, release_views, sorted_releases_are_determined,
    strictly_sorted,
};
use crate::release::{Release, ReleaseSet, ReleaseView};
use crate::text::{
    has_prefix, precedes, same_text, starts_with, text_chars, trim_text, trimmed,
};

verus! {

/// The host of the default registry.
pub const HOST_NAME: &'static str = "crates.io";

/// The program that resolves dependencies.
pub const CARGO_PROGRAM: &'static str = "cargo";

/// The git index of crates.io, as a source of packages.
pub const CRATES_IO_GIT_INDEX_SOURCE: &'static str =
    "registry+https://github.com/rust-lang/crates.io-index";

/// The sparse index of crates.io, as a source of packages.
pub const CRATES_IO_SPARSE_INDEX_SOURCE: &'static str = "sparse+https://index.crates.io/";

/// The sparse index of crates.io in its other spelling.
pub const CRATES_IO_REGISTRY_INDEX_SOURCE: &'static str = "registry+https://index.crates.io/";

/// A release whose dependencies are asked for.
#[derive(Debug)]
pub struct TargetPackage<'a> {
    pub name: &'a str,
    pub version: &'a str,
}

impl<'a> View for TargetPackage<'a> {
    type V = ReleaseView;

    open spec fn view(&self) -> ReleaseView {
        ReleaseView { name: self.name@, version: self.version@ }
    }
}

/// What `cargo metadata` says of a workspace.
#[derive(Debug)]
pub struct CargoMetadata {
    pub packages: Vec<CargoPackage>,
    pub workspace_root: PathBuf,
}

/// A package in the dependency graph. A package of the workspace itself, or one that a
/// path leads to, has no source.
#[derive(Debug)]
pub struct CargoPackage {
    pub name: String,
    pub version: String,
    pub source: Option<String>,
}

/// A package, mathematically.
pub struct PackageView {
    pub name: Seq<char>,
    pub version: Seq<char>,
    pub source: Option<Seq<char>>,
}

impl View for CargoPackage {
    type V = PackageView;

    open spec fn view(&self) -> PackageView {
        PackageView {
            name: self.name@,
            version: self.version@,
            source: match self.source {
                Some(source) => Some(source@),
                None => None,
            },
        }
    }
}

impl PackageView {
    /// The release that the package is.
    pub open spec fn release(self) -> ReleaseView {
        ReleaseView { name: self.name, version: self.version }
    }

    /// The package comes from crates.io.
    pub open spec fn is_from_crates_io(self) -> bool {
        self.source matches Some(source) && names_crates_io(source)
    }
}

/// The metadata of a workspace, mathematically.
pub struct MetadataView {
    pub packages: Seq<PackageView>,
    pub workspace_root: PathView,
}

impl View for CargoMetadata {
    type V = MetadataView;

    open spec fn view(&self) -> MetadataView {
        MetadataView {
            packages: self.packages@.map_values(|package: CargoPackage| package@),
            workspace_root: path_view(self.workspace_root),
        }
    }
}

/// A source that stands for crates.io: its git index, or anything in its sparse index.
pub open spec fn names_crates_io(source: Seq<char>) -> bool {
    ||| source == CRATES_IO_GIT_INDEX_SOURCE@
    ||| has_prefix(source, CRATES_IO_SPARSE_INDEX_SOURCE@)
    ||| has_prefix(source, CRATES_IO_REGISTRY_INDEX_SOURCE@)
}

/// The release is one of the packages, from crates.io, and not the target.
pub open spec fn is_dependency(
    packages: Seq<PackageView>,
    target: Option<ReleaseView>,
    release: ReleaseView,
) -> bool {
    &&& target != Some(release)
    &&& exists|i: int|
        0 <= i < packages.len() && (#[trigger] packages[i]).is_from_crates_io()
            && packages[i].release() == release
}

/// The dependencies are those releases, each once, in order.
pub open spec fn lists_dependencies(
    dependencies: Seq<Dependency>,
    packages: Seq<PackageView>,
    target: Option<ReleaseView>,
) -> bool {
    &&& all_resolved(dependencies)
    &&& strictly_sorted(dependency_releases(dependencies))
    &&& forall|release: ReleaseView| #[trigger]
        dependency_releases(dependencies).contains(release) <==> is_dependency(
            packages,
            target,
            release,
        )
}

/// The target, if there is one.
pub open spec fn target_view(target: Option<&TargetPackage>) -> Option<ReleaseView> {
    match target {
        Some(target) => Some(target@),
        None => None,
    }
}

/// The dependencies depend on which packages there are, not on the order in which, or how
/// often, they are listed.
pub proof fn dependencies_do_not_depend_on_package_order(
    packages: Seq<PackageView>,
    other_packages: Seq<PackageView>,
    target: Option<ReleaseView>,
    dependencies: Seq<Dependency>,
    other_dependencies: Seq<Dependency>,
)
    requires
        packages.to_set() == other_packages.to_set(),
        lists_dependencies(dependencies, packages, target),
        lists_dependencies(other_dependencies, other_packages, target),
    ensures
        dependency_releases(dependencies) == dependency_releases(other_dependencies),
{
    assert forall|release: ReleaseView| #[trigger]
        dependency_releases(dependencies).contains(release) <==> dependency_releases(
            other_dependencies,
        ).contains(release) by {
        if is_dependency(packages, target, release) {
            let i = choose|i: int|
                0 <= i < packages.len() && (#[trigger] packages[i]).is_from_crates_io()
                    && packages[i].release() == release;
            assert(packages.to_set().contains(packages[i]));
            assert(other_packages.contains(packages[i]));
        }
        if is_dependency(other_packages, target, release) {
            let i = choose|i: int|
                0 <= i < other_packages.len() && (#[trigger] other_packages[i]).is_from_crates_io()
                    && other_packages[i].release() == release;
            assert(other_packages.to_set().contains(other_packages[i]));
            assert(packages.contains(other_packages[i]));
        }
    }
    sorted_releases_are_determined(
        dependency_releases(dependencies),
        dependency_releases(other_dependencies),
    );
}

/// Two lists of the dependencies among the same packages hold the same names and versions.
pub proof fn dependency_lists_are_the_same(
    dependencies: Seq<Dependency>,
    other_dependencies: Seq<Dependency>,
    packages: Seq<PackageView>,
    target: Option<ReleaseView>,
)
    requires
        lists_dependencies(dependencies, packages, target),
        lists_dependencies(other_dependencies, packages, target),
    ensures
        dependencies.len() == other_dependencies.len(),
        forall|i: int|
            0 <= i < dependencies.len() ==> {
                &&& (#[trigger] dependencies[i]).name@ == other_dependencies[i].name@
                &&& dependencies[i].version is Ok
                &&& other_dependencies[i].version is Ok
                &&& dependencies[i].version->Ok_0@ == other_dependencies[i].version->Ok_0@
            },
{
    dependencies_do_not_depend_on_package_order(
        packages,
        packages,
        target,
        dependencies,
        other_dependencies,
    );
    let releases = dependency_releases(dependencies);
    let other_releases = dependency_releases(other_dependencies);
    assert(releases.len() == other_releases.len());
    assert forall|i: int| 0 <= i < dependencies.len() implies {
        &&& (#[trigger] dependencies[i]).name@ == other_dependencies[i].name@
        &&& dependencies[i].version is Ok
        &&& other_dependencies[i].version is Ok
        &&& dependencies[i].version->Ok_0@ == other_dependencies[i].version->Ok_0@
    } by {
        assert(releases[i] == other_releases[i]);
        assert(other_dependencies[i].version is Ok);
    }
}

/// Naming a target takes the target out of the dependencies, and nothing else.
pub proof fn target_is_all_that_is_left_out(
    packages: Seq<PackageView>,
    target: ReleaseView,
    dependencies: Seq<Dependency>,
    all_dependencies: Seq<Dependency>,
)
    requires
        lists_dependencies(dependencies, packages, Some(target)),
        lists_dependencies(all_dependencies, packages, None),
    ensures
        !dependency_releases(dependencies).contains(target),
        forall|release: ReleaseView|
            release != target ==> (#[trigger] dependency_releases(dependencies).contains(release)
                <==> dependency_releases(all_dependencies).contains(release)),
{
    assert forall|release: ReleaseView| release != target implies (#[trigger] dependency_releases(
        dependencies,
    ).contains(release) <==> dependency_releases(all_dependencies).contains(release)) by {
        assert(is_dependency(packages, Some(target), release) == is_dependency(
            packages,
            None,
            release,
        ));
    }
}

/// A release of which no package comes from crates.io is not reported: nothing that only the
/// workspace, a path or another registry provides is.
pub proof fn other_sources_are_not_reported(
    packages: Seq<PackageView>,
    target: Option<ReleaseView>,
    dependencies: Seq<Dependency>,
    release: ReleaseView,
)
    requires
        lists_dependencies(dependencies, packages, target),
        forall|i: int|
            0 <= i < packages.len() && (#[trigger] packages[i]).release() == release
                ==> !packages[i].is_from_crates_io(),
    ensures
        !dependency_releases(dependencies).contains(release),
{
}

/// Of the git index only its exact name stands for crates.io; of the sparse index, in either
/// spelling, everything below it does.
pub proof fn git_index_is_exact_and_sparse_index_is_open(suffix: Seq<char>)
    ensures
        names_crates_io(CRATES_IO_GIT_INDEX_SOURCE@ + suffix) <==> suffix.len() == 0,
        names_crates_io(CRATES_IO_SPARSE_INDEX_SOURCE@ + suffix),
        names_crates_io(CRATES_IO_REGISTRY_INDEX_SOURCE@ + suffix),
{
    reveal_strlit("registry+https://github.com/rust-lang/crates.io-index");
    reveal_strlit("sparse+https://index.crates.io/");
    reveal_strlit("registry+https://index.crates.io/");
    let git = CRATES_IO_GIT_INDEX_SOURCE@;
    let sparse = CRATES_IO_SPARSE_INDEX_SOURCE@;
    let registry = CRATES_IO_REGISTRY_INDEX_SOURCE@;
    assert((sparse + suffix).take(sparse.len() as int) == sparse);
    assert((registry + suffix).take(registry.len() as int) == registry);
    assert(suffix.len() == 0 ==> git + suffix == git);
    assert((git + suffix).take(sparse.len() as int)[0] != sparse[0]);
    assert((git + suffix).take(registry.len() as int)[17] != registry[17]);
}

/// Return the host name for the default Rust package registry.
pub fn get_registry_host_name() -> (host_name: String)
    ensures
        host_name@ == HOST_NAME@,
{
    HOST_NAME.to_string()
}

/// Whether a source stands for crates.io.
pub fn is_crates_io_source(source: &str) -> (is: bool)
    ensures
        is == names_crates_io(source@),
{
    same_text(source, CRATES_IO_GIT_INDEX_SOURCE) || starts_with(
        source,
        CRATES_IO_SPARSE_INDEX_SOURCE,
    ) || starts_with(source, CRATES_IO_REGISTRY_INDEX_SOURCE)
}

/// The crates.io packages of a dependency graph, each once, in order, without the target.
pub fn crates_io_dependencies_from_metadata(
    metadata: &CargoMetadata,
    target: Option<&TargetPackage>,
) -> (dependencies: Vec<Dependency>)
    ensures
        lists_dependencies(dependencies@, metadata@.packages, target_view(target)),
{
    let mut releases = ReleaseSet::new();
    let ghost packages = metadata@.packages;
    for i in 0..metadata.packages.len()
        invariant
            packages == metadata@.packages,
            forall|release: ReleaseView| #[trigger]
                releases@.contains(release) <==> is_dependency(
                    packages.take(i as int),
                    target_view(target),
                    release,
                ),
    {
        let package = &metadata.packages[i];
        proof {
            next_package(packages, i as int, target_view(target));
            assert(packages[i as int] == package@);
        }
        let from_crates_io = match &package.source {
            Some(source) => is_crates_io_source(source.as_str()),
            None => false,
        };
        let is_target = match target {
            Some(target) => same_text(package.name.as_str(), target.name) && same_text(
                package.version.as_str(),
                target.version,
            ),
            None => false,
        };
        if from_crates_io && !is_target {
            releases.insert(
                Release { name: package.name.clone(), version: package.version.clone() },
            );
        }
    }
    assert(packages.take(packages.len() as int) == packages);
    dependencies_of(releases.releases())
}

/// What one more package adds.
proof fn next_package(packages: Seq<PackageView>, i: int, target: Option<ReleaseView>)
    requires
        0 <= i < packages.len(),
    ensures
        forall|release: ReleaseView| #[trigger]
            is_dependency(packages.take(i + 1), target, release) <==> is_dependency(
                packages.take(i),
                target,
                release,
            ) || (release == packages[i].release() && packages[i].is_from_crates_io() && target
                != Some(release)),
{
    let more = packages.take(i + 1);
    let fewer = packages.take(i);
    assert forall|release: ReleaseView| #[trigger]
        is_dependency(more, target, release) <==> is_dependency(fewer, target, release) || (release
            == packages[i].release() && packages[i].is_from_crates_io() && target != Some(
            release,
        )) by {
        if is_dependency(more, target, release) {
            let k = choose|k: int|
                0 <= k < more.len() && (#[trigger] more[k]).is_from_crates_io()
                    && more[k].release() == release;
            if k < i {
                assert(fewer[k] == more[k]);
            }
        }
        if is_dependency(fewer, target, release) {
            let k = choose|k: int|
                0 <= k < fewer.len() && (#[trigger] fewer[k]).is_from_crates_io()
                    && fewer[k].release() == release;
            assert(more[k] == fewer[k]);
        }
        assert(more[i] == packages[i]);
    }
}

/// The releases as dependencies.
fn dependencies_of(releases: &Vec<Release>) -> (dependencies: Vec<Dependency>)
    ensures
        all_resolved(dependencies@),
        dependency_releases(dependencies@) == release_views(releases@),
{
    let mut dependencies: Vec<Dependency> = Vec::new();
    for i in 0..releases.len()
        invariant
            all_resolved(dependencies@),
            dependency_releases(dependencies@) == release_views(releases@).take(i as int),
    {
        let ghost before = dependencies@;
        dependencies.push(
            Dependency {
                name: releases[i].name.clone(),
                version: Ok(releases[i].version.clone()),
            },
        );
        assert(dependency_releases(dependencies@) == dependency_releases(before).push(
            releases@[i as int]@,
        ));
        assert(release_views(releases@).take(i + 1) == release_views(releases@).take(
            i as int,
        ).push(releases@[i as int]@));
    }
    assert(release_views(releases@).take(releases@.len() as int) == release_views(releases@));
    dependencies
}

/// A character of a crate name: an ASCII letter or digit, `_` or `-`.
pub open spec fn is_crate_name_char(c: char) -> bool {
    ||| 'a' <= c <= 'z'
    ||| 'A' <= c <= 'Z'
    ||| '0' <= c <= '9'
    ||| c == '_'
    ||| c == '-'
}

/// Every character is one of a crate name.
pub open spec fn has_crate_name_chars(name: Seq<char>) -> bool {
    forall|i: int| 0 <= i < name.len() ==> is_crate_name_char(#[trigger] name[i])
}

/// A crate name is not empty and holds nothing but letters, digits, `_` and `-`.
pub open spec fn is_crate_name(name: Seq<char>) -> bool {
    name.len() > 0 && has_crate_name_chars(name)
}

/// Whether a name can be that of a crate.
pub fn validate_crate_name(package_name: &str) -> (result: Result<(), ExtensionError>)
    ensures
        result is Ok <==> is_crate_name(package_name@),
        result matches Err(error) ==> match error {
            ExtensionError::EmptyCrateName => package_name@.len() == 0,
            ExtensionError::InvalidCrateName { name } => package_name@.len() > 0 && name@
                == package_name@,
            _ => false,
        },
{
    if package_name.is_empty() {
        return Err(ExtensionError::EmptyCrateName);
    }
    let chars = text_chars(package_name);
    for i in 0..chars.len()
        invariant
            chars@ == package_name@,
            chars@.len() > 0,
            forall|j: int| 0 <= j < i ==> is_crate_name_char(#[trigger] chars@[j]),
    {
        let c = chars[i];
        let valid = ('a' <= c && c <= 'z') || ('A' <= c && c <= 'Z') || ('0' <= c && c <= '9') || c
            == '_' || c == '-';
        if !valid {
            return Err(ExtensionError::InvalidCrateName { name: package_name.to_string() });
        }
    }
    Ok(())
}

/// An argument of a command.
#[derive(Debug)]
pub enum Argument {
    Text(String),
    Path(PathBuf),
}

/// [`Argument`], mathematically.
pub enum ArgumentView {
    Text(Seq<char>),
    Path(PathBuf),
}

impl View for Argument {
    type V = ArgumentView;

    open spec fn view(&self) -> ArgumentView {
        match self {
            Argument::Text(text) => ArgumentView::Text(text@),
            Argument::Path(path) => ArgumentView::Path(*path),
        }
    }
}

/// The arguments with which Cargo describes the project of a manifest: as version 1 of the
/// format, and, if `locked`, without changing the lock file.
pub open spec fn metadata_arguments(manifest_path: PathBuf, locked: bool) -> Seq<ArgumentView> {
    let arguments = seq![
        ArgumentView::Text("metadata"@),
        ArgumentView::Text("--format-version"@),
        ArgumentView::Text("1"@),
        ArgumentView::Text("--manifest-path"@),
        ArgumentView::Path(manifest_path),
    ];
    if locked {
        arguments.push(ArgumentView::Text("--locked"@))
    } else {
        arguments
    }
}

/// The arguments with which Cargo describes the project of a manifest.
pub fn cargo_metadata_arguments(manifest_path: &PathBuf, locked: bool) -> (arguments: Vec<Argument>)
    ensures
        arguments@.map_values(|argument: Argument| argument@) == metadata_arguments(
            *manifest_path,
            locked,
        ),
{
    let mut arguments: Vec<Argument> = Vec::new();
    arguments.push(Argument::Text("metadata".to_string()));
    arguments.push(Argument::Text("--format-version".to_string()));
    arguments.push(Argument::Text("1".to_string()));
    arguments.push(Argument::Text("--manifest-path".to_string()));
    arguments.push(Argument::Path(manifest_path.clone()));
    if locked {
        arguments.push(Argument::Text("--locked".to_string()));
    }
    arguments
}

/// How a run of `cargo metadata` came out.
#[derive(Debug)]
pub enum CommandOutcome {
    /// The command could not be run.
    NotRun { cause: String },
    /// The command ended, wrote `stderr`, and wrote what was read as `metadata`, or could not
    /// be read.
    Finished { success: bool, stderr: Vec<u8>, metadata: Result<CargoMetadata, String> },
}

/// What `String::from_utf8_lossy` makes of bytes.
pub uninterp spec fn utf8_lossy(bytes: Seq<u8>) -> Seq<char>;

/// `String::from_utf8_lossy`: the text that the bytes encode; where they are not UTF-8, a
/// text in which replacement characters stand for what cannot be read.
#[verifier::external_body]
fn lossy_text(bytes: &[u8]) -> (text: String)
    ensures
        text@ == utf8_lossy(bytes@),
        valid_utf8(bytes@) ==> text@ == decode_utf8(bytes@),
{
    String::from_utf8_lossy(bytes).into_owned()
}

/// The metadata of a run that succeeded and could be read.
pub open spec fn outcome_metadata(outcome: CommandOutcome) -> Option<CargoMetadata> {
    match outcome {
        CommandOutcome::Finished { success: true, metadata: Ok(metadata), .. } => Some(metadata),
        _ => None,
    }
}

/// The failure says why a run over a manifest gave no metadata: with the text that the
/// command wrote, trimmed, if it failed, and else with the cause.
pub open spec fn explains(
    failure: CargoFailure,
    manifest_path: PathBuf,
    outcome: CommandOutcome,
) -> bool {
    match outcome {
        CommandOutcome::NotRun { cause } => failure == CargoFailure::NotRun { cause },
        CommandOutcome::Finished { success: false, stderr, .. } => {
            &&& failure matches CargoFailure::Failed { manifest, stderr: text }
            &&& manifest@ == path_text(manifest_path)
            &&& text@ == trimmed(utf8_lossy(stderr@))
            &&& valid_utf8(stderr@) ==> text@ == trimmed(decode_utf8(stderr@))
        },
        CommandOutcome::Finished { success: true, metadata: Err(cause), .. } => failure
            == CargoFailure::InvalidJson { cause },
        CommandOutcome::Finished { success: true, metadata: Ok(_), .. } => false,
    }
}

/// The metadata of a run that succeeded; else why there is none.
pub fn cargo_metadata(manifest_path: &PathBuf, outcome: CommandOutcome) -> (result: Result<
    CargoMetadata,
    CargoFailure,
>)
    ensures
        (match result {
            Ok(metadata) => outcome_metadata(outcome) == Some(metadata),
            Err(failure) => outcome_metadata(outcome) is None && explains(
                failure,
                *manifest_path,
                outcome,
            ),
        }),
{
    match outcome {
        CommandOutcome::NotRun { cause } => Err(CargoFailure::NotRun { cause }),
        CommandOutcome::Finished { success, stderr, metadata } => {
            if !success {
                let text = lossy_text(stderr.as_slice());
                return Err(
                    CargoFailure::Failed {
                        manifest: display_path(manifest_path),
                        stderr: trim_text(text.as_str()),
                    },
                );
            }
            match metadata {
                Ok(metadata) => Ok(metadata),
                Err(cause) => Err(CargoFailure::InvalidJson { cause }),
            }
        },
    }
}

proof fn prefix_is_initial_part(text: Seq<char>, prefix: Seq<char>)
    ensures
        has_prefix(text, prefix) <==> prefix.is_prefix_of(text),
{
    if prefix.len() <= text.len() {
        assert(text.take(prefix.len() as int) == text.subrange(0, prefix.len() as int));
    }
}

/// Whatever is taken for crates.io is its git index exactly, or its sparse index, in one of two
/// spellings, with something behind it; and all of these are.
pub proof fn only_its_indexes_stand_for_crates_io(source: &str, stands: bool)
    requires
        call_ensures(is_crates_io_source, (source,), stands),
    ensures
        stands <==> {
            ||| source@ == "registry+https://github.com/rust-lang/crates.io-index"@
            ||| exists|suffix: Seq<char>|
                source@ == #[trigger] ("sparse+https://index.crates.io/"@ + suffix)
            ||| exists|suffix: Seq<char>|
                source@ == #[trigger] ("registry+https://index.crates.io/"@ + suffix)
        },
{
    let sparse = "sparse+https://index.crates.io/"@;
    let registry = "registry+https://index.crates.io/"@;
    if has_prefix(source@, sparse) {
        assert(source@ == sparse + source@.skip(sparse.len() as int));
    }
    if has_prefix(source@, registry) {
        assert(source@ == registry + source@.skip(registry.len() as int));
    }
    assert forall|suffix: Seq<char>| source@ == #[trigger] (sparse + suffix) implies stands by {
        assert(source@.take(sparse.len() as int) == sparse);
    }
    assert forall|suffix: Seq<char>| source@ == #[trigger] (registry + suffix) implies stands by {
        assert(source@.take(registry.len() as int) == registry);
    }
}

proof fn hosts_before_a_slash_are_the_same(
    host: Seq<char>,
    rest: Seq<char>,
    other_host: Seq<char>,
    other_rest: Seq<char>,
)
    requires
        !host.contains('/'),
        !other_host.contains('/'),
        host + seq!['/'] + rest == other_host + seq!['/'] + other_rest,
    ensures
        host == other_host,
{
    let text = host + seq!['/'] + rest;
    let other_text = other_host + seq!['/'] + other_rest;
    if host.len() < other_host.len() {
        assert(text[host.len() as int] == '/');
        assert(other_host[host.len() as int] == other_text[host.len() as int]);
    }
    if other_host.len() < host.len() {
        assert(other_text[other_host.len() as int] == '/');
        assert(host[other_host.len() as int] == text[other_host.len() as int]);
    }
    assert(host == text.take(host.len() as int));
    assert(other_host == other_text.take(host.len() as int));
}

/// No other host stands for crates.io, over the sparse protocol or as an index, but for the
/// git index itself; and no git repository does.
pub proof fn other_hosts_and_repositories_are_not_crates_io(
    source: &str,
    stands: bool,
    host: Seq<char>,
    rest: Seq<char>,
)
    requires
        call_ensures(is_crates_io_source, (source,), stands),
        !host.contains('/'),
        host != "index.crates.io"@,
        ({
            ||| source@ == "sparse+https://"@ + host + "/"@ + rest
            ||| source@ == "registry+https://"@ + host + "/"@ + rest && source@
                != "registry+https://github.com/rust-lang/crates.io-index"@
            ||| source@ == "git+"@ + rest
        }),
    ensures
        !stands,
{
    reveal_strlit("registry+https://github.com/rust-lang/crates.io-index");
    reveal_strlit("sparse+https://index.crates.io/");
    reveal_strlit("registry+https://index.crates.io/");
    reveal_strlit("sparse+https://");
    reveal_strlit("registry+https://");
    reveal_strlit("index.crates.io");
    reveal_strlit("git+");
    reveal_strlit("/");
    only_its_indexes_stand_for_crates_io(source, stands);
    let crates_io = "index.crates.io"@;
    assert(!crates_io.contains('/'));
    if stands {
        let sparse = "sparse+https://index.crates.io/"@;
        let registry = "registry+https://index.crates.io/"@;
        if source@ == "git+"@ + rest {
            assert(source@[0] == 'g');
        } else if source@ == "sparse+https://"@ + host + "/"@ + rest {
            assert(source@[0] == 's');
            let suffix = choose|suffix: Seq<char>| source@ == #[trigger] (sparse + suffix);
            let start = "sparse+https://"@.len() as int;
            assert(source@.skip(start) == host + seq!['/'] + rest);
            assert((sparse + suffix).skip(start) == crates_io + seq!['/'] + suffix);
            hosts_before_a_slash_are_the_same(host, rest, crates_io, suffix);
        } else {
            assert(source@[0] == 'r');
            let suffix = choose|suffix: Seq<char>| source@ == #[trigger] (registry + suffix);
            let start = "registry+https://"@.len() as int;
            assert(source@.skip(start) == host + seq!['/'] + rest);
            assert((registry + suffix).skip(start) == crates_io + seq!['/'] + suffix);
            hosts_before_a_slash_are_the_same(host, rest, crates_io, suffix);
        }
    }
}

/// Every package from crates.io that is not the target is reported, with its name and its
/// version.
pub proof fn every_package_of_crates_io_is_reported(
    metadata: &CargoMetadata,
    target: Option<&TargetPackage>,
    dependencies: Vec<Dependency>,
    i: int,
    source: &str,
)
    requires
        call_ensures(crates_io_dependencies_from_metadata, (metadata, target), dependencies),
        0 <= i < metadata.packages@.len(),
        metadata.packages@[i].source matches Some(text) && text@ == source@,
        call_ensures(is_crates_io_source, (source,), true),
        target matches Some(release) ==> !(release.name@ == metadata.packages@[i].name@
            && release.version@ == metadata.packages@[i].version@),
    ensures
        exists|k: int|
            {
                &&& 0 <= k < dependencies@.len()
                &&& (#[trigger] dependencies@[k]).name@ == metadata.packages@[i].name@
                &&& dependencies@[k].version matches Ok(version)
                &&& version@ == metadata.packages@[i].version@
            },
{
    let package = metadata@.packages[i];
    assert(package == metadata.packages@[i]@);
    assert(package.is_from_crates_io());
    let release = package.release();
    assert(is_dependency(metadata@.packages, target_view(target), release));
    assert(dependency_releases(dependencies@).contains(release));
    let k = choose|k: int|
        0 <= k < dependency_releases(dependencies@).len() && dependency_releases(dependencies@)[k]
            == release;
    assert(dependencies@[k].version is Ok);
}

/// Whatever is reported is a package from crates.io, and not the target.
pub proof fn only_packages_of_crates_io_are_reported(
    metadata: &CargoMetadata,
    target: Option<&TargetPackage>,
    dependencies: Vec<Dependency>,
    k: int,
)
    requires
        call_ensures(crates_io_dependencies_from_metadata, (metadata, target), dependencies),
        0 <= k < dependencies@.len(),
    ensures
        dependencies@[k].version is Ok,
        target matches Some(release) ==> !(release.name@ == dependencies@[k].name@
            && release.version@ == dependencies@[k].version->Ok_0@),
        exists|i: int|
            {
                &&& 0 <= i < metadata.packages@.len()
                &&& (#[trigger] metadata.packages@[i]).name@ == dependencies@[k].name@
                &&& metadata.packages@[i].version@ == dependencies@[k].version->Ok_0@
                &&& metadata.packages@[i].source matches Some(source)
                &&& {
                    ||| source@ == "registry+https://github.com/rust-lang/crates.io-index"@
                    ||| "sparse+https://index.crates.io/"@.is_prefix_of(source@)
                    ||| "registry+https://index.crates.io/"@.is_prefix_of(source@)
                }
            },
{
    let release = dependency_releases(dependencies@)[k];
    assert(dependency_releases(dependencies@).contains(release));
    assert(dependencies@[k].version is Ok);
    let packages = metadata@.packages;
    assert(is_dependency(packages, target_view(target), release));
    let i = choose|i: int|
        0 <= i < packages.len() && (#[trigger] packages[i]).is_from_crates_io()
            && packages[i].release() == release;
    assert(packages[i] == metadata.packages@[i]@);
    let source = metadata.packages@[i].source->0@;
    prefix_is_initial_part(source, "sparse+https://index.crates.io/"@);
    prefix_is_initial_part(source, "registry+https://index.crates.io/"@);
}

/// Dependencies are reported in the order of their names, and of their versions where the names
/// are the same; none is reported twice.
pub proof fn dependencies_are_reported_in_order(
    metadata: &CargoMetadata,
    target: Option<&TargetPackage>,
    dependencies: Vec<Dependency>,
    i: int,
    j: int,
    name: &str,
    other_name: &str,
    name_before: bool,
    version: &str,
    other_version: &str,
    version_before: bool,
)
    requires
        call_ensures(crates_io_dependencies_from_metadata, (metadata, target), dependencies),
        0 <= i < j < dependencies@.len(),
        name@ == dependencies@[i].name@,
        other_name@ == dependencies@[j].name@,
        call_ensures(precedes, (name, other_name), name_before),
        version@ == dependencies@[i].version->Ok_0@,
        other_version@ == dependencies@[j].version->Ok_0@,
        call_ensures(precedes, (version, other_version), version_before),
    ensures
        name_before || (name@ == other_name@ && version_before),
        name@ != other_name@ || version@ != other_version@,
{
    let releases = dependency_releases(dependencies@);
    assert(release_lt(releases[i], releases[j]));
    release_order_is_irreflexive(releases[i]);
}

/// A crate name is accepted if and only if it is not empty and holds nothing but ASCII letters,
/// digits, `_` and `-`; else the error says what is wrong, and names the name.
pub proof fn crate_names_are_told_by_their_characters(
    package_name: &str,
    result: Result<(), ExtensionError>,
)
    requires
        call_ensures(validate_crate_name, (package_name,), result),
    ensures
        result is Ok <==> package_name@.len() > 0 && forall|i: int|
            0 <= i < package_name@.len() ==> {
                ||| 'a' <= #[trigger] package_name@[i] <= 'z'
                ||| 'A' <= package_name@[i] <= 'Z'
                ||| '0' <= package_name@[i] <= '9'
                ||| package_name@[i] == '_'
                ||| package_name@[i] == '-'
            },
        package_name@.len() == 0 ==> result == Err::<(), ExtensionError>(
            ExtensionError::EmptyCrateName,
        ),
        package_name@.len() > 0 && result is Err ==> (result->Err_0 matches
            ExtensionError::InvalidCrateName { name } && name@ == package_name@),
{
    if result is Ok {
        assert(forall|i: int|
            0 <= i < package_name@.len() ==> is_crate_name_char(#[trigger] package_name@[i]));
    }
}

/// Cargo is asked for the metadata, in version 1 of the format, of the project of the given
/// manifest; and, if `locked`, with the lock file as it is.
pub proof fn cargo_is_asked_for_the_metadata_of_the_manifest(
    manifest_path: &PathBuf,
    locked: bool,
    arguments: Vec<Argument>,
)
    requires
        call_ensures(cargo_metadata_arguments, (manifest_path, locked), arguments),
    ensures
        arguments@.len() == (if locked {
            6int
        } else {
            5int
        }),
        arguments@[0] matches Argument::Text(text) && text@ == "metadata"@,
        arguments@[1] matches Argument::Text(text) && text@ == "--format-version"@,
        arguments@[2] matches Argument::Text(text) && text@ == "1"@,
        arguments@[3] matches Argument::Text(text) && text@ == "--manifest-path"@,
        arguments@[4] == Argument::Path(*manifest_path),
        locked ==> (arguments@[5] matches Argument::Text(text) && text@ == "--locked"@),
{
    let views = arguments@.map_values(|argument: Argument| argument@);
    assert(views == metadata_arguments(*manifest_path, locked));
    assert(views[0] == arguments@[0]@);
    assert(views[1] == arguments@[1]@);
    assert(views[2] == arguments@[2]@);
    assert(views[3] == arguments@[3]@);
    assert(views[4] == arguments@[4]@);
    if locked {
        assert(views[5] == arguments@[5]@);
    }
}

/// A run of Cargo that succeeded and could be read gives its metadata. Every other run gives a
/// failure that says what went wrong: with the manifest and the trimmed text that Cargo wrote,
/// if Cargo failed.
pub proof fn outcome_of_cargo_is_told(
    manifest_path: &PathBuf,
    outcome: CommandOutcome,
    result: Result<CargoMetadata, CargoFailure>,
    written: &str,
    inner: String,
)
    requires
        call_ensures(cargo_metadata, (manifest_path, outcome), result),
        outcome matches CommandOutcome::Finished { stderr, .. } ==> written@ == utf8_lossy(stderr@),
        call_ensures(trim_text, (written,), inner),
    ensures
        (match outcome {
            CommandOutcome::NotRun { cause } => result == Err::<CargoMetadata, CargoFailure>(
                CargoFailure::NotRun { cause },
            ),
            CommandOutcome::Finished { success, stderr, metadata } => if !success {
                &&& result matches Err(CargoFailure::Failed { manifest, stderr: text })
                &&& manifest@ == path_text(*manifest_path)
                &&& text@ == inner@
            } else {
                match metadata {
                    Ok(read) => result == Ok::<CargoMetadata, CargoFailure>(read),
                    Err(cause) => result == Err::<CargoMetadata, CargoFailure>(
                        CargoFailure::InvalidJson { cause },
                    ),
                }
            },
        }),
{
}

} // verus!
