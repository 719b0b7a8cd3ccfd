//! Finding the Cargo project around a directory.

use std::path::PathBuf;
use vstd::prelude::*;
use vstd::utf8::encode_utf8;

use crate::cargo::{
    cargo_metadata, cargo_metadata_arguments, crates_io_dependencies_from_metadata,
    dependency_lists_are_the_same, explains, lists_dependencies, metadata_arguments,
    outcome_metadata,
};
use crate::cargo::{Argument, CargoMetadata, CommandOutcome, TargetPackage};
use crate::interface::{CargoFailure, Dependency, ExtensionError};
use crate::path::{
    display_path, is_file_name, join_name, path_anchor, path_names, path_text, path_view, PathView,
};

verus! {

pub const CARGO_MANIFEST_FILE_NAME: &'static str = "Cargo.toml";

pub const CARGO_LOCK_FILE_NAME: &'static str = "Cargo.lock";

/// A search for the nearest manifest that has come to a directory.
#[derive(Debug)]
pub struct ManifestSearch {
    pub directory: PathBuf,
}

/// What a search does next: it has found the manifest, looks into another directory, or
/// has come to the end.
#[derive(Debug)]
pub enum ManifestStep {
    Found(PathBuf),
    Probe(ManifestSearch),
    Exhausted,
}

/// [`ManifestStep`], mathematically.
pub enum ManifestStepView {
    Found(PathView),
    Probe(PathView),
    Exhausted,
}

impl View for ManifestStep {
    type V = ManifestStepView;

    open spec fn view(&self) -> ManifestStepView {
        match self {
            ManifestStep::Found(path) => ManifestStepView::Found(path_view(*path)),
            ManifestStep::Probe(search) => ManifestStepView::Probe(path_view(search.directory)),
            ManifestStep::Exhausted => ManifestStepView::Exhausted,
        }
    }
}

/// The manifest of a directory.
pub open spec fn manifest_of(directory: PathView) -> PathView {
    directory.child(CARGO_MANIFEST_FILE_NAME@)
}

/// The step that follows when the manifest of `directory` is a file or is none.
pub open spec fn search_step(directory: PathView, is_file: bool) -> ManifestStepView {
    if is_file {
        ManifestStepView::Found(manifest_of(directory))
    } else if directory.names.len() > 0 {
        ManifestStepView::Probe(directory.ancestor(directory.names.len() - 1))
    } else {
        ManifestStepView::Exhausted
    }
}

/// What a search from `directory` comes to, where `is_file` says which paths are files.
pub open spec fn search_outcome(directory: PathView, is_file: spec_fn(PathView) -> bool) -> Option<
    PathView,
>
    decreases directory.names.len(),
{
    match search_step(directory, is_file(manifest_of(directory))) {
        ManifestStepView::Found(path) => Some(path),
        ManifestStepView::Probe(parent) => search_outcome(parent, is_file),
        ManifestStepView::Exhausted => None,
    }
}

/// A directory is its own deepest ancestor; the others are the ancestors of its parent.
proof fn ancestors_of_parent(directory: PathView)
    ensures
        directory.ancestor(directory.names.len() as int) == directory,
        forall|depth: int|
            0 <= depth < directory.names.len() ==> #[trigger] directory.ancestor(
                directory.names.len() - 1,
            ).ancestor(depth) == directory.ancestor(depth),
{
    let top = directory.names.len() as int;
    assert(directory.ancestor(top).names == directory.names);
    assert forall|depth: int| 0 <= depth < top implies #[trigger] directory.ancestor(
        top - 1,
    ).ancestor(depth) == directory.ancestor(depth) by {
        assert(directory.names.take(top - 1).take(depth) == directory.names.take(depth));
    }
}

/// A search finds the nearest manifest: the one in the deepest directory, on the way from
/// the anchor to where the search starts, that has one.
pub proof fn search_finds_the_nearest_manifest(
    directory: PathView,
    is_file: spec_fn(PathView) -> bool,
    depth: int,
)
    requires
        0 <= depth <= directory.names.len(),
        is_file(
            (PathView {
                anchor: directory.anchor,
                names: directory.names.take(depth).push(encode_utf8("Cargo.toml"@)),
            }),
        ),
        forall|deeper: int|
            depth < deeper <= directory.names.len() ==> !is_file(
                (PathView {
                    anchor: directory.anchor,
                    names: (#[trigger] directory.names.take(deeper)).push(
                        encode_utf8("Cargo.toml"@),
                    ),
                }),
            ),
    ensures
        search_outcome(directory, is_file) == Some(
            (PathView {
                anchor: directory.anchor,
                names: directory.names.take(depth).push(encode_utf8("Cargo.toml"@)),
            }),
        ),
    decreases directory.names.len(),
{
    let top = directory.names.len() as int;
    ancestors_of_parent(directory);
    assert(directory.names.take(top) == directory.names);
    if depth < top {
        let parent = directory.ancestor(top - 1);
        assert forall|deeper: int| depth < deeper <= parent.names.len() implies !is_file(
            (PathView {
                anchor: parent.anchor,
                names: (#[trigger] parent.names.take(deeper)).push(encode_utf8("Cargo.toml"@)),
            }),
        ) by {
            assert(parent.names.take(deeper) == directory.names.take(deeper));
        }
        assert(parent.names.take(depth) == directory.names.take(depth));
        search_finds_the_nearest_manifest(parent, is_file, depth);
    }
}

/// A search ends empty-handed if no directory on the way has a manifest.
pub proof fn search_without_manifest_finds_none(
    directory: PathView,
    is_file: spec_fn(PathView) -> bool,
)
    requires
        forall|depth: int|
            0 <= depth <= directory.names.len() ==> !is_file(
                (PathView {
                    anchor: directory.anchor,
                    names: (#[trigger] directory.names.take(depth)).push(
                        encode_utf8("Cargo.toml"@),
                    ),
                }),
            ),
    ensures
        search_outcome(directory, is_file) is None,
    decreases directory.names.len(),
{
    let top = directory.names.len() as int;
    ancestors_of_parent(directory);
    assert(directory.names.take(top) == directory.names);
    if top > 0 {
        let parent = directory.ancestor(top - 1);
        assert forall|depth: int| 0 <= depth <= parent.names.len() implies !is_file(
            (PathView {
                anchor: parent.anchor,
                names: (#[trigger] parent.names.take(depth)).push(encode_utf8("Cargo.toml"@)),
            }),
        ) by {
            assert(parent.names.take(depth) == directory.names.take(depth));
        }
        search_without_manifest_finds_none(parent, is_file);
    }
}

proof fn file_names_are_plain()
    ensures
        is_file_name(CARGO_MANIFEST_FILE_NAME@),
        is_file_name(CARGO_LOCK_FILE_NAME@),
{
    reveal_strlit("Cargo.toml");
    reveal_strlit("Cargo.lock");
    assert(CARGO_MANIFEST_FILE_NAME@[0] != '.');
    assert(CARGO_LOCK_FILE_NAME@[0] != '.');
}

impl ManifestSearch {
    /// The manifest to look for next: whether it is a file decides the step.
    pub fn candidate(&self) -> (path: PathBuf)
        ensures
            path_view(path) == manifest_of(path_view(self.directory)),
    {
        proof {
            file_names_are_plain();
        }
        join_name(&self.directory, CARGO_MANIFEST_FILE_NAME)
    }
}

/// Goes on with a search once it is known whether its candidate is a file.
pub fn find_manifest_path(search: ManifestSearch, is_file: bool) -> (step: ManifestStep)
    ensures
        step@ == search_step(path_view(search.directory), is_file),
{
    if is_file {
        return ManifestStep::Found(search.candidate());
    }
    let mut directory = search.directory;
    if directory.pop() {
        assert(path_names(search.directory).drop_last() == path_names(search.directory).take(
            path_names(search.directory).len() - 1,
        ));
        ManifestStep::Probe(ManifestSearch { directory })
    } else {
        ManifestStep::Exhausted
    }
}

/// Dependencies resolved from a Rust project.
#[derive(Debug)]
pub struct FileDefinedDependencySet {
    /// Source file used to resolve dependency versions.
    pub path: PathBuf,
    /// Resolved crates.io dependencies.
    pub dependencies: Vec<Dependency>,
}

impl Clone for FileDefinedDependencySet {
    fn clone(&self) -> (copy: FileDefinedDependencySet)
        ensures
            copy.path == self.path,
            copy.dependencies@ == self.dependencies@,
    {
        FileDefinedDependencySet {
            path: self.path.clone(),
            dependencies: self.dependencies.clone(),
        }
    }
}

/// A project whose manifest has been found.
#[derive(Debug)]
pub struct FoundProject {
    pub manifest_path: PathBuf,
}

/// A project whose dependencies have been resolved.
#[derive(Debug)]
pub struct ResolvedProject {
    pub manifest_path: PathBuf,
    pub metadata: CargoMetadata,
}

/// What comes next on the way to the dependencies of a project.
#[derive(Debug)]
pub enum ProjectStep {
    /// Tell whether the candidate is a file, and go on with [`ManifestSearch::resume`].
    FindManifest(ManifestSearch),
    /// Run Cargo, and go on with [`FoundProject::resume`].
    RunCargo(FoundProject),
    /// Tell whether the lock file is a file, and end with [`ResolvedProject::resume`].
    FindLock(ResolvedProject),
    /// There is no project.
    NoProject,
    /// There is a project, but no answer.
    Failed(ExtensionError),
}

/// Resolve dependencies defined by the nearest Cargo project: begins with the working
/// directory itself.
pub fn get_file_defined_dependencies(working_directory: &PathBuf) -> (step: ProjectStep)
    ensures
        step matches ProjectStep::FindManifest(search) && search.directory == *working_directory,
{
    ProjectStep::FindManifest(ManifestSearch { directory: working_directory.clone() })
}

impl ManifestSearch {
    /// Goes on once it is known whether the candidate is a file.
    pub fn resume(self, is_file: bool) -> (step: ProjectStep)
        ensures
            (match search_step(path_view(self.directory), is_file) {
                ManifestStepView::Found(path) => {
                    &&& step matches ProjectStep::RunCargo(project)
                    &&& path_view(project.manifest_path) == path
                },
                ManifestStepView::Probe(directory) => {
                    &&& step matches ProjectStep::FindManifest(search)
                    &&& path_view(search.directory) == directory
                },
                ManifestStepView::Exhausted => step is NoProject,
            }),
    {
        match find_manifest_path(self, is_file) {
            ManifestStep::Found(manifest_path) => ProjectStep::RunCargo(
                FoundProject { manifest_path },
            ),
            ManifestStep::Probe(search) => ProjectStep::FindManifest(search),
            ManifestStep::Exhausted => ProjectStep::NoProject,
        }
    }
}

impl FoundProject {
    /// The arguments for Cargo: the lock file must be current.
    pub fn arguments(&self) -> (arguments: Vec<Argument>)
        ensures
            arguments@.map_values(|argument: Argument| argument@) == metadata_arguments(
                self.manifest_path,
                true,
            ),
    {
        cargo_metadata_arguments(&self.manifest_path, true)
    }

    /// Goes on once Cargo has been run.
    pub fn resume(self, outcome: CommandOutcome) -> (step: ProjectStep)
        ensures
            (match outcome_metadata(outcome) {
                Some(metadata) => step == ProjectStep::FindLock(
                    ResolvedProject { manifest_path: self.manifest_path, metadata },
                ),
                None => {
                    &&& step matches ProjectStep::Failed(
                        ExtensionError::UnresolvedProject { manifest, failure },
                    )
                    &&& manifest@ == path_text(self.manifest_path)
                    &&& explains(failure, self.manifest_path, outcome)
                },
            }),
    {
        match cargo_metadata(&self.manifest_path, outcome) {
            Ok(metadata) => ProjectStep::FindLock(
                ResolvedProject { manifest_path: self.manifest_path, metadata },
            ),
            Err(failure) => ProjectStep::Failed(
                ExtensionError::UnresolvedProject {
                    manifest: display_path(&self.manifest_path),
                    failure,
                },
            ),
        }
    }
}

/// The lock file of the workspace.
pub fn get_lock_path(metadata: &CargoMetadata) -> (path: PathBuf)
    ensures
        path_view(path) == metadata@.workspace_root.child(CARGO_LOCK_FILE_NAME@),
{
    proof {
        file_names_are_plain();
    }
    join_name(&metadata.workspace_root, CARGO_LOCK_FILE_NAME)
}

/// The file that dependency versions come from: the lock file of the workspace, if it is a
/// file, and else the manifest.
pub fn get_source_path(
    metadata: &CargoMetadata,
    manifest_path: &PathBuf,
    lock_is_file: bool,
) -> (path: PathBuf)
    ensures
        lock_is_file ==> path_view(path) == metadata@.workspace_root.child(
            CARGO_LOCK_FILE_NAME@,
        ),
        !lock_is_file ==> path == *manifest_path,
{
    if lock_is_file {
        get_lock_path(metadata)
    } else {
        manifest_path.clone()
    }
}

impl ResolvedProject {
    /// The lock file of the workspace.
    pub fn lock_path(&self) -> (path: PathBuf)
        ensures
            path_view(path) == self.metadata@.workspace_root.child(
                CARGO_LOCK_FILE_NAME@,
            ),
    {
        get_lock_path(&self.metadata)
    }

    /// The dependencies, once it is known whether the lock file is a file.
    pub fn resume(&self, lock_is_file: bool) -> (set: FileDefinedDependencySet)
        ensures
            lock_is_file ==> path_view(set.path) == self.metadata@.workspace_root.child(
                CARGO_LOCK_FILE_NAME@,
            ),
            !lock_is_file ==> set.path == self.manifest_path,
            lists_dependencies(set.dependencies@, self.metadata@.packages, None),
    {
        FileDefinedDependencySet {
            path: get_source_path(&self.metadata, &self.manifest_path, lock_is_file),
            dependencies: crates_io_dependencies_from_metadata(&self.metadata, None),
        }
    }
}

/// A search looks for `Cargo.toml` in the very directory that it has come to.
pub proof fn candidate_is_in_the_directory_itself(search: &ManifestSearch, path: PathBuf)
    requires
        call_ensures(ManifestSearch::candidate, (search,), path),
    ensures
        path_anchor(path) == path_anchor(search.directory),
        path_names(path) == path_names(search.directory).push(encode_utf8("Cargo.toml"@)),
{
}

/// If its candidate is a file, a search has found it; else it goes on in the parent directory,
/// or ends where there is none.
pub proof fn search_takes_the_candidate_or_the_parent(
    search: ManifestSearch,
    is_file: bool,
    step: ManifestStep,
)
    requires
        call_ensures(find_manifest_path, (search, is_file), step),
    ensures
        is_file ==> {
            &&& step matches ManifestStep::Found(path)
            &&& path_anchor(path) == path_anchor(search.directory)
            &&& path_names(path) == path_names(search.directory).push(encode_utf8("Cargo.toml"@))
        },
        !is_file && path_names(search.directory).len() > 0 ==> {
            &&& step matches ManifestStep::Probe(next)
            &&& path_anchor(next.directory) == path_anchor(search.directory)
            &&& path_names(next.directory) == path_names(search.directory).drop_last()
        },
        !is_file && path_names(search.directory).len() == 0 ==> step is Exhausted,
{
    let names = path_names(search.directory);
    if names.len() > 0 {
        assert(names.take(names.len() - 1) == names.drop_last());
    }
}

/// The way to the dependencies of a project follows the search: a manifest that is found is the
/// project's, and a search that ends without one means that there is no project.
pub proof fn found_manifest_is_the_project(
    search: ManifestSearch,
    is_file: bool,
    step: ProjectStep,
)
    requires
        call_ensures(ManifestSearch::resume, (search, is_file), step),
    ensures
        is_file ==> {
            &&& step matches ProjectStep::RunCargo(project)
            &&& path_anchor(project.manifest_path) == path_anchor(search.directory)
            &&& path_names(project.manifest_path) == path_names(search.directory).push(
                encode_utf8("Cargo.toml"@),
            )
        },
        !is_file && path_names(search.directory).len() > 0 ==> {
            &&& step matches ProjectStep::FindManifest(next)
            &&& path_anchor(next.directory) == path_anchor(search.directory)
            &&& path_names(next.directory) == path_names(search.directory).drop_last()
        },
        !is_file && path_names(search.directory).len() == 0 ==> step is NoProject,
{
    let names = path_names(search.directory);
    if names.len() > 0 {
        assert(names.take(names.len() - 1) == names.drop_last());
    }
}

/// A search that has found nothing so far has looked into the working directory and then into
/// each directory above it, one after the other, leaving none out.
pub proof fn search_leaves_no_directory_out(
    working_directory: &PathBuf,
    first: ProjectStep,
    searches: Seq<ManifestSearch>,
    k: int,
)
    requires
        call_ensures(get_file_defined_dependencies, (working_directory,), first),
        searches.len() > 0,
        first == ProjectStep::FindManifest(searches[0]),
        forall|i: int|
            0 < i < searches.len() ==> call_ensures(
                ManifestSearch::resume,
                (searches[i - 1], false),
                ProjectStep::FindManifest(#[trigger] searches[i]),
            ),
        0 <= k < searches.len(),
    ensures
        k <= path_names(*working_directory).len(),
        path_anchor(searches[k].directory) == path_anchor(*working_directory),
        path_names(searches[k].directory) == path_names(*working_directory).take(
            path_names(*working_directory).len() - k,
        ),
    decreases k,
{
    let names = path_names(*working_directory);
    if k == 0 {
        assert(names.take(names.len() as int) == names);
    } else {
        search_leaves_no_directory_out(working_directory, first, searches, k - 1);
        assert(call_ensures(
            ManifestSearch::resume,
            (searches[k - 1], false),
            ProjectStep::FindManifest(searches[k]),
        ));
        found_manifest_is_the_project(
            searches[k - 1],
            false,
            ProjectStep::FindManifest(searches[k]),
        );
        let before = names.take(names.len() - (k - 1));
        assert(before.drop_last() == names.take(names.len() - k));
    }
}

/// Of a project that was found, Cargo is asked with the lock file as it is.
pub proof fn found_projects_are_asked_with_their_lock_file(
    project: &FoundProject,
    arguments: Vec<Argument>,
    expected: Vec<Argument>,
)
    requires
        call_ensures(FoundProject::arguments, (project,), arguments),
        call_ensures(cargo_metadata_arguments, (&project.manifest_path, true), expected),
    ensures
        arguments@.len() == expected@.len(),
        forall|i: int|
            0 <= i < arguments@.len() ==> (match #[trigger] arguments@[i] {
                Argument::Text(text) => expected@[i] matches Argument::Text(other) && other@
                    == text@,
                Argument::Path(path) => expected@[i] == Argument::Path(path),
            }),
{
    let views = arguments@.map_values(|argument: Argument| argument@);
    let expected_views = expected@.map_values(|argument: Argument| argument@);
    assert(views == expected_views);
    assert forall|i: int| 0 <= i < arguments@.len() implies (match #[trigger] arguments@[i] {
        Argument::Text(text) => expected@[i] matches Argument::Text(other) && other@ == text@,
        Argument::Path(path) => expected@[i] == Argument::Path(path),
    }) by {
        assert(views[i] == arguments@[i]@);
        assert(views[i] == expected_views[i]);
    }
}

/// What Cargo tells of a project that was found is kept with its manifest; if it tells nothing,
/// the failure is passed on with the manifest.
pub proof fn outcome_of_cargo_is_passed_on(
    project: FoundProject,
    outcome: CommandOutcome,
    step: ProjectStep,
    result: Result<CargoMetadata, CargoFailure>,
)
    requires
        call_ensures(FoundProject::resume, (project, outcome), step),
        call_ensures(cargo_metadata, (&project.manifest_path, outcome), result),
    ensures
        (match result {
            Ok(metadata) => {
                &&& step matches ProjectStep::FindLock(resolved)
                &&& resolved.manifest_path == project.manifest_path
                &&& resolved.metadata == metadata
            },
            Err(failure) => {
                &&& step matches ProjectStep::Failed(
                    ExtensionError::UnresolvedProject { manifest, failure: passed },
                )
                &&& manifest@ == path_text(project.manifest_path)
                &&& (match failure {
                    CargoFailure::NotRun { cause } => passed matches CargoFailure::NotRun {
                        cause: other,
                    } && other@ == cause@,
                    CargoFailure::Failed { manifest: of, stderr } => passed matches
                        CargoFailure::Failed { manifest: other, stderr: text } && other@ == of@
                        && text@ == stderr@,
                    CargoFailure::InvalidJson { cause } => passed matches
                        CargoFailure::InvalidJson { cause: other } && other@ == cause@,
                })
            },
        }),
{
}

/// The dependencies of a project are those of its metadata, and come from the file `Cargo.lock`
/// in the root of the workspace, if that is a file, and else from the manifest.
pub proof fn resolved_projects_report_their_metadata(
    project: &ResolvedProject,
    lock_path: PathBuf,
    lock_is_file: bool,
    set: FileDefinedDependencySet,
    expected: Vec<Dependency>,
)
    requires
        call_ensures(ResolvedProject::lock_path, (project,), lock_path),
        call_ensures(ResolvedProject::resume, (project, lock_is_file), set),
        call_ensures(
            crates_io_dependencies_from_metadata,
            (&project.metadata, None::<&TargetPackage>),
            expected,
        ),
    ensures
        path_anchor(lock_path) == path_anchor(project.metadata.workspace_root),
        path_names(lock_path) == path_names(project.metadata.workspace_root).push(
            encode_utf8("Cargo.lock"@),
        ),
        lock_is_file ==> path_anchor(set.path) == path_anchor(lock_path) && path_names(set.path)
            == path_names(lock_path),
        !lock_is_file ==> set.path == project.manifest_path,
        set.dependencies@.len() == expected@.len(),
        forall|i: int|
            0 <= i < expected@.len() ==> {
                &&& (#[trigger] set.dependencies@[i]).name@ == expected@[i].name@
                &&& set.dependencies@[i].version is Ok
                &&& expected@[i].version is Ok
                &&& set.dependencies@[i].version->Ok_0@ == expected@[i].version->Ok_0@
            },
{
    dependency_lists_are_the_same(set.dependencies@, expected@, project.metadata@.packages, None);
}

/// The file that dependency versions come from is `Cargo.lock` in the root of the workspace, if
/// that is a file, and else the manifest.
pub proof fn lock_file_is_preferred_to_the_manifest(
    metadata: &CargoMetadata,
    manifest_path: &PathBuf,
    lock_is_file: bool,
    path: PathBuf,
)
    requires
        call_ensures(get_source_path, (metadata, manifest_path, lock_is_file), path),
    ensures
        lock_is_file ==> {
            &&& path_anchor(path) == path_anchor(metadata.workspace_root)
            &&& path_names(path) == path_names(metadata.workspace_root).push(
                encode_utf8("Cargo.lock"@),
            )
        },
        !lock_is_file ==> path == *manifest_path,
{
}

} // verus!
