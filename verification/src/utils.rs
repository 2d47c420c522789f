//! Where a checkout keeps its list of repositories, and the repositories
//! that the list names.
use crate::distance::{Query, QueryView};
use crate::model::{Repo, RepoBranchDeltas, RepoView};
use crate::text::{lines, lines_of, split, split_on, text_views};
use std::sync::Arc;
use vstd::prelude::*;
use vstd::string::*;

verus! {

/// The path that `std::path::Path::join` gives for `child` under `base`.
pub uninterp spec fn joined_path(base: Seq<char>, child: Seq<char>) -> Seq<char>;

/// The final component that `std::path::Path::file_name` finds in `path`,
/// if it finds one.
pub uninterp spec fn file_name_of(path: Seq<char>) -> Option<Seq<char>>;

/// `std::path::Path::join`: the path of `child` under `base`. The result
/// depends on the two paths alone; the contract names it [`joined_path`].
#[verifier::external_body]
fn join_path(base: &str, child: &str) -> (r: String)
    ensures
        r@ == joined_path(base@, child@),
{
    std::path::Path::new(base).join(child).to_string_lossy().into_owned()
}

/// `std::path::Path::file_name`: the final component of `path`, none if the
/// path ends in `..` or has no component. The result depends on the path
/// alone; the contract names it [`file_name_of`].
#[verifier::external_body]
fn path_file_name(path: &str) -> (r: Option<String>)
    ensures
        match r {
            Some(name) => file_name_of(path@) == Some(name@),
            None => file_name_of(path@) is None,
        },
{
    match std::path::Path::new(path).file_name() {
        Some(name) => Some(name.to_string_lossy().into_owned()),
        None => None,
    }
}

/// Why the repositories of a checkout cannot be listed.
#[derive(Clone, Copy, Debug, PartialEq, Eq, Structural)]
pub enum LocateError {
    /// Neither the working directory nor a directory above it holds `.repo`.
    NoRepoFolder,
    /// The `.repo` folder holds no `project.list`.
    NoProjectList,
}

impl LocateError {
    /// The message of the error.
    pub fn message(self) -> (text: String)
        ensures
            text@ == match self {
                LocateError::NoRepoFolder => "no .repo folder found"@,
                LocateError::NoProjectList => "no project.list in .repo found"@,
            },
    {
        match self {
            LocateError::NoRepoFolder => String::from_str("no .repo folder found"),
            LocateError::NoProjectList => String::from_str("no project.list in .repo found"),
        }
    }
}

/// Whether a directory entry is the `.repo` folder that marks the root of
/// a checkout: a directory of that name.
pub fn is_repo_marker(file_name: &str, is_dir: bool) -> (r: bool)
    ensures
        r == (is_dir && file_name@ == ".repo"@),
{
    let marker = String::from_str(".repo");
    let name = String::from_str(file_name);
    is_dir && name == marker
}

/// The path of the `.repo` folder of the checkout rooted at `base_folder`.
pub fn find_repo_folder(base_folder: &str) -> (folder: String)
    ensures
        folder@ == joined_path(base_folder@, ".repo"@),
{
    join_path(base_folder, ".repo")
}

/// The path at which the checkout rooted at `base_folder` keeps the list of
/// its repositories.
pub fn project_file_path(base_folder: &str) -> (path: String)
    ensures
        path@ == joined_path(joined_path(base_folder@, ".repo"@), "project.list"@),
{
    let folder = find_repo_folder(base_folder);
    join_path(folder.as_str(), "project.list")
}

/// The list of repositories of the checkout rooted at `base_folder`, given
/// whether a file is there: its path if so, an error if not.
pub fn find_project_file(base_folder: &str, is_file: bool) -> (r: Result<String, LocateError>)
    ensures
        match r {
            Ok(path) => is_file && path@ == joined_path(
                joined_path(base_folder@, ".repo"@),
                "project.list"@,
            ),
            Err(error) => !is_file && error == LocateError::NoProjectList,
        },
{
    if is_file {
        Ok(project_file_path(base_folder))
    } else {
        Err(LocateError::NoProjectList)
    }
}

/// The repository at `rel_path` of the checkout rooted at `base`.
pub open spec fn repo_at(base: Seq<char>, rel_path: Seq<char>) -> RepoView {
    RepoView {
        abs_path: joined_path(base, rel_path),
        rel_path,
        description: file_name_of(joined_path(base, rel_path)).unwrap(),
    }
}

/// The mathematical values of a sequence of repositories.
pub open spec fn repo_views(repos: Seq<Arc<Repo>>) -> Seq<RepoView> {
    repos.map(|_i: int, r: Arc<Repo>| r@)
}

/// The paths of the repositories of a checkout: those that its list names
/// and, if asked for, that of its manifests.
pub open spec fn listed_paths(rel_paths: Seq<Seq<char>>, with_manifest: bool) -> Seq<Seq<char>> {
    if with_manifest {
        rel_paths.push(".repo/manifests"@)
    } else {
        rel_paths
    }
}

impl Repo {
    /// The repository at `abs_path`, known as `rel_path` within its
    /// checkout. It is described by the final component of `abs_path`.
    pub fn from(abs_path: String, rel_path: String) -> (repo: Repo)
        requires
            file_name_of(abs_path@) is Some,
        ensures
            repo@ == (RepoView {
                abs_path: abs_path@,
                rel_path: rel_path@,
                description: file_name_of(abs_path@).unwrap(),
            }),
    {
        let description = match path_file_name(abs_path.as_str()) {
            Some(name) => name,
            None => String::new(),
        };
        Repo { abs_path, rel_path, description }
    }

    /// The repository at `abs_path`, known as `rel_path` within its
    /// checkout; none if `abs_path` has no final component to describe it by.
    pub fn locate(abs_path: String, rel_path: String) -> (r: Option<Repo>)
        ensures
            match r {
                Some(repo) => file_name_of(abs_path@) is Some && repo@ == (RepoView {
                    abs_path: abs_path@,
                    rel_path: rel_path@,
                    description: file_name_of(abs_path@).unwrap(),
                }),
                None => file_name_of(abs_path@) is None,
            },
    {
        match path_file_name(abs_path.as_str()) {
            Some(_) => Some(Repo::from(abs_path, rel_path)),
            None => None,
        }
    }
}

/// The repositories of the checkout rooted at `base_folder` whose list
/// names `rel_paths`, in the order of the list, followed by the repository
/// of the manifests if `with_manifest` is set. None if one of the paths has
/// no final component.
pub fn repos_from(base_folder: &str, rel_paths: Vec<String>, with_manifest: bool) -> (r: Option<
    Vec<Arc<Repo>>,
>)
    ensures
        match r {
            Some(repos) => {
                let paths = listed_paths(text_views(rel_paths@), with_manifest);
                &&& forall|i: int|
                    0 <= i < paths.len() ==> file_name_of(
                        joined_path(base_folder@, #[trigger] paths[i]),
                    ) is Some
                &&& repo_views(repos@) == paths.map(
                    |_i: int, p: Seq<char>| repo_at(base_folder@, p),
                )
            },
            None => {
                let paths = listed_paths(text_views(rel_paths@), with_manifest);
                exists|i: int|
                    0 <= i < paths.len() && file_name_of(
                        joined_path(base_folder@, #[trigger] paths[i]),
                    ) is None
            },
        },
{
    let ghost paths = listed_paths(text_views(rel_paths@), with_manifest);
    let mut all_paths = rel_paths;
    if with_manifest {
        all_paths.push(String::from_str(".repo/manifests"));
    }
    assert(text_views(all_paths@) =~= paths);
    let mut repos: Vec<Arc<Repo>> = Vec::new();
    let mut i: usize = 0;
    while i < all_paths.len()
        invariant
            i <= all_paths.len(),
            paths == listed_paths(text_views(rel_paths@), with_manifest),
            text_views(all_paths@) == paths,
            repos.len() == i,
            forall|k: int|
                0 <= k < i ==> file_name_of(joined_path(base_folder@, #[trigger] paths[k])) is Some,
            forall|k: int| 0 <= k < i ==> (#[trigger] repos[k])@ == repo_at(base_folder@, paths[k]),
        decreases all_paths.len() - i,
    {
        let rel_path = all_paths[i].clone();
        assert(rel_path@ == paths[i as int]);
        let abs_path = join_path(base_folder, rel_path.as_str());
        match Repo::locate(abs_path, rel_path) {
            Some(repo) => {
                repos.push(Arc::new(repo));
            },
            None => {
                assert(0 <= i < paths.len() && file_name_of(
                    joined_path(base_folder@, paths[i as int]),
                ) is None);
                return None;
            },
        }
        i += 1;
    }
    assert(repo_views(repos@) =~= paths.map(|_i: int, p: Seq<char>| repo_at(base_folder@, p)));
    Some(repos)
}

/// The program that a custom command runs on a repository: `exec` with the
/// pieces of `args` between single spaces as its arguments, in the
/// directory of the repository.
pub fn execute_on_repo(exec: &str, args: &str, status: &RepoBranchDeltas) -> (q: Query)
    ensures
        q@ == (QueryView {
            program: exec@,
            args: split_on(args@, ' '),
            dir: status.repo.abs_path@,
        }),
{
    Query {
        program: String::from_str(exec),
        args: split(args, ' '),
        dir: status.repo.abs_path.clone(),
    }
}

/// The relative paths that a list of repositories names: its lines, in
/// order.
pub fn repos_paths_from(project_list: &str) -> (paths: Vec<String>)
    ensures
        text_views(paths@) == lines_of(project_list@),
{
    lines(project_list)
}

} // verus!
