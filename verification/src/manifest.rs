//! The projects that a manifest lists, and the restriction of a scan to them.
use crate::model::Repo;
use crate::text::text_views;
use std::sync::Arc;
use vstd::prelude::*;

verus! {

/// A manifest: the projects it lists and the manifests it refers to.
#[derive(Debug)]
pub struct Manifest {
    pub projects: Vec<Project>,
    pub includes: Vec<Include>,
}

/// A project of a manifest.
#[derive(Debug)]
pub struct Project {
    pub name: String,
    /// The path of the project's repository, relative to the checkout.
    pub path: String,
    pub groups: String,
}

/// A reference to another manifest, by the name of its file.
#[derive(Debug)]
pub struct Include {
    pub name: String,
}

/// The mathematical value of a [`Project`].
pub struct ProjectView {
    pub name: Seq<char>,
    pub path: Seq<char>,
    pub groups: Seq<char>,
}

impl View for Project {
    type V = ProjectView;

    open spec fn view(&self) -> ProjectView {
        ProjectView { name: self.name@, path: self.path@, groups: self.groups@ }
    }
}

impl Clone for Project {
    fn clone(&self) -> (r: Project)
        ensures
            r == *self,
    {
        Project { name: self.name.clone(), path: self.path.clone(), groups: self.groups.clone() }
    }
}

impl Clone for Include {
    fn clone(&self) -> (r: Include)
        ensures
            r == *self,
    {
        Include { name: self.name.clone() }
    }
}

/// The paths of a sequence of projects, in order.
pub open spec fn project_paths(projects: Seq<Project>) -> Seq<Seq<char>> {
    projects.map(|_i: int, p: Project| p.path@)
}

/// The relative paths of a sequence of repositories, in order.
pub open spec fn rel_paths(repos: Seq<Arc<Repo>>) -> Seq<Seq<char>> {
    repos.map(|_i: int, r: Arc<Repo>| r.rel_path@)
}

impl Manifest {
    /// Adds the projects of `manifest` after those of this manifest. The
    /// references to other manifests stay as they are.
    pub fn append(&mut self, manifest: &Manifest)
        ensures
            final(self).projects@ == old(self).projects@ + manifest.projects@,
            final(self).includes == old(self).includes,
    {
        let mut i: usize = 0;
        while i < manifest.projects.len()
            invariant
                i <= manifest.projects.len(),
                self.projects@ == old(self).projects@ + manifest.projects@.subrange(0, i as int),
                self.includes == old(self).includes,
            decreases manifest.projects.len() - i,
        {
            self.projects.push(manifest.projects[i].clone());
            assert(manifest.projects@.subrange(0, i + 1) =~= manifest.projects@.subrange(
                0,
                i as int,
            ).push(manifest.projects@[i as int]));
            i += 1;
        }
        assert(manifest.projects@.subrange(0, i as int) =~= manifest.projects@);
    }

    /// The file names of the manifests that this one refers to, in order.
    pub fn include_names(&self) -> (names: Vec<String>)
        ensures
            text_views(names@) == self.includes@.map(|_i: int, inc: Include| inc.name@),
    {
        let mut names: Vec<String> = Vec::new();
        let mut i: usize = 0;
        while i < self.includes.len()
            invariant
                i <= self.includes.len(),
                names.len() == i,
                forall|k: int| 0 <= k < i ==> names[k]@ == self.includes[k].name@,
            decreases self.includes.len() - i,
        {
            names.push(self.includes[i].name.clone());
            i += 1;
        }
        assert(text_views(names@) =~= self.includes@.map(|_i: int, inc: Include| inc.name@));
        names
    }

    /// Whether the manifest lists a project at `rel_path`.
    pub fn lists(&self, rel_path: &String) -> (listed: bool)
        ensures
            listed == project_paths(self.projects@).contains(rel_path@),
    {
        let mut i: usize = 0;
        while i < self.projects.len()
            invariant
                i <= self.projects.len(),
                forall|k: int| 0 <= k < i ==> project_paths(self.projects@)[k] != rel_path@,
            decreases self.projects.len() - i,
        {
            if self.projects[i].path == *rel_path {
                assert(project_paths(self.projects@)[i as int] == rel_path@);
                return true;
            }
            i += 1;
        }
        false
    }

    /// Keeps of `repos` those that the manifest lists, in their order.
    pub fn retain_listed(&self, repos: Vec<Arc<Repo>>) -> (kept: Vec<Arc<Repo>>)
        ensures
            kept@ == repos@.filter(
                |r: Arc<Repo>| project_paths(self.projects@).contains(r.rel_path@),
            ),
    {
        let ghost listed = |r: Arc<Repo>| project_paths(self.projects@).contains(r.rel_path@);
        let mut kept: Vec<Arc<Repo>> = Vec::new();
        let mut i: usize = 0;
        while i < repos.len()
            invariant
                i <= repos.len(),
                listed == |r: Arc<Repo>| project_paths(self.projects@).contains(r.rel_path@),
                kept@ == repos@.subrange(0, i as int).filter(listed),
            decreases repos.len() - i,
        {
            proof {
                let before = repos@.subrange(0, i as int);
                let upto = repos@.subrange(0, i + 1);
                assert(upto.drop_last() =~= before);
                assert(upto.last() == repos@[i as int]);
                reveal(Seq::filter);
            }
            if self.lists(&repos[i].rel_path) {
                kept.push(repos[i].clone());
            }
            i += 1;
        }
        assert(repos@.subrange(0, i as int) =~= repos@);
        kept
    }
}

} // verus!
