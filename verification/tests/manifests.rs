use oper_delta::manifest::{Include, Manifest, Project};
use oper_delta::model::Repo;
use std::sync::Arc;

fn project(name: &str, path: &str) -> Project {
    Project { name: name.to_string(), path: path.to_string(), groups: "default".to_string() }
}

fn repo(rel_path: &str) -> Arc<Repo> {
    Arc::new(Repo {
        abs_path: format!("/work/{}", rel_path),
        rel_path: rel_path.to_string(),
        description: rel_path.to_string(),
    })
}

#[test]
fn append_adds_projects_after_the_own_ones() {
    let mut parent = Manifest {
        projects: vec![project("a", "lib/a"), project("b", "lib/b")],
        includes: vec![Include { name: "child.xml".to_string() }],
    };
    let child = Manifest {
        projects: vec![project("c", "lib/c")],
        includes: vec![Include { name: "grandchild.xml".to_string() }],
    };
    parent.append(&child);
    let names: Vec<&str> = parent.projects.iter().map(|p| p.name.as_str()).collect();
    assert_eq!(names, vec!["a", "b", "c"]);
    assert_eq!(parent.projects[2].path, "lib/c");
    assert_eq!(parent.projects[2].groups, "default");
    assert_eq!(parent.includes.len(), 1);
    assert_eq!(parent.includes[0].name, "child.xml");
    assert_eq!(child.projects.len(), 1);
}

#[test]
fn append_of_an_empty_manifest_changes_nothing() {
    let mut parent = Manifest { projects: vec![project("a", "lib/a")], includes: vec![] };
    parent.append(&Manifest { projects: vec![], includes: vec![] });
    assert_eq!(parent.projects.len(), 1);
    let mut empty = Manifest { projects: vec![], includes: vec![] };
    empty.append(&parent);
    empty.append(&parent);
    assert_eq!(empty.projects.len(), 2);
}

#[test]
fn names_of_referred_manifests_keep_their_order() {
    let manifest = Manifest {
        projects: vec![],
        includes: vec![
            Include { name: "b.xml".to_string() },
            Include { name: "a.xml".to_string() },
        ],
    };
    assert_eq!(manifest.include_names(), vec!["b.xml", "a.xml"]);
    assert!(Manifest { projects: vec![], includes: vec![] }.include_names().is_empty());
}

#[test]
fn only_listed_repositories_are_retained() {
    let manifest =
        Manifest { projects: vec![project("a", "lib/a"), project("c", "lib/c")], includes: vec![] };
    assert!(manifest.lists(&"lib/a".to_string()));
    assert!(!manifest.lists(&"lib/b".to_string()));
    assert!(!manifest.lists(&"a".to_string()));
    let kept = manifest.retain_listed(vec![repo("lib/c"), repo("lib/b"), repo("lib/a"), repo("x")]);
    let paths: Vec<&str> = kept.iter().map(|r| r.rel_path.as_str()).collect();
    assert_eq!(paths, vec!["lib/c", "lib/a"]);
    assert!(manifest.retain_listed(vec![]).is_empty());
    let none = Manifest { projects: vec![], includes: vec![] };
    assert!(none.retain_listed(vec![repo("lib/a")]).is_empty());
}

#[test]
fn copies_of_projects_are_equal_to_them() {
    let p = project("a", "lib/a");
    let q = p.clone();
    assert_eq!(q.name, "a");
    assert_eq!(q.path, "lib/a");
    assert_eq!(q.groups, "default");
    let i = Include { name: "x.xml".to_string() };
    assert_eq!(i.clone().name, "x.xml");
}
