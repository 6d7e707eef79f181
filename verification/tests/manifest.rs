use depsync::manifest::{copy_opt, opt_str, DependencyTable, TomlDependency, TomlManifest};

fn local(path: &str) -> TomlDependency {
    TomlDependency { path: Some(path.to_string()), ..TomlDependency::default() }
}

fn keys(table: &DependencyTable) -> Vec<String> {
    (0..table.len()).map(|i| table.entry(i).unwrap().name.clone()).collect()
}

#[test]
fn default_dependency_says_nothing() {
    let dep = TomlDependency::default();
    assert_eq!(dep.path, None);
    assert_eq!(dep.repo, None);
    assert_eq!(dep.git, None);
    assert_eq!(dep.branch, None);
    assert_eq!(dep.tag, None);
    assert_eq!(dep.rev, None);
    assert_eq!(dep.into, None);
    assert_eq!(dep.name, None);
}

#[test]
fn clone_of_a_dependency_is_equal_to_it() {
    let dep = TomlDependency {
        repo: Some("team/lib".to_string()),
        tag: Some("v1".to_string()),
        into: Some("third_party".to_string()),
        name: Some("lib".to_string()),
        ..TomlDependency::default()
    };
    assert_eq!(dep.clone(), dep);
}

#[test]
fn optional_strings_convert_without_change() {
    assert_eq!(opt_str(&Some("x".to_string())), Some("x"));
    assert_eq!(opt_str(&None), None);
    assert_eq!(copy_opt(&Some("x".to_string())), Some("x".to_string()));
    assert_eq!(copy_opt(&None), None);
}

#[test]
fn empty_table_holds_nothing() {
    let table = DependencyTable::new();
    assert_eq!(table.len(), 0);
    assert_eq!(table.get("a"), None);
    assert!(!table.contains_name("a"));
}

#[test]
fn table_lists_its_entries_in_key_order() {
    let mut table = DependencyTable::new();
    for key in ["mid", "zeta", "alpha", "mid2", "Beta", ""] {
        assert_eq!(table.insert(key.to_string(), local(key)), None);
    }
    assert_eq!(keys(&table), vec!["", "Beta", "alpha", "mid", "mid2", "zeta"]);
    assert_eq!(table.entry(6), None);
    for i in 0..table.len() {
        let entry = table.entry(i).unwrap();
        assert_eq!(entry.spec, local(&entry.name));
    }
}

#[test]
fn insert_under_a_known_key_replaces_and_hands_back_the_old_value() {
    let mut table = DependencyTable::new();
    table.insert("b".to_string(), local("first"));
    table.insert("a".to_string(), local("other"));
    let old = table.insert("b".to_string(), local("second"));
    assert_eq!(old, Some(local("first")));
    assert_eq!(table.len(), 2);
    assert_eq!(keys(&table), vec!["a", "b"]);
    assert_eq!(table.get("b"), Some(&local("second")));
    assert_eq!(table.get("a"), Some(&local("other")));
}

#[test]
fn lookup_is_by_exact_key() {
    let mut table = DependencyTable::new();
    table.insert("lib".to_string(), local("x"));
    assert!(table.contains_name("lib"));
    assert!(!table.contains_name("Lib"));
    assert!(!table.contains_name("li"));
    assert!(!table.contains_name("libs"));
    assert_eq!(table.get("libs"), None);
}

#[test]
fn skeleton_names_project_and_author_and_nothing_else() {
    let manifest = TomlManifest::skeleton("demo", "ann");
    assert_eq!(manifest.project.name, "demo");
    assert_eq!(manifest.project.authors, Some(vec!["ann".to_string()]));
    assert_eq!(manifest.project.lib_dir, None);
    assert_eq!(manifest.project.git_server, None);
    assert_eq!(manifest.project.description, None);
    assert_eq!(manifest.project.homepage, None);
    assert_eq!(manifest.project.repository, None);
    assert_eq!(manifest.project.metadata, None);
    assert_eq!(manifest.dependencies, None);
    let unnamed = TomlManifest::skeleton("", "ann");
    assert_eq!(unnamed.project.name, "");
}
