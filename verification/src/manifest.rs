//! The manifest of a project: its metadata and its dependencies by name.

use crate::lexical::{
    lemma_precedes_is_strict,
    lemma_precedes_is_transitive,
    precedes,
    rank_text,
    Rank,
};
use crate::text::{opt_text, option_text, same_text};
use vstd::prelude::*;

verus! {

/// A value of free-form package metadata. The library carries it through
/// and never looks inside.
#[verifier::external_type_specification]
#[verifier::external_body]
pub struct ExTomlValue(toml::Value);

/// What the manifest says of one dependency. `path` makes it a local
/// dependency; otherwise `git` or `repo` say where its repository is, and
/// at most one of `branch`, `tag` and `rev` pins what to check out. `into`
/// names another directory than the vendor directory, `name` another entry
/// name than the dependency's key.
#[derive(Debug, PartialEq, Eq)]
pub struct TomlDependency {
    pub path: Option<String>,
    pub repo: Option<String>,
    pub git: Option<String>,
    pub branch: Option<String>,
    pub tag: Option<String>,
    pub rev: Option<String>,
    pub into: Option<String>,
    pub name: Option<String>,
}

/// An optional string as an optional slice.
pub fn opt_str(s: &Option<String>) -> (slice: Option<&str>)
    ensures
        option_text(slice) == opt_text(*s),
{
    match s {
        Some(s) => Some(s.as_str()),
        None => None,
    }
}

/// A copy of an optional string.
pub fn copy_opt(s: &Option<String>) -> (copy: Option<String>)
    ensures
        opt_text(copy) == opt_text(*s),
{
    match s {
        Some(s) => Some(s.clone()),
        None => None,
    }
}

/// `TomlDependency` as a plain value.
pub struct TomlDependencyView {
    pub path: Option<Seq<char>>,
    pub repo: Option<Seq<char>>,
    pub git: Option<Seq<char>>,
    pub branch: Option<Seq<char>>,
    pub tag: Option<Seq<char>>,
    pub rev: Option<Seq<char>>,
    pub into: Option<Seq<char>>,
    pub name: Option<Seq<char>>,
}

impl View for TomlDependency {
    type V = TomlDependencyView;

    open spec fn view(&self) -> TomlDependencyView {
        TomlDependencyView {
            path: opt_text(self.path),
            repo: opt_text(self.repo),
            git: opt_text(self.git),
            branch: opt_text(self.branch),
            tag: opt_text(self.tag),
            rev: opt_text(self.rev),
            into: opt_text(self.into),
            name: opt_text(self.name),
        }
    }
}

impl Default for TomlDependency {
    /// A dependency of which nothing is said.
    fn default() -> (dep: TomlDependency)
        ensures
            dep.path is None,
            dep.repo is None,
            dep.git is None,
            dep.branch is None,
            dep.tag is None,
            dep.rev is None,
            dep.into is None,
            dep.name is None,
    {
        TomlDependency {
            path: None,
            repo: None,
            git: None,
            branch: None,
            tag: None,
            rev: None,
            into: None,
            name: None,
        }
    }
}

impl Clone for TomlDependency {
    fn clone(&self) -> (copy: Self)
        ensures
            copy@ == self@,
    {
        TomlDependency {
            path: copy_opt(&self.path),
            repo: copy_opt(&self.repo),
            git: copy_opt(&self.git),
            branch: copy_opt(&self.branch),
            tag: copy_opt(&self.tag),
            rev: copy_opt(&self.rev),
            into: copy_opt(&self.into),
            name: copy_opt(&self.name),
        }
    }
}

/// The `project` table of a manifest.
#[derive(Debug, PartialEq)]
pub struct TomlProject {
    pub name: String,
    pub lib_dir: Option<String>,
    pub git_server: Option<String>,
    pub authors: Option<Vec<String>>,
    pub description: Option<String>,
    pub homepage: Option<String>,
    pub repository: Option<String>,
    pub metadata: Option<toml::Value>,
}

/// One dependency under its key.
#[derive(Debug, PartialEq, Eq)]
pub struct DependencyEntry {
    pub name: String,
    pub spec: TomlDependency,
}

/// Each name comes before all that follow it: the names are in dictionary
/// order, and none occurs twice.
pub open spec fn increasing(names: Seq<Seq<char>>) -> bool {
    forall|i: int, j: int| 0 <= i < j < names.len() ==> precedes(names[i], names[j])
}

/// The dependencies of a manifest, by key and in the order of their keys.
#[derive(Debug, PartialEq, Eq)]
pub struct DependencyTable {
    entries: Vec<DependencyEntry>,
}

impl DependencyTable {
    /// The entries, in order.
    pub closed spec fn entries(&self) -> Seq<DependencyEntry> {
        self.entries@
    }

    /// The keys, in order.
    pub open spec fn names(&self) -> Seq<Seq<char>> {
        Seq::new(self.entries().len(), |i: int| self.entries()[i].name@)
    }

    /// The keys are in dictionary order, and none occurs twice. Every table
    /// that a program holds is well formed.
    pub open spec fn well_formed(&self) -> bool {
        increasing(self.names())
    }

    #[verifier::type_invariant]
    closed spec fn ordered(&self) -> bool {
        self.well_formed()
    }

    /// The empty table.
    pub fn new() -> (table: DependencyTable)
        ensures
            table.entries() == Seq::<DependencyEntry>::empty(),
            table.well_formed(),
    {
        DependencyTable { entries: Vec::new() }
    }

    /// The number of dependencies.
    pub fn len(&self) -> (n: usize)
        ensures
            n == self.entries().len(),
            self.well_formed(),
    {
        proof {
            use_type_invariant(self);
        }
        self.entries.len()
    }

    /// The entry at a position, if the table has that many.
    pub fn entry(&self, i: usize) -> (entry: Option<&DependencyEntry>)
        ensures
            match entry {
                Some(entry) => i < self.entries().len() && *entry == self.entries()[i as int],
                None => i >= self.entries().len(),
            },
    {
        if i < self.entries.len() {
            Some(&self.entries[i])
        } else {
            None
        }
    }

    /// The dependency under `name`, if there is one.
    pub fn get(&self, name: &str) -> (found: Option<&TomlDependency>)
        ensures
            match found {
                Some(spec) => exists|i: int|
                    {
                        &&& 0 <= i < self.entries().len()
                        &&& #[trigger] self.names()[i] == name@
                        &&& self.entries()[i].spec == *spec
                        &&& forall|j: int| 0 <= j < i ==> self.names()[j] != name@
                    },
                None => !self.names().contains(name@),
            },
    {
        let mut i: usize = 0;
        while i < self.entries.len()
            invariant
                i <= self.entries.len(),
                forall|j: int| 0 <= j < i ==> self.names()[j] != name@,
            decreases self.entries.len() - i,
        {
            if same_text(self.entries[i].name.as_str(), name) {
                assert(self.names()[i as int] == name@);
                return Some(&self.entries[i].spec);
            }
            i = i + 1;
        }
        None
    }

    /// Whether there is a dependency under `name`.
    pub fn contains_name(&self, name: &str) -> (yes: bool)
        ensures
            yes == self.names().contains(name@),
    {
        match self.get(name) {
            Some(_) => {
                let ghost i = choose|i: int|
                    0 <= i < self.entries().len() && #[trigger] self.names()[i] == name@;
                assert(self.names()[i] == name@);
                true
            },
            None => false,
        }
    }

    /// Puts a dependency under `name`. Where the table has one under that
    /// name already, the new one takes its place and the old one is handed
    /// back; otherwise the new entry goes where the order of keys puts it.
    pub fn insert(&mut self, name: String, spec: TomlDependency) -> (previous: Option<
        TomlDependency,
    >)
        ensures
            final(self).well_formed(),
            match previous {
                Some(replaced) => exists|i: int|
                    {
                        &&& 0 <= i < old(self).entries().len()
                        &&& #[trigger] old(self).names()[i] == name@
                        &&& old(self).entries()[i].spec == replaced
                        &&& final(self).entries() == old(self).entries().update(
                            i,
                            DependencyEntry { name, spec },
                        )
                    },
                None => {
                    &&& !old(self).names().contains(name@)
                    &&& exists|i: int|
                        {
                            &&& 0 <= i <= old(self).entries().len()
                            &&& #[trigger] final(self).entries() == old(self).entries().insert(
                                i,
                                DependencyEntry { name, spec },
                            )
                        }
                },
            },
    {
        proof {
            use_type_invariant(&*self);
        }
        let ghost before = self.entries();
        let ghost names = self.names();
        let mut at: usize = 0;
        let mut hit: bool = false;
        while at < self.entries.len()
            invariant_except_break
                !hit,
            invariant
                self.entries() == before,
                self.names() == names,
                increasing(names),
                at <= before.len(),
                forall|j: int| 0 <= j < at ==> precedes(names[j], name@),
            ensures
                at <= before.len(),
                forall|j: int| 0 <= j < at ==> precedes(names[j], name@),
                hit ==> at < before.len() && names[at as int] == name@,
                !hit ==> forall|j: int| at <= j < before.len() ==> precedes(name@, names[j]),
            decreases self.entries.len() - at,
        {
            let rank = rank_text(self.entries[at].name.as_str(), name.as_str());
            assert(names[at as int] == before[at as int].name@);
            match rank {
                Rank::Before => {
                    at = at + 1;
                },
                Rank::Same => {
                    hit = true;
                    break ;
                },
                Rank::After => {
                    proof {
                        assert forall|j: int| at <= j < before.len() implies precedes(
                            name@,
                            names[j],
                        ) by {
                            if at < j {
                                lemma_precedes_is_transitive(name@, names[at as int], names[j]);
                            }
                        }
                    }
                    break ;
                },
            }
        }
        let entry = DependencyEntry { name, spec };
        let mut entries: Vec<DependencyEntry> = Vec::new();
        std::mem::swap(&mut entries, &mut self.entries);
        if hit {
            let replaced = entries.remove(at);
            entries.insert(at, entry);
            proof {
                assert(entries@ =~= before.update(at as int, entry));
                let after = Seq::new(entries@.len(), |i: int| entries@[i].name@);
                assert(after =~= names);
            }
            self.entries = entries;
            Some(replaced.spec)
        } else {
            entries.insert(at, entry);
            proof {
                assert(entries@ == before.insert(at as int, entry));
                let after = Seq::new(entries@.len(), |i: int| entries@[i].name@);
                assert forall|i: int, j: int| 0 <= i < j < after.len() implies precedes(
                    after[i],
                    after[j],
                ) by {
                    let a = if i < at { i } else { i - 1 };
                    let b = if j < at { j } else { j - 1 };
                    if i != at {
                        assert(after[i] == names[a]);
                    }
                    if j != at {
                        assert(after[j] == names[b]);
                    }
                }
                assert forall|j: int| 0 <= j < names.len() implies names[j] != name@ by {
                    lemma_precedes_is_strict(names[j], name@);
                    lemma_precedes_is_strict(name@, names[j]);
                }
            }
            self.entries = entries;
            None
        }
    }
}

/// In a well-formed table no key occurs at two positions.
pub proof fn lemma_keys_are_distinct(table: DependencyTable, i: int, j: int)
    requires
        table.well_formed(),
        0 <= i < table.entries().len(),
        0 <= j < table.entries().len(),
        i != j,
    ensures
        table.names()[i] != table.names()[j],
{
    let names = table.names();
    if i < j {
        lemma_precedes_is_strict(names[i], names[j]);
    } else {
        lemma_precedes_is_strict(names[j], names[i]);
    }
}

/// A manifest: the project and, where it has any, its dependencies.
#[derive(Debug, PartialEq)]
pub struct TomlManifest {
    pub project: TomlProject,
    pub dependencies: Option<DependencyTable>,
}

impl TomlManifest {
    /// The manifest of a fresh project: its name, one author, and nothing
    /// else.
    pub fn skeleton(project_name: &str, author: &str) -> (manifest: TomlManifest)
        ensures
            manifest.project.name@ == project_name@,
            manifest.project.authors matches Some(authors) && authors@.len() == 1
                && authors@[0]@ == author@,
            manifest.project.lib_dir is None,
            manifest.project.git_server is None,
            manifest.project.description is None,
            manifest.project.homepage is None,
            manifest.project.repository is None,
            manifest.project.metadata is None,
            manifest.dependencies is None,
    {
        let mut authors: Vec<String> = Vec::new();
        authors.push(author.to_owned());
        TomlManifest {
            project: TomlProject {
                name: project_name.to_owned(),
                lib_dir: None,
                git_server: None,
                authors: Some(authors),
                description: None,
                homepage: None,
                repository: None,
                metadata: None,
            },
            dependencies: None,
        }
    }
}

} // verus!
