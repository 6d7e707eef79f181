//! What a run decides before it turns to the single dependencies: what
//! becomes of the vendor directory, which of its entries are stale, and
//! whether the operator is asked for a passphrase.

use crate::config::Context;
use crate::manifest::{DependencyEntry, DependencyTable, TomlManifest};
use crate::plan::SyncPolicy;
use crate::text::{opt_text, texts};
use crate::url::resolved_url;
use vstd::prelude::*;

verus! {

/// What becomes of the vendor directory at the start of a run.
#[derive(Clone, Copy, Debug, PartialEq, Eq, Structural)]
pub enum VendorPreparation {
    /// It is missing: create it.
    Create,
    /// It exists and a clean start is asked for: delete it with all that it
    /// holds, then create it anew.
    Recreate,
    /// It exists: leave it as it is.
    Keep,
}

/// What becomes of the vendor directory, given whether it exists and
/// whether a clean start is asked for.
pub open spec fn preparation_of(exists: bool, force: bool) -> VendorPreparation {
    if !exists {
        VendorPreparation::Create
    } else if force {
        VendorPreparation::Recreate
    } else {
        VendorPreparation::Keep
    }
}

/// Decides what becomes of the vendor directory.
pub fn prepare_vendor_dir(exists: bool, force: bool) -> (preparation: VendorPreparation)
    ensures
        preparation == preparation_of(exists, force),
{
    if !exists {
        VendorPreparation::Create
    } else if force {
        VendorPreparation::Recreate
    } else {
        VendorPreparation::Keep
    }
}

/// The entries that are named like none of `names`, in the order in which
/// `entries` lists them.
pub open spec fn stale_entries(entries: Seq<Seq<char>>, names: Seq<Seq<char>>) -> Seq<Seq<char>>
    decreases entries.len(),
{
    if entries.len() == 0 {
        Seq::<Seq<char>>::empty()
    } else {
        let before = stale_entries(entries.drop_last(), names);
        if names.contains(entries.last()) {
            before
        } else {
            before.push(entries.last())
        }
    }
}

/// The keys of a manifest's dependencies.
pub open spec fn manifest_keys(dependencies: Option<DependencyTable>) -> Seq<Seq<char>> {
    match dependencies {
        Some(table) => table.names(),
        None => Seq::<Seq<char>>::empty(),
    }
}

/// The entries to delete from the vendor directory under a policy: the
/// stale ones where the policy prunes, none where it does not.
pub open spec fn entries_to_prune(
    entries: Seq<Seq<char>>,
    names: Seq<Seq<char>>,
    policy: SyncPolicy,
) -> Seq<Seq<char>> {
    if policy.prune {
        stale_entries(entries, names)
    } else {
        Seq::<Seq<char>>::empty()
    }
}

/// An entry is stale exactly when the vendor directory holds it and no
/// dependency is named like it. So pruning deletes every orphan, and
/// touches no entry that a dependency is named after.
pub proof fn lemma_stale_entries_are_the_orphans(
    entries: Seq<Seq<char>>,
    names: Seq<Seq<char>>,
    entry: Seq<char>,
)
    ensures
        stale_entries(entries, names).contains(entry) <==> entries.contains(entry)
            && !names.contains(entry),
    decreases entries.len(),
{
    if entries.len() > 0 {
        let shorter = entries.drop_last();
        let before = stale_entries(shorter, names);
        lemma_stale_entries_are_the_orphans(shorter, names, entry);
        if entries.contains(entry) {
            let i = choose|i: int| 0 <= i < entries.len() && entries[i] == entry;
            if i < entries.len() - 1 {
                assert(shorter[i] == entry);
            }
        }
        if shorter.contains(entry) {
            let i = choose|i: int| 0 <= i < shorter.len() && shorter[i] == entry;
            assert(entries[i] == entry);
        }
        assert(entries[entries.len() - 1] == entries.last());
        if !names.contains(entries.last()) {
            let now = before.push(entries.last());
            if before.contains(entry) {
                let i = choose|i: int| 0 <= i < before.len() && before[i] == entry;
                assert(now[i] == entry);
            }
            assert(now[now.len() - 1] == entries.last());
            if now.contains(entry) {
                let i = choose|i: int| 0 <= i < now.len() && now[i] == entry;
                if i < before.len() {
                    assert(before[i] == entry);
                }
            }
        }
    }
}

/// Where every entry of the vendor directory is named after a dependency,
/// nothing is stale.
pub proof fn lemma_converged_directory_has_no_stale_entries(
    entries: Seq<Seq<char>>,
    names: Seq<Seq<char>>,
)
    requires
        forall|i: int| 0 <= i < entries.len() ==> names.contains(#[trigger] entries[i]),
    ensures
        stale_entries(entries, names) == Seq::<Seq<char>>::empty(),
    decreases entries.len(),
{
    if entries.len() > 0 {
        let shorter = entries.drop_last();
        assert forall|i: int| 0 <= i < shorter.len() implies names.contains(
            #[trigger] shorter[i],
        ) by {
            assert(shorter[i] == entries[i]);
        }
        lemma_converged_directory_has_no_stale_entries(shorter, names);
        assert(entries.last() == entries[entries.len() - 1]);
    }
}

/// The entries of the vendor directory to delete before the dependencies
/// are seen to. `entries` holds the names of what the directory holds.
pub fn prune_list(entries: &Vec<String>, manifest: &TomlManifest, policy: SyncPolicy) -> (doomed:
    Vec<String>)
    ensures
        texts(doomed@) == entries_to_prune(
            texts(entries@),
            manifest_keys(manifest.dependencies),
            policy,
        ),
{
    let mut doomed: Vec<String> = Vec::new();
    let ghost names = manifest_keys(manifest.dependencies);
    assert(texts(doomed@) =~= Seq::<Seq<char>>::empty());
    if !policy.prune {
        return doomed;
    }
    let mut i: usize = 0;
    assert(texts(entries@).take(0) =~= Seq::<Seq<char>>::empty());
    while i < entries.len()
        invariant
            i <= entries.len(),
            names == manifest_keys(manifest.dependencies),
            texts(doomed@) == stale_entries(texts(entries@).take(i as int), names),
        decreases entries.len() - i,
    {
        proof {
            assert(texts(entries@).take(i + 1).drop_last() =~= texts(entries@).take(i as int));
            assert(texts(entries@).take(i + 1).last() == entries@[i as int]@);
        }
        let named = match &manifest.dependencies {
            Some(table) => table.contains_name(entries[i].as_str()),
            None => {
                assert(!names.contains(entries@[i as int]@));
                false
            },
        };
        if !named {
            let ghost before = doomed@;
            doomed.push(entries[i].clone());
            assert(texts(doomed@) =~= texts(before).push(entries@[i as int]@));
        }
        i = i + 1;
    }
    assert(texts(entries@).take(entries.len() as int) =~= texts(entries@));
    doomed
}

/// A dependency that is fetched from a remote: it has no `path`, and its
/// URL can be resolved.
pub open spec fn is_fetched_remotely(entry: DependencyEntry, git_server: Option<Seq<char>>)
    -> bool {
    &&& entry.spec.path is None
    &&& resolved_url(git_server, opt_text(entry.spec.repo), opt_text(entry.spec.git)) is Some
}

/// Some of the entries is fetched from a remote.
pub open spec fn some_fetched_remotely(
    entries: Seq<DependencyEntry>,
    git_server: Option<Seq<char>>,
) -> bool {
    exists|i: int| 0 <= i < entries.len() && is_fetched_remotely(#[trigger] entries[i], git_server)
}

/// Some dependency of the manifest is fetched from a remote.
pub open spec fn remote_authentication_needed(manifest: TomlManifest) -> bool {
    match manifest.dependencies {
        Some(table) => some_fetched_remotely(
            table.entries(),
            opt_text(manifest.project.git_server),
        ),
        None => false,
    }
}

/// Whether some dependency of the manifest is fetched from a remote.
pub fn needs_remote_authentication(manifest: &TomlManifest) -> (needed: bool)
    ensures
        needed == remote_authentication_needed(*manifest),
{
    match &manifest.dependencies {
        None => false,
        Some(table) => {
            let has_server = manifest.project.git_server.is_some();
            let mut i: usize = 0;
            while i < table.len()
                invariant
                    i <= table.entries().len(),
                    manifest.dependencies == Some(*table),
                    has_server == manifest.project.git_server is Some,
                    forall|j: int|
                        0 <= j < i ==> !is_fetched_remotely(
                            #[trigger] table.entries()[j],
                            opt_text(manifest.project.git_server),
                        ),
                decreases table.entries().len() - i,
            {
                if let Some(entry) = table.entry(i) {
                    let spec = &entry.spec;
                    if spec.path.is_none() && (spec.git.is_some() || (spec.repo.is_some()
                        && has_server)) {
                        assert(is_fetched_remotely(
                            table.entries()[i as int],
                            opt_text(manifest.project.git_server),
                        ));
                        return true;
                    }
                }
                i = i + 1;
            }
            false
        },
    }
}

/// Whether the operator is asked for a passphrase before the dependencies
/// are seen to: some dependency is fetched from a remote, the configured
/// key is protected, and no passphrase has been given in this run.
pub fn must_ask_passphrase(manifest: &TomlManifest, context: &Context) -> (ask: bool)
    ensures
        ask == (remote_authentication_needed(*manifest) && context.passphrase_wanted()),
{
    needs_remote_authentication(manifest) && context.wants_passphrase()
}

} // verus!
