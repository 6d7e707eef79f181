//! What has to happen to one dependency: where it goes, what it is pinned
//! to, and whether it is linked, cloned, converged or left alone.

use crate::config::{GlobalOptions, GlobalOptionsView};
use crate::error::{ErrorKind, SyncError, SyncErrorView};
use crate::manifest::{opt_str, TomlDependency, TomlDependencyView, TomlProject};
use crate::systools::{absolute_form, absolute_path, join_path, joined_path};
use crate::text::{opt_text, option_text};
use crate::url::{no_url_error, resolve_url, resolved_url};
use vstd::prelude::*;

verus! {

/// What a remote dependency is pinned to.
#[derive(Debug, PartialEq, Eq)]
pub enum RefSelector {
    Branch(String),
    Tag(String),
    Revision(String),
    /// Nothing is pinned: the remote's default branch.
    Default,
}

/// `RefSelector` as a plain value.
pub enum RefSelectorView {
    Branch(Seq<char>),
    Tag(Seq<char>),
    Revision(Seq<char>),
    Default,
}

impl View for RefSelector {
    type V = RefSelectorView;

    open spec fn view(&self) -> RefSelectorView {
        match self {
            RefSelector::Branch(name) => RefSelectorView::Branch(name@),
            RefSelector::Tag(name) => RefSelectorView::Tag(name@),
            RefSelector::Revision(id) => RefSelectorView::Revision(id@),
            RefSelector::Default => RefSelectorView::Default,
        }
    }
}

impl Clone for RefSelector {
    fn clone(&self) -> (copy: Self)
        ensures
            copy@ == self@,
    {
        match self {
            RefSelector::Branch(name) => RefSelector::Branch(name.clone()),
            RefSelector::Tag(name) => RefSelector::Tag(name.clone()),
            RefSelector::Revision(id) => RefSelector::Revision(id.clone()),
            RefSelector::Default => RefSelector::Default,
        }
    }
}

/// The selector of a dependency: the one of `branch`, `tag` and `rev` that
/// is set where exactly one is, else `Default`.
pub open spec fn selector_of(dep: TomlDependencyView) -> RefSelectorView {
    match (dep.branch, dep.tag, dep.rev) {
        (Some(name), None, None) => RefSelectorView::Branch(name),
        (None, Some(name), None) => RefSelectorView::Tag(name),
        (None, None, Some(id)) => RefSelectorView::Revision(id),
        _ => RefSelectorView::Default,
    }
}

/// More than one of `branch`, `tag` and `rev` is set.
pub open spec fn ref_is_ambiguous(dep: TomlDependencyView) -> bool {
    ||| dep.branch is Some && dep.tag is Some
    ||| dep.branch is Some && dep.rev is Some
    ||| dep.tag is Some && dep.rev is Some
}

/// The choices that a run leaves to its caller.
#[derive(Clone, Copy, Debug, PartialEq, Eq, Structural)]
pub struct SyncPolicy {
    /// Whether entries of the vendor directory that no dependency is named
    /// after are deleted.
    pub prune: bool,
    /// Whether a dependency with more than one of `branch`, `tag` and `rev`
    /// is refused. Where it is not, such a dependency counts as unpinned.
    pub reject_ambiguous_refs: bool,
}

/// What is reported where an ambiguous dependency is refused.
pub open spec fn ambiguous_ref_error() -> SyncErrorView {
    SyncErrorView {
        kind: ErrorKind::ResolutionError,
        detail: "more than one of branch, tag and rev"@,
    }
}

/// The selector of a dependency under a policy.
pub open spec fn checked_selector(dep: TomlDependencyView, policy: SyncPolicy) -> Result<
    RefSelectorView,
    SyncErrorView,
> {
    if policy.reject_ambiguous_refs && ref_is_ambiguous(dep) {
        Err(ambiguous_ref_error())
    } else {
        Ok(selector_of(dep))
    }
}

/// Whether more than one of `branch`, `tag` and `rev` is set.
pub fn has_ambiguous_ref(dep: &TomlDependency) -> (ambiguous: bool)
    ensures
        ambiguous == ref_is_ambiguous(dep@),
{
    let branch = dep.branch.is_some();
    let tag = dep.tag.is_some();
    let rev = dep.rev.is_some();
    (branch && tag) || (branch && rev) || (tag && rev)
}

/// The selector of a dependency.
pub fn ref_selector(dep: &TomlDependency) -> (selector: RefSelector)
    ensures
        selector@ == selector_of(dep@),
{
    match (&dep.branch, &dep.tag, &dep.rev) {
        (Some(name), None, None) => RefSelector::Branch(name.clone()),
        (None, Some(name), None) => RefSelector::Tag(name.clone()),
        (None, None, Some(id)) => RefSelector::Revision(id.clone()),
        _ => RefSelector::Default,
    }
}

/// The selector of a dependency under a policy: `ResolutionError` where the
/// policy refuses ambiguous dependencies and this is one.
pub fn check_ref_selector(dep: &TomlDependency, policy: SyncPolicy) -> (selector: Result<
    RefSelector,
    SyncError,
>)
    ensures
        match selector {
            Ok(selector) => checked_selector(dep@, policy) == Ok::<
                RefSelectorView,
                SyncErrorView,
            >(selector@),
            Err(error) => checked_selector(dep@, policy) == Err::<
                RefSelectorView,
                SyncErrorView,
            >(error@),
        },
{
    if policy.reject_ambiguous_refs && has_ambiguous_ref(dep) {
        Err(SyncError::new(ErrorKind::ResolutionError, "more than one of branch, tag and rev"))
    } else {
        Ok(ref_selector(dep))
    }
}

/// The vendor directory of a run: the project's own where it names one,
/// else the user's default.
pub open spec fn vendor_dir_of(lib_dir: Option<Seq<char>>, options: GlobalOptionsView) -> Seq<
    char,
> {
    match lib_dir {
        Some(dir) => dir,
        None => options.default_lib_dir,
    }
}

/// The vendor directory of a run.
pub fn vendor_dir(project: &TomlProject, options: &GlobalOptions) -> (dir: String)
    ensures
        dir@ == vendor_dir_of(opt_text(project.lib_dir), options@),
{
    match &project.lib_dir {
        Some(dir) => dir.clone(),
        None => options.general.default_lib_dir.clone(),
    }
}

/// Where a dependency goes: an entry in a directory.
#[derive(Debug, PartialEq, Eq)]
pub struct Destination {
    pub parent: String,
    pub entry: String,
}

/// `Destination` as a plain value.
pub struct DestinationView {
    pub parent: Seq<char>,
    pub entry: Seq<char>,
}

impl DestinationView {
    /// The destination as one path.
    pub open spec fn path(self) -> Seq<char> {
        joined_path(self.parent, self.entry)
    }
}

impl View for Destination {
    type V = DestinationView;

    open spec fn view(&self) -> DestinationView {
        DestinationView { parent: self.parent@, entry: self.entry@ }
    }
}

/// Where the dependency under `key` goes: into the directory that it names
/// with `into`, else into the vendor directory, under the name that it
/// gives with `name`, else under its key.
pub open spec fn destination_of(dep: TomlDependencyView, key: Seq<char>, vendor_dir: Seq<char>)
    -> DestinationView {
    DestinationView {
        parent: match dep.into {
            Some(dir) => dir,
            None => vendor_dir,
        },
        entry: match dep.name {
            Some(name) => name,
            None => key,
        },
    }
}

/// Where the dependency under `key` goes.
pub fn destination(dep: &TomlDependency, key: &str, vendor_dir: &str) -> (place: Destination)
    ensures
        place@ == destination_of(dep@, key@, vendor_dir@),
{
    Destination {
        parent: match &dep.into {
            Some(dir) => dir.clone(),
            None => vendor_dir.to_owned(),
        },
        entry: match &dep.name {
            Some(name) => name.clone(),
            None => key.to_owned(),
        },
    }
}

impl Destination {
    /// The destination as one path.
    pub fn path(&self) -> (path: String)
        ensures
            path@ == self@.path(),
    {
        join_path(self.parent.as_str(), self.entry.as_str())
    }
}

/// What is done about one dependency.
#[derive(Debug, PartialEq, Eq)]
pub enum DependencyPlan {
    /// A local dependency whose destination exists: nothing is done.
    Keep,
    /// A local dependency whose destination is missing: `link` becomes a
    /// symbolic link to `target`.
    Link { target: String, link: String },
    /// A remote dependency whose destination is missing: it is cloned.
    Clone { url: String, selector: RefSelector },
    /// A remote dependency whose destination exists: the checkout there is
    /// brought to what the selector names.
    Converge { url: String, selector: RefSelector },
}

/// `DependencyPlan` as a plain value.
pub enum DependencyPlanView {
    Keep,
    Link { target: Seq<char>, link: Seq<char> },
    Clone { url: Seq<char>, selector: RefSelectorView },
    Converge { url: Seq<char>, selector: RefSelectorView },
}

impl View for DependencyPlan {
    type V = DependencyPlanView;

    open spec fn view(&self) -> DependencyPlanView {
        match self {
            DependencyPlan::Keep => DependencyPlanView::Keep,
            DependencyPlan::Link { target, link } => DependencyPlanView::Link {
                target: target@,
                link: link@,
            },
            DependencyPlan::Clone { url, selector } => DependencyPlanView::Clone {
                url: url@,
                selector: selector@,
            },
            DependencyPlan::Converge { url, selector } => DependencyPlanView::Converge {
                url: url@,
                selector: selector@,
            },
        }
    }
}

/// What is done about the dependency under `key`, given whether its
/// destination exists.
///
/// A dependency with a `path` is local. It is linked where its destination
/// is missing, both ends of the link in absolute, cleaned form, and left
/// alone where the destination exists. Any other dependency is remote: its
/// URL is resolved, then its selector, and it is cloned where its
/// destination is missing and converged where it exists.
pub open spec fn plan_of(
    dep: TomlDependencyView,
    key: Seq<char>,
    vendor_dir: Seq<char>,
    git_server: Option<Seq<char>>,
    cwd: Seq<char>,
    exists: bool,
    policy: SyncPolicy,
) -> Result<DependencyPlanView, SyncErrorView> {
    match dep.path {
        Some(path) => if exists {
            Ok(DependencyPlanView::Keep)
        } else {
            Ok(
                DependencyPlanView::Link {
                    target: absolute_form(path, cwd),
                    link: absolute_form(destination_of(dep, key, vendor_dir).path(), cwd),
                },
            )
        },
        None => match resolved_url(git_server, dep.repo, dep.git) {
            None => Err(no_url_error()),
            Some(url) => match checked_selector(dep, policy) {
                Err(error) => Err(error),
                Ok(selector) => if exists {
                    Ok(DependencyPlanView::Converge { url, selector })
                } else {
                    Ok(DependencyPlanView::Clone { url, selector })
                },
            },
        },
    }
}

/// Decides what is done about the dependency under `key`. `exists` says
/// whether anything stands at its destination, and `cwd` is the working
/// directory against which relative paths are taken.
pub fn plan_dependency(
    dep: &TomlDependency,
    key: &str,
    vendor_dir: &str,
    git_server: Option<&str>,
    cwd: &str,
    exists: bool,
    policy: SyncPolicy,
) -> (plan: Result<DependencyPlan, SyncError>)
    ensures
        match plan {
            Ok(plan) => plan_of(
                dep@,
                key@,
                vendor_dir@,
                option_text(git_server),
                cwd@,
                exists,
                policy,
            ) == Ok::<DependencyPlanView, SyncErrorView>(plan@),
            Err(error) => plan_of(
                dep@,
                key@,
                vendor_dir@,
                option_text(git_server),
                cwd@,
                exists,
                policy,
            ) == Err::<DependencyPlanView, SyncErrorView>(error@),
        },
{
    match &dep.path {
        Some(path) => {
            if exists {
                Ok(DependencyPlan::Keep)
            } else {
                let place = destination(dep, key, vendor_dir);
                let link = place.path();
                Ok(
                    DependencyPlan::Link {
                        target: absolute_path(path.as_str(), cwd),
                        link: absolute_path(link.as_str(), cwd),
                    },
                )
            }
        },
        None => {
            let url = match resolve_url(git_server, opt_str(&dep.repo), opt_str(&dep.git)) {
                Ok(url) => url,
                Err(error) => {
                    return Err(error);
                },
            };
            let selector = match check_ref_selector(dep, policy) {
                Ok(selector) => selector,
                Err(error) => {
                    return Err(error);
                },
            };
            if exists {
                Ok(DependencyPlan::Converge { url, selector })
            } else {
                Ok(DependencyPlan::Clone { url, selector })
            }
        },
    }
}

/// How far the checkout of a remote dependency has come.
#[derive(Clone, Copy, Debug, PartialEq, Eq, Structural)]
pub enum CheckoutState {
    /// Nothing stands at the destination.
    Absent,
    /// The destination holds a fresh clone.
    Cloned,
    /// The destination has been brought to what the selector names.
    Converged,
}

impl CheckoutState {
    /// Whether something stands at the destination.
    pub open spec fn is_present(self) -> bool {
        self != CheckoutState::Absent
    }

    /// The state after a run that went through: a missing checkout has been
    /// cloned, one that was there has been converged.
    pub open spec fn next(self) -> CheckoutState {
        match self {
            CheckoutState::Absent => CheckoutState::Cloned,
            _ => CheckoutState::Converged,
        }
    }

    /// The state in which a plan, carried out, leaves a checkout.
    pub open spec fn after(self, plan: DependencyPlanView) -> CheckoutState {
        match plan {
            DependencyPlanView::Clone { .. } => CheckoutState::Cloned,
            DependencyPlanView::Converge { .. } => CheckoutState::Converged,
            _ => self,
        }
    }

    /// The state after a run that went through.
    pub fn advance(self) -> (state: CheckoutState)
        ensures
            state == self.next(),
    {
        match self {
            CheckoutState::Absent => CheckoutState::Cloned,
            _ => CheckoutState::Converged,
        }
    }
}

/// The plan for a remote dependency moves its checkout one step on: from
/// absent to cloned, from cloned or converged to converged. So a checkout
/// never goes back to absent, and a converged one stays converged run after
/// run.
pub proof fn lemma_plan_advances_checkout(
    dep: TomlDependencyView,
    key: Seq<char>,
    vendor_dir: Seq<char>,
    git_server: Option<Seq<char>>,
    cwd: Seq<char>,
    state: CheckoutState,
    policy: SyncPolicy,
)
    requires
        dep.path is None,
        plan_of(dep, key, vendor_dir, git_server, cwd, state.is_present(), policy) is Ok,
    ensures
        ({
            let plan = plan_of(
                dep,
                key,
                vendor_dir,
                git_server,
                cwd,
                state.is_present(),
                policy,
            )->Ok_0;
            &&& state.after(plan) == state.next()
            &&& state.next().is_present()
            &&& state.next().next() == CheckoutState::Converged
            &&& plan is Clone <==> state == CheckoutState::Absent
        }),
{
}

/// Two dependencies whose entry names differ go to different destinations;
/// and where both go into the same directory under names that are not
/// rooted paths, the paths of their destinations differ too.
pub proof fn lemma_distinct_names_give_distinct_destinations(
    first: DestinationView,
    second: DestinationView,
)
    requires
        first.entry != second.entry,
    ensures
        first != second,
        first.parent == second.parent && !crate::systools::is_rooted(first.entry)
            && !crate::systools::is_rooted(second.entry) ==> first.path() != second.path(),
{
    if first.parent == second.parent && !crate::systools::is_rooted(first.entry)
        && !crate::systools::is_rooted(second.entry) {
        let front = if first.parent.len() == 0 {
            first.parent
        } else if first.parent.last() == '/' {
            first.parent
        } else {
            first.parent + "/"@
        };
        assert(first.path() =~= front + first.entry);
        assert(second.path() =~= front + second.entry);
        if first.path() == second.path() {
            assert((front + first.entry).subrange(front.len() as int, first.path().len() as int)
                =~= first.entry);
            assert((front + second.entry).subrange(
                front.len() as int,
                second.path().len() as int,
            ) =~= second.entry);
            assert(false);
        }
    }
}

} // verus!
