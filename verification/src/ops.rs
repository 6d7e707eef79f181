//! The operations that carry a plan out, in the order in which they run.
//! The caller performs them one by one and stops at the first that fails.

use crate::error::{SyncError, SyncErrorView};
use crate::manifest::{TomlDependency, TomlDependencyView};
use crate::plan::{
    destination,
    destination_of,
    plan_dependency,
    plan_of,
    DependencyPlan,
    DependencyPlanView,
    Destination,
    DestinationView,
    RefSelector,
    RefSelectorView,
    SyncPolicy,
};
use crate::systools::absolute_form;
use crate::text::option_text;
use vstd::prelude::*;

verus! {

/// One operation on the filesystem or on the version-control backend. The
/// backend operations after `Clone` or `Open` work on the checkout that it
/// made or opened; `ResetHard` resets to what the `Resolve` operation
/// before it found.
#[derive(Debug, PartialEq, Eq)]
pub enum SyncOp {
    /// Create the directory, with its parents, unless it exists.
    EnsureDirectory { path: String },
    /// Make `link` a symbolic link to `target`.
    Link { target: String, link: String },
    /// Create the directory, with its parents.
    CreateDirectory { path: String },
    /// Clone `url` into `into`, checking out `branch` where one is given
    /// and the remote's default branch otherwise.
    Clone { url: String, into: String, branch: Option<String> },
    /// Open the checkout at `path`.
    Open { path: String },
    /// Fetch from the remote what the refspec names.
    Fetch { refspec: String },
    /// Fetch what the remote is configured to fetch and check the head out
    /// again, leaving local content as it is.
    Refresh,
    /// Find the tip of the local branch with the given full name.
    ResolveBranch { reference: String },
    /// Find the commit that the tag with the given full name points to.
    ResolveTag { reference: String },
    /// Find the commit with the given id.
    ResolveCommit { id: String },
    /// Reset the working tree to what was found, dropping local changes and
    /// untracked files, and move the head there.
    ResetHard,
}

/// `SyncOp` as a plain value.
pub enum SyncOpView {
    EnsureDirectory { path: Seq<char> },
    Link { target: Seq<char>, link: Seq<char> },
    CreateDirectory { path: Seq<char> },
    Clone { url: Seq<char>, into: Seq<char>, branch: Option<Seq<char>> },
    Open { path: Seq<char> },
    Fetch { refspec: Seq<char> },
    Refresh,
    ResolveBranch { reference: Seq<char> },
    ResolveTag { reference: Seq<char> },
    ResolveCommit { id: Seq<char> },
    ResetHard,
}

impl View for SyncOp {
    type V = SyncOpView;

    open spec fn view(&self) -> SyncOpView {
        match self {
            SyncOp::EnsureDirectory { path } => SyncOpView::EnsureDirectory { path: path@ },
            SyncOp::Link { target, link } => SyncOpView::Link { target: target@, link: link@ },
            SyncOp::CreateDirectory { path } => SyncOpView::CreateDirectory { path: path@ },
            SyncOp::Clone { url, into, branch } => SyncOpView::Clone {
                url: url@,
                into: into@,
                branch: match branch {
                    Some(name) => Some(name@),
                    None => None,
                },
            },
            SyncOp::Open { path } => SyncOpView::Open { path: path@ },
            SyncOp::Fetch { refspec } => SyncOpView::Fetch { refspec: refspec@ },
            SyncOp::Refresh => SyncOpView::Refresh,
            SyncOp::ResolveBranch { reference } => SyncOpView::ResolveBranch {
                reference: reference@,
            },
            SyncOp::ResolveTag { reference } => SyncOpView::ResolveTag { reference: reference@ },
            SyncOp::ResolveCommit { id } => SyncOpView::ResolveCommit { id: id@ },
            SyncOp::ResetHard => SyncOpView::ResetHard,
        }
    }
}

/// The views of a sequence of operations.
pub open spec fn op_views(ops: Seq<SyncOp>) -> Seq<SyncOpView> {
    Seq::new(ops.len(), |i: int| ops[i]@)
}

/// The full name of a branch as a reference.
pub open spec fn branch_reference(name: Seq<char>) -> Seq<char> {
    "refs/heads/"@ + name
}

/// The full name of a tag as a reference.
pub open spec fn tag_reference(name: Seq<char>) -> Seq<char> {
    "refs/tags/"@ + name
}

/// The refspec that fetches a branch of the remote into the local branch of
/// the same name.
pub open spec fn branch_refspec(name: Seq<char>) -> Seq<char> {
    branch_reference(name) + ":"@ + branch_reference(name)
}

/// The refspec that fetches a tag: its full name.
pub open spec fn tag_refspec(name: Seq<char>) -> Seq<char> {
    tag_reference(name)
}

/// The branch that a clone checks out: the selector's where it names one,
/// else none, which leaves the choice to the remote.
pub open spec fn clone_branch(selector: RefSelectorView) -> Option<Seq<char>> {
    match selector {
        RefSelectorView::Branch(name) => Some(name),
        _ => None,
    }
}

/// The operations that bring an open checkout to what a selector names. A
/// branch or a tag is fetched, found by its full name and reset to; a
/// revision is found by its id, without a fetch, and reset to; with nothing
/// pinned the checkout is only refreshed.
pub open spec fn ensure_ref_ops(selector: RefSelectorView) -> Seq<SyncOpView> {
    match selector {
        RefSelectorView::Branch(name) => seq![
            SyncOpView::Fetch { refspec: branch_refspec(name) },
            SyncOpView::ResolveBranch { reference: branch_reference(name) },
            SyncOpView::ResetHard,
        ],
        RefSelectorView::Tag(name) => seq![
            SyncOpView::Fetch { refspec: tag_refspec(name) },
            SyncOpView::ResolveTag { reference: tag_reference(name) },
            SyncOpView::ResetHard,
        ],
        RefSelectorView::Revision(id) => seq![
            SyncOpView::ResolveCommit { id },
            SyncOpView::ResetHard,
        ],
        RefSelectorView::Default => seq![SyncOpView::Refresh],
    }
}

/// The operations that follow a clone: none for a branch, which the clone
/// itself checks out, and none where nothing is pinned; for a tag or a
/// revision those of `ensure_ref_ops`.
pub open spec fn after_clone_ops(selector: RefSelectorView) -> Seq<SyncOpView> {
    match selector {
        RefSelectorView::Tag(_) => ensure_ref_ops(selector),
        RefSelectorView::Revision(_) => ensure_ref_ops(selector),
        _ => Seq::<SyncOpView>::empty(),
    }
}

/// The operations of a plan for a dependency that goes to `place`. First
/// the directory that holds the destination is made sure of; then comes
/// what the plan asks for.
pub open spec fn operations_of(plan: DependencyPlanView, place: DestinationView) -> Seq<
    SyncOpView,
> {
    let first = seq![SyncOpView::EnsureDirectory { path: place.parent }];
    match plan {
        DependencyPlanView::Keep => first,
        DependencyPlanView::Link { target, link } => first.push(SyncOpView::Link { target, link }),
        DependencyPlanView::Clone { url, selector } => first.push(
            SyncOpView::CreateDirectory { path: place.path() },
        ).push(SyncOpView::Clone { url, into: place.path(), branch: clone_branch(selector) })
            + after_clone_ops(selector),
        DependencyPlanView::Converge { url, selector } => first.push(
            SyncOpView::Open { path: place.path() },
        ) + ensure_ref_ops(selector),
    }
}

/// Appends one operation.
fn push_op(ops: &mut Vec<SyncOp>, op: SyncOp)
    ensures
        op_views(final(ops)@) == op_views(old(ops)@).push(op@),
{
    ops.push(op);
    assert(op_views(ops@) =~= op_views(old(ops)@).push(op@));
}

/// Appends the operations that bring an open checkout to what `selector`
/// names.
fn push_ensure_ref(ops: &mut Vec<SyncOp>, selector: &RefSelector)
    ensures
        op_views(final(ops)@) == op_views(old(ops)@) + ensure_ref_ops(selector@),
{
    match selector {
        RefSelector::Branch(name) => {
            let mut reference = "refs/heads/".to_owned();
            reference.append(name.as_str());
            let mut refspec = reference.clone();
            refspec.append(":");
            refspec.append(reference.as_str());
            push_op(ops, SyncOp::Fetch { refspec });
            push_op(ops, SyncOp::ResolveBranch { reference });
            push_op(ops, SyncOp::ResetHard);
        },
        RefSelector::Tag(name) => {
            let mut reference = "refs/tags/".to_owned();
            reference.append(name.as_str());
            push_op(ops, SyncOp::Fetch { refspec: reference.clone() });
            push_op(ops, SyncOp::ResolveTag { reference });
            push_op(ops, SyncOp::ResetHard);
        },
        RefSelector::Revision(id) => {
            push_op(ops, SyncOp::ResolveCommit { id: id.clone() });
            push_op(ops, SyncOp::ResetHard);
        },
        RefSelector::Default => {
            push_op(ops, SyncOp::Refresh);
        },
    }
    assert(op_views(ops@) =~= op_views(old(ops)@) + ensure_ref_ops(selector@));
}

/// The operations of a plan for a dependency that goes to `place`, in the
/// order in which they run.
pub fn operations(plan: &DependencyPlan, place: &Destination) -> (ops: Vec<SyncOp>)
    ensures
        op_views(ops@) == operations_of(plan@, place@),
{
    let mut ops: Vec<SyncOp> = Vec::new();
    assert(op_views(ops@) =~= Seq::<SyncOpView>::empty());
    push_op(&mut ops, SyncOp::EnsureDirectory { path: place.parent.clone() });
    match plan {
        DependencyPlan::Keep => {},
        DependencyPlan::Link { target, link } => {
            push_op(&mut ops, SyncOp::Link { target: target.clone(), link: link.clone() });
        },
        DependencyPlan::Clone { url, selector } => {
            push_op(&mut ops, SyncOp::CreateDirectory { path: place.path() });
            let branch = match selector {
                RefSelector::Branch(name) => Some(name.clone()),
                _ => None,
            };
            push_op(&mut ops, SyncOp::Clone { url: url.clone(), into: place.path(), branch });
            match selector {
                RefSelector::Tag(_) => {
                    push_ensure_ref(&mut ops, selector);
                },
                RefSelector::Revision(_) => {
                    push_ensure_ref(&mut ops, selector);
                },
                _ => {},
            }
        },
        DependencyPlan::Converge { url, selector } => {
            push_op(&mut ops, SyncOp::Open { path: place.path() });
            push_ensure_ref(&mut ops, selector);
        },
    }
    assert(op_views(ops@) =~= operations_of(plan@, place@));
    ops
}

/// The operations for the dependency under `key`, given whether its
/// destination exists: those of its plan, at its destination.
pub open spec fn dependency_operations_of(
    dep: TomlDependencyView,
    key: Seq<char>,
    vendor_dir: Seq<char>,
    git_server: Option<Seq<char>>,
    cwd: Seq<char>,
    exists: bool,
    policy: SyncPolicy,
) -> Result<Seq<SyncOpView>, SyncErrorView> {
    match plan_of(dep, key, vendor_dir, git_server, cwd, exists, policy) {
        Ok(plan) => Ok(operations_of(plan, destination_of(dep, key, vendor_dir))),
        Err(error) => Err(error),
    }
}

/// Plans the dependency under `key` and lists the operations that carry
/// the plan out. `exists` says whether anything stands at the path of
/// `destination(dep, key, vendor_dir)`.
pub fn dependency_operations(
    dep: &TomlDependency,
    key: &str,
    vendor_dir: &str,
    git_server: Option<&str>,
    cwd: &str,
    exists: bool,
    policy: SyncPolicy,
) -> (ops: Result<Vec<SyncOp>, SyncError>)
    ensures
        match ops {
            Ok(ops) => dependency_operations_of(
                dep@,
                key@,
                vendor_dir@,
                option_text(git_server),
                cwd@,
                exists,
                policy,
            ) == Ok::<Seq<SyncOpView>, SyncErrorView>(op_views(ops@)),
            Err(error) => dependency_operations_of(
                dep@,
                key@,
                vendor_dir@,
                option_text(git_server),
                cwd@,
                exists,
                policy,
            ) == Err::<Seq<SyncOpView>, SyncErrorView>(error@),
        },
{
    let place = destination(dep, key, vendor_dir);
    match plan_dependency(dep, key, vendor_dir, git_server, cwd, exists, policy) {
        Ok(plan) => Ok(operations(&plan, &place)),
        Err(error) => Err(error),
    }
}

/// An operation that puts something where the destination was missing.
pub open spec fn makes_destination(op: SyncOpView) -> bool {
    op is Link || op is CreateDirectory || op is Clone
}

/// An operation that looks a tag or a revision up.
pub open spec fn looks_up_tag_or_revision(op: SyncOpView) -> bool {
    op is ResolveTag || op is ResolveCommit
}

/// A dependency whose destination exists is never cloned or linked again:
/// none of its operations puts anything at the destination.
pub proof fn lemma_existing_destination_is_kept(
    dep: TomlDependencyView,
    key: Seq<char>,
    vendor_dir: Seq<char>,
    git_server: Option<Seq<char>>,
    cwd: Seq<char>,
    policy: SyncPolicy,
    place: DestinationView,
)
    requires
        plan_of(dep, key, vendor_dir, git_server, cwd, true, policy) is Ok,
    ensures
        ({
            let plan = plan_of(dep, key, vendor_dir, git_server, cwd, true, policy)->Ok_0;
            forall|i: int|
                0 <= i < operations_of(plan, place).len() ==> !makes_destination(
                    #[trigger] operations_of(plan, place)[i],
                )
        }),
{
}

/// Whether a plan can be made does not depend on whether the destination
/// exists: the same dependency fails with the same error either way.
pub proof fn lemma_errors_ignore_existence(
    dep: TomlDependencyView,
    key: Seq<char>,
    vendor_dir: Seq<char>,
    git_server: Option<Seq<char>>,
    cwd: Seq<char>,
    policy: SyncPolicy,
)
    ensures
        plan_of(dep, key, vendor_dir, git_server, cwd, true, policy) is Err <==> plan_of(
            dep,
            key,
            vendor_dir,
            git_server,
            cwd,
            false,
            policy,
        ) is Err,
        plan_of(dep, key, vendor_dir, git_server, cwd, true, policy) is Err ==> plan_of(
            dep,
            key,
            vendor_dir,
            git_server,
            cwd,
            true,
            policy,
        ) == plan_of(dep, key, vendor_dir, git_server, cwd, false, policy),
{
}

/// A remote dependency pinned by a branch alone is cloned with that branch
/// where its destination is missing, has that branch fetched where it
/// exists, and never has a tag or a revision looked up.
pub proof fn lemma_branch_pin_targets_branch(
    dep: TomlDependencyView,
    key: Seq<char>,
    vendor_dir: Seq<char>,
    git_server: Option<Seq<char>>,
    cwd: Seq<char>,
    exists: bool,
    policy: SyncPolicy,
    place: DestinationView,
)
    requires
        dep.path is None,
        dep.branch is Some,
        dep.tag is None,
        dep.rev is None,
        plan_of(dep, key, vendor_dir, git_server, cwd, exists, policy) is Ok,
    ensures
        ({
            let plan = plan_of(dep, key, vendor_dir, git_server, cwd, exists, policy)->Ok_0;
            let ops = operations_of(plan, place);
            let url = crate::url::resolved_url(git_server, dep.repo, dep.git)->Some_0;
            let branch = dep.branch->Some_0;
            &&& forall|i: int| 0 <= i < ops.len() ==> !looks_up_tag_or_revision(#[trigger] ops[i])
            &&& !exists ==> ops == seq![
                SyncOpView::EnsureDirectory { path: place.parent },
                SyncOpView::CreateDirectory { path: place.path() },
                SyncOpView::Clone { url, into: place.path(), branch: Some(branch) },
            ]
            &&& exists ==> ops == seq![
                SyncOpView::EnsureDirectory { path: place.parent },
                SyncOpView::Open { path: place.path() },
                SyncOpView::Fetch { refspec: branch_refspec(branch) },
                SyncOpView::ResolveBranch { reference: branch_reference(branch) },
                SyncOpView::ResetHard,
            ]
        }),
{
    let plan = plan_of(dep, key, vendor_dir, git_server, cwd, exists, policy)->Ok_0;
    let ops = operations_of(plan, place);
    let url = crate::url::resolved_url(git_server, dep.repo, dep.git)->Some_0;
    let branch = dep.branch->Some_0;
    if exists {
        assert(ops =~= seq![
            SyncOpView::EnsureDirectory { path: place.parent },
            SyncOpView::Open { path: place.path() },
            SyncOpView::Fetch { refspec: branch_refspec(branch) },
            SyncOpView::ResolveBranch { reference: branch_reference(branch) },
            SyncOpView::ResetHard,
        ]);
    } else {
        assert(ops =~= seq![
            SyncOpView::EnsureDirectory { path: place.parent },
            SyncOpView::CreateDirectory { path: place.path() },
            SyncOpView::Clone { url, into: place.path(), branch: Some(branch) },
        ]);
    }
}

/// A remote dependency with nothing pinned, and with a missing destination,
/// is cloned without a branch, so that the remote's default is checked out,
/// and nothing is fetched or looked up afterwards.
pub proof fn lemma_unpinned_clone_takes_default(
    dep: TomlDependencyView,
    key: Seq<char>,
    vendor_dir: Seq<char>,
    git_server: Option<Seq<char>>,
    cwd: Seq<char>,
    policy: SyncPolicy,
    place: DestinationView,
)
    requires
        dep.path is None,
        dep.branch is None,
        dep.tag is None,
        dep.rev is None,
        plan_of(dep, key, vendor_dir, git_server, cwd, false, policy) is Ok,
    ensures
        ({
            let plan = plan_of(dep, key, vendor_dir, git_server, cwd, false, policy)->Ok_0;
            let url = crate::url::resolved_url(git_server, dep.repo, dep.git)->Some_0;
            operations_of(plan, place) == seq![
                SyncOpView::EnsureDirectory { path: place.parent },
                SyncOpView::CreateDirectory { path: place.path() },
                SyncOpView::Clone { url, into: place.path(), branch: None },
            ]
        }),
{
    let plan = plan_of(dep, key, vendor_dir, git_server, cwd, false, policy)->Ok_0;
    let url = crate::url::resolved_url(git_server, dep.repo, dep.git)->Some_0;
    assert(operations_of(plan, place) =~= seq![
        SyncOpView::EnsureDirectory { path: place.parent },
        SyncOpView::CreateDirectory { path: place.path() },
        SyncOpView::Clone { url, into: place.path(), branch: None },
    ]);
}

/// A local dependency with a missing destination gets exactly one link,
/// from its destination to the absolute, cleaned form of its path; one
/// whose destination exists gets nothing beyond the directory check.
pub proof fn lemma_local_dependency_is_linked_once(
    dep: TomlDependencyView,
    key: Seq<char>,
    vendor_dir: Seq<char>,
    git_server: Option<Seq<char>>,
    cwd: Seq<char>,
    exists: bool,
    policy: SyncPolicy,
)
    requires
        dep.path is Some,
    ensures
        ({
            let place = destination_of(dep, key, vendor_dir);
            let plan = plan_of(dep, key, vendor_dir, git_server, cwd, exists, policy);
            &&& plan is Ok
            &&& !exists ==> operations_of(plan->Ok_0, place) == seq![
                SyncOpView::EnsureDirectory { path: place.parent },
                SyncOpView::Link {
                    target: absolute_form(dep.path->Some_0, cwd),
                    link: absolute_form(place.path(), cwd),
                },
            ]
            &&& exists ==> operations_of(plan->Ok_0, place) == seq![
                SyncOpView::EnsureDirectory { path: place.parent },
            ]
        }),
{
    let place = destination_of(dep, key, vendor_dir);
    let plan = plan_of(dep, key, vendor_dir, git_server, cwd, exists, policy);
    if !exists {
        assert(operations_of(plan->Ok_0, place) =~= seq![
            SyncOpView::EnsureDirectory { path: place.parent },
            SyncOpView::Link {
                target: absolute_form(dep.path->Some_0, cwd),
                link: absolute_form(place.path(), cwd),
            },
        ]);
    }
}

} // verus!
