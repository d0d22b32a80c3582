use vstd::prelude::*;

use crate::invocation::{Invocation, InvocationModel};
use crate::mode::OperationMode;
use crate::steps::{
    add_origin, git_add, git_commit, git_init, spec_add, spec_commit, spec_init, spec_remote,
    spec_update_clone, spec_update_local, spec_update_script, update_clone, update_local,
    update_script,
};

verus! {

/// What the add-commit-push operation should commit: an optional title (a
/// fixed placeholder stands in when it is absent), an optional further
/// message, and a flag that skips the commit step entirely.
#[derive(Clone, Debug, PartialEq)]
pub struct CommitSpec {
    pub title: Option<String>,
    pub message: Option<String>,
    pub skip: bool,
}

/// The placeholder title used whenever no commit title is supplied.
pub open spec fn spec_default_title() -> Seq<char> {
    "Auto-commit"@
}

/// One step of a workflow plan. `Run` is a fully determined invocation.
/// `Pull` and `Push` carry the optional branch override: the interpreter
/// resolves the branch at that point in the sequence — querying the tool
/// through `get_branch` when no override is given — and then runs the pull
/// or push invocation that `git_pull` or `git_push` builds for the resolved
/// name.
#[derive(Clone, Debug, PartialEq)]
pub enum Step {
    Run(Invocation),
    Pull(Option<String>, OperationMode),
    Push(Option<String>, OperationMode),
}

/// The mathematical image of a `Step`.
#[verifier::ext_equal]
pub ghost enum StepModel {
    Run(InvocationModel),
    Pull(Option<Seq<char>>, OperationMode),
    Push(Option<Seq<char>>, OperationMode),
}

impl View for Step {
    type V = StepModel;

    open spec fn view(&self) -> StepModel {
        match self {
            Step::Run(i) => StepModel::Run(i@),
            Step::Pull(b, m) => StepModel::Pull(b.deep_view(), *m),
            Step::Push(b, m) => StepModel::Push(b.deep_view(), *m),
        }
    }
}

impl DeepView for Step {
    type V = StepModel;

    open spec fn deep_view(&self) -> StepModel {
        self.view()
    }
}

// ---------------------------------------------------------------------------
// Plans, at the specification level
// ---------------------------------------------------------------------------

/// The initialize-and-link sequence. Always: initialize, stage-all. With a
/// remote location also: placeholder-titled first commit, registration of
/// the location as "origin", and a push to the resolved branch; without
/// one, the repository is left initialized but unlinked — no commit, no
/// registration, no push.
pub open spec fn spec_start_plan(
    url: Option<Seq<char>>,
    branch: Option<Seq<char>>,
    m: OperationMode,
) -> Seq<StepModel> {
    let setup = seq![StepModel::Run(spec_init()), StepModel::Run(spec_add(m))];
    match url {
        Some(u) => setup + seq![
            StepModel::Run(spec_commit("First commit"@, None, m)),
            StepModel::Run(spec_remote(u, m)),
            StepModel::Push(branch, m),
        ],
        None => setup,
    }
}

/// The add-commit-push sequence: stage-all; a commit under the given or
/// placeholder title unless skipped; a push to the resolved branch.
pub open spec fn spec_push_plan(
    title: Option<Seq<char>>,
    message: Option<Seq<char>>,
    skip: bool,
    branch: Option<Seq<char>>,
    m: OperationMode,
) -> Seq<StepModel> {
    let chosen = match title {
        Some(t) => t,
        None => spec_default_title(),
    };
    let commit_part = if skip {
        Seq::<StepModel>::empty()
    } else {
        seq![StepModel::Run(spec_commit(chosen, message, m))]
    };
    seq![StepModel::Run(spec_add(m))] + commit_part + seq![StepModel::Push(branch, m)]
}

/// The pull sequence: one pull from the resolved branch.
pub open spec fn spec_pull_plan(branch: Option<Seq<char>>, m: OperationMode) -> Seq<StepModel> {
    seq![StepModel::Pull(branch, m)]
}

/// The autonomous synchronize cycle run when no operation is named: pull,
/// stage-all, commit under the placeholder title, push — each pull and push
/// against the branch resolved at that step.
pub open spec fn spec_cycle_plan(m: OperationMode) -> Seq<StepModel> {
    seq![
        StepModel::Pull(None, m),
        StepModel::Run(spec_add(m)),
        StepModel::Run(spec_commit(spec_default_title(), None, m)),
        StepModel::Push(None, m),
    ]
}

// ---------------------------------------------------------------------------
// Executable plan builders
// ---------------------------------------------------------------------------

/// Plans the initialize-and-link operation described by `spec_start_plan`.
pub fn start(url: Option<&str>, branch: Option<String>, mode: &OperationMode) -> (r: Vec<Step>)
    ensures
        r.deep_view() == spec_start_plan(url.deep_view(), branch.deep_view(), *mode),
{
    let mut plan: Vec<Step> = Vec::new();
    plan.push(Step::Run(git_init()));
    plan.push(Step::Run(git_add(mode)));
    match url {
        Some(u) => {
            plan.push(Step::Run(git_commit("First commit", None, mode)));
            plan.push(Step::Run(add_origin(u, mode)));
            plan.push(Step::Push(branch, *mode));
        }
        None => {}
    }
    proof {
        assert(plan.deep_view() =~= spec_start_plan(
            url.deep_view(),
            branch.deep_view(),
            *mode,
        ));
    }
    plan
}

/// Plans the add-commit-push operation described by `spec_push_plan`.
pub fn push(commit: &CommitSpec, branch: Option<String>, mode: &OperationMode) -> (r: Vec<Step>)
    ensures
        r.deep_view() == spec_push_plan(
            commit.title.deep_view(),
            commit.message.deep_view(),
            commit.skip,
            branch.deep_view(),
            *mode,
        ),
{
    let mut plan: Vec<Step> = Vec::new();
    plan.push(Step::Run(git_add(mode)));
    if !commit.skip {
        let chosen: &str = match &commit.title {
            Some(t) => t.as_str(),
            None => "Auto-commit",
        };
        let message: Option<&str> = match &commit.message {
            Some(text) => Some(text.as_str()),
            None => None,
        };
        plan.push(Step::Run(git_commit(chosen, message, mode)));
    }
    plan.push(Step::Push(branch, *mode));
    proof {
        assert(plan.deep_view() =~= spec_push_plan(
            commit.title.deep_view(),
            commit.message.deep_view(),
            commit.skip,
            branch.deep_view(),
            *mode,
        ));
    }
    plan
}

/// Plans the pull operation described by `spec_pull_plan`.
pub fn pull(branch: Option<String>, mode: &OperationMode) -> (r: Vec<Step>)
    ensures
        r.deep_view() == spec_pull_plan(branch.deep_view(), *mode),
{
    let mut plan: Vec<Step> = Vec::new();
    plan.push(Step::Pull(branch, *mode));
    proof {
        assert(plan.deep_view() =~= spec_pull_plan(branch.deep_view(), *mode));
    }
    plan
}

/// Plans the autonomous synchronize cycle described by `spec_cycle_plan`.
pub fn elp_main(mode: &OperationMode) -> (r: Vec<Step>)
    ensures
        r.deep_view() == spec_cycle_plan(*mode),
{
    let mut plan: Vec<Step> = Vec::new();
    plan.push(Step::Pull(None, *mode));
    plan.push(Step::Run(git_add(mode)));
    plan.push(Step::Run(git_commit("Auto-commit", None, mode)));
    plan.push(Step::Push(None, *mode));
    proof {
        assert(plan.deep_view() =~= spec_cycle_plan(*mode));
    }
    plan
}

// ---------------------------------------------------------------------------
// Self-update
// ---------------------------------------------------------------------------

/// How the self-update operation runs on the host platform, selected once
/// at startup.
#[derive(Clone, Copy, Debug, PartialEq, Eq, Structural)]
pub enum UpdateStrategy {
    /// Run the locally installed update script and wait for it.
    LocalScript,
    /// Clone the distribution repository, then hand off to a script from
    /// the fresh copy without waiting; the caller then exits at once, so
    /// the detach-and-exit process shape is preserved.
    CloneThenDetach,
}

/// The self-update sequence for each strategy.
pub open spec fn spec_update_plan(
    strategy: UpdateStrategy,
    verbosity: u64,
) -> Seq<InvocationModel> {
    match strategy {
        UpdateStrategy::LocalScript => seq![spec_update_local(verbosity)],
        UpdateStrategy::CloneThenDetach => seq![
            spec_update_clone(),
            spec_update_script(verbosity),
        ],
    }
}

/// Plans the self-update operation: the waiting local-script run on one
/// platform family, or clone followed by a detached script on the other.
pub fn update(strategy: UpdateStrategy, verbosity: u64) -> (r: Vec<Invocation>)
    ensures
        r.deep_view() == spec_update_plan(strategy, verbosity),
{
    let mut plan: Vec<Invocation> = Vec::new();
    match strategy {
        UpdateStrategy::LocalScript => {
            plan.push(update_local(verbosity));
        }
        UpdateStrategy::CloneThenDetach => {
            plan.push(update_clone());
            plan.push(update_script(verbosity));
        }
    }
    proof {
        assert(plan.deep_view() =~= spec_update_plan(strategy, verbosity));
    }
    plan
}

// ---------------------------------------------------------------------------
// Laws relating the plans
// ---------------------------------------------------------------------------

/// Without a remote location, initialize-and-link issues exactly the two
/// setup steps — initialize and stage-all — whatever the branch override
/// and mode: no commit, no remote registration, and no push or pull step.
pub proof fn lemma_start_without_url(branch: Option<Seq<char>>, m: OperationMode)
    ensures
        spec_start_plan(None, branch, m) == seq![
            StepModel::Run(spec_init()),
            StepModel::Run(spec_add(m)),
        ],
        forall|i: int|
            0 <= i < spec_start_plan(None, branch, m).len()
                ==> spec_start_plan(None, branch, m)[i] is Run,
{
    assert forall|i: int|
        0 <= i < spec_start_plan(None, branch, m).len() implies spec_start_plan(
        None,
        branch,
        m,
    )[i] is Run by {
        assert(spec_start_plan(None, branch, m)[0] == StepModel::Run(spec_init()));
        assert(spec_start_plan(None, branch, m)[1] == StepModel::Run(spec_add(m)));
    }
}

/// With a remote location and no branch override, initialize-and-link
/// issues five steps in order — initialize, stage-all, a commit under the
/// fixed placeholder title, registration of the location as "origin", and
/// a push — and the push carries no override, so its branch is resolved
/// through the capture query.
pub proof fn lemma_start_with_url(u: Seq<char>, m: OperationMode)
    ensures
        spec_start_plan(Some(u), None, m) =~= seq![
            StepModel::Run(spec_init()),
            StepModel::Run(spec_add(m)),
            StepModel::Run(spec_commit("First commit"@, None, m)),
            StepModel::Run(spec_remote(u, m)),
            StepModel::Push(None, m),
        ],
{
}

/// A skipped commit leaves exactly stage-all and push, in that order: no
/// commit step occurs, whatever title and message were supplied.
pub proof fn lemma_push_skips_commit(
    title: Option<Seq<char>>,
    message: Option<Seq<char>>,
    branch: Option<Seq<char>>,
    m: OperationMode,
)
    ensures
        spec_push_plan(title, message, true, branch, m) =~= seq![
            StepModel::Run(spec_add(m)),
            StepModel::Push(branch, m),
        ],
{
}

} // verus!
