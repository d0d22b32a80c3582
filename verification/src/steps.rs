use vstd::prelude::*;
use vstd::string::StringExecFns;

use crate::invocation::{git, git_model, ExecKind, Invocation, InvocationModel};
use crate::mode::{mode_flags, spec_mode_flags, OperationMode};

verus! {

// ---------------------------------------------------------------------------
// Argument lists, at the specification level
// ---------------------------------------------------------------------------

/// Arguments that initialize a fresh repository.
pub open spec fn spec_init_args() -> Seq<Seq<char>> {
    seq!["init"@]
}

/// Arguments that stage every working-directory change.
pub open spec fn spec_add_args(m: OperationMode) -> Seq<Seq<char>> {
    seq!["add"@, "-A"@] + spec_mode_flags(m)
}

/// Arguments that record a commit titled `title`, with an optional further
/// message paragraph.
pub open spec fn spec_commit_args(
    title: Seq<char>,
    message: Option<Seq<char>>,
    m: OperationMode,
) -> Seq<Seq<char>> {
    let base = seq!["commit"@, "-a"@] + spec_mode_flags(m) + seq!["-m"@, title];
    match message {
        Some(text) => base + seq!["-m"@, text],
        None => base,
    }
}

/// Arguments that register `url` as the remote named "origin".
pub open spec fn spec_remote_args(url: Seq<char>, m: OperationMode) -> Seq<Seq<char>> {
    seq!["remote"@] + spec_mode_flags(m) + seq!["add"@, "origin"@, url]
}

/// Arguments that push `branch` to "origin", recording it as the upstream.
pub open spec fn spec_push_args(branch: Seq<char>, m: OperationMode) -> Seq<Seq<char>> {
    seq!["push"@] + spec_mode_flags(m) + seq!["-u"@, "origin"@, branch]
}

/// Arguments that pull `branch` from "origin".
pub open spec fn spec_pull_args(branch: Seq<char>, m: OperationMode) -> Seq<Seq<char>> {
    seq!["pull"@] + spec_mode_flags(m) + seq!["origin"@, branch]
}

/// Arguments that ask the tool for the currently checked-out branch.
pub open spec fn spec_branch_query_args() -> Seq<Seq<char>> {
    seq!["branch"@, "--show-current"@]
}

/// Arguments that set one global preference.
pub open spec fn spec_config_args(option: Seq<char>, value: Seq<char>) -> Seq<Seq<char>> {
    seq!["config"@, "--global"@, option, value]
}

// ---------------------------------------------------------------------------
// Whole invocations, at the specification level
// ---------------------------------------------------------------------------

/// The repository-initialization invocation.
pub open spec fn spec_init() -> InvocationModel {
    git_model(spec_init_args(), "failed to initialize the repository"@)
}

/// The stage-all invocation.
pub open spec fn spec_add(m: OperationMode) -> InvocationModel {
    git_model(spec_add_args(m), "failed to add files to the local repository"@)
}

/// The commit invocation.
pub open spec fn spec_commit(
    title: Seq<char>,
    message: Option<Seq<char>>,
    m: OperationMode,
) -> InvocationModel {
    git_model(spec_commit_args(title, message, m), "Failed to commit"@)
}

/// The remote-registration invocation.
pub open spec fn spec_remote(url: Seq<char>, m: OperationMode) -> InvocationModel {
    git_model(spec_remote_args(url, m), "Failed to add the origin"@)
}

/// The push invocation for an already-resolved branch.
pub open spec fn spec_push(branch: Seq<char>, m: OperationMode) -> InvocationModel {
    git_model(spec_push_args(branch, m), "Failed to push to the remote repo"@)
}

/// The pull invocation for an already-resolved branch.
pub open spec fn spec_pull(branch: Seq<char>, m: OperationMode) -> InvocationModel {
    git_model(spec_pull_args(branch, m), "Failed to pull from the remote repository"@)
}

/// The capture-mode invocation that queries the current branch.
pub open spec fn spec_branch_query() -> InvocationModel {
    InvocationModel {
        program: "git"@,
        args: spec_branch_query_args(),
        context: "Could not get the current branch"@,
        kind: ExecKind::Capture,
    }
}

/// The failure context reported when one preference cannot be set.
pub open spec fn spec_config_context(option: Seq<char>) -> Seq<char> {
    "Couldn't set "@ + option + " properly"@
}

/// The preference-setting invocation.
pub open spec fn spec_config(option: Seq<char>, value: Seq<char>) -> InvocationModel {
    git_model(spec_config_args(option, value), spec_config_context(option))
}

// ---------------------------------------------------------------------------
// The shared flag rule, spelled out per step
// ---------------------------------------------------------------------------

/// With quiet requested, every mode-sensitive step's argument list is its
/// base list with the quiet flag in the flag position and no verbosity
/// flag, whatever the verbosity field holds.
pub proof fn lemma_quiet_step_lists(
    m: OperationMode,
    title: Seq<char>,
    url: Seq<char>,
    branch: Seq<char>,
)
    requires
        m.quiet,
    ensures
        spec_add_args(m) =~= seq!["add"@, "-A"@, "-q"@],
        spec_commit_args(title, None, m) =~= seq!["commit"@, "-a"@, "-q"@, "-m"@, title],
        spec_remote_args(url, m) =~= seq!["remote"@, "-q"@, "add"@, "origin"@, url],
        spec_push_args(branch, m) =~= seq!["push"@, "-q"@, "-u"@, "origin"@, branch],
        spec_pull_args(branch, m) =~= seq!["pull"@, "-q"@, "origin"@, branch],
{
}

/// With quiet off and verbosity zero, every mode-sensitive step's argument
/// list is exactly its base list, with no additions.
pub proof fn lemma_default_step_lists(
    m: OperationMode,
    title: Seq<char>,
    url: Seq<char>,
    branch: Seq<char>,
)
    requires
        !m.quiet,
        m.verbosity == 0,
    ensures
        spec_add_args(m) =~= seq!["add"@, "-A"@],
        spec_commit_args(title, None, m) =~= seq!["commit"@, "-a"@, "-m"@, title],
        spec_remote_args(url, m) =~= seq!["remote"@, "add"@, "origin"@, url],
        spec_push_args(branch, m) =~= seq!["push"@, "-u"@, "origin"@, branch],
        spec_pull_args(branch, m) =~= seq!["pull"@, "origin"@, branch],
{
}

/// One tier of verbosity puts exactly one `-v` in every mode-sensitive
/// step's flag position; two or more tiers put the single intensified
/// `-vv` there — never two separate single flags.
pub proof fn lemma_verbose_step_lists(
    m: OperationMode,
    title: Seq<char>,
    url: Seq<char>,
    branch: Seq<char>,
)
    requires
        !m.quiet,
        m.verbosity == 1,
    ensures
        spec_add_args(m) =~= seq!["add"@, "-A"@, "-v"@],
        spec_commit_args(title, None, m) =~= seq!["commit"@, "-a"@, "-v"@, "-m"@, title],
        spec_remote_args(url, m) =~= seq!["remote"@, "-v"@, "add"@, "origin"@, url],
        spec_push_args(branch, m) =~= seq!["push"@, "-v"@, "-u"@, "origin"@, branch],
        spec_pull_args(branch, m) =~= seq!["pull"@, "-v"@, "origin"@, branch],
{
}

/// Two or more tiers of verbosity put the single intensified `-vv` in every
/// mode-sensitive step's flag position: one flag, not two separate `-v`s.
pub proof fn lemma_doubled_verbose_step_lists(
    m: OperationMode,
    title: Seq<char>,
    url: Seq<char>,
    branch: Seq<char>,
)
    requires
        !m.quiet,
        m.verbosity >= 2,
    ensures
        spec_add_args(m) =~= seq!["add"@, "-A"@, "-vv"@],
        spec_commit_args(title, None, m) =~= seq!["commit"@, "-a"@, "-vv"@, "-m"@, title],
        spec_remote_args(url, m) =~= seq!["remote"@, "-vv"@, "add"@, "origin"@, url],
        spec_push_args(branch, m) =~= seq!["push"@, "-vv"@, "-u"@, "origin"@, branch],
        spec_pull_args(branch, m) =~= seq!["pull"@, "-vv"@, "origin"@, branch],
{
}

// ---------------------------------------------------------------------------
// Executable builders
// ---------------------------------------------------------------------------

/// Appends the mode's flags, then `tail`, to `base`.
fn with_mode_flags(base: Vec<String>, m: &OperationMode, tail: Vec<String>) -> (r: Vec<String>)
    ensures
        r.deep_view() == base.deep_view() + spec_mode_flags(*m) + tail.deep_view(),
{
    let mut out = base;
    let mut flags = mode_flags(m);
    let mut rest = tail;
    out.append(&mut flags);
    out.append(&mut rest);
    proof {
        assert(out.deep_view() =~= base.deep_view() + spec_mode_flags(*m) + tail.deep_view());
    }
    out
}

/// Builds the invocation that initializes a fresh repository.
pub fn git_init() -> (r: Invocation)
    ensures
        r@ == spec_init(),
{
    let mut args: Vec<String> = Vec::new();
    args.push("init".to_owned());
    proof {
        assert(args.deep_view() =~= spec_init_args());
    }
    git(args, "failed to initialize the repository")
}

/// Builds the invocation that stages every working-directory change, flags
/// chosen by the shared rule.
pub fn git_add(mode: &OperationMode) -> (r: Invocation)
    ensures
        r@ == spec_add(*mode),
{
    let mut base: Vec<String> = Vec::new();
    base.push("add".to_owned());
    base.push("-A".to_owned());
    proof {
        assert(base.deep_view() =~= seq!["add"@, "-A"@]);
    }
    let args = with_mode_flags(base, mode, Vec::new());
    proof {
        assert(args.deep_view() =~= spec_add_args(*mode));
    }
    git(args, "failed to add files to the local repository")
}

/// Builds the invocation that commits the staged changes under `title`,
/// with an optional further message paragraph, flags chosen by the shared
/// rule.
pub fn git_commit(title: &str, message: Option<&str>, mode: &OperationMode) -> (r: Invocation)
    ensures
        r@ == spec_commit(title@, message.deep_view(), *mode),
{
    let mut base: Vec<String> = Vec::new();
    base.push("commit".to_owned());
    base.push("-a".to_owned());
    let mut tail: Vec<String> = Vec::new();
    tail.push("-m".to_owned());
    tail.push(title.to_owned());
    match message {
        Some(text) => {
            tail.push("-m".to_owned());
            tail.push(text.to_owned());
            proof {
                assert(tail.deep_view() =~= seq!["-m"@, title@, "-m"@, text@]);
            }
        }
        None => {
            proof {
                assert(tail.deep_view() =~= seq!["-m"@, title@]);
            }
        }
    }
    proof {
        assert(base.deep_view() =~= seq!["commit"@, "-a"@]);
    }
    let args = with_mode_flags(base, mode, tail);
    proof {
        assert(args.deep_view() =~= spec_commit_args(title@, message.deep_view(), *mode));
    }
    git(args, "Failed to commit")
}

/// Builds the invocation that registers `url` as the remote named "origin",
/// flags chosen by the shared rule.
pub fn add_origin(url: &str, mode: &OperationMode) -> (r: Invocation)
    ensures
        r@ == spec_remote(url@, *mode),
{
    let mut base: Vec<String> = Vec::new();
    base.push("remote".to_owned());
    let mut tail: Vec<String> = Vec::new();
    tail.push("add".to_owned());
    tail.push("origin".to_owned());
    tail.push(url.to_owned());
    proof {
        assert(base.deep_view() =~= seq!["remote"@]);
        assert(tail.deep_view() =~= seq!["add"@, "origin"@, url@]);
    }
    let args = with_mode_flags(base, mode, tail);
    proof {
        assert(args.deep_view() =~= spec_remote_args(url@, *mode));
    }
    git(args, "Failed to add the origin")
}

/// Builds the invocation that pushes the already-resolved `branch` to
/// "origin" and records it as the upstream, flags chosen by the shared rule.
pub fn git_push(branch: &str, mode: &OperationMode) -> (r: Invocation)
    ensures
        r@ == spec_push(branch@, *mode),
{
    let mut base: Vec<String> = Vec::new();
    base.push("push".to_owned());
    let mut tail: Vec<String> = Vec::new();
    tail.push("-u".to_owned());
    tail.push("origin".to_owned());
    tail.push(branch.to_owned());
    proof {
        assert(base.deep_view() =~= seq!["push"@]);
        assert(tail.deep_view() =~= seq!["-u"@, "origin"@, branch@]);
    }
    let args = with_mode_flags(base, mode, tail);
    proof {
        assert(args.deep_view() =~= spec_push_args(branch@, *mode));
    }
    git(args, "Failed to push to the remote repo")
}

/// Builds the invocation that pulls the already-resolved `branch` from
/// "origin", flags chosen by the shared rule.
pub fn git_pull(branch: &str, mode: &OperationMode) -> (r: Invocation)
    ensures
        r@ == spec_pull(branch@, *mode),
{
    let mut base: Vec<String> = Vec::new();
    base.push("pull".to_owned());
    let mut tail: Vec<String> = Vec::new();
    tail.push("origin".to_owned());
    tail.push(branch.to_owned());
    proof {
        assert(base.deep_view() =~= seq!["pull"@]);
        assert(tail.deep_view() =~= seq!["origin"@, branch@]);
    }
    let args = with_mode_flags(base, mode, tail);
    proof {
        assert(args.deep_view() =~= spec_pull_args(branch@, *mode));
    }
    git(args, "Failed to pull from the remote repository")
}

/// Builds the capture-mode invocation that asks the tool for the currently
/// checked-out branch.
pub fn branch_query() -> (r: Invocation)
    ensures
        r@ == spec_branch_query(),
{
    let mut args: Vec<String> = Vec::new();
    args.push("branch".to_owned());
    args.push("--show-current".to_owned());
    let r = Invocation {
        program: "git".to_owned(),
        args,
        context: "Could not get the current branch".to_owned(),
        kind: ExecKind::Capture,
    };
    proof {
        assert(r@.args =~= spec_branch_query_args());
        assert(r@ =~= spec_branch_query());
    }
    r
}

/// Builds the invocation that sets one global preference, or nothing at
/// all when the value is empty: an empty response leaves the preference
/// untouched.
pub fn set_config(option: &str, value: &str) -> (r: Option<Invocation>)
    ensures
        value@.len() == 0 ==> r is None,
        value@.len() > 0 ==> (r matches Some(i) && i@ == spec_config(option@, value@)),
{
    if value.is_empty() {
        None
    } else {
        let mut args: Vec<String> = Vec::new();
        args.push("config".to_owned());
        args.push("--global".to_owned());
        args.push(option.to_owned());
        args.push(value.to_owned());
        let context = "Couldn't set ".to_owned().concat(option).concat(" properly");
        let r = Invocation {
            program: "git".to_owned(),
            args,
            context,
            kind: ExecKind::Wait,
        };
        proof {
            assert(r@.args =~= spec_config_args(option@, value@));
            assert(r@ =~= spec_config(option@, value@));
        }
        Some(r)
    }
}

// ---------------------------------------------------------------------------
// Self-update invocations
// ---------------------------------------------------------------------------

/// The locally installed update script for the given verbosity tier.
pub open spec fn spec_update_local_program(verbosity: u64) -> Seq<char> {
    if verbosity == 0 {
        "update.cmd"@
    } else if verbosity == 1 {
        "vupdate.cmd"@
    } else {
        "vvupdate.cmd"@
    }
}

/// The invocation that runs the locally installed update script and waits.
pub open spec fn spec_update_local(verbosity: u64) -> InvocationModel {
    InvocationModel {
        program: spec_update_local_program(verbosity),
        args: Seq::empty(),
        context: "Failed to update."@,
        kind: ExecKind::Wait,
    }
}

/// The invocation that clones the tool's own distribution repository.
pub open spec fn spec_update_clone() -> InvocationModel {
    git_model(
        seq!["clone"@, "https://github.com/Botahamec/elp.git"@],
        "Unable to find latest version of Elp"@,
    )
}

/// The update script taken from the fresh clone, for the given verbosity
/// tier.
pub open spec fn spec_update_script_path(verbosity: u64) -> Seq<char> {
    if verbosity == 0 {
        "elp/update.sh"@
    } else if verbosity == 1 {
        "elp/vupdate.sh"@
    } else {
        "elp/vvupdate.sh"@
    }
}

/// The detached invocation that hands off to the freshly cloned update
/// script without waiting for it.
pub open spec fn spec_update_script(verbosity: u64) -> InvocationModel {
    InvocationModel {
        program: "sh"@,
        args: seq![spec_update_script_path(verbosity)],
        context: "Unable to run update script"@,
        kind: ExecKind::Detached,
    }
}

/// Builds the waiting invocation of the locally installed update script,
/// the variant chosen by verbosity tier.
pub fn update_local(verbosity: u64) -> (r: Invocation)
    ensures
        r@ == spec_update_local(verbosity),
{
    let program = if verbosity == 0 {
        "update.cmd".to_owned()
    } else if verbosity == 1 {
        "vupdate.cmd".to_owned()
    } else {
        "vvupdate.cmd".to_owned()
    };
    let r = Invocation {
        program,
        args: Vec::new(),
        context: "Failed to update.".to_owned(),
        kind: ExecKind::Wait,
    };
    proof {
        assert(r@.args =~= Seq::<Seq<char>>::empty());
        assert(r@ =~= spec_update_local(verbosity));
    }
    r
}

/// Builds the invocation that clones the distribution repository.
pub fn update_clone() -> (r: Invocation)
    ensures
        r@ == spec_update_clone(),
{
    let mut args: Vec<String> = Vec::new();
    args.push("clone".to_owned());
    args.push("https://github.com/Botahamec/elp.git".to_owned());
    proof {
        assert(args.deep_view() =~= seq!["clone"@, "https://github.com/Botahamec/elp.git"@]);
    }
    git(args, "Unable to find latest version of Elp")
}

/// Builds the detached invocation of the freshly cloned update script, the
/// variant chosen by verbosity tier.
pub fn update_script(verbosity: u64) -> (r: Invocation)
    ensures
        r@ == spec_update_script(verbosity),
{
    let mut args: Vec<String> = Vec::new();
    if verbosity == 0 {
        args.push("elp/update.sh".to_owned());
    } else if verbosity == 1 {
        args.push("elp/vupdate.sh".to_owned());
    } else {
        args.push("elp/vvupdate.sh".to_owned());
    }
    let r = Invocation {
        program: "sh".to_owned(),
        args,
        context: "Unable to run update script".to_owned(),
        kind: ExecKind::Detached,
    };
    proof {
        assert(r@.args =~= seq![spec_update_script_path(verbosity)]);
        assert(r@ =~= spec_update_script(verbosity));
    }
    r
}

} // verus!
