use elp::invocation::ExecKind;
use elp::mode::OperationMode;
use elp::steps::{
    add_origin, branch_query, git_add, git_commit, git_init, git_pull, git_push, set_config,
    update_clone, update_local, update_script,
};

fn strings(xs: &[&str]) -> Vec<String> {
    let mut out = Vec::new();
    for x in xs {
        out.push(x.to_string());
    }
    out
}

fn plain() -> OperationMode {
    OperationMode { verbosity: 0, quiet: false }
}

fn verbose(tier: u64) -> OperationMode {
    OperationMode { verbosity: tier, quiet: false }
}

fn quiet() -> OperationMode {
    OperationMode { verbosity: 0, quiet: true }
}

#[test]
fn init_invocation() {
    let inv = git_init();
    assert_eq!(inv.program, "git");
    assert_eq!(inv.args, strings(&["init"]));
    assert_eq!(inv.kind, ExecKind::Wait);
    assert_eq!(inv.context, "failed to initialize the repository");
}

#[test]
fn add_base_arguments() {
    let inv = git_add(&plain());
    assert_eq!(inv.program, "git");
    assert_eq!(inv.args, strings(&["add", "-A"]));
    assert_eq!(inv.context, "failed to add files to the local repository");
}

#[test]
fn add_flag_tiers() {
    assert_eq!(git_add(&quiet()).args, strings(&["add", "-A", "-q"]));
    assert_eq!(git_add(&verbose(1)).args, strings(&["add", "-A", "-v"]));
    assert_eq!(git_add(&verbose(2)).args, strings(&["add", "-A", "-vv"]));
}

#[test]
fn commit_title_only() {
    let inv = git_commit("First commit", None, &plain());
    assert_eq!(inv.args, strings(&["commit", "-a", "-m", "First commit"]));
    assert_eq!(inv.context, "Failed to commit");
}

#[test]
fn commit_with_message() {
    let inv = git_commit("title", Some("details"), &plain());
    assert_eq!(inv.args, strings(&["commit", "-a", "-m", "title", "-m", "details"]));
}

#[test]
fn commit_flag_tiers() {
    let q = git_commit("t", Some("m"), &quiet());
    assert_eq!(q.args, strings(&["commit", "-a", "-q", "-m", "t", "-m", "m"]));
    let v1 = git_commit("t", None, &verbose(1));
    assert_eq!(v1.args, strings(&["commit", "-a", "-v", "-m", "t"]));
    let v3 = git_commit("t", None, &verbose(3));
    assert_eq!(v3.args, strings(&["commit", "-a", "-vv", "-m", "t"]));
}

#[test]
fn remote_registration_arguments() {
    let url = "https://example.invalid/repo.git";
    let inv = add_origin(url, &plain());
    assert_eq!(inv.args, strings(&["remote", "add", "origin", url]));
    assert_eq!(inv.context, "Failed to add the origin");
    let q = add_origin(url, &quiet());
    assert_eq!(q.args, strings(&["remote", "-q", "add", "origin", url]));
}

#[test]
fn push_arguments() {
    let inv = git_push("main", &plain());
    assert_eq!(inv.args, strings(&["push", "-u", "origin", "main"]));
    assert_eq!(inv.context, "Failed to push to the remote repo");
    let v = git_push("main", &verbose(1));
    assert_eq!(v.args, strings(&["push", "-v", "-u", "origin", "main"]));
    let q = git_push("main", &quiet());
    assert_eq!(q.args, strings(&["push", "-q", "-u", "origin", "main"]));
}

#[test]
fn pull_arguments() {
    let inv = git_pull("main", &plain());
    assert_eq!(inv.args, strings(&["pull", "origin", "main"]));
    assert_eq!(inv.context, "Failed to pull from the remote repository");
    let v = git_pull("dev", &verbose(2));
    assert_eq!(v.args, strings(&["pull", "-vv", "origin", "dev"]));
}

#[test]
fn branch_query_captures_output() {
    let inv = branch_query();
    assert_eq!(inv.program, "git");
    assert_eq!(inv.args, strings(&["branch", "--show-current"]));
    assert_eq!(inv.kind, ExecKind::Capture);
    assert_eq!(inv.context, "Could not get the current branch");
}

#[test]
fn set_config_empty_value_is_skipped() {
    assert!(set_config("user.name", "").is_none());
}

#[test]
fn set_config_builds_assignment() {
    let inv = set_config("user.name", "Alice").unwrap();
    assert_eq!(inv.program, "git");
    assert_eq!(inv.args, strings(&["config", "--global", "user.name", "Alice"]));
    assert_eq!(inv.context, "Couldn't set user.name properly");
    assert_eq!(inv.kind, ExecKind::Wait);
}

#[test]
fn update_local_script_tiers() {
    let base = update_local(0);
    assert_eq!(base.program, "update.cmd");
    assert_eq!(base.args, Vec::<String>::new());
    assert_eq!(base.kind, ExecKind::Wait);
    assert_eq!(base.context, "Failed to update.");
    assert_eq!(update_local(1).program, "vupdate.cmd");
    assert_eq!(update_local(4).program, "vvupdate.cmd");
}

#[test]
fn update_clone_targets_distribution_repository() {
    let inv = update_clone();
    assert_eq!(inv.program, "git");
    assert_eq!(inv.args, strings(&["clone", "https://github.com/Botahamec/elp.git"]));
    assert_eq!(inv.kind, ExecKind::Wait);
    assert_eq!(inv.context, "Unable to find latest version of Elp");
}

#[test]
fn update_script_is_detached() {
    let inv = update_script(0);
    assert_eq!(inv.program, "sh");
    assert_eq!(inv.args, strings(&["elp/update.sh"]));
    assert_eq!(inv.kind, ExecKind::Detached);
    assert_eq!(inv.context, "Unable to run update script");
    assert_eq!(update_script(1).args, strings(&["elp/vupdate.sh"]));
    assert_eq!(update_script(2).args, strings(&["elp/vvupdate.sh"]));
}
