//! Planning and validation of the external operations: which requests are
//! refused before any external command runs, which arguments the accepted
//! ones carry, and how completion reports are composed into messages.
//!
//! An accepted request becomes a plan — plain data. Nothing here runs a
//! command; a refusal therefore is a guarantee that no command runs.

use vstd::prelude::*;

use crate::text::append_chars;
use crate::text::chars_of;
use crate::text::contains_seq;
use crate::text::contains_chars;
use crate::text::last_index_of;
use crate::text::lemma_last_index_of_absent;
use crate::text::lemma_last_index_of_at;
use crate::text::find_last;
use crate::text::slice_range;
use crate::text::string_from_chars;
use crate::types::Worktree;
use crate::types::WorktreeStatus;

verus! {

/// Why a request was refused before any external command ran.
#[derive(Debug, Clone, Copy, PartialEq, Eq, Structural)]
pub enum OpRefusal {
    /// The bare root is never an operation target.
    BareRepository,
    /// The target has uncommitted changes and the operation needs it clean
    /// or forced.
    DirtyWorktree,
    /// The add flow needs a non-empty branch name.
    EmptyBranchName,
}

/// The delete decision: the bare root is refused unconditionally, whatever
/// the flags; a dirty target is refused unless the force flag is set.
pub open spec fn delete_refusal(t: Worktree, force: bool) -> Option<OpRefusal> {
    if t.is_bare {
        Some(OpRefusal::BareRepository)
    } else if t.status != WorktreeStatus::Clean && !force {
        Some(OpRefusal::DirtyWorktree)
    } else {
        None
    }
}

/// The decision for operations that need a clean target (pull and merge):
/// the bare root is refused, then anything not clean.
pub open spec fn clean_target_refusal(t: Worktree) -> Option<OpRefusal> {
    if t.is_bare {
        Some(OpRefusal::BareRepository)
    } else if t.status != WorktreeStatus::Clean {
        Some(OpRefusal::DirtyWorktree)
    } else {
        None
    }
}

/// The decision for operations that only shun the bare root (fetch, push,
/// entering, opening).
pub open spec fn bare_target_refusal(t: Worktree) -> Option<OpRefusal> {
    if t.is_bare {
        Some(OpRefusal::BareRepository)
    } else {
        None
    }
}

/// Deleting the bare record is refused for every combination of the two
/// confirmation toggles, so no delete plan — and hence no external command —
/// ever names the bare root. The branch toggle plays no part in the
/// decision; the force toggle cannot override it.
pub proof fn lemma_delete_bare_always_refused(t: Worktree, delete_branch: bool, force: bool)
    requires
        t.is_bare,
    ensures
        delete_refusal(t, force) == Some(OpRefusal::BareRepository),
{
}

/// Pull and merge requests against a non-clean target are refused before
/// any external command is invoked; against a clean non-bare target they
/// proceed.
pub proof fn lemma_clean_gate(t: Worktree)
    ensures
        !t.is_bare && t.status != WorktreeStatus::Clean ==> clean_target_refusal(t)
            == Some(OpRefusal::DirtyWorktree),
        !t.is_bare && t.status == WorktreeStatus::Clean ==> clean_target_refusal(t) is None,
{
}

/// Checks a delete request. An accepted one yields the removal step's data.
pub fn check_delete(target: &Worktree, delete_branch: bool, force: bool) -> (r: Result<
    (),
    OpRefusal,
>)
    ensures
        (match delete_refusal(*target, force) {
            Some(e) => r == Err::<(), OpRefusal>(e),
            None => r is Ok,
        }),
{
    if target.is_bare {
        Err(OpRefusal::BareRepository)
    } else if !matches!(target.status, WorktreeStatus::Clean) && !force {
        Err(OpRefusal::DirtyWorktree)
    } else {
        Ok(())
    }
}

/// Checks a request that needs a clean target.
pub fn check_clean_target(target: &Worktree) -> (r: Result<(), OpRefusal>)
    ensures
        (match clean_target_refusal(*target) {
            Some(e) => r == Err::<(), OpRefusal>(e),
            None => r is Ok,
        }),
{
    if target.is_bare {
        Err(OpRefusal::BareRepository)
    } else if !matches!(target.status, WorktreeStatus::Clean) {
        Err(OpRefusal::DirtyWorktree)
    } else {
        Ok(())
    }
}

/// Checks a request that only shuns the bare root.
pub fn check_non_bare_target(target: &Worktree) -> (r: Result<(), OpRefusal>)
    ensures
        (match bare_target_refusal(*target) {
            Some(e) => r == Err::<(), OpRefusal>(e),
            None => r is Ok,
        }),
{
    if target.is_bare {
        Err(OpRefusal::BareRepository)
    } else {
        Ok(())
    }
}

/// Which argument shape the add operation takes, by where the branch
/// already exists.
#[derive(Debug, Clone, Copy, PartialEq, Eq, Structural)]
pub enum AddArgMode {
    /// The branch exists locally: plain checkout into the new worktree.
    ExistingLocal,
    /// Only the remote branch exists: a tracking checkout.
    TrackRemote,
    /// Neither exists: a new branch created from the base.
    NewFromBase,
}

/// The argument shape selected for the given existence facts.
pub open spec fn add_mode(local_exists: bool, remote_exists: bool) -> AddArgMode {
    if local_exists {
        AddArgMode::ExistingLocal
    } else if remote_exists {
        AddArgMode::TrackRemote
    } else {
        AddArgMode::NewFromBase
    }
}

/// The full argument list of the add command for the given facts.
pub open spec fn add_args_spec(
    bare: Seq<char>,
    branch: Seq<char>,
    path: Seq<char>,
    base: Option<Seq<char>>,
    local_exists: bool,
    remote_exists: bool,
) -> Seq<Seq<char>> {
    let pre = seq!["-C"@, bare, "worktree"@, "add"@];
    if local_exists {
        pre + seq![path, branch]
    } else if remote_exists {
        pre + seq!["--track"@, "-b"@, branch, path, "origin/"@ + branch]
    } else {
        pre + seq!["-b"@, branch, path] + (match base {
            Some(b) => seq![b],
            None => Seq::empty(),
        })
    }
}

/// The planned add command: its selected shape and its arguments.
#[derive(Debug)]
pub struct AddPlan {
    pub mode: AddArgMode,
    pub args: Vec<String>,
}

/// Plans the add command with branch-existence-aware argument selection: an
/// existing local branch is checked out plainly, a remote-only branch gets a
/// tracking checkout, and a fresh name becomes a new branch from the base.
pub fn plan_add_worktree(
    bare_repo_path: &str,
    branch: &str,
    worktree_path: &str,
    base_branch: Option<&str>,
    local_exists: bool,
    remote_exists: bool,
) -> (r: AddPlan)
    ensures
        r.mode == add_mode(local_exists, remote_exists),
        r.args@.map_values(|s: String| s@) == add_args_spec(
            bare_repo_path@,
            branch@,
            worktree_path@,
            (match base_branch {
                Some(b) => Some(b@),
                None => None,
            }),
            local_exists,
            remote_exists,
        ),
{
    let mut args: Vec<String> = Vec::new();
    args.push("-C".to_owned());
    args.push(bare_repo_path.to_owned());
    args.push("worktree".to_owned());
    args.push("add".to_owned());
    if local_exists {
        args.push(worktree_path.to_owned());
        args.push(branch.to_owned());
        proof {
            assert(args@.map_values(|s: String| s@) =~= add_args_spec(
                bare_repo_path@,
                branch@,
                worktree_path@,
                (match base_branch {
                    Some(b) => Some(b@),
                    None => None,
                }),
                local_exists,
                remote_exists,
            ));
        }
        AddPlan { mode: AddArgMode::ExistingLocal, args }
    } else if remote_exists {
        args.push("--track".to_owned());
        args.push("-b".to_owned());
        args.push(branch.to_owned());
        args.push(worktree_path.to_owned());
        let mut remote_ref = chars_of("origin/");
        append_chars(&mut remote_ref, &chars_of(branch));
        args.push(string_from_chars(&remote_ref));
        proof {
            assert(args@.map_values(|s: String| s@) =~= add_args_spec(
                bare_repo_path@,
                branch@,
                worktree_path@,
                (match base_branch {
                    Some(b) => Some(b@),
                    None => None,
                }),
                local_exists,
                remote_exists,
            ));
        }
        AddPlan { mode: AddArgMode::TrackRemote, args }
    } else {
        args.push("-b".to_owned());
        args.push(branch.to_owned());
        args.push(worktree_path.to_owned());
        if let Some(base) = base_branch {
            args.push(base.to_owned());
        }
        proof {
            assert(args@.map_values(|s: String| s@) =~= add_args_spec(
                bare_repo_path@,
                branch@,
                worktree_path@,
                (match base_branch {
                    Some(b) => Some(b@),
                    None => None,
                }),
                local_exists,
                remote_exists,
            ));
        }
        AddPlan { mode: AddArgMode::NewFromBase, args }
    }
}

/// The location of a new worktree: a sibling of the repository root named
/// after the branch, or the bare branch name when the root has no parent.
pub open spec fn worktree_path_spec(bare: Seq<char>, branch: Seq<char>) -> Seq<char> {
    if last_index_of(bare, '/') >= 0 {
        bare.subrange(0, last_index_of(bare, '/')) + seq!['/'] + branch
    } else {
        branch
    }
}

/// Derives where a new worktree for the branch is created.
pub fn derive_worktree_path(bare_repo_path: &str, branch: &str) -> (r: String)
    ensures
        r@ == worktree_path_spec(bare_repo_path@, branch@),
{
    let chars = chars_of(bare_repo_path);
    match find_last(&chars, '/') {
        Some(i) => {
            proof {
                lemma_last_index_of_at(chars@, '/', i as int);
            }
            let mut v = slice_range(&chars, 0, i);
            v.push('/');
            append_chars(&mut v, &chars_of(branch));
            proof {
                assert(v@ =~= worktree_path_spec(bare_repo_path@, branch@));
            }
            string_from_chars(&v)
        },
        None => {
            proof {
                lemma_last_index_of_absent(chars@, '/');
            }
            branch.to_owned()
        },
    }
}

/// The verbose command line of a planned removal.
pub open spec fn delete_cmd_detail_spec(bare: Seq<char>, path: Seq<char>, force: bool) -> Seq<
    char,
> {
    "git -C "@ + bare + " worktree remove"@ + (if force {
        " --force"@
    } else {
        Seq::empty()
    }) + "  "@ + path
}

/// Renders the verbose command line of a planned removal.
pub fn delete_cmd_detail(bare_repo_path: &str, worktree_path: &str, force: bool) -> (r: String)
    ensures
        r@ == delete_cmd_detail_spec(bare_repo_path@, worktree_path@, force),
{
    let mut v = chars_of("git -C ");
    append_chars(&mut v, &chars_of(bare_repo_path));
    append_chars(&mut v, &chars_of(" worktree remove"));
    if force {
        append_chars(&mut v, &chars_of(" --force"));
    }
    append_chars(&mut v, &chars_of("  "));
    append_chars(&mut v, &chars_of(worktree_path));
    proof {
        assert(v@ =~= delete_cmd_detail_spec(bare_repo_path@, worktree_path@, force));
    }
    string_from_chars(&v)
}

/// The message of a finished delete: the removal error verbatim on failure;
/// on success the deleted name, with the chained branch step reported as a
/// parenthesized note — a failed branch delete does not cancel the primary
/// success.
pub open spec fn delete_message_spec(
    display_name: Seq<char>,
    remove_error: Option<Seq<char>>,
    branch_step: Option<(Seq<char>, Option<Seq<char>>)>,
) -> Seq<char> {
    match remove_error {
        Some(e) => e,
        None => "Deleted worktree: "@ + display_name + (match branch_step {
            None => Seq::empty(),
            Some(step) => (match step.1 {
                None => " (branch '"@ + step.0 + "' deleted)"@,
                Some(e) => " (branch delete failed: "@ + e + ")"@,
            }),
        }),
    }
}

/// Composes the completion report of a delete: success exactly when the
/// removal succeeded, the message as `delete_message_spec` says, and the
/// removed path and the verbose command line carried through for the model
/// update and optional display.
pub fn compose_delete_result(
    display_name: &str,
    worktree_path: String,
    cmd_detail: String,
    remove_error: Option<String>,
    branch_step: Option<(String, Option<String>)>,
) -> (r: crate::types::DeleteResult)
    ensures
        r.success == remove_error is None,
        r.worktree_path == worktree_path,
        r.cmd_detail == cmd_detail,
        r.message@ == delete_message_spec(
            display_name@,
            (match remove_error {
                Some(e) => Some(e@),
                None => None,
            }),
            (match branch_step {
                None => None,
                Some(step) => Some(
                    (
                        step.0@,
                        match step.1 {
                            Some(e) => Some(e@),
                            None => None,
                        },
                    ),
                ),
            }),
        ),
{
    match remove_error {
        Some(e) => {
            crate::types::DeleteResult {
                success: false,
                message: e,
                worktree_path,
                cmd_detail,
            }
        },
        None => {
            let mut v = chars_of("Deleted worktree: ");
            append_chars(&mut v, &chars_of(display_name));
            match &branch_step {
                None => {},
                Some(step) => {
                    match &step.1 {
                        None => {
                            append_chars(&mut v, &chars_of(" (branch '"));
                            append_chars(&mut v, &chars_of(step.0.as_str()));
                            append_chars(&mut v, &chars_of("' deleted)"));
                        },
                        Some(e) => {
                            append_chars(&mut v, &chars_of(" (branch delete failed: "));
                            append_chars(&mut v, &chars_of(e.as_str()));
                            append_chars(&mut v, &chars_of(")"));
                        },
                    }
                },
            }
            proof {
                assert(v@ =~= delete_message_spec(
                    display_name@,
                    None,
                    (match branch_step {
                        None => None,
                        Some(step) => Some(
                            (
                                step.0@,
                                match step.1 {
                                    Some(e) => Some(e@),
                                    None => None,
                                },
                            ),
                        ),
                    }),
                ));
            }
            crate::types::DeleteResult {
                success: true,
                message: string_from_chars(&v),
                worktree_path,
                cmd_detail,
            }
        },
    }
}

/// The message of a finished push: the up-to-date wording when the tool
/// said nothing or said so itself, else the completed worktree's name.
pub open spec fn push_message_spec(output: Seq<char>, display_name: Seq<char>) -> Seq<char> {
    if output.len() == 0 || contains_seq(output, "Everything up-to-date"@) {
        "Push completed: Everything up-to-date"@
    } else {
        "Push completed: "@ + display_name
    }
}

/// Composes the message of a successful push.
pub fn compose_push_message(output: &str, display_name: &str) -> (r: String)
    ensures
        r@ == push_message_spec(output@, display_name@),
{
    let out_chars = chars_of(output);
    let marker = chars_of("Everything up-to-date");
    if out_chars.len() == 0 || contains_chars(&out_chars, &marker) {
        "Push completed: Everything up-to-date".to_owned()
    } else {
        let mut v = chars_of("Push completed: ");
        append_chars(&mut v, &chars_of(display_name));
        string_from_chars(&v)
    }
}

/// The message of a finished pull: the tool's own words when it said any,
/// else the completed worktree's name.
pub open spec fn pull_message_spec(output: Seq<char>, display_name: Seq<char>) -> Seq<char> {
    if output.len() == 0 {
        "Pull completed: "@ + display_name
    } else {
        "Pull completed: "@ + output
    }
}

/// Composes the message of a successful pull.
pub fn compose_pull_message(output: &str, display_name: &str) -> (r: String)
    ensures
        r@ == pull_message_spec(output@, display_name@),
{
    let mut v = chars_of("Pull completed: ");
    if output.is_empty() {
        append_chars(&mut v, &chars_of(display_name));
    } else {
        append_chars(&mut v, &chars_of(output));
    }
    string_from_chars(&v)
}

/// The message of a finished merge: bare completion when the tool said
/// nothing, else its words appended.
pub open spec fn merge_message_spec(output: Seq<char>) -> Seq<char> {
    if output.len() == 0 {
        "Merge completed"@
    } else {
        "Merge completed: "@ + output
    }
}

/// Composes the message of a successful merge.
pub fn compose_merge_message(output: &str) -> (r: String)
    ensures
        r@ == merge_message_spec(output@),
{
    if output.is_empty() {
        "Merge completed".to_owned()
    } else {
        let mut v = chars_of("Merge completed: ");
        append_chars(&mut v, &chars_of(output));
        string_from_chars(&v)
    }
}

/// The message of a finished prune: a fixed note when nothing was pruned,
/// else the tool's report.
pub open spec fn prune_message_spec(output: Seq<char>) -> Seq<char> {
    if output.len() == 0 {
        "Prune completed: nothing to prune"@
    } else {
        "Pruned: "@ + output
    }
}

/// Composes the message of a successful prune.
pub fn compose_prune_message(output: &str) -> (r: String)
    ensures
        r@ == prune_message_spec(output@),
{
    if output.is_empty() {
        "Prune completed: nothing to prune".to_owned()
    } else {
        let mut v = chars_of("Pruned: ");
        append_chars(&mut v, &chars_of(output));
        string_from_chars(&v)
    }
}

} // verus!
