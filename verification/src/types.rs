//! Core data types of the worktree session model.

use vstd::prelude::*;

use crate::config::BranchType;
use crate::text::after_last;
use crate::text::append_chars;
use crate::text::dec_chars;
use crate::text::string_from_chars;
use crate::text::u32_to_chars;

verus! {

/// Derived working-directory state of one worktree.
#[derive(Debug, Clone, Copy, PartialEq, Eq, Structural)]
pub enum WorktreeStatus {
    Clean,
    Staged,
    Unstaged,
    Conflict,
    Mixed,
}

impl WorktreeStatus {
    /// Severity rank used by status-ordered sorting: conflicts first, clean last.
    pub open spec fn spec_severity(self) -> int {
        match self {
            WorktreeStatus::Conflict => 0,
            WorktreeStatus::Mixed => 1,
            WorktreeStatus::Unstaged => 2,
            WorktreeStatus::Staged => 3,
            WorktreeStatus::Clean => 4,
        }
    }

    /// Rank of this status for status-ordered sorting.
    pub fn severity(&self) -> (r: u8)
        ensures
            r as int == self.spec_severity(),
    {
        match self {
            WorktreeStatus::Conflict => 0,
            WorktreeStatus::Mixed => 1,
            WorktreeStatus::Unstaged => 2,
            WorktreeStatus::Staged => 3,
            WorktreeStatus::Clean => 4,
        }
    }

    /// One-character marker shown in the list column.
    pub fn symbol(&self) -> (r: &'static str)
        ensures
            self == WorktreeStatus::Clean ==> r@ == "\u{2713}"@,
            self == WorktreeStatus::Staged ==> r@ == "+"@,
            self == WorktreeStatus::Unstaged ==> r@ == "~"@,
            self == WorktreeStatus::Conflict ==> r@ == "!"@,
            self == WorktreeStatus::Mixed ==> r@ == "*"@,
    {
        match self {
            WorktreeStatus::Clean => "\u{2713}",
            WorktreeStatus::Staged => "+",
            WorktreeStatus::Unstaged => "~",
            WorktreeStatus::Conflict => "!",
            WorktreeStatus::Mixed => "*",
        }
    }

    /// Human-readable name of the status.
    pub fn label(&self) -> (r: &'static str)
        ensures
            self == WorktreeStatus::Clean ==> r@ == "clean"@,
            self == WorktreeStatus::Staged ==> r@ == "staged"@,
            self == WorktreeStatus::Unstaged ==> r@ == "unstaged"@,
            self == WorktreeStatus::Conflict ==> r@ == "conflict"@,
            self == WorktreeStatus::Mixed ==> r@ == "mixed"@,
    {
        match self {
            WorktreeStatus::Clean => "clean",
            WorktreeStatus::Staged => "staged",
            WorktreeStatus::Unstaged => "unstaged",
            WorktreeStatus::Conflict => "conflict",
            WorktreeStatus::Mixed => "mixed",
        }
    }
}

/// Commit counts relative to the configured upstream.
#[derive(Debug, Clone)]
pub struct AheadBehind {
    pub ahead: u32,
    pub behind: u32,
}

impl Default for AheadBehind {
    /// Zero commits in either direction.
    fn default() -> (r: Self)
        ensures
            r.ahead == 0 && r.behind == 0,
    {
        AheadBehind { ahead: 0, behind: 0 }
    }
}

impl AheadBehind {
    /// The rendered form of the counts: nothing when both are zero, else the
    /// non-zero counts, ahead first, each behind its direction marker.
    pub open spec fn spec_display(self) -> Option<Seq<char>> {
        if self.ahead == 0 && self.behind == 0 {
            None
        } else if self.ahead > 0 && self.behind > 0 {
            Some(
                seq!['\u{2191}'] + dec_chars(self.ahead as int) + seq!['\u{2193}'] + dec_chars(
                    self.behind as int,
                ),
            )
        } else if self.ahead > 0 {
            Some(seq!['\u{2191}'] + dec_chars(self.ahead as int))
        } else {
            Some(seq!['\u{2193}'] + dec_chars(self.behind as int))
        }
    }

    /// Renders the counts for the list column.
    pub fn display(&self) -> (r: Option<String>)
        ensures
            (match r {
                Some(s) => self.spec_display() == Some(s@),
                None => self.spec_display() is None,
            }),
    {
        if self.ahead == 0 && self.behind == 0 {
            None
        } else if self.ahead > 0 && self.behind > 0 {
            let mut v: Vec<char> = Vec::new();
            v.push('\u{2191}');
            append_chars(&mut v, &u32_to_chars(self.ahead));
            v.push('\u{2193}');
            append_chars(&mut v, &u32_to_chars(self.behind));
            proof {
                assert(v@ =~= seq!['\u{2191}'] + dec_chars(self.ahead as int) + seq!['\u{2193}'] + dec_chars(
                    self.behind as int,
                ));
            }
            Some(string_from_chars(&v))
        } else if self.ahead > 0 {
            let mut v: Vec<char> = Vec::new();
            v.push('\u{2191}');
            append_chars(&mut v, &u32_to_chars(self.ahead));
            proof {
                assert(v@ =~= seq!['\u{2191}'] + dec_chars(self.ahead as int));
            }
            Some(string_from_chars(&v))
        } else {
            let mut v: Vec<char> = Vec::new();
            v.push('\u{2193}');
            append_chars(&mut v, &u32_to_chars(self.behind));
            proof {
                assert(v@ =~= seq!['\u{2193}'] + dec_chars(self.behind as int));
            }
            Some(string_from_chars(&v))
        }
    }
}

/// One worktree record: a linked worktree, or the single bare root.
#[derive(Debug, Clone)]
pub struct Worktree {
    /// Absolute filesystem location; the unique key within a session.
    pub path: String,
    /// Checked-out branch, absent when detached or bare.
    pub branch: Option<String>,
    /// True for exactly one record per session: the repository root.
    pub is_bare: bool,
    /// Derived working-directory state; recomputed on every rebuild.
    pub status: WorktreeStatus,
    /// Human-relative age of the last commit; absent for the bare record.
    pub last_commit_time: Option<String>,
    /// Seconds since the epoch of the last commit: the sort key behind the
    /// displayed age; absent for the bare record or without a commit.
    pub last_commit_epoch: Option<u64>,
    /// Counts against the configured upstream, when one is resolvable.
    pub ahead_behind: Option<AheadBehind>,
}

impl Worktree {
    /// Name shown in the list: the marker for the bare root, else the final
    /// path segment.
    pub open spec fn spec_display_name(self) -> Seq<char> {
        if self.is_bare {
            seq!['(', 'b', 'a', 'r', 'e', ')']
        } else {
            after_last(self.path@, '/')
        }
    }

    /// Renders the display name of the record.
    pub fn display_name(&self) -> (r: String)
        ensures
            r@ == self.spec_display_name(),
    {
        if self.is_bare {
            let mut v: Vec<char> = Vec::new();
            v.push('(');
            v.push('b');
            v.push('a');
            v.push('r');
            v.push('e');
            v.push(')');
            proof {
                assert(v@ =~= seq!['(', 'b', 'a', 'r', 'e', ')']);
            }
            string_from_chars(&v)
        } else {
            let chars = crate::text::chars_of(self.path.as_str());
            let tail = crate::text::tail_after_last(&chars, '/');
            string_from_chars(&tail)
        }
    }

    /// The branch column: the branch name, or a dash when absent.
    pub open spec fn spec_branch_display(self) -> Seq<char> {
        match self.branch {
            Some(b) => b@,
            None => seq!['-'],
        }
    }

    /// Renders the branch column of the record.
    pub fn branch_display(&self) -> (r: String)
        ensures
            r@ == self.spec_branch_display(),
    {
        match &self.branch {
            Some(b) => b.clone(),
            None => {
                let mut v: Vec<char> = Vec::new();
                v.push('-');
                proof {
                    assert(v@ =~= seq!['-']);
                }
                string_from_chars(&v)
            },
        }
    }
}

/// Which reference a new worktree's branch is created from.
#[derive(Debug, Clone, Copy, PartialEq, Eq, Structural)]
pub enum BaseSource {
    /// Use the local branch as base.
    Local,
    /// Use the remote-qualified branch as base.
    Remote,
}

/// Pending configuration of the add-worktree flow.
#[derive(Debug, Clone)]
pub struct AddWorktreeState {
    /// Chosen preset; absent for a custom base selection.
    pub branch_type: Option<BranchType>,
    /// The base branch the new branch is created from.
    pub base_branch: String,
    /// Whether the base is the local or the remote branch.
    pub base_source: BaseSource,
    /// Full branch name being typed, including any preset prefix.
    pub branch_name: String,
}

impl AddWorktreeState {
    /// The flow pre-filled from a branch-type preset: the preset's base, and
    /// its prefix as the start of the branch name.
    pub fn with_branch_type(branch_type: BranchType) -> (r: Self)
        ensures
            r.branch_type == Some(branch_type),
            r.base_branch@ == branch_type.base@,
            r.base_source == BaseSource::Local,
            r.branch_name@ == branch_type.prefix@,
    {
        let base = branch_type.base.clone();
        let prefix = branch_type.prefix.clone();
        AddWorktreeState {
            branch_type: Some(branch_type),
            base_branch: base,
            base_source: BaseSource::Local,
            branch_name: prefix,
        }
    }

    /// The flow with a manually chosen base and an empty branch name.
    pub fn custom(base_branch: String) -> (r: Self)
        ensures
            r.branch_type is None,
            r.base_branch == base_branch,
            r.base_source == BaseSource::Local,
            r.branch_name@ == Seq::<char>::empty(),
    {
        AddWorktreeState {
            branch_type: None,
            base_branch,
            base_source: BaseSource::Local,
            branch_name: String::new(),
        }
    }
}

/// The modal interaction state: which screen owns the next key press.
#[derive(Debug, Clone, PartialEq, Eq)]
pub enum AppState {
    /// The worktree list.
    List,
    /// Branch input of the add flow.
    AddModal,
    /// Type selection screen of the add flow.
    AddTypeSelect,
    /// Branch input screen with base branch comparison.
    AddBranchInput,
    /// Deletion confirmation with its two explicit toggles.
    ConfirmDelete { delete_branch: bool, force: bool },
    /// Configuration editor: which entry is selected, and whether it is being
    /// edited inline.
    ConfigModal { selected_index: usize, editing: bool },
    /// Branch-type editing within the configuration editor.
    BranchTypesModal { selected_index: usize, editing_field: Option<usize> },
    /// Key binding overlay.
    HelpModal,
    /// A fetch is in flight; input is ignored.
    Fetching,
    /// An add is in flight; input is ignored.
    Adding,
    /// A delete is in flight; input is ignored.
    Deleting,
    /// A pull is in flight; input is ignored.
    Pulling,
    /// A push is in flight; input is ignored.
    Pushing,
    /// A merge is in flight; input is ignored.
    Merging,
    /// Branch selection for an explicit merge.
    MergeBranchSelect { branches: Vec<String>, selected: usize },
}

/// What the process reports when the session ends.
#[derive(Debug, Clone)]
pub enum ExitAction {
    /// Plain quit.
    Quit,
    /// Hand this worktree path to the invoking shell for a directory change.
    ChangeDirectory(String),
}

/// Cyclic order of the list sort modes.
#[derive(Debug, Clone, Copy, PartialEq, Eq, Structural)]
pub enum SortMode {
    Name,
    Recent,
    Status,
}

impl SortMode {
    /// The next mode in the cycle Name -> Recent -> Status -> Name.
    pub fn next(self) -> (r: Self)
        ensures
            self == SortMode::Name ==> r == SortMode::Recent,
            self == SortMode::Recent ==> r == SortMode::Status,
            self == SortMode::Status ==> r == SortMode::Name,
    {
        match self {
            SortMode::Name => SortMode::Recent,
            SortMode::Recent => SortMode::Status,
            SortMode::Status => SortMode::Name,
        }
    }

    /// Human-readable name of the mode.
    pub fn label(&self) -> (r: &'static str)
        ensures
            self == SortMode::Name ==> r@ == "name"@,
            self == SortMode::Recent ==> r@ == "recent"@,
            self == SortMode::Status ==> r@ == "status"@,
    {
        match self {
            SortMode::Name => "name",
            SortMode::Recent => "recent",
            SortMode::Status => "status",
        }
    }
}

/// A short user-visible message attached to the session.
#[derive(Debug, Clone)]
pub struct AppMessage {
    pub text: String,
    pub is_error: bool,
}

impl AppMessage {
    /// An informational message.
    pub fn info(text: String) -> (r: Self)
        ensures
            r.text == text,
            !r.is_error,
    {
        AppMessage { text, is_error: false }
    }

    /// An error message.
    pub fn error(text: String) -> (r: Self)
        ensures
            r.text == text,
            r.is_error,
    {
        AppMessage { text, is_error: true }
    }
}

/// Completion report of the post-creation script.
#[derive(Debug, Clone)]
pub struct ScriptResult {
    pub success: bool,
    pub message: String,
}

/// Whether a post-creation script is running in the background.
#[derive(Debug, Clone)]
pub enum ScriptStatus {
    Idle,
    Running { worktree_name: String },
}

/// Completion report of a background worktree deletion.
#[derive(Debug, Clone)]
pub struct DeleteResult {
    pub success: bool,
    pub message: String,
    /// The worktree that was removed, used to prune the in-memory list.
    pub worktree_path: String,
    /// Verbose command line for optional display.
    pub cmd_detail: String,
}

/// Commit summary used by the add flow's base comparison.
#[derive(Debug, Clone)]
pub struct CommitInfo {
    /// Short hash.
    pub hash: String,
    /// First line of the commit message.
    pub message: String,
    /// Human-relative time.
    pub time_ago: String,
}

/// Comparison between a local branch and its remote counterpart.
#[derive(Debug, Clone)]
pub struct BranchComparison {
    pub local: Option<CommitInfo>,
    pub remote: Option<CommitInfo>,
    pub behind_count: u32,
    pub ahead_count: u32,
}

impl Default for BranchComparison {
    /// No commit information and zero counts.
    fn default() -> (r: Self)
        ensures
            r.local is None,
            r.remote is None,
            r.behind_count == 0,
            r.ahead_count == 0,
    {
        BranchComparison { local: None, remote: None, behind_count: 0, ahead_count: 0 }
    }
}

} // verus!
