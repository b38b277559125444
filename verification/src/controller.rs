//! The interaction state machine and controller: one modal state owns each
//! key press, every external command leaves here as an `Action` value for
//! the caller to run, and completion reports come back through the
//! `apply_*` methods. The controller never blocks and never runs a command
//! itself, so a refused request provably issues none.

use vstd::prelude::*;

use crate::config::Config;
use crate::ops::check_clean_target;
use crate::ops::check_delete;
use crate::ops::check_non_bare_target;
use crate::ops::clean_target_refusal;
use crate::ops::delete_refusal;
use crate::session::SessionState;
use crate::session::find_by_path;
use crate::session::matches_filter;
use crate::text::append_chars;
use crate::text::chars_of;
use crate::text::split_on;
use crate::text::string_from_chars;
use crate::text::trim;
use crate::text::trim_chars;
use crate::types::AppMessage;
use crate::types::AppState;
use crate::types::ExitAction;
use crate::types::ScriptResult;
use crate::types::ScriptStatus;
use crate::types::Worktree;

verus! {

/// How many entries the configuration editor shows.
pub const CONFIG_ITEM_COUNT: usize = 5;

/// One key press, already freed of any terminal encoding.
#[derive(Debug, Clone, Copy, PartialEq, Eq, Structural)]
pub enum Key {
    Char(char),
    CtrlChar(char),
    Up,
    Down,
    Enter,
    Esc,
    Backspace,
    Home,
    End,
    Other,
}

/// External work the controller asks its caller to run. Each carries the
/// plain values the command needs; none is executed here.
#[derive(Debug, Clone, PartialEq, Eq)]
pub enum Action {
    /// Nothing to run.
    Idle,
    /// Rebuild the inventory and hand it back through `apply_refresh_result`.
    Refresh,
    /// Fetch from the remote in the given worktree.
    Fetch { worktree_path: String },
    /// Create a worktree for the branch; completion comes back through
    /// `apply_add_result`.
    RunAdd { branch: String },
    /// Remove the worktree, and its branch when asked; completion comes
    /// back through `apply_delete_result`.
    RunDelete {
        worktree_path: String,
        branch: Option<String>,
        display_name: String,
        delete_branch: bool,
        force: bool,
    },
    /// Pull in the given worktree.
    Pull { worktree_path: String },
    /// Push from the given worktree.
    Push { worktree_path: String },
    /// Merge the configured upstream in the given worktree.
    MergeUpstream { worktree_path: String },
    /// Merge the chosen local branch in the given worktree.
    MergeBranch { worktree_path: String, source_branch: String },
    /// Drop stale administrative records; always safe.
    Prune,
    /// Open the editor in the worktree.
    OpenEditor { worktree_path: String },
    /// Open a terminal in the worktree.
    OpenTerminal { worktree_path: String },
    /// Put the worktree path on the clipboard.
    CopyPath { worktree_path: String },
    /// List the local branches for the merge picker, then call
    /// `open_merge_picker`.
    LoadMergeBranches,
    /// Open the post-creation script in the editor.
    EditScript,
    /// Write the configuration to its file and report through
    /// `apply_save_result`.
    SaveConfig,
}

/// Whether the state is a busy state: an operation is in flight and input
/// is ignored until its completion report arrives.
pub open spec fn is_busy(st: AppState) -> bool {
    ||| st is Fetching
    ||| st is Adding
    ||| st is Deleting
    ||| st is Pulling
    ||| st is Pushing
    ||| st is Merging
}

/// The controller: the session model, the modal state, and the small state
/// around them — message, input buffer, exit action and background status.
pub struct Controller {
    pub session: SessionState,
    pub state: AppState,
    pub message: Option<AppMessage>,
    pub input_buffer: Vec<char>,
    pub should_quit: bool,
    pub exit_action: ExitAction,
    /// Filter sub-mode of the list: intercepts all character input.
    pub is_filtering: bool,
    /// Pending first key of the two-key jump chord.
    pub last_key: Option<char>,
    pub verbose: bool,
    pub last_command_detail: Option<String>,
    pub merge_source_branch: Option<String>,
    pub script_status: ScriptStatus,
    pub help_scroll_offset: u16,
    /// Rows one half-page movement jumps; the caller keeps it at half the
    /// table viewport.
    pub viewport_half_page: usize,
    pub config: Config,
    pub bare_repo_path: String,
}

impl Controller {
    /// The controller's session stays well-formed.
    pub open spec fn wf(self) -> bool {
        self.session.wf()
    }

    /// A fresh controller over the session: list state, empty buffers, no
    /// message but the shell-integration tip when integration is absent.
    pub fn new(
        session: SessionState,
        config: Config,
        bare_repo_path: String,
        has_shell_integration: bool,
    ) -> (r: Self)
        requires
            session.wf(),
        ensures
            r.wf(),
            r.session == session,
            r.state == AppState::List,
            r.input_buffer@ == Seq::<char>::empty(),
            !r.should_quit,
            r.exit_action is Quit,
            !r.is_filtering,
            r.last_key is None,
            !r.verbose,
            r.merge_source_branch is None,
            r.script_status is Idle,
            r.config == config,
            r.bare_repo_path == bare_repo_path,
            has_shell_integration ==> r.message is None,
            !has_shell_integration ==> r.message is Some && !r.message->0.is_error,
    {
        let message = if has_shell_integration {
            None
        } else {
            Some(
                AppMessage::info(
                    "Tip: Run 'owt setup' then reload shell for Enter key to change directory".to_owned(),
                ),
            )
        };
        Controller {
            session,
            state: AppState::List,
            message,
            input_buffer: Vec::new(),
            should_quit: false,
            exit_action: ExitAction::Quit,
            is_filtering: false,
            last_key: None,
            verbose: false,
            last_command_detail: None,
            merge_source_branch: None,
            script_status: ScriptStatus::Idle,
            help_scroll_offset: 0,
            viewport_half_page: 10,
            config,
            bare_repo_path,
        }
    }
}

/// The two strings, one after the other.
pub fn concat_str(a: &str, b: &str) -> (r: String)
    ensures
        r@ == a@ + b@,
{
    let mut v = chars_of(a);
    append_chars(&mut v, &chars_of(b));
    string_from_chars(&v)
}

/// The controller as every key press first sees it: the pending message
/// and the verbose command detail cleared, everything else as it was.
pub open spec fn cleared(c: Controller) -> Controller {
    Controller { message: None, last_command_detail: None, ..c }
}

/// Whether two controller values agree on everything but the message and
/// the verbose command detail.
pub open spec fn eq_but_message(a: Controller, b: Controller) -> bool {
    &&& a.session == b.session
    &&& a.state == b.state
    &&& a.input_buffer == b.input_buffer
    &&& a.should_quit == b.should_quit
    &&& a.exit_action == b.exit_action
    &&& a.is_filtering == b.is_filtering
    &&& a.last_key == b.last_key
    &&& a.verbose == b.verbose
    &&& a.merge_source_branch == b.merge_source_branch
    &&& a.script_status == b.script_status
    &&& a.help_scroll_offset == b.help_scroll_offset
    &&& a.viewport_half_page == b.viewport_half_page
    &&& a.config == b.config
    &&& a.bare_repo_path == b.bare_repo_path
}

/// Whether the controller carries an error message with the given text.
pub open spec fn has_error_message(c: Controller, text: Seq<char>) -> bool {
    match c.message {
        Some(m) => m.is_error && m.text@ == text,
        None => false,
    }
}

/// Whether the controller carries an informational message with the text.
pub open spec fn has_info_message(c: Controller, text: Seq<char>) -> bool {
    match c.message {
        Some(m) => !m.is_error && m.text@ == text,
        None => false,
    }
}

impl Controller {
    /// Sets an error message.
    fn set_error(&mut self, text: &str)
        ensures
            eq_but_message(*old(self), *final(self)),
            final(self).last_command_detail == old(self).last_command_detail,
            has_error_message(*final(self), text@),
    {
        self.message = Some(AppMessage::error(text.to_owned()));
    }

    /// Sets an informational message.
    fn set_info(&mut self, text: &str)
        ensures
            eq_but_message(*old(self), *final(self)),
            final(self).last_command_detail == old(self).last_command_detail,
            has_info_message(*final(self), text@),
    {
        self.message = Some(AppMessage::info(text.to_owned()));
    }
}

} // verus!

verus! {

/// The selected record, if the list is not empty.
pub open spec fn spec_selected(c: Controller) -> Option<Worktree> {
    if c.session.worktrees@.len() == 0 {
        None
    } else {
        Some(c.session.worktrees@[c.session.selected_index as int])
    }
}

/// Outcome of a request that needs a clean target: with no selection
/// nothing happens; a refused target leaves only an error message; an
/// accepted one moves to the busy state and issues the command, which
/// carries the selected worktree's path.
pub open spec fn clean_request_post(
    o: Controller,
    f: Controller,
    a: Action,
    busy: AppState,
    is_merge_pick: bool,
    bare_msg: Seq<char>,
    dirty_msg: Seq<char>,
) -> bool {
    match spec_selected(o) {
        None => f == (Controller { last_key: None, ..o }) && a == Action::Idle,
        Some(t) => match clean_target_refusal(t) {
            Some(e) => {
                &&& a == Action::Idle
                &&& f.state == o.state
                &&& f.session == o.session
                &&& f.should_quit == o.should_quit
                &&& has_error_message(
                    f,
                    if e is DirtyWorktree {
                        dirty_msg
                    } else {
                        bare_msg
                    },
                )
            },
            None => {
                &&& f.session == o.session
                &&& (if is_merge_pick {
                    a == Action::LoadMergeBranches && f.state == o.state
                } else {
                    f.state == busy && (match a {
                        Action::Pull { worktree_path } => busy is Pulling && worktree_path@
                            == t.path@,
                        Action::MergeUpstream { worktree_path } => busy is Merging
                            && worktree_path@ == t.path@,
                        _ => false,
                    })
                })
                &&& f.should_quit == o.should_quit
            },
        },
    }
}

/// Outcome of a request that only shuns the bare root.
pub open spec fn non_bare_request_post(
    o: Controller,
    f: Controller,
    a: Action,
    busy: AppState,
    bare_msg: Seq<char>,
) -> bool {
    match spec_selected(o) {
        None => f == (Controller { last_key: None, ..o }) && a == Action::Idle,
        Some(t) => {
            if t.is_bare {
                &&& a == Action::Idle
                &&& f.state == o.state
                &&& f.session == o.session
                &&& has_error_message(f, bare_msg)
            } else {
                &&& f.session == o.session
                &&& f.state == busy
                &&& (match a {
                    Action::Fetch { worktree_path } => busy is Fetching && worktree_path@
                        == t.path@,
                    Action::Push { worktree_path } => busy is Pushing && worktree_path@
                        == t.path@,
                    _ => false,
                })
            }
        },
    }
}

impl Controller {
    /// Requests a pull of the selected worktree: refused against the bare
    /// root or any target that is not clean, re-validated here at request
    /// time; an accepted request enters the busy state and issues the pull.
    pub fn pull_worktree(&mut self) -> (a: Action)
        requires
            old(self).wf(),
        ensures
            final(self).wf(),
            clean_request_post(
                *old(self),
                *final(self),
                a,
                AppState::Pulling,
                false,
                "Cannot pull bare repository"@,
                "Cannot pull: worktree has uncommitted changes"@,
            ),
    {
        self.last_key = None;
        let decision = match self.session.selected_worktree() {
            Some(wt) => check_clean_target(wt),
            None => {
                return Action::Idle;
            },
        };
        match decision {
            Err(crate::ops::OpRefusal::DirtyWorktree) => {
                self.set_error("Cannot pull: worktree has uncommitted changes");
                return Action::Idle;
            },
            Err(_) => {
                self.set_error("Cannot pull bare repository");
                return Action::Idle;
            },
            Ok(()) => {},
        }
        let name = self.session.worktrees[self.session.selected_index].display_name();
        let path = self.session.worktrees[self.session.selected_index].path.clone();
        let msg = msg_around("Pulling: ", name.as_str(), "...");
        self.message = Some(AppMessage::info(msg));
        self.state = AppState::Pulling;
        Action::Pull { worktree_path: path }
    }

    /// Requests a merge of the configured upstream into the selected
    /// worktree: same clean-target gate as pull.
    pub fn merge_upstream(&mut self) -> (a: Action)
        requires
            old(self).wf(),
        ensures
            final(self).wf(),
            clean_request_post(
                *old(self),
                *final(self),
                a,
                AppState::Merging,
                false,
                "Cannot merge into bare repository"@,
                "Cannot merge: worktree has uncommitted changes"@,
            ),
            (match spec_selected(*old(self)) {
                Some(t) => clean_target_refusal(t) is None ==> final(self).merge_source_branch is None,
                None => true,
            }),
    {
        self.last_key = None;
        let decision = match self.session.selected_worktree() {
            Some(wt) => check_clean_target(wt),
            None => {
                return Action::Idle;
            },
        };
        match decision {
            Err(crate::ops::OpRefusal::DirtyWorktree) => {
                self.set_error("Cannot merge: worktree has uncommitted changes");
                return Action::Idle;
            },
            Err(_) => {
                self.set_error("Cannot merge into bare repository");
                return Action::Idle;
            },
            Ok(()) => {},
        }
        let name = self.session.worktrees[self.session.selected_index].display_name();
        let path = self.session.worktrees[self.session.selected_index].path.clone();
        let msg = msg_around("Merging upstream into ", name.as_str(), "...");
        self.message = Some(AppMessage::info(msg));
        self.merge_source_branch = None;
        self.state = AppState::Merging;
        Action::MergeUpstream { worktree_path: path }
    }

    /// Requests the branch picker for an explicit merge: the clean-target
    /// gate applies before the branch list is even fetched.
    pub fn open_merge_branch_select(&mut self) -> (a: Action)
        requires
            old(self).wf(),
        ensures
            final(self).wf(),
            clean_request_post(
                *old(self),
                *final(self),
                a,
                AppState::List,
                true,
                "Cannot merge into bare repository"@,
                "Cannot merge: worktree has uncommitted changes"@,
            ),
    {
        self.last_key = None;
        let decision = match self.session.selected_worktree() {
            Some(wt) => check_clean_target(wt),
            None => {
                return Action::Idle;
            },
        };
        match decision {
            Err(crate::ops::OpRefusal::DirtyWorktree) => {
                self.set_error("Cannot merge: worktree has uncommitted changes");
                Action::Idle
            },
            Err(_) => {
                self.set_error("Cannot merge into bare repository");
                Action::Idle
            },
            Ok(()) => Action::LoadMergeBranches,
        }
    }

    /// Opens the branch picker over the fetched local branches; an empty
    /// list is refused with a message.
    pub fn open_merge_picker(&mut self, branches: Vec<String>) -> (opened: bool)
        requires
            old(self).wf(),
        ensures
            final(self).wf(),
            final(self).session == old(self).session,
            branches@.len() == 0 ==> !opened && final(self).state == old(self).state
                && has_error_message(*final(self), "No branches available to merge"@),
            branches@.len() > 0 ==> opened && final(self).state == (AppState::MergeBranchSelect {
                branches,
                selected: 0,
            }),
    {
        if branches.len() == 0 {
            self.set_error("No branches available to merge");
            return false;
        }
        self.state = AppState::MergeBranchSelect { branches, selected: 0 };
        true
    }

    /// Requests a fetch in the selected worktree; only the bare root is
    /// refused.
    pub fn fetch_all(&mut self) -> (a: Action)
        requires
            old(self).wf(),
        ensures
            final(self).wf(),
            non_bare_request_post(
                *old(self),
                *final(self),
                a,
                AppState::Fetching,
                "Cannot fetch bare repository"@,
            ),
    {
        self.last_key = None;
        let decision = match self.session.selected_worktree() {
            Some(wt) => check_non_bare_target(wt),
            None => {
                return Action::Idle;
            },
        };
        if decision.is_err() {
            self.set_error("Cannot fetch bare repository");
            return Action::Idle;
        }
        let name = self.session.worktrees[self.session.selected_index].display_name();
        let path = self.session.worktrees[self.session.selected_index].path.clone();
        let msg = msg_around("Fetching: ", name.as_str(), "...");
        self.message = Some(AppMessage::info(msg));
        self.state = AppState::Fetching;
        Action::Fetch { worktree_path: path }
    }

    /// Requests a push from the selected worktree; only the bare root is
    /// refused.
    pub fn push_worktree(&mut self) -> (a: Action)
        requires
            old(self).wf(),
        ensures
            final(self).wf(),
            non_bare_request_post(
                *old(self),
                *final(self),
                a,
                AppState::Pushing,
                "Cannot push bare repository"@,
            ),
    {
        self.last_key = None;
        let decision = match self.session.selected_worktree() {
            Some(wt) => check_non_bare_target(wt),
            None => {
                return Action::Idle;
            },
        };
        if decision.is_err() {
            self.set_error("Cannot push bare repository");
            return Action::Idle;
        }
        let name = self.session.worktrees[self.session.selected_index].display_name();
        let path = self.session.worktrees[self.session.selected_index].path.clone();
        let msg = msg_around("Pushing: ", name.as_str(), "...");
        self.message = Some(AppMessage::info(msg));
        self.state = AppState::Pushing;
        Action::Push { worktree_path: path }
    }

    /// Leaves the session into the selected worktree: the exit action
    /// carries its path to the invoking shell; the bare root cannot be
    /// entered.
    pub fn enter_worktree(&mut self)
        requires
            old(self).wf(),
        ensures
            final(self).wf(),
            enter_post(*old(self), *final(self)),
            final(self).session == old(self).session,
            final(self).is_filtering == old(self).is_filtering,
            final(self).state == old(self).state,
    {
        let is_bare = match self.session.selected_worktree() {
            Some(wt) => wt.is_bare,
            None => {
                self.set_error("No worktree selected");
                return ;
            },
        };
        if is_bare {
            self.set_error("Cannot enter bare repository");
            return ;
        }
        let path = self.session.worktrees[self.session.selected_index].path.clone();
        self.exit_action = ExitAction::ChangeDirectory(path);
        self.should_quit = true;
    }

    /// Opens the delete confirmation for the selected worktree; the bare
    /// root is refused at once, and both toggles start out false — they are
    /// explicit user actions, never implied.
    pub fn request_delete_confirm(&mut self)
        requires
            old(self).wf(),
        ensures
            final(self).wf(),
            delete_confirm_open_post(*old(self), *final(self)),
    {
        self.last_key = None;
        let is_bare = match self.session.selected_worktree() {
            Some(wt) => wt.is_bare,
            None => {
                return ;
            },
        };
        if is_bare {
            self.set_error("Cannot delete bare repository");
            return ;
        }
        self.state = AppState::ConfirmDelete { delete_branch: false, force: false };
    }

    /// Jumps to the launch worktree, reporting the outcome.
    pub fn jump_to_current(&mut self)
        requires
            old(self).wf(),
        ensures
            final(self).wf(),
            jump_post(*old(self), *final(self)),
    {
        let found = self.session.jump_to_current_worktree();
        if found {
            self.set_info("Jumped to current worktree");
        } else {
            let has_current = self.session.current_worktree_path.is_some();
            if !has_current {
                self.set_error("No current worktree detected");
            }
        }
    }
}

/// The three strings, one after another.
pub fn msg_around(prefix: &str, mid: &str, suffix: &str) -> (r: String)
    ensures
        r@ == prefix@ + mid@ + suffix@,
{
    let mut v = chars_of(prefix);
    append_chars(&mut v, &chars_of(mid));
    append_chars(&mut v, &chars_of(suffix));
    string_from_chars(&v)
}

} // verus!

verus! {

/// One keystroke of the filter sub-mode: escape abandons the filter, enter
/// leaves it into the selected worktree, backspace shortens the text, and
/// each character extends it and re-selects the first match of the full,
/// unfiltered list — never of a previous pass.
pub open spec fn filter_input_post(o: Controller, f: Controller, key: Key, a: Action) -> bool {
    &&& a == Action::Idle
    &&& f.session.worktrees == o.session.worktrees
    &&& (key == Key::Esc ==> !f.is_filtering && f.session.filter_text@ == Seq::<char>::empty())
    &&& (key == Key::Enter ==> !f.is_filtering && enter_post(o, f))
    &&& (key == Key::Backspace ==> f.session.filter_text@ == (if o.session.filter_text@.len()
        > 0 {
        o.session.filter_text@.drop_last()
    } else {
        o.session.filter_text@
    }))
    &&& (forall|c: char|
        key == Key::Char(c) ==> f.session.filter_text@ == o.session.filter_text@.push(c))
    &&& (forall|c: char|
        key == Key::Char(c) ==> {
            let ft = o.session.filter_text@.push(c);
            if exists|i: int|
                0 <= i < o.session.worktrees@.len() && matches_filter(
                    #[trigger] o.session.worktrees@[i],
                    ft,
                ) {
                matches_filter(o.session.worktrees@[f.session.selected_index as int], ft) && (
                forall|j: int|
                    0 <= j < f.session.selected_index ==> !matches_filter(
                        #[trigger] o.session.worktrees@[j],
                        ft,
                    ))
            } else {
                f.session.selected_index == o.session.selected_index
            }
        })
}

/// One keystroke of the add modal: escape cancels with the buffer cleared —
/// stale input never leaks — enter submits a non-blank trimmed name, and
/// the buffer otherwise edits.
pub open spec fn add_input_post(o: Controller, f: Controller, key: Key, a: Action) -> bool {
    &&& f.session == o.session
    &&& (key == Key::Esc ==> f.state == AppState::List && f.input_buffer@ == Seq::<char>::empty()
        && a == Action::Idle)
    &&& (key == Key::Enter && trim(o.input_buffer@).len() == 0 ==> a == Action::Idle && f.state
        == o.state)
    &&& (key == Key::Enter && trim(o.input_buffer@).len() > 0 ==> f.state == AppState::Adding && (
    match a {
        Action::RunAdd { branch } => branch@ == trim(o.input_buffer@),
        _ => false,
    }))
    &&& (key == Key::Backspace ==> f.input_buffer@ == (if o.input_buffer@.len() > 0 {
        o.input_buffer@.drop_last()
    } else {
        o.input_buffer@
    }) && a == Action::Idle)
    &&& (forall|c: char|
        key == Key::Char(c) ==> f.input_buffer@ == o.input_buffer@.push(c) && a == Action::Idle)
}

/// One keystroke of the help overlay: close it, or scroll it within bounds.
pub open spec fn help_input_post(o: Controller, f: Controller, key: Key, a: Action) -> bool {
    &&& f.session == o.session
    &&& a == Action::Idle
    &&& (key == Key::Esc || key == Key::Char('?') || key == Key::Char('q') ==> f.state
        == AppState::List)
    &&& (key == Key::Down || key == Key::Char('j') ==> f.help_scroll_offset == (if o.help_scroll_offset < 0xffff {
        o.help_scroll_offset + 1
    } else {
        o.help_scroll_offset as int
    }))
    &&& (key == Key::Up || key == Key::Char('k') ==> f.help_scroll_offset == (if o.help_scroll_offset > 0 {
        o.help_scroll_offset - 1
    } else {
        0int
    }))
}

/// One keystroke of the merge branch picker: cancel, clamped movement, or
/// enter issuing the merge of the chosen branch into the selected worktree.
pub open spec fn merge_pick_input_post(
    o: Controller,
    f: Controller,
    key: Key,
    branches: Vec<String>,
    selected: usize,
    a: Action,
) -> bool {
    &&& f.session == o.session
    &&& (key == Key::Esc || key == Key::Char('q') ==> f.state == AppState::List && a
        == Action::Idle)
    &&& (key == Key::Up || key == Key::Char('k') ==> a == Action::Idle && f.state == (
    AppState::MergeBranchSelect {
        branches,
        selected: (if selected > 0 {
            (selected - 1) as usize
        } else {
            0usize
        }),
    }))
    &&& (key == Key::Down || key == Key::Char('j') ==> a == Action::Idle && f.state == (
    AppState::MergeBranchSelect {
        branches,
        selected: (if selected + 1 < branches@.len() {
            (selected + 1) as usize
        } else if branches@.len() == 0 {
            0usize
        } else {
            (branches@.len() - 1) as usize
        }),
    }))
    &&& (key == Key::Enter && selected < branches@.len() && spec_selected(o) is Some ==> f.state
        == AppState::Merging && (match a {
        Action::MergeBranch { worktree_path, source_branch } => worktree_path@ == spec_selected(
            o,
        )->0.path@ && source_branch@ == branches@[selected as int]@ && f.merge_source_branch
            == Some(source_branch),
        _ => false,
    }))
}

/// One keystroke of the configuration editor: while editing, escape cancels
/// with the buffer cleared and enter applies the edit; otherwise the
/// selection moves within the entries, enter starts editing or opens the
/// script editor, and `s` asks for a save.
pub open spec fn config_input_post(
    o: Controller,
    f: Controller,
    key: Key,
    selected: usize,
    editing: bool,
    a: Action,
) -> bool {
    &&& f.session == o.session
    &&& (editing && key == Key::Esc ==> f.input_buffer@ == Seq::<char>::empty() && f.state == (
    AppState::ConfigModal { selected_index: selected, editing: false }) && a == Action::Idle
        && f.config == o.config)
    &&& (editing && key == Key::Enter ==> f.input_buffer@ == Seq::<char>::empty() && f.state == (
    AppState::ConfigModal { selected_index: selected, editing: false }) && a == Action::Idle)
    &&& (forall|c: char|
        editing && key == Key::Char(c) ==> f.input_buffer@ == o.input_buffer@.push(c) && a
            == Action::Idle)
    &&& (!editing && (key == Key::Esc || key == Key::Char('q')) ==> f.state == AppState::List && a
        == Action::Idle)
    &&& (!editing && (key == Key::Up || key == Key::Char('k')) ==> f.state == (
    AppState::ConfigModal {
        selected_index: (if selected > 0 {
            (selected - 1) as usize
        } else {
            0usize
        }),
        editing: false,
    }) && a == Action::Idle)
    &&& (!editing && (key == Key::Down || key == Key::Char('j')) ==> f.state == (
    AppState::ConfigModal {
        selected_index: (if selected + 1 < CONFIG_ITEM_COUNT {
            (selected + 1) as usize
        } else {
            (CONFIG_ITEM_COUNT - 1) as usize
        }),
        editing: false,
    }) && a == Action::Idle)
    &&& (!editing && key == Key::Enter && selected == 3 ==> a == Action::EditScript)
    &&& (!editing && key == Key::Enter && selected != 3 ==> a == Action::Idle && f.state == (
    AppState::ConfigModal { selected_index: selected, editing: true }))
    &&& (!editing && key == Key::Char('s') ==> a == Action::SaveConfig)
}

impl Controller {
    /// One keystroke of the filter sub-mode, which intercepts all character
    /// input: escape abandons the filter, enter leaves it and enters the
    /// selected worktree, and each character re-evaluates the selection
    /// against the full, unfiltered list — never against a previous pass.
    pub fn handle_filter_input(&mut self, key: Key) -> (a: Action)
        requires
            old(self).wf(),
        ensures
            final(self).wf(),
            filter_input_post(*old(self), *final(self), key, a),
    {
        match key {
            Key::Esc => {
                self.is_filtering = false;
                self.session.filter_text = Vec::new();
                Action::Idle
            },
            Key::Enter => {
                self.is_filtering = false;
                self.enter_worktree();
                Action::Idle
            },
            Key::Backspace => {
                let ghost f0 = self.session.filter_text@;
                if self.session.filter_text.len() > 0 {
                    let _ = self.session.filter_text.pop();
                    proof {
                        assert(self.session.filter_text@ =~= f0.drop_last());
                    }
                }
                Action::Idle
            },
            Key::Char(c) => {
                self.session.filter_text.push(c);
                self.session.select_first_filtered_worktree();
                Action::Idle
            },
            _ => Action::Idle,
        }
    }

    /// Requests the add operation for the branch typed into the buffer: an
    /// empty (after trimming) name is refused before anything runs; an
    /// accepted name enters the busy state and issues the add.
    pub fn add_worktree(&mut self) -> (a: Action)
        requires
            old(self).wf(),
        ensures
            final(self).wf(),
            final(self).session == old(self).session,
            trim(old(self).input_buffer@).len() == 0 ==> a == Action::Idle && final(self).state
                == old(self).state && has_error_message(
                *final(self),
                "Branch name cannot be empty"@,
            ),
            trim(old(self).input_buffer@).len() > 0 ==> final(self).state == AppState::Adding && (
            match a {
                Action::RunAdd { branch } => branch@ == trim(old(self).input_buffer@),
                _ => false,
            }),
    {
        let branch_chars = trim_chars(&self.input_buffer);
        if branch_chars.len() == 0 {
            self.set_error("Branch name cannot be empty");
            return Action::Idle;
        }
        let branch = string_from_chars(&branch_chars);
        let msg = msg_around("Creating worktree: ", branch.as_str(), "...");
        self.message = Some(AppMessage::info(msg));
        self.state = AppState::Adding;
        Action::RunAdd { branch }
    }

    /// One keystroke of the add modal: escape cancels and clears the buffer
    /// so no stale input leaks into the next use, enter submits a non-blank
    /// name, and the buffer otherwise edits.
    pub fn handle_add_modal_input(&mut self, key: Key) -> (a: Action)
        requires
            old(self).wf(),
        ensures
            final(self).wf(),
            add_input_post(*old(self), *final(self), key, a),
    {
        match key {
            Key::Esc => {
                self.state = AppState::List;
                self.input_buffer = Vec::new();
                Action::Idle
            },
            Key::Enter => {
                let trimmed = trim_chars(&self.input_buffer);
                if trimmed.len() > 0 {
                    self.add_worktree()
                } else {
                    Action::Idle
                }
            },
            Key::Backspace => {
                let ghost b0 = self.input_buffer@;
                if self.input_buffer.len() > 0 {
                    let _ = self.input_buffer.pop();
                    proof {
                        assert(self.input_buffer@ =~= b0.drop_last());
                    }
                }
                Action::Idle
            },
            Key::Char(c) => {
                self.input_buffer.push(c);
                Action::Idle
            },
            _ => Action::Idle,
        }
    }

    /// One keystroke of the delete confirmation. The toggles are explicit:
    /// `b` flips the branch toggle, `f` the force toggle. Confirming checks
    /// the delete decision — the bare root is always refused, a dirty
    /// target without force is refused on the spot — and only an accepted
    /// request leaves as a delete command.
    pub fn handle_confirm_delete_input(&mut self, key: Key, delete_branch: bool, force: bool) -> (a:
        Action)
        requires
            old(self).wf(),
            old(self).state == (AppState::ConfirmDelete { delete_branch, force }),
        ensures
            final(self).wf(),
            confirm_input_post(*old(self), *final(self), key, delete_branch, force, a),
    {
        match key {
            Key::Esc => {
                self.state = AppState::List;
                Action::Idle
            },
            Key::Char(k) => {
                if k == 'n' {
                    self.state = AppState::List;
                    Action::Idle
                } else if k == 'b' {
                    self.state = AppState::ConfirmDelete { delete_branch: !delete_branch, force };
                    Action::Idle
                } else if k == 'f' {
                    self.state = AppState::ConfirmDelete { delete_branch, force: !force };
                    Action::Idle
                } else if k == 'y' {
                    self.confirm_delete(delete_branch, force)
                } else {
                    Action::Idle
                }
            },
            Key::Enter => self.confirm_delete(delete_branch, force),
            _ => Action::Idle,
        }
    }

    /// Confirms the pending delete: checks the decision and issues the
    /// command for an accepted request.
    fn confirm_delete(&mut self, delete_branch: bool, force: bool) -> (a: Action)
        requires
            old(self).wf(),
        ensures
            final(self).wf(),
            confirm_decision_post(*old(self), *final(self), a, delete_branch, force),
    {
        let decision = match self.session.selected_worktree() {
            Some(wt) => check_delete(wt, delete_branch, force),
            None => {
                return Action::Idle;
            },
        };
        match decision {
            Err(crate::ops::OpRefusal::DirtyWorktree) => {
                self.set_error("Worktree has uncommitted changes. Press 'f' to enable force delete.");
                Action::Idle
            },
            Err(_) => {
                self.set_error("Cannot delete bare repository");
                self.state = AppState::List;
                Action::Idle
            },
            Ok(()) => {
                let wt = &self.session.worktrees[self.session.selected_index];
                let worktree_path = wt.path.clone();
                let branch = match &wt.branch {
                    Some(b) => Some(b.clone()),
                    None => None,
                };
                let display_name = wt.display_name();
                let msg = msg_around("Deleting worktree: ", display_name.as_str(), "...");
                self.message = Some(AppMessage::info(msg));
                self.state = AppState::Deleting;
                Action::RunDelete { worktree_path, branch, display_name, delete_branch, force }
            },
        }
    }

    /// One keystroke of the help overlay: close it, or scroll it.
    pub fn handle_help_modal_input(&mut self, key: Key) -> (a: Action)
        requires
            old(self).wf(),
        ensures
            final(self).wf(),
            help_input_post(*old(self), *final(self), key, a),
    {
        match key {
            Key::Esc => {
                self.state = AppState::List;
            },
            Key::Char(k) => {
                if k == '?' || k == 'q' {
                    self.state = AppState::List;
                } else if k == 'j' {
                    if self.help_scroll_offset < 0xffff {
                        self.help_scroll_offset = self.help_scroll_offset + 1;
                    }
                } else if k == 'k' {
                    if self.help_scroll_offset > 0 {
                        self.help_scroll_offset = self.help_scroll_offset - 1;
                    }
                }
            },
            Key::Down => {
                if self.help_scroll_offset < 0xffff {
                    self.help_scroll_offset = self.help_scroll_offset + 1;
                }
            },
            Key::Up => {
                if self.help_scroll_offset > 0 {
                    self.help_scroll_offset = self.help_scroll_offset - 1;
                }
            },
            _ => {},
        }
        Action::Idle
    }

    /// One keystroke of the merge branch picker: escape or `q` cancels,
    /// vertical movement clamps to the list, and enter merges the chosen
    /// branch into the selected worktree.
    pub fn handle_merge_branch_select_input(
        &mut self,
        key: Key,
        branches: Vec<String>,
        selected: usize,
    ) -> (a: Action)
        requires
            old(self).wf(),
        ensures
            final(self).wf(),
            merge_pick_input_post(*old(self), *final(self), key, branches, selected, a),
    {
        match key {
            Key::Esc => {
                self.state = AppState::List;
                Action::Idle
            },
            Key::Up => {
                let ns: usize = if selected > 0 {
                    selected - 1
                } else {
                    0
                };
                self.state = AppState::MergeBranchSelect { branches, selected: ns };
                Action::Idle
            },
            Key::Down => {
                let ns: usize = if branches.len() > 0 && selected < branches.len() - 1 {
                    selected + 1
                } else if branches.len() == 0 {
                    0
                } else {
                    branches.len() - 1
                };
                self.state = AppState::MergeBranchSelect { branches, selected: ns };
                Action::Idle
            },
            Key::Char(k) => {
                if k == 'q' {
                    self.state = AppState::List;
                    Action::Idle
                } else if k == 'k' {
                    let ns: usize = if selected > 0 {
                        selected - 1
                    } else {
                        0
                    };
                    self.state = AppState::MergeBranchSelect { branches, selected: ns };
                    Action::Idle
                } else if k == 'j' {
                    let ns: usize = if branches.len() > 0 && selected < branches.len() - 1 {
                        selected + 1
                    } else if branches.len() == 0 {
                        0
                    } else {
                        branches.len() - 1
                    };
                    self.state = AppState::MergeBranchSelect { branches, selected: ns };
                    Action::Idle
                } else {
                    self.state = AppState::MergeBranchSelect { branches, selected };
                    Action::Idle
                }
            },
            Key::Enter => {
                if selected < branches.len() {
                    let target = match self.session.selected_worktree() {
                        Some(wt) => wt.path.clone(),
                        None => {
                            self.state = AppState::List;
                            return Action::Idle;
                        },
                    };
                    let source_branch = branches[selected].clone();
                    let msg = msg_around("Merging ", source_branch.as_str(), "...");
                    self.message = Some(AppMessage::info(msg));
                    self.merge_source_branch = Some(source_branch.clone());
                    self.state = AppState::Merging;
                    Action::MergeBranch { worktree_path: target, source_branch }
                } else {
                    self.state = AppState::MergeBranchSelect { branches, selected };
                    Action::Idle
                }
            },
            _ => {
                self.state = AppState::MergeBranchSelect { branches, selected };
                Action::Idle
            },
        }
    }
}

} // verus!

verus! {

/// The copy-files items joined for inline editing.
pub open spec fn join_cs(items: Seq<Seq<char>>) -> Seq<char>
    decreases items.len(),
{
    if items.len() == 0 {
        Seq::empty()
    } else if items.len() == 1 {
        items[0]
    } else {
        items[0] + ", "@ + join_cs(items.drop_first())
    }
}

/// The comma-separated items of an edited list value: each trimmed, empty
/// ones dropped.
pub open spec fn comma_items(parts: Seq<Seq<char>>) -> Seq<Seq<char>>
    decreases parts.len(),
{
    if parts.len() == 0 {
        Seq::empty()
    } else {
        let rest = comma_items(parts.drop_first());
        let item = trim(parts.first());
        if item.len() > 0 {
            seq![item] + rest
        } else {
            rest
        }
    }
}

impl Controller {
    /// The current text of a configuration entry, for inline editing.
    pub fn get_config_value_for_editing(&self, index: usize) -> (r: String)
        ensures
            index == 0 ==> r@ == (match self.config.editor {
                Some(e) => e@,
                None => Seq::<char>::empty(),
            }),
            index == 1 ==> r@ == (match self.config.terminal {
                Some(t) => t@,
                None => Seq::<char>::empty(),
            }),
            index == 2 ==> r@ == join_cs(self.config.copy_files@.map_values(|s: String| s@)),
            index >= 3 ==> r@ == Seq::<char>::empty(),
    {
        if index == 0 {
            match &self.config.editor {
                Some(e) => e.clone(),
                None => String::new(),
            }
        } else if index == 1 {
            match &self.config.terminal {
                Some(t) => t.clone(),
                None => String::new(),
            }
        } else if index == 2 {
            let items = &self.config.copy_files;
            let ghost iv = items@.map_values(|s: String| s@);
            let mut out: Vec<char> = Vec::new();
            let mut k: usize = 0;
            proof {
                assert(iv.skip(0) =~= iv);
                assert(out@ + join_cs(iv.skip(0)) =~= join_cs(iv));
            }
            while k < items.len()
                invariant
                    k <= items@.len(),
                    iv == items@.map_values(|s: String| s@),
                    join_cs(iv) == out@ + join_cs(iv.skip(k as int)),
                decreases items@.len() - k,
            {
                proof {
                    assert(iv[k as int] == items@[k as int]@);
                    assert(iv.skip(k as int).first() == iv[k as int]);
                    assert(iv.skip(k as int).drop_first() =~= iv.skip(k + 1));
                }
                let ghost o0 = out@;
                append_chars(&mut out, &chars_of(items[k].as_str()));
                if k + 1 < items.len() {
                    append_chars(&mut out, &chars_of(", "));
                    proof {
                        assert(iv.skip(k as int).len() > 1);
                        assert(out@ + join_cs(iv.skip(k + 1)) =~= o0 + join_cs(iv.skip(k as int)));
                    }
                } else {
                    proof {
                        assert(iv.skip(k as int).len() == 1);
                        assert(join_cs(iv.skip(k as int)) == iv[k as int]);
                        assert(iv.skip(k + 1) =~= Seq::<Seq<char>>::empty());
                        assert(out@ + join_cs(iv.skip(k + 1)) =~= o0 + join_cs(iv.skip(k as int)));
                    }
                }
                k = k + 1;
            }
            proof {
                assert(iv.skip(k as int) =~= Seq::<Seq<char>>::empty());
                assert(out@ =~= join_cs(iv));
            }
            string_from_chars(&out)
        } else {
            String::new()
        }
    }

    /// Applies the edited buffer to the selected configuration entry: a
    /// blank value clears an optional entry; the file list splits on commas
    /// with blanks dropped.
    pub fn apply_config_edit(&mut self, index: usize)
        requires
            old(self).wf(),
        ensures
            final(self).wf(),
            final(self).session == old(self).session,
            final(self).state == old(self).state,
            final(self).input_buffer == old(self).input_buffer,
            ({
                let value = trim(old(self).input_buffer@);
                &&& (index == 0 ==> crate::config::opt_str_view(final(self).config.editor) == (
                if value.len() == 0 {
                    None
                } else {
                    Some(value)
                }))
                &&& (index == 1 ==> crate::config::opt_str_view(final(self).config.terminal) == (
                if value.len() == 0 {
                    None
                } else {
                    Some(value)
                }))
                &&& (index == 2 ==> final(self).config.copy_files@.map_values(|s: String| s@)
                    == comma_items(split_on(value, ',')))
                &&& (index >= 3 ==> final(self).config == old(self).config)
            }),
    {
        let value = trim_chars(&self.input_buffer);
        if index == 0 {
            self.config.editor = if value.len() == 0 {
                None
            } else {
                Some(string_from_chars(&value))
            };
        } else if index == 1 {
            self.config.terminal = if value.len() == 0 {
                None
            } else {
                Some(string_from_chars(&value))
            };
        } else if index == 2 {
            let parts = crate::text::split_chars(&value, ',');
            let ghost pv = parts@.map_values(|v: Vec<char>| v@);
            let mut files: Vec<String> = Vec::new();
            let mut k: usize = parts.len();
            proof {
                assert(pv.skip(k as int) =~= Seq::<Seq<char>>::empty());
                assert(files@.map_values(|s: String| s@) =~= comma_items(pv.skip(k as int)));
            }
            while k > 0
                invariant
                    k <= parts@.len(),
                    pv == parts@.map_values(|v: Vec<char>| v@),
                    pv == split_on(trim(old(self).input_buffer@), ','),
                    files@.map_values(|s: String| s@) == comma_items(pv.skip(k as int)),
                decreases k,
            {
                k = k - 1;
                proof {
                    assert(pv[k as int] == parts@[k as int]@);
                    assert(pv.skip(k as int).first() == pv[k as int]);
                    assert(pv.skip(k as int).drop_first() =~= pv.skip(k + 1));
                }
                let item = trim_chars(&parts[k]);
                if item.len() > 0 {
                    let ghost f0 = files@;
                    files.insert(0, string_from_chars(&item));
                    proof {
                        assert(files@.map_values(|s: String| s@) =~= seq![trim(pv[k as int])]
                            + f0.map_values(|s: String| s@));
                    }
                }
            }
            proof {
                assert(pv.skip(0) =~= pv);
            }
            self.config.copy_files = files;
        }
        self.set_info("Setting updated (press 's' to save to file)");
    }

    /// One keystroke of the configuration editor. While editing, escape
    /// cancels with the buffer cleared — stale input never leaks — and
    /// enter applies the edit; otherwise the selection moves within the
    /// entries, enter starts editing (the script entry opens the editor
    /// instead), and `s` asks for the configuration to be saved.
    pub fn handle_config_modal_input(&mut self, key: Key, selected: usize, editing: bool) -> (a:
        Action)
        requires
            old(self).wf(),
            selected < CONFIG_ITEM_COUNT,
        ensures
            final(self).wf(),
            config_input_post(*old(self), *final(self), key, selected, editing, a),
    {
        if editing {
            match key {
                Key::Esc => {
                    self.input_buffer = Vec::new();
                    self.state = AppState::ConfigModal { selected_index: selected, editing: false };
                    Action::Idle
                },
                Key::Enter => {
                    self.apply_config_edit(selected);
                    self.input_buffer = Vec::new();
                    self.state = AppState::ConfigModal { selected_index: selected, editing: false };
                    Action::Idle
                },
                Key::Char(c) => {
                    self.input_buffer.push(c);
                    Action::Idle
                },
                Key::Backspace => {
                    if self.input_buffer.len() > 0 {
                        let _ = self.input_buffer.pop();
                    }
                    Action::Idle
                },
                _ => Action::Idle,
            }
        } else {
            match key {
                Key::Esc => {
                    self.state = AppState::List;
                    Action::Idle
                },
                Key::Up => {
                    let ni: usize = if selected > 0 {
                        selected - 1
                    } else {
                        0
                    };
                    self.state = AppState::ConfigModal { selected_index: ni, editing: false };
                    Action::Idle
                },
                Key::Down => {
                    let ni: usize = if selected + 1 < CONFIG_ITEM_COUNT {
                        selected + 1
                    } else {
                        CONFIG_ITEM_COUNT - 1
                    };
                    self.state = AppState::ConfigModal { selected_index: ni, editing: false };
                    Action::Idle
                },
                Key::Enter => {
                    if selected == 3 {
                        Action::EditScript
                    } else {
                        self.input_buffer = chars_of(
                            self.get_config_value_for_editing(selected).as_str(),
                        );
                        self.state = AppState::ConfigModal {
                            selected_index: selected,
                            editing: true,
                        };
                        Action::Idle
                    }
                },
                Key::Char(k) => {
                    if k == 'q' {
                        self.state = AppState::List;
                        Action::Idle
                    } else if k == 'k' {
                        let ni: usize = if selected > 0 {
                            selected - 1
                        } else {
                            0
                        };
                        self.state = AppState::ConfigModal { selected_index: ni, editing: false };
                        Action::Idle
                    } else if k == 'j' {
                        let ni: usize = if selected + 1 < CONFIG_ITEM_COUNT {
                            selected + 1
                        } else {
                            CONFIG_ITEM_COUNT - 1
                        };
                        self.state = AppState::ConfigModal { selected_index: ni, editing: false };
                        Action::Idle
                    } else if k == 's' {
                        Action::SaveConfig
                    } else {
                        Action::Idle
                    }
                },
                _ => Action::Idle,
            }
        }
    }
}

} // verus!

verus! {

/// Outcome of opening the delete confirmation: the bare root is refused
/// with its message, an empty list does nothing, and any other selection
/// opens the confirmation with both toggles false.
pub open spec fn delete_confirm_open_post(o: Controller, f: Controller) -> bool {
    &&& f.session == o.session
    &&& f.last_key is None
    &&& (match spec_selected(o) {
        None => f.state == o.state,
        Some(t) => {
            if t.is_bare {
                f.state == o.state && has_error_message(f, "Cannot delete bare repository"@)
            } else {
                f.state == (AppState::ConfirmDelete { delete_branch: false, force: false })
            }
        },
    })
}

/// Outcome of confirming the pending delete: the delete decision rules. A
/// dirty target without force keeps the confirmation open with its message;
/// the bare root is refused back to the list with its message; an accepted
/// request enters the busy state and issues the delete command, toggles
/// carried as data.
pub open spec fn confirm_decision_post(
    o: Controller,
    f: Controller,
    a: Action,
    delete_branch: bool,
    force: bool,
) -> bool {
    &&& f.session == o.session
    &&& (match spec_selected(o) {
        None => a == Action::Idle && f.state == o.state,
        Some(t) => (match delete_refusal(t, force) {
            Some(e) => a == Action::Idle && (if e is DirtyWorktree {
                f.state == o.state && has_error_message(
                    f,
                    "Worktree has uncommitted changes. Press 'f' to enable force delete."@,
                )
            } else {
                f.state == AppState::List && has_error_message(
                    f,
                    "Cannot delete bare repository"@,
                )
            }),
            None => f.state == AppState::Deleting && (match a {
                Action::RunDelete {
                    worktree_path,
                    branch,
                    display_name,
                    delete_branch: db,
                    force: fo,
                } => worktree_path@ == t.path@ && crate::config::opt_str_view(branch)
                    == crate::config::opt_str_view(t.branch) && display_name@
                    == t.spec_display_name() && db == delete_branch && fo == force,
                _ => false,
            }),
        }),
    })
}

/// One keystroke of the delete confirmation: cancel closes it, the two
/// toggle keys flip their explicit toggles, and confirming rules by the
/// delete decision.
pub open spec fn confirm_input_post(
    o: Controller,
    f: Controller,
    key: Key,
    delete_branch: bool,
    force: bool,
    a: Action,
) -> bool {
    &&& f.session == o.session
    &&& (key == Key::Esc || key == Key::Char('n') ==> f.state == AppState::List && a
        == Action::Idle)
    &&& (key == Key::Char('b') ==> f.state == (AppState::ConfirmDelete {
        delete_branch: !delete_branch,
        force,
    }) && a == Action::Idle)
    &&& (key == Key::Char('f') ==> f.state == (AppState::ConfirmDelete {
        delete_branch,
        force: !force,
    }) && a == Action::Idle)
    &&& (key == Key::Char('y') || key == Key::Enter ==> confirm_decision_post(
        o,
        f,
        a,
        delete_branch,
        force,
    ))
}

/// Outcome of the jump chord: with no launch worktree only the error
/// message lands; with one present in the list it is selected and the jump
/// is announced; with one known but absent nothing moves.
pub open spec fn jump_post(o: Controller, f: Controller) -> bool {
    &&& f.session.worktrees == o.session.worktrees
    &&& (match o.session.current_worktree_path {
        None => has_error_message(f, "No current worktree detected"@)
            && f.session.selected_index == o.session.selected_index,
        Some(p) => {
            if exists|i: int|
                0 <= i < o.session.worktrees@.len() && #[trigger] o.session.worktrees@[i].path@
                    == p@ {
                o.session.worktrees@[f.session.selected_index as int].path@ == p@
                    && has_info_message(f, "Jumped to current worktree"@)
            } else {
                f.session.selected_index == o.session.selected_index
            }
        },
    })
}

/// Outcome of entering the selected worktree: the session ends with its
/// path as the exit action; the bare root or an empty list only leaves an
/// error message.
pub open spec fn enter_post(o: Controller, f: Controller) -> bool {
    match spec_selected(o) {
        None => has_error_message(f, "No worktree selected"@) && f.should_quit == o.should_quit,
        Some(t) => {
            if t.is_bare {
                has_error_message(f, "Cannot enter bare repository"@) && f.should_quit
                    == o.should_quit && f.exit_action == o.exit_action
            } else {
                f.should_quit && (match f.exit_action {
                    ExitAction::ChangeDirectory(p) => p@ == t.path@,
                    ExitAction::Quit => false,
                })
            }
        },
    }
}

/// Outcome of opening the selected worktree externally (editor or
/// terminal): the bare root is refused, anything else issues the action
/// with the worktree's path.
pub open spec fn open_request_post(o: Controller, f: Controller, a: Action, is_editor: bool) -> bool {
    match spec_selected(o) {
        None => f == (Controller { last_key: None, ..o }) && a == Action::Idle,
        Some(t) => {
            if t.is_bare {
                a == Action::Idle && f.state == o.state && f.session == o.session
                    && has_error_message(
                    f,
                    if is_editor {
                        "Cannot open bare repository in editor"@
                    } else {
                        "Cannot open bare repository in terminal"@
                    },
                )
            } else {
                f.session == o.session && f.state == o.state && (match a {
                    Action::OpenEditor { worktree_path } => is_editor && worktree_path@ == t.path@,
                    Action::OpenTerminal { worktree_path } => !is_editor && worktree_path@
                        == t.path@,
                    _ => false,
                })
            }
        },
    }
}

/// Outcome of the clipboard request: any selected record's path goes out.
pub open spec fn copy_request_post(o: Controller, f: Controller, a: Action) -> bool {
    match spec_selected(o) {
        None => f == (Controller { last_key: None, ..o }) && a == Action::Idle,
        Some(t) => f.session == o.session && f.state == o.state && (match a {
            Action::CopyPath { worktree_path } => worktree_path@ == t.path@,
            _ => false,
        }),
    }
}

/// One keystroke of the list view, by key: the filter sub-mode intercepts
/// everything; otherwise quit, filter entry, the add modal, the delete
/// confirmation, the validated operation requests, refresh and prune,
/// sort cycling, clamped movement, the jump chord, and the modal openers.
pub open spec fn list_input_post(o: Controller, f: Controller, key: Key, a: Action) -> bool {
    &&& (o.is_filtering ==> filter_input_post(o, f, key, a))
    &&& (!o.is_filtering ==> {

                &&& (key == Key::Char('q') || key == Key::CtrlChar('c') ==> f.should_quit)
                &&& (key == Key::Char('/') ==> f.is_filtering && f.session.filter_text@ == Seq::<char>::empty())
                &&& (key == Key::Char('a') ==> f.state == AppState::AddModal && f.input_buffer@ == Seq::<char>::empty())
                &&& (key == Key::Char('d') ==> delete_confirm_open_post(
                    o,
                    f,
                ) && a == Action::Idle)
                &&& (key == Key::Char('p') ==> clean_request_post(
                    o,
                    f,
                    a,
                    AppState::Pulling,
                    false,
                    "Cannot pull bare repository"@,
                    "Cannot pull: worktree has uncommitted changes"@,
                ))
                &&& (key == Key::Char('m') ==> clean_request_post(
                    o,
                    f,
                    a,
                    AppState::Merging,
                    false,
                    "Cannot merge into bare repository"@,
                    "Cannot merge: worktree has uncommitted changes"@,
                ))
                &&& (key == Key::Char('M') ==> clean_request_post(
                    o,
                    f,
                    a,
                    AppState::List,
                    true,
                    "Cannot merge into bare repository"@,
                    "Cannot merge: worktree has uncommitted changes"@,
                ))
                &&& (key == Key::Char('f') ==> non_bare_request_post(
                    o,
                    f,
                    a,
                    AppState::Fetching,
                    "Cannot fetch bare repository"@,
                ))
                &&& (key == Key::Char('P') ==> non_bare_request_post(
                    o,
                    f,
                    a,
                    AppState::Pushing,
                    "Cannot push bare repository"@,
                ))
                &&& (key == Key::Char('o') ==> open_request_post(
                    o,
                    f,
                    a,
                    true,
                ))
                &&& (key == Key::Char('t') ==> open_request_post(
                    o,
                    f,
                    a,
                    false,
                ))
                &&& (key == Key::Char('y') ==> copy_request_post(o, f, a))
                &&& (key == Key::Char('r') ==> a == Action::Refresh)
                &&& (key == Key::Char('x') ==> a == Action::Prune)
                &&& (key == Key::Char('s') ==> f.session.sort_mode == (match o.session.sort_mode {
                    crate::types::SortMode::Name => crate::types::SortMode::Recent,
                    crate::types::SortMode::Recent => crate::types::SortMode::Status,
                    crate::types::SortMode::Status => crate::types::SortMode::Name,
                }) && f.session.worktrees@ == crate::sort::sort_spec(
                    f.session.sort_mode,
                    o.session.worktrees@,
                ))
                &&& (key == Key::Char('v') ==> f.verbose == !o.verbose)
                &&& (key == Key::Char('c') ==> f.state == (AppState::ConfigModal {
                    selected_index: 0,
                    editing: false,
                }))
                &&& (key == Key::Char('?') ==> f.state == AppState::HelpModal && f.help_scroll_offset == 0)
                &&& (key == Key::Up || key == Key::Char('k') ==> f.session.selected_index
                    == (if o.session.selected_index > 0 {
                    o.session.selected_index - 1
                } else {
                    0int
                }))
                &&& (key == Key::Down || key == Key::Char('j') ==> f.session.selected_index == (if o.session.worktrees@.len() > 0 && o.session.selected_index + 1 < o.session.worktrees@.len() {
                    o.session.selected_index + 1
                } else {
                    o.session.selected_index as int
                }))
                &&& (key == Key::Home ==> f.session.selected_index == 0)
                &&& (key == Key::End || key == Key::Char('G') ==> f.session.selected_index == (if o.session.worktrees@.len() == 0 {
                    0int
                } else {
                    o.session.worktrees@.len() - 1
                }))
                &&& (key == Key::Char('g') && o.last_key == Some('g') ==> f.session.selected_index == 0 && f.last_key is None)
                &&& (key == Key::Char('g') && o.last_key != Some('g') ==> f.last_key == Some('g') && f.session == o.session)
                &&& (key == Key::Enter ==> enter_post(o, f) && a
                    == Action::Idle)
                &&& (key == Key::Esc ==> f.session.filter_text@ == Seq::<char>::empty())
                &&& (key == Key::CtrlChar('d') ==> {
                    let step = if o.viewport_half_page > 0 {
                        o.viewport_half_page as int
                    } else {
                        10int
                    };
                    if o.session.worktrees@.len() == 0 {
                        f.session.selected_index == 0
                    } else {
                        f.session.selected_index == vstd::math::min(
                            o.session.selected_index + step,
                            o.session.worktrees@.len() - 1,
                        )
                    }
                })
                &&& (key == Key::CtrlChar('u') ==> {
                    let step = if o.viewport_half_page > 0 {
                        o.viewport_half_page as int
                    } else {
                        10int
                    };
                    f.session.selected_index == vstd::math::max(
                        o.session.selected_index - step,
                        0int,
                    )
                })
                &&& (key == Key::Char('0') && o.last_key == Some('g') ==> jump_post(
                    o,
                    f,
                ) && f.last_key is None)
            
    })
}

impl Controller {
    /// Requests the editor in the selected worktree; the bare root is
    /// refused.
    pub fn open_editor(&mut self) -> (a: Action)
        requires
            old(self).wf(),
        ensures
            final(self).wf(),
            open_request_post(*old(self), *final(self), a, true),
    {
        self.last_key = None;
        let is_bare = match self.session.selected_worktree() {
            Some(wt) => wt.is_bare,
            None => {
                return Action::Idle;
            },
        };
        if is_bare {
            self.set_error("Cannot open bare repository in editor");
            return Action::Idle;
        }
        let path = self.session.worktrees[self.session.selected_index].path.clone();
        Action::OpenEditor { worktree_path: path }
    }

    /// Requests a terminal in the selected worktree; the bare root is
    /// refused.
    pub fn open_terminal(&mut self) -> (a: Action)
        requires
            old(self).wf(),
        ensures
            final(self).wf(),
            open_request_post(*old(self), *final(self), a, false),
    {
        self.last_key = None;
        let is_bare = match self.session.selected_worktree() {
            Some(wt) => wt.is_bare,
            None => {
                return Action::Idle;
            },
        };
        if is_bare {
            self.set_error("Cannot open bare repository in terminal");
            return Action::Idle;
        }
        let path = self.session.worktrees[self.session.selected_index].path.clone();
        Action::OpenTerminal { worktree_path: path }
    }

    /// Requests the selected worktree's path on the clipboard.
    pub fn copy_path_to_clipboard(&mut self) -> (a: Action)
        requires
            old(self).wf(),
        ensures
            final(self).wf(),
            copy_request_post(*old(self), *final(self), a),
    {
        self.last_key = None;
        if self.session.worktrees.len() == 0 {
            return Action::Idle;
        }
        let path = self.session.worktrees[self.session.selected_index].path.clone();
        Action::CopyPath { worktree_path: path }
    }

    /// One keystroke of the list view. The filter sub-mode intercepts
    /// everything first; otherwise navigation moves the clamped selection,
    /// the two-key chord jumps to the launch worktree, and the operation
    /// keys validate their target before any command leaves.
    pub fn handle_list_input(&mut self, key: Key) -> (a: Action)
        requires
            old(self).wf(),
            old(self).state is List,
        ensures
            final(self).wf(),
            list_input_post(*old(self), *final(self), key, a),
    {
        if self.is_filtering {
            return self.handle_filter_input(key);
        }
        match key {
            Key::CtrlChar(k) => {
                if k == 'c' {
                    self.should_quit = true;
                } else if k == 'd' {
                    let step = if self.viewport_half_page > 0 {
                        self.viewport_half_page
                    } else {
                        10
                    };
                    self.session.move_selection_half_page_down(step);
                    self.last_key = None;
                } else if k == 'u' {
                    let step = if self.viewport_half_page > 0 {
                        self.viewport_half_page
                    } else {
                        10
                    };
                    self.session.move_selection_half_page_up(step);
                    self.last_key = None;
                }
                Action::Idle
            },
            Key::Up => {
                self.session.move_selection_up();
                self.last_key = None;
                Action::Idle
            },
            Key::Down => {
                self.session.move_selection_down();
                self.last_key = None;
                Action::Idle
            },
            Key::Home => {
                self.session.move_to_top();
                self.last_key = None;
                Action::Idle
            },
            Key::End => {
                self.session.move_to_bottom();
                self.last_key = None;
                Action::Idle
            },
            Key::Enter => {
                self.enter_worktree();
                self.last_key = None;
                Action::Idle
            },
            Key::Esc => {
                self.session.filter_text = Vec::new();
                self.last_key = None;
                Action::Idle
            },
            Key::Char(k) => {
                if k == 'q' {
                    self.should_quit = true;
                    Action::Idle
                } else if k == 'k' {
                    self.session.move_selection_up();
                    self.last_key = None;
                    Action::Idle
                } else if k == 'j' {
                    self.session.move_selection_down();
                    self.last_key = None;
                    Action::Idle
                } else if k == 'g' {
                    if self.last_key == Some('g') {
                        self.session.move_to_top();
                        self.last_key = None;
                    } else {
                        self.last_key = Some('g');
                    }
                    Action::Idle
                } else if k == 'G' {
                    self.session.move_to_bottom();
                    self.last_key = None;
                    Action::Idle
                } else if k == '/' {
                    self.is_filtering = true;
                    self.session.filter_text = Vec::new();
                    self.last_key = None;
                    Action::Idle
                } else if k == 'a' {
                    self.state = AppState::AddModal;
                    self.input_buffer = Vec::new();
                    self.last_key = None;
                    Action::Idle
                } else if k == 'd' {
                    self.request_delete_confirm();
                    Action::Idle
                } else if k == 'o' {
                    self.open_editor()
                } else if k == 't' {
                    self.open_terminal()
                } else if k == 'f' {
                    self.fetch_all()
                } else if k == 'p' {
                    self.pull_worktree()
                } else if k == 'P' {
                    self.push_worktree()
                } else if k == 'm' {
                    self.merge_upstream()
                } else if k == 'M' {
                    self.open_merge_branch_select()
                } else if k == 'r' {
                    self.last_key = None;
                    Action::Refresh
                } else if k == 'x' {
                    self.last_key = None;
                    Action::Prune
                } else if k == 's' {
                    self.session.cycle_sort_mode();
                    let label = match self.session.sort_mode {
                        crate::types::SortMode::Name => "name",
                        crate::types::SortMode::Recent => "recent",
                        crate::types::SortMode::Status => "status",
                    };
                    let msg = concat_str("Sort: ", label);
                    self.message = Some(AppMessage::info(msg));
                    self.last_key = None;
                    Action::Idle
                } else if k == 'c' {
                    self.state = AppState::ConfigModal { selected_index: 0, editing: false };
                    self.last_key = None;
                    Action::Idle
                } else if k == 'v' {
                    self.verbose = !self.verbose;
                    if self.verbose {
                        self.set_info("Verbose mode: ON");
                    } else {
                        self.set_info("Verbose mode: OFF");
                    }
                    self.last_key = None;
                    Action::Idle
                } else if k == '?' {
                    self.help_scroll_offset = 0;
                    self.state = AppState::HelpModal;
                    self.last_key = None;
                    Action::Idle
                } else if k == 'y' {
                    self.copy_path_to_clipboard()
                } else if k == '0' {
                    if self.last_key == Some('g') {
                        self.jump_to_current();
                    }
                    self.last_key = None;
                    Action::Idle
                } else {
                    if self.last_key == Some('g') {
                        self.jump_to_current();
                    }
                    self.last_key = None;
                    Action::Idle
                }
            },
            _ => {
                if self.last_key == Some('g') {
                    self.jump_to_current();
                }
                self.last_key = None;
                Action::Idle
            },
        }
    }

    /// One key press of the whole machine: any pending message clears, the
    /// state that owns the screen handles the key as its named outcome says,
    /// and a busy state ignores everything until its completion report
    /// arrives.
    pub fn handle_key(&mut self, key: Key) -> (a: Action)
        requires
            old(self).wf(),
        ensures
            final(self).wf(),
            is_busy(old(self).state) ==> a == Action::Idle && *final(self) == cleared(*old(self)),
            old(self).state is List ==> list_input_post(cleared(*old(self)), *final(self), key, a),
            old(self).state is AddModal || old(self).state is AddBranchInput ==> add_input_post(
                cleared(*old(self)),
                *final(self),
                key,
                a,
            ),
            old(self).state is AddTypeSelect || old(self).state is BranchTypesModal ==> a
                == Action::Idle && *final(self) == cleared(*old(self)),
            (old(self).state matches AppState::ConfirmDelete { delete_branch, force }
                ==> confirm_input_post(
                cleared(*old(self)),
                *final(self),
                key,
                delete_branch,
                force,
                a,
            )),
            (old(self).state matches AppState::ConfigModal { selected_index, editing }
                ==> config_input_post(
                cleared(*old(self)),
                *final(self),
                key,
                (if selected_index < CONFIG_ITEM_COUNT {
                    selected_index
                } else {
                    0usize
                }),
                editing,
                a,
            )),
            old(self).state is HelpModal ==> help_input_post(
                cleared(*old(self)),
                *final(self),
                key,
                a,
            ),
            (old(self).state matches AppState::MergeBranchSelect { branches, selected }
                ==> merge_pick_input_post(
                cleared(*old(self)),
                *final(self),
                key,
                branches,
                selected,
                a,
            )),
    {
        self.message = None;
        self.last_command_detail = None;
        let target = match &self.state {
            AppState::List => Dispatch::ListView,
            AppState::AddModal => Dispatch::AddInput,
            AppState::AddTypeSelect => Dispatch::Inert,
            AppState::AddBranchInput => Dispatch::AddInput,
            AppState::ConfirmDelete { delete_branch, force } => Dispatch::Confirm(
                *delete_branch,
                *force,
            ),
            AppState::ConfigModal { selected_index, editing } => Dispatch::ConfigEditor(
                *selected_index,
                *editing,
            ),
            AppState::BranchTypesModal { .. } => Dispatch::Inert,
            AppState::HelpModal => Dispatch::Help,
            AppState::MergeBranchSelect { .. } => Dispatch::MergePick,
            AppState::Fetching => Dispatch::Busy,
            AppState::Adding => Dispatch::Busy,
            AppState::Deleting => Dispatch::Busy,
            AppState::Pulling => Dispatch::Busy,
            AppState::Pushing => Dispatch::Busy,
            AppState::Merging => Dispatch::Busy,
        };
        match target {
            Dispatch::ListView => self.handle_list_input(key),
            Dispatch::AddInput => self.handle_add_modal_input(key),
            Dispatch::Confirm(delete_branch, force) => self.handle_confirm_delete_input(
                key,
                delete_branch,
                force,
            ),
            Dispatch::ConfigEditor(selected_index, editing) => {
                if selected_index < CONFIG_ITEM_COUNT {
                    self.handle_config_modal_input(key, selected_index, editing)
                } else {
                    self.handle_config_modal_input(key, 0, editing)
                }
            },
            Dispatch::Help => self.handle_help_modal_input(key),
            Dispatch::MergePick => {
                let mut st = AppState::List;
                core::mem::swap(&mut st, &mut self.state);
                match st {
                    AppState::MergeBranchSelect { branches, selected } => self.handle_merge_branch_select_input(
                        key,
                        branches,
                        selected,
                    ),
                    _ => Action::Idle,
                }
            },
            Dispatch::Inert => Action::Idle,
            Dispatch::Busy => Action::Idle,
        }
    }
}

/// Which handler owns the incoming key, with the copied modal parameters.
enum Dispatch {
    ListView,
    AddInput,
    Confirm(bool, bool),
    ConfigEditor(usize, bool),
    Help,
    MergePick,
    Inert,
    Busy,
}

} // verus!

verus! {

impl Controller {
    /// In verbose mode, records the command line and appends it to the
    /// message; otherwise both pass through untouched.
    fn attach_detail(&mut self, msg: String, cmd_detail: &str) -> (r: String)
        ensures
            eq_but_message(*old(self), *final(self)),
            final(self).message == old(self).message,
            old(self).verbose ==> r@ == msg@ + "\n$ "@ + cmd_detail@ && (match final(self).last_command_detail {
                Some(d) => d@ == cmd_detail@,
                None => false,
            }),
            !old(self).verbose ==> r == msg && final(self).last_command_detail == old(self).last_command_detail,
    {
        if self.verbose {
            self.last_command_detail = Some(cmd_detail.to_owned());
            let mut v = chars_of(msg.as_str());
            append_chars(&mut v, &chars_of("\n$ "));
            append_chars(&mut v, &chars_of(cmd_detail));
            string_from_chars(&v)
        } else {
            msg
        }
    }

    /// Takes a rebuilt inventory: the list is re-sorted under the current
    /// mode with the selection tracked by path, and an explicit refresh
    /// announces itself; a failed rebuild only reports.
    pub fn apply_refresh_result(&mut self, result: Result<Vec<Worktree>, String>, announce: bool)
        requires
            old(self).wf(),
        ensures
            final(self).wf(),
            (match result {
                Ok(list) => final(self).session.worktrees@ == crate::sort::sort_spec(
                    old(self).session.sort_mode,
                    list@,
                ) && (old(self).session.worktrees@.len() > 0 ==> {
                    let p = old(self).session.worktrees@[old(self).session.selected_index as int].path@;
                    (exists|i: int|
                        0 <= i < final(self).session.worktrees@.len() && (
                        #[trigger] final(self).session.worktrees@[i]).path@ == p) ==> final(self).session.worktrees@[final(self).session.selected_index as int].path@ == p
                }) && (announce ==> has_info_message(*final(self), "Refreshed"@)),
                Err(e) => final(self).session == old(self).session && (match final(self).message {
                    Some(m) => m.is_error && m.text@ == "Failed to refresh: "@ + e@,
                    None => false,
                }),
            }),
    {
        match result {
            Ok(list) => {
                self.session.apply_refresh(list);
                if announce {
                    self.set_info("Refreshed");
                }
            },
            Err(e) => {
                let msg = concat_str("Failed to refresh: ", e.as_str());
                self.message = Some(AppMessage::error(msg));
            },
        }
    }

    /// Takes a fetch completion: back to the list, the outcome reported,
    /// and a refresh requested on success.
    pub fn apply_fetch_result(
        &mut self,
        display_name: &str,
        result: Result<(), String>,
        cmd_detail: &str,
    ) -> (refresh: bool)
        requires
            old(self).wf(),
        ensures
            final(self).wf(),
            final(self).state == AppState::List,
            final(self).session == old(self).session,
            refresh == result is Ok,
            result is Ok ==> (match final(self).message {
                Some(m) => !m.is_error,
                None => false,
            }),
            result is Err ==> (match final(self).message {
                Some(m) => m.is_error,
                None => false,
            }),
    {
        let refresh = match result {
            Ok(()) => {
                let base = concat_str("Fetch completed: ", display_name);
                let msg = self.attach_detail(base, cmd_detail);
                self.message = Some(AppMessage::info(msg));
                true
            },
            Err(e) => {
                let base = concat_str("Fetch failed: ", e.as_str());
                let msg = self.attach_detail(base, cmd_detail);
                self.message = Some(AppMessage::error(msg));
                false
            },
        };
        self.state = AppState::List;
        refresh
    }

    /// Notes that the post-creation script started for the worktree.
    pub fn script_started(&mut self, worktree_name: String)
        ensures
            final(self).script_status == (ScriptStatus::Running { worktree_name }),
            final(self).session == old(self).session,
            final(self).state == old(self).state,
    {
        self.script_status = ScriptStatus::Running { worktree_name };
    }

    /// Takes an add completion: back to the list with the buffer cleared,
    /// the outcome reported — noting a still-running setup script — and a
    /// refresh requested on success.
    pub fn apply_add_result(
        &mut self,
        branch: &str,
        result: Result<(), String>,
        cmd_detail: &str,
    ) -> (refresh: bool)
        requires
            old(self).wf(),
        ensures
            final(self).wf(),
            final(self).state == AppState::List,
            final(self).input_buffer@ == Seq::<char>::empty(),
            final(self).session == old(self).session,
            refresh == result is Ok,
            result is Ok ==> (match final(self).message {
                Some(m) => !m.is_error,
                None => false,
            }),
            result is Err ==> (match final(self).message {
                Some(m) => m.is_error,
                None => false,
            }),
    {
        let refresh = match result {
            Ok(()) => {
                let script_running = matches!(self.script_status, ScriptStatus::Running { .. });
                let base = if script_running {
                    msg_around("Created worktree: ", branch, " (running setup script...)")
                } else {
                    concat_str("Created worktree: ", branch)
                };
                let msg = self.attach_detail(base, cmd_detail);
                self.message = Some(AppMessage::info(msg));
                true
            },
            Err(e) => {
                let base = concat_str("Failed to create: ", e.as_str());
                let msg = self.attach_detail(base, cmd_detail);
                self.message = Some(AppMessage::error(msg));
                false
            },
        };
        self.state = AppState::List;
        self.input_buffer = Vec::new();
        refresh
    }

    /// Selects the row carrying the path, if one does.
    pub fn select_worktree_by_path(&mut self, path: &String) -> (found: bool)
        requires
            old(self).wf(),
        ensures
            final(self).wf(),
            final(self).session.worktrees == old(self).session.worktrees,
            found == (exists|i: int|
                0 <= i < old(self).session.worktrees@.len() && (
                #[trigger] old(self).session.worktrees@[i]).path@ == path@),
            found ==> final(self).session.worktrees@[final(self).session.selected_index as int].path@
                == path@,
            !found ==> final(self).session == old(self).session,
    {
        match find_by_path(&self.session.worktrees, path) {
            Some(i) => {
                self.session.selected_index = i;
                true
            },
            None => false,
        }
    }

    /// Takes the delete completion: on success the removed record leaves
    /// the in-memory list at once — no blocking rebuild — with the
    /// selection clamped; on failure only the report lands. Either way the
    /// list screen returns.
    pub fn apply_delete_result(&mut self, result: crate::types::DeleteResult)
        requires
            old(self).wf(),
        ensures
            final(self).wf(),
            final(self).state == AppState::List,
            result.success ==> final(self).session.worktrees@ == crate::session::keep_other_paths(
                old(self).session.worktrees@,
                result.worktree_path@,
            ),
            result.success ==> (match final(self).message {
                Some(m) => !m.is_error,
                None => false,
            }),
            !result.success ==> final(self).session == old(self).session && (match final(self).message {
                Some(m) => m.is_error,
                None => false,
            }),
    {
        if result.success {
            let msg = self.attach_detail(result.message, result.cmd_detail.as_str());
            self.message = Some(AppMessage::info(msg));
            self.session.remove_by_path(&result.worktree_path);
        } else {
            let base = concat_str("Failed to delete: ", result.message.as_str());
            let msg = self.attach_detail(base, result.cmd_detail.as_str());
            self.message = Some(AppMessage::error(msg));
        }
        self.state = AppState::List;
    }

    /// Takes the loss of the delete completion channel: with no report ever
    /// coming, the list screen returns and the model stands as it was.
    pub fn delete_channel_lost(&mut self)
        requires
            old(self).wf(),
        ensures
            final(self).wf(),
            final(self).state == AppState::List,
            final(self).session == old(self).session,
            final(self).message == old(self).message,
    {
        self.state = AppState::List;
    }

    /// Takes the setup script's completion, whenever it arrives — the add
    /// flow has long returned to the list.
    pub fn apply_script_result(&mut self, result: ScriptResult)
        requires
            old(self).wf(),
        ensures
            final(self).wf(),
            final(self).script_status is Idle,
            final(self).session == old(self).session,
            final(self).state == old(self).state,
            (match final(self).message {
                Some(m) => m.is_error == !result.success && (if result.success {
                    m.text@ == "Setup script completed: "@ + result.message@
                } else {
                    m.text@ == "Setup script failed: "@ + result.message@
                }),
                None => false,
            }),
    {
        if result.success {
            let msg = concat_str("Setup script completed: ", result.message.as_str());
            self.message = Some(AppMessage::info(msg));
        } else {
            let msg = concat_str("Setup script failed: ", result.message.as_str());
            self.message = Some(AppMessage::error(msg));
        }
        self.script_status = ScriptStatus::Idle;
    }

    /// Takes a pull completion: back to the list, the outcome reported, a
    /// refresh requested on success.
    pub fn apply_pull_result(&mut self, display_name: &str, result: Result<String, String>) -> (refresh:
        bool)
        requires
            old(self).wf(),
        ensures
            final(self).wf(),
            final(self).state == AppState::List,
            final(self).session == old(self).session,
            refresh == result is Ok,
            (match result {
                Ok(out) => (match final(self).message {
                    Some(m) => !m.is_error && m.text@ == crate::ops::pull_message_spec(
                        out@,
                        display_name@,
                    ),
                    None => false,
                }),
                Err(e) => (match final(self).message {
                    Some(m) => m.is_error && m.text@ == "Pull failed: "@ + e@,
                    None => false,
                }),
            }),
    {
        let refresh = match result {
            Ok(out) => {
                let msg = crate::ops::compose_pull_message(out.as_str(), display_name);
                self.message = Some(AppMessage::info(msg));
                true
            },
            Err(e) => {
                let msg = concat_str("Pull failed: ", e.as_str());
                self.message = Some(AppMessage::error(msg));
                false
            },
        };
        self.state = AppState::List;
        refresh
    }

    /// Takes a push completion: back to the list, the outcome reported, a
    /// refresh requested on success.
    pub fn apply_push_result(&mut self, display_name: &str, result: Result<String, String>) -> (refresh:
        bool)
        requires
            old(self).wf(),
        ensures
            final(self).wf(),
            final(self).state == AppState::List,
            final(self).session == old(self).session,
            refresh == result is Ok,
            (match result {
                Ok(out) => (match final(self).message {
                    Some(m) => !m.is_error && m.text@ == crate::ops::push_message_spec(
                        out@,
                        display_name@,
                    ),
                    None => false,
                }),
                Err(e) => (match final(self).message {
                    Some(m) => m.is_error && m.text@ == "Push failed: "@ + e@,
                    None => false,
                }),
            }),
    {
        let refresh = match result {
            Ok(out) => {
                let msg = crate::ops::compose_push_message(out.as_str(), display_name);
                self.message = Some(AppMessage::info(msg));
                true
            },
            Err(e) => {
                let msg = concat_str("Push failed: ", e.as_str());
                self.message = Some(AppMessage::error(msg));
                false
            },
        };
        self.state = AppState::List;
        refresh
    }

    /// Takes a merge completion: back to the list with the source cleared,
    /// the outcome reported, a refresh requested on success.
    pub fn apply_merge_result(&mut self, result: Result<String, String>) -> (refresh: bool)
        requires
            old(self).wf(),
        ensures
            final(self).wf(),
            final(self).state == AppState::List,
            final(self).session == old(self).session,
            final(self).merge_source_branch is None,
            refresh == result is Ok,
            (match result {
                Ok(out) => (match final(self).message {
                    Some(m) => !m.is_error && m.text@ == crate::ops::merge_message_spec(out@),
                    None => false,
                }),
                Err(e) => (match final(self).message {
                    Some(m) => m.is_error && m.text@ == "Merge failed: "@ + e@,
                    None => false,
                }),
            }),
    {
        let refresh = match result {
            Ok(out) => {
                let msg = crate::ops::compose_merge_message(out.as_str());
                self.message = Some(AppMessage::info(msg));
                true
            },
            Err(e) => {
                let msg = concat_str("Merge failed: ", e.as_str());
                self.message = Some(AppMessage::error(msg));
                false
            },
        };
        self.merge_source_branch = None;
        self.state = AppState::List;
        refresh
    }

    /// Takes a prune completion: the outcome reported, a refresh requested
    /// on success.
    pub fn apply_prune_result(&mut self, result: Result<String, String>, cmd_detail: &str) -> (refresh:
        bool)
        requires
            old(self).wf(),
        ensures
            final(self).wf(),
            final(self).session == old(self).session,
            refresh == result is Ok,
            result is Ok ==> (match final(self).message {
                Some(m) => !m.is_error,
                None => false,
            }),
            result is Err ==> (match final(self).message {
                Some(m) => m.is_error,
                None => false,
            }),
    {
        match result {
            Ok(out) => {
                let base = crate::ops::compose_prune_message(out.as_str());
                let msg = self.attach_detail(base, cmd_detail);
                self.message = Some(AppMessage::info(msg));
                true
            },
            Err(e) => {
                let base = concat_str("Prune failed: ", e.as_str());
                let msg = self.attach_detail(base, cmd_detail);
                self.message = Some(AppMessage::error(msg));
                false
            },
        }
    }

    /// Takes the clipboard outcome.
    pub fn apply_copy_result(&mut self, copied: bool, path: &str)
        requires
            old(self).wf(),
        ensures
            final(self).wf(),
            final(self).session == old(self).session,
            copied ==> (match final(self).message {
                Some(m) => !m.is_error && m.text@ == "Copied: "@ + path@,
                None => false,
            }),
            !copied ==> (match final(self).message {
                Some(m) => m.is_error,
                None => false,
            }),
    {
        if copied {
            let msg = concat_str("Copied: ", path);
            self.message = Some(AppMessage::info(msg));
        } else {
            self.set_error("Failed to copy to clipboard");
        }
    }

    /// Takes the editor outcome: a clean exit asks for a refresh, anything
    /// else only reports.
    pub fn apply_editor_result(&mut self, outcome: Result<bool, String>) -> (refresh: bool)
        requires
            old(self).wf(),
        ensures
            final(self).wf(),
            final(self).session == old(self).session,
            refresh == (outcome == Ok::<bool, String>(true)),
            (match outcome {
                Ok(success) => !success ==> (match final(self).message {
                    Some(m) => m.is_error,
                    None => false,
                }),
                Err(e) => (match final(self).message {
                    Some(m) => m.is_error && m.text@ == "Failed to open editor: "@ + e@,
                    None => false,
                }),
            }),
    {
        match outcome {
            Ok(success) => {
                if success {
                    true
                } else {
                    self.set_error("Editor exited with error");
                    false
                }
            },
            Err(e) => {
                let msg = concat_str("Failed to open editor: ", e.as_str());
                self.message = Some(AppMessage::error(msg));
                false
            },
        }
    }

    /// Takes the terminal outcome.
    pub fn apply_terminal_result(&mut self, outcome: Result<bool, String>)
        requires
            old(self).wf(),
        ensures
            final(self).wf(),
            final(self).session == old(self).session,
            (match outcome {
                Ok(success) => (match final(self).message {
                    Some(m) => m.is_error == !success,
                    None => false,
                }),
                Err(e) => (match final(self).message {
                    Some(m) => m.is_error && m.text@ == "Failed to open terminal: "@ + e@,
                    None => false,
                }),
            }),
    {
        match outcome {
            Ok(success) => {
                if success {
                    self.set_info("Opened terminal");
                } else {
                    self.set_error("Failed to open terminal");
                }
            },
            Err(e) => {
                let msg = concat_str("Failed to open terminal: ", e.as_str());
                self.message = Some(AppMessage::error(msg));
            },
        }
    }

    /// Takes the configuration-save outcome.
    pub fn apply_save_result(&mut self, result: Result<(), String>)
        requires
            old(self).wf(),
        ensures
            final(self).wf(),
            final(self).session == old(self).session,
            (match result {
                Ok(u) => (match final(self).message {
                    Some(m) => !m.is_error && m.text@ == "Config saved"@,
                    None => false,
                }),
                Err(e) => (match final(self).message {
                    Some(m) => m.is_error && m.text@ == "Failed to save config: "@ + e@,
                    None => false,
                }),
            }),
    {
        match result {
            Ok(()) => {
                self.set_info("Config saved");
            },
            Err(e) => {
                let msg = concat_str("Failed to save config: ", e.as_str());
                self.message = Some(AppMessage::error(msg));
            },
        }
    }

    /// Takes the script-editor outcome.
    pub fn apply_script_editor_result(&mut self, outcome: Result<bool, String>)
        requires
            old(self).wf(),
        ensures
            final(self).wf(),
            final(self).session == old(self).session,
            (match outcome {
                Ok(success) => (match final(self).message {
                    Some(m) => m.is_error == !success,
                    None => false,
                }),
                Err(e) => (match final(self).message {
                    Some(m) => m.is_error && m.text@ == "Failed to open editor: "@ + e@,
                    None => false,
                }),
            }),
    {
        match outcome {
            Ok(success) => {
                if success {
                    self.set_info("Script editor closed");
                } else {
                    self.set_error("Editor exited with error");
                }
            },
            Err(e) => {
                let msg = concat_str("Failed to open editor: ", e.as_str());
                self.message = Some(AppMessage::error(msg));
            },
        }
    }
}

} // verus!

verus! {

/// Whether the pairs copy exactly the configured files from the source
/// worktree into the target, each path joined with a separator.
pub open spec fn copy_plan_matches(
    r: Seq<(String, String)>,
    source: Seq<char>,
    files: Seq<String>,
    target: Seq<char>,
) -> bool {
    r.len() == files.len() && (forall|i: int|
        0 <= i < r.len() ==> (#[trigger] r[i]).0@ == source + seq!['/'] + files[i]@ && r[i].1@
            == target + seq!['/'] + files[i]@)
}

impl Controller {
    /// The copy steps of a fresh worktree: each configured file from the
    /// source worktree — the launch worktree when known, else the first
    /// non-bare record — into the new worktree; no source or no configured
    /// files means nothing to copy.
    pub fn copy_files_plan(&self, target_path: &str) -> (r: Vec<(String, String)>)
        ensures
            self.config.copy_files@.len() == 0 ==> r@.len() == 0,
            self.config.copy_files@.len() > 0 ==> (match self.session.current_worktree_path {
                Some(p) => copy_plan_matches(r@, p@, self.config.copy_files@, target_path@),
                None => {
                    if exists|i: int|
                        0 <= i < self.session.worktrees@.len() && !(
                        #[trigger] self.session.worktrees@[i]).is_bare {
                        exists|i: int|
                            0 <= i < self.session.worktrees@.len() && !(
                            #[trigger] self.session.worktrees@[i]).is_bare && (forall|j: int|
                                0 <= j < i ==> self.session.worktrees@[j].is_bare)
                                && copy_plan_matches(
                                r@,
                                self.session.worktrees@[i].path@,
                                self.config.copy_files@,
                                target_path@,
                            )
                    } else {
                        r@.len() == 0
                    }
                },
            }),
    {
        if self.config.copy_files.len() == 0 {
            return Vec::new();
        }
        let source: String = match &self.session.current_worktree_path {
            Some(p) => p.clone(),
            None => {
                let mut i: usize = 0;
                let mut found: Option<String> = None;
                while i < self.session.worktrees.len() && found.is_none()
                    invariant
                        i <= self.session.worktrees@.len(),
                        (match found {
                            Some(p) => i > 0 && (exists|k: int|
                                0 <= k < self.session.worktrees@.len() && !(
                                #[trigger] self.session.worktrees@[k]).is_bare && (forall|j: int|
                                    0 <= j < k ==> self.session.worktrees@[j].is_bare) && p@
                                    == self.session.worktrees@[k].path@),
                            None => forall|j: int|
                                0 <= j < i ==> (#[trigger] self.session.worktrees@[j]).is_bare,
                        }),
                    decreases self.session.worktrees@.len() - i,
                {
                    if !self.session.worktrees[i].is_bare {
                        found = Some(self.session.worktrees[i].path.clone());
                    }
                    i = i + 1;
                }
                match found {
                    Some(p) => p,
                    None => {
                        return Vec::new();
                    },
                }
            },
        };
        let mut r: Vec<(String, String)> = Vec::new();
        let source_chars = chars_of(source.as_str());
        let target_chars = chars_of(target_path);
        let mut k: usize = 0;
        while k < self.config.copy_files.len()
            invariant
                k <= self.config.copy_files@.len(),
                r@.len() == k,
                (match self.session.current_worktree_path {
                    Some(p) => source_chars@ == p@,
                    None => exists|i: int|
                        0 <= i < self.session.worktrees@.len() && !(
                        #[trigger] self.session.worktrees@[i]).is_bare && (forall|j: int|
                            0 <= j < i ==> self.session.worktrees@[j].is_bare) && source_chars@
                            == self.session.worktrees@[i].path@,
                }),
                target_chars@ == target_path@,
                forall|i: int|
                    0 <= i < k ==> (#[trigger] r@[i]).0@ == source_chars@ + seq!['/']
                        + self.config.copy_files@[i]@ && r@[i].1@ == target_chars@ + seq!['/']
                        + self.config.copy_files@[i]@,
            decreases self.config.copy_files@.len() - k,
        {
            let file_chars = chars_of(self.config.copy_files[k].as_str());
            let mut src = source_chars.clone();
            src.push('/');
            append_chars(&mut src, &file_chars);
            let mut dst = target_chars.clone();
            dst.push('/');
            append_chars(&mut dst, &file_chars);
            proof {
                assert(src@ =~= source_chars@ + seq!['/'] + self.config.copy_files@[k as int]@);
                assert(dst@ =~= target_chars@ + seq!['/'] + self.config.copy_files@[k as int]@);
            }
            r.push((string_from_chars(&src), string_from_chars(&dst)));
            k = k + 1;
        }
        r
    }
}

} // verus!
