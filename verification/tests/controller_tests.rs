use owt::config::Config;
use owt::controller::Action;
use owt::controller::Controller;
use owt::controller::Key;
use owt::ops::check_clean_target;
use owt::ops::check_delete;
use owt::ops::compose_delete_result;
use owt::ops::compose_push_message;
use owt::ops::derive_worktree_path;
use owt::ops::plan_add_worktree;
use owt::ops::AddArgMode;
use owt::session::SessionState;
use owt::types::AppState;
use owt::types::ExitAction;
use owt::types::SortMode;
use owt::types::Worktree;
use owt::types::WorktreeStatus;

fn record(path: &str, branch: Option<&str>, bare: bool, status: WorktreeStatus) -> Worktree {
    Worktree {
        path: path.to_string(),
        branch: branch.map(|b| b.to_string()),
        is_bare: bare,
        status,
        last_commit_time: None,
        last_commit_epoch: None,
        ahead_behind: None,
    }
}

fn controller_over(worktrees: Vec<Worktree>) -> Controller {
    let session = SessionState::new(worktrees, None);
    Controller::new(session, Config::default(), "/r/.bare".to_string(), true)
}

#[test]
fn deleting_bare_is_rejected_for_every_flag_combination() {
    let bare = record("/r/.bare", None, true, WorktreeStatus::Clean);
    for &delete_branch in &[false, true] {
        for &force in &[false, true] {
            assert!(check_delete(&bare, delete_branch, force).is_err());
        }
    }
    // Through the confirmation flow: selection on the bare record.
    for &delete_branch in &[false, true] {
        for &force in &[false, true] {
            let mut ctrl = controller_over(vec![bare.clone()]);
            ctrl.state = AppState::ConfirmDelete { delete_branch, force };
            let action = ctrl.handle_confirm_delete_input(Key::Enter, delete_branch, force);
            // No command leaves the controller.
            assert_eq!(action, Action::Idle);
            assert!(ctrl.message.unwrap().is_error);
        }
    }
}

#[test]
fn pull_and_merge_require_clean_target() {
    let dirty = record("/r/wt", Some("b"), false, WorktreeStatus::Mixed);
    let clean = record("/r/wt", Some("b"), false, WorktreeStatus::Clean);
    assert!(check_clean_target(&dirty).is_err());
    assert!(check_clean_target(&clean).is_ok());

    let mut ctrl = controller_over(vec![dirty.clone()]);
    assert_eq!(ctrl.handle_key(Key::Char('p')), Action::Idle);
    assert!(ctrl.message.take().unwrap().is_error);
    assert_eq!(ctrl.state, AppState::List);

    let mut ctrl = controller_over(vec![dirty]);
    assert_eq!(ctrl.handle_key(Key::Char('m')), Action::Idle);
    assert!(ctrl.message.take().unwrap().is_error);

    let mut ctrl = controller_over(vec![clean.clone()]);
    let action = ctrl.handle_key(Key::Char('p'));
    assert_eq!(
        action,
        Action::Pull { worktree_path: "/r/wt".to_string() }
    );
    assert_eq!(ctrl.state, AppState::Pulling);

    let mut ctrl = controller_over(vec![clean]);
    let action = ctrl.handle_key(Key::Char('m'));
    assert_eq!(
        action,
        Action::MergeUpstream { worktree_path: "/r/wt".to_string() }
    );
    assert_eq!(ctrl.state, AppState::Merging);
}

#[test]
fn add_selects_new_branch_arguments_for_fresh_names() {
    // Branch "topic" exists neither locally nor remotely: the plan creates
    // a new branch from the base, not a tracking or plain checkout.
    let path = derive_worktree_path("/repo/.bare", "topic");
    assert_eq!(path, "/repo/topic");
    let plan = plan_add_worktree("/repo/.bare", "topic", &path, Some("main"), false, false);
    assert_eq!(plan.mode, AddArgMode::NewFromBase);
    assert_eq!(
        plan.args,
        vec!["-C", "/repo/.bare", "worktree", "add", "-b", "topic", "/repo/topic", "main"]
    );
}

#[test]
fn add_prefers_existing_branches() {
    let plan = plan_add_worktree("/r/.bare", "topic", "/r/topic", Some("main"), true, true);
    assert_eq!(plan.mode, AddArgMode::ExistingLocal);
    assert_eq!(plan.args, vec!["-C", "/r/.bare", "worktree", "add", "/r/topic", "topic"]);

    let plan = plan_add_worktree("/r/.bare", "topic", "/r/topic", None, false, true);
    assert_eq!(plan.mode, AddArgMode::TrackRemote);
    assert_eq!(
        plan.args,
        vec!["-C", "/r/.bare", "worktree", "add", "--track", "-b", "topic", "/r/topic", "origin/topic"]
    );
}

#[test]
fn delete_confirmed_on_clean_removes_record_and_branch() {
    let worktrees = vec![
        record("/r/.bare", None, true, WorktreeStatus::Clean),
        record("/r/feature-x", Some("feature-x"), false, WorktreeStatus::Clean),
    ];
    let mut ctrl = controller_over(worktrees);
    ctrl.select_worktree_by_path(&"/r/feature-x".to_string());
    ctrl.state = AppState::ConfirmDelete { delete_branch: true, force: false };
    let action = ctrl.handle_confirm_delete_input(Key::Char('y'), true, false);
    match action {
        Action::RunDelete { worktree_path, branch, delete_branch, force, .. } => {
            assert_eq!(worktree_path, "/r/feature-x");
            assert_eq!(branch, Some("feature-x".to_string()));
            assert!(delete_branch);
            assert!(!force);
        }
        other => panic!("expected a delete command, got {:?}", other),
    }
    assert_eq!(ctrl.state, AppState::Deleting);

    // The external work succeeds; both the record and the branch go.
    let result = compose_delete_result(
        "feature-x",
        "/r/feature-x".to_string(),
        String::new(),
        None,
        Some(("feature-x".to_string(), None)),
    );
    assert!(result.success);
    assert_eq!(
        result.message,
        "Deleted worktree: feature-x (branch 'feature-x' deleted)"
    );
    ctrl.apply_delete_result(result);
    assert_eq!(ctrl.state, AppState::List);
    assert_eq!(ctrl.session.worktrees.len(), 1);
    assert!(ctrl.session.worktrees.iter().all(|w| w.path != "/r/feature-x"));
}

#[test]
fn delete_confirmed_on_dirty_without_force_changes_nothing() {
    let worktrees = vec![
        record("/r/.bare", None, true, WorktreeStatus::Clean),
        record("/r/dirty", Some("dirty"), false, WorktreeStatus::Unstaged),
    ];
    let mut ctrl = controller_over(worktrees);
    ctrl.select_worktree_by_path(&"/r/dirty".to_string());
    ctrl.state = AppState::ConfirmDelete { delete_branch: false, force: false };
    let action = ctrl.handle_confirm_delete_input(Key::Enter, false, false);
    assert_eq!(action, Action::Idle);
    assert!(ctrl.message.unwrap().is_error);
    // No state change: the confirmation stays open, the list stays whole.
    assert_eq!(
        ctrl.state,
        AppState::ConfirmDelete { delete_branch: false, force: false }
    );
    assert_eq!(ctrl.session.worktrees.len(), 2);
}

#[test]
fn delete_branch_failure_is_a_partial_success() {
    let result = compose_delete_result(
        "feature-x",
        "/r/feature-x".to_string(),
        String::new(),
        None,
        Some(("feature-x".to_string(), Some("branch is checked out".to_string()))),
    );
    assert!(result.success);
    assert_eq!(
        result.message,
        "Deleted worktree: feature-x (branch delete failed: branch is checked out)"
    );
}

#[test]
fn confirm_toggles_default_false_and_flip_explicitly() {
    let worktrees = vec![
        record("/r/.bare", None, true, WorktreeStatus::Clean),
        record("/r/a", Some("a"), false, WorktreeStatus::Clean),
    ];
    let mut ctrl = controller_over(worktrees);
    ctrl.select_worktree_by_path(&"/r/a".to_string());
    ctrl.handle_key(Key::Char('d'));
    assert_eq!(
        ctrl.state,
        AppState::ConfirmDelete { delete_branch: false, force: false }
    );
    ctrl.handle_key(Key::Char('b'));
    assert_eq!(
        ctrl.state,
        AppState::ConfirmDelete { delete_branch: true, force: false }
    );
    ctrl.handle_key(Key::Char('f'));
    assert_eq!(
        ctrl.state,
        AppState::ConfirmDelete { delete_branch: true, force: true }
    );
    ctrl.handle_key(Key::Esc);
    assert_eq!(ctrl.state, AppState::List);
}

#[test]
fn filter_keystrokes_reevaluate_against_full_list() {
    // Two consecutive filter keystrokes; each selects against the full
    // unfiltered list, never the previous pass's result.
    let worktrees = vec![
        record("/r/.bare", None, true, WorktreeStatus::Clean),
        record("/r/xf", Some("xf"), false, WorktreeStatus::Clean),
        record("/r/fe", Some("fe"), false, WorktreeStatus::Clean),
    ];
    let mut ctrl = controller_over(worktrees);
    ctrl.handle_key(Key::Char('/'));
    assert!(ctrl.is_filtering);
    ctrl.handle_key(Key::Char('f'));
    // First match of "f" over the whole list, top to bottom.
    assert_eq!(ctrl.session.worktrees[ctrl.session.selected_index].path, "/r/xf");
    ctrl.handle_key(Key::Char('e'));
    // "fe" matches only the third row — found even though it lies past the
    // previous match only because the whole list is scanned again.
    assert_eq!(ctrl.session.worktrees[ctrl.session.selected_index].path, "/r/fe");
    assert_eq!(
        ctrl.session.filter_text.iter().collect::<String>(),
        "fe"
    );
}

#[test]
fn filter_escape_clears_and_nonmatching_filter_keeps_selection() {
    let worktrees = vec![
        record("/r/.bare", None, true, WorktreeStatus::Clean),
        record("/r/alpha", Some("alpha"), false, WorktreeStatus::Clean),
    ];
    let mut ctrl = controller_over(worktrees);
    ctrl.handle_key(Key::Char('/'));
    ctrl.handle_key(Key::Char('z'));
    // Nothing matches "z": the selection stays put.
    assert_eq!(ctrl.session.worktrees[ctrl.session.selected_index].path, "/r/alpha");
    ctrl.handle_key(Key::Esc);
    assert!(!ctrl.is_filtering);
    assert!(ctrl.session.filter_text.is_empty());
}

#[test]
fn enter_leaves_into_selected_worktree() {
    let worktrees = vec![
        record("/r/.bare", None, true, WorktreeStatus::Clean),
        record("/r/a", Some("a"), false, WorktreeStatus::Clean),
    ];
    let mut ctrl = controller_over(worktrees);
    ctrl.handle_key(Key::Enter);
    assert!(ctrl.should_quit);
    match ctrl.exit_action {
        ExitAction::ChangeDirectory(ref p) => assert_eq!(p, "/r/a"),
        ExitAction::Quit => panic!("expected a directory change"),
    }
}

#[test]
fn busy_states_ignore_input() {
    let worktrees = vec![record("/r/a", Some("a"), false, WorktreeStatus::Clean)];
    let mut ctrl = controller_over(worktrees);
    ctrl.state = AppState::Pulling;
    assert_eq!(ctrl.handle_key(Key::Char('q')), Action::Idle);
    assert!(!ctrl.should_quit);
    assert_eq!(ctrl.state, AppState::Pulling);
}

#[test]
fn add_flow_trims_and_rejects_empty_names() {
    let mut ctrl = controller_over(vec![record("/r/a", None, false, WorktreeStatus::Clean)]);
    ctrl.handle_key(Key::Char('a'));
    assert_eq!(ctrl.state, AppState::AddModal);
    ctrl.handle_key(Key::Char(' '));
    assert_eq!(ctrl.handle_key(Key::Enter), Action::Idle);
    assert_eq!(ctrl.state, AppState::AddModal);

    for c in "  topic ".chars() {
        ctrl.handle_key(Key::Char(c));
    }
    let action = ctrl.handle_key(Key::Enter);
    assert_eq!(action, Action::RunAdd { branch: "topic".to_string() });
    assert_eq!(ctrl.state, AppState::Adding);
}

#[test]
fn add_modal_escape_clears_stale_input() {
    let mut ctrl = controller_over(vec![record("/r/a", None, false, WorktreeStatus::Clean)]);
    ctrl.handle_key(Key::Char('a'));
    ctrl.handle_key(Key::Char('x'));
    ctrl.handle_key(Key::Esc);
    assert_eq!(ctrl.state, AppState::List);
    assert!(ctrl.input_buffer.is_empty());
    // Reopening the modal starts from an empty buffer.
    ctrl.handle_key(Key::Char('a'));
    assert!(ctrl.input_buffer.is_empty());
}

#[test]
fn sort_key_cycles_and_reorders() {
    let worktrees = vec![
        record("/r/.bare", None, true, WorktreeStatus::Clean),
        record("/r/b", Some("b"), false, WorktreeStatus::Unstaged),
        record("/r/a", Some("a"), false, WorktreeStatus::Clean),
    ];
    let mut ctrl = controller_over(worktrees);
    assert_eq!(ctrl.session.sort_mode, SortMode::Name);
    ctrl.handle_key(Key::Char('s'));
    assert_eq!(ctrl.session.sort_mode, SortMode::Recent);
    ctrl.handle_key(Key::Char('s'));
    assert_eq!(ctrl.session.sort_mode, SortMode::Status);
    assert!(ctrl.session.worktrees[0].is_bare);
    assert_eq!(ctrl.session.worktrees[1].path, "/r/b");
}

#[test]
fn merge_picker_flows_to_merge_command() {
    let worktrees = vec![record("/r/a", Some("a"), false, WorktreeStatus::Clean)];
    let mut ctrl = controller_over(worktrees);
    let action = ctrl.handle_key(Key::Char('M'));
    assert_eq!(action, Action::LoadMergeBranches);
    assert!(ctrl.open_merge_picker(vec!["main".to_string(), "dev".to_string()]));
    ctrl.handle_key(Key::Down);
    let action = ctrl.handle_key(Key::Enter);
    assert_eq!(
        action,
        Action::MergeBranch {
            worktree_path: "/r/a".to_string(),
            source_branch: "dev".to_string()
        }
    );
    assert_eq!(ctrl.state, AppState::Merging);
    assert_eq!(ctrl.merge_source_branch, Some("dev".to_string()));
}

#[test]
fn empty_branch_list_does_not_open_picker() {
    let mut ctrl = controller_over(vec![record("/r/a", None, false, WorktreeStatus::Clean)]);
    assert!(!ctrl.open_merge_picker(Vec::new()));
    assert_eq!(ctrl.state, AppState::List);
    assert!(ctrl.message.unwrap().is_error);
}

#[test]
fn push_message_reports_up_to_date() {
    assert_eq!(
        compose_push_message("", "feature-x"),
        "Push completed: Everything up-to-date"
    );
    assert_eq!(
        compose_push_message("Everything up-to-date\n", "feature-x"),
        "Push completed: Everything up-to-date"
    );
    assert_eq!(
        compose_push_message("To origin...", "feature-x"),
        "Push completed: feature-x"
    );
}

#[test]
fn completion_reports_land_as_messages() {
    let mut ctrl = controller_over(vec![record("/r/a", Some("a"), false, WorktreeStatus::Clean)]);
    ctrl.state = AppState::Pulling;
    let refresh = ctrl.apply_pull_result("a", Ok("Already up to date.".to_string()));
    assert!(refresh);
    assert_eq!(ctrl.state, AppState::List);
    let m = ctrl.message.take().unwrap();
    assert!(!m.is_error);
    assert_eq!(m.text, "Pull completed: Already up to date.");

    ctrl.state = AppState::Merging;
    let refresh = ctrl.apply_merge_result(Err("conflict".to_string()));
    assert!(!refresh);
    let m = ctrl.message.take().unwrap();
    assert!(m.is_error);
    assert_eq!(m.text, "Merge failed: conflict");

    let refresh = ctrl.apply_refresh_result(
        Ok(vec![record("/r/a", Some("a"), false, WorktreeStatus::Clean)]),
        true,
    );
    let m = ctrl.message.take().unwrap();
    assert!(!m.is_error);
    assert_eq!(m.text, "Refreshed");
    let _ = refresh;
}

#[test]
fn verbose_mode_appends_command_detail() {
    let mut ctrl = controller_over(vec![record("/r/a", Some("a"), false, WorktreeStatus::Clean)]);
    ctrl.handle_key(Key::Char('v'));
    assert!(ctrl.verbose);
    ctrl.state = AppState::Fetching;
    let refresh = ctrl.apply_fetch_result("a", Ok(()), "git -C /r/a fetch origin");
    assert!(refresh);
    let m = ctrl.message.take().unwrap();
    assert_eq!(m.text, "Fetch completed: a\n$ git -C /r/a fetch origin");
    assert_eq!(
        ctrl.last_command_detail,
        Some("git -C /r/a fetch origin".to_string())
    );
}

#[test]
fn copy_plan_pairs_source_and_target() {
    let worktrees = vec![
        record("/r/.bare", None, true, WorktreeStatus::Clean),
        record("/r/main", Some("main"), false, WorktreeStatus::Clean),
    ];
    let session = SessionState::new(worktrees, None);
    let mut config = Config::default();
    config.copy_files = vec![".env".to_string(), "cfg/local.json".to_string()];
    let ctrl = Controller::new(session, config, "/r/.bare".to_string(), true);
    let plan = ctrl.copy_files_plan("/r/topic");
    assert_eq!(
        plan,
        vec![
            ("/r/main/.env".to_string(), "/r/topic/.env".to_string()),
            ("/r/main/cfg/local.json".to_string(), "/r/topic/cfg/local.json".to_string()),
        ]
    );
}

#[test]
fn branch_comparison_counts_need_both_sides() {
    let info = |h: &str| owt::types::CommitInfo {
        hash: h.to_string(),
        message: "m".to_string(),
        time_ago: "now".to_string(),
    };
    let counts = owt::git::parse_left_right("3\t1\n");
    assert_eq!(counts, Some((3, 1)));
    let both = owt::git::build_branch_comparison(Some(info("a")), Some(info("b")), counts);
    assert_eq!(both.ahead_count, 3);
    assert_eq!(both.behind_count, 1);
    let local_only = owt::git::build_branch_comparison(Some(info("a")), None, counts);
    assert_eq!(local_only.ahead_count, 0);
    assert_eq!(local_only.behind_count, 0);
}
