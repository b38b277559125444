use owt::session::find_by_path;
use owt::session::SessionState;
use owt::sort::sort_worktrees;
use owt::sort::wt_le_exec;
use owt::types::AheadBehind;
use owt::types::SortMode;
use owt::types::Worktree;
use owt::types::WorktreeStatus;

fn record(path: &str, branch: Option<&str>, bare: bool, status: WorktreeStatus) -> Worktree {
    Worktree {
        path: path.to_string(),
        branch: branch.map(|b| b.to_string()),
        is_bare: bare,
        status,
        last_commit_time: None,
        last_commit_epoch: None,
        ahead_behind: None,
    }
}

#[test]
fn sort_by_name_is_idempotent_for_permutations() {
    let a = || record("/r/.bare", None, true, WorktreeStatus::Clean);
    let b = || record("/r/alpha", Some("alpha"), false, WorktreeStatus::Clean);
    let c = || record("/r/Beta", Some("Beta"), false, WorktreeStatus::Clean);
    let d = || record("/r/gamma", Some("gamma"), false, WorktreeStatus::Clean);

    let permutations: Vec<Vec<Worktree>> = vec![
        vec![a(), b(), c(), d()],
        vec![d(), c(), b(), a()],
        vec![c(), a(), d(), b()],
        vec![b(), d(), a(), c()],
    ];
    for input in permutations {
        let once = sort_worktrees(SortMode::Name, input);
        let paths_once: Vec<String> = once.iter().map(|w| w.path.clone()).collect();
        // The bare record is always first.
        assert!(once[0].is_bare);
        // Case-insensitive name order for the rest.
        assert_eq!(paths_once, vec!["/r/.bare", "/r/alpha", "/r/Beta", "/r/gamma"]);
        // Sorting again changes nothing.
        let twice = sort_worktrees(SortMode::Name, once);
        let paths_twice: Vec<String> = twice.iter().map(|w| w.path.clone()).collect();
        assert_eq!(paths_once, paths_twice);
    }
}

#[test]
fn sort_by_status_ranks_severity() {
    // Inventory of three records, status order: conflict-free dirty first.
    let input = vec![
        record("/r/.bare", None, true, WorktreeStatus::Clean),
        record("/r/feature-x", Some("feature-x"), false, WorktreeStatus::Clean),
        record("/r/hotfix-y", Some("hotfix-y"), false, WorktreeStatus::Unstaged),
    ];
    let sorted = sort_worktrees(SortMode::Status, input);
    let paths: Vec<String> = sorted.iter().map(|w| w.path.clone()).collect();
    assert_eq!(paths, vec!["/r/.bare", "/r/hotfix-y", "/r/feature-x"]);
}

#[test]
fn sort_by_recency_treats_unknown_as_oldest() {
    let mut fresh = record("/r/fresh", None, false, WorktreeStatus::Clean);
    fresh.last_commit_time = Some("10 minutes ago".to_string());
    fresh.last_commit_epoch = Some(1_700_000_600);
    let mut old_one = record("/r/old", None, false, WorktreeStatus::Clean);
    old_one.last_commit_time = Some("2 days ago".to_string());
    old_one.last_commit_epoch = Some(1_699_828_000);
    let unknown = record("/r/unknown", None, false, WorktreeStatus::Clean);
    let sorted = sort_worktrees(SortMode::Recent, vec![unknown, old_one, fresh]);
    let paths: Vec<String> = sorted.iter().map(|w| w.path.clone()).collect();
    assert_eq!(paths, vec!["/r/fresh", "/r/old", "/r/unknown"]);
}

#[test]
fn filter_matching_folds_case() {
    // A failed fold — the text handed back unchanged — would miss both.
    let wt = record("/r/Feature-X", Some("Feature/X"), false, WorktreeStatus::Clean);
    let query: Vec<char> = "feature-x".chars().collect();
    assert!(owt::session::matches_filter_exec(&wt, &query));
    let upper: Vec<char> = "FEATURE/X".chars().collect();
    assert!(owt::session::matches_filter_exec(&wt, &upper));
    let miss: Vec<char> = "hotfix".chars().collect();
    assert!(!owt::session::matches_filter_exec(&wt, &miss));
}

#[test]
fn comparator_puts_bare_first() {
    let bare = record("/r/.bare", None, true, WorktreeStatus::Conflict);
    let plain = record("/r/a", None, false, WorktreeStatus::Clean);
    assert!(wt_le_exec(SortMode::Status, &bare, &plain));
    assert!(!wt_le_exec(SortMode::Status, &plain, &bare));
}

#[test]
fn resort_tracks_selection_by_path() {
    // Selecting a record, changing sort mode, and locating it by path
    // yields the same record content.
    let mut session = SessionState::new(
        vec![
            record("/r/.bare", None, true, WorktreeStatus::Clean),
            record("/r/zeta", Some("zeta"), false, WorktreeStatus::Unstaged),
            record("/r/alpha", Some("alpha"), false, WorktreeStatus::Clean),
        ],
        None,
    );
    session.selected_index = 1;
    let selected_path = session.worktrees[1].path.clone();
    let selected_branch = session.worktrees[1].branch.clone();

    session.sort_mode = SortMode::Name;
    session.apply_sort();
    assert_eq!(session.worktrees[session.selected_index].path, selected_path);
    assert_eq!(session.worktrees[session.selected_index].branch, selected_branch);

    session.cycle_sort_mode();
    assert_eq!(session.worktrees[session.selected_index].path, selected_path);
    assert_eq!(session.worktrees[session.selected_index].branch, selected_branch);
}

#[test]
fn movement_clamps_to_bounds() {
    let mut session = SessionState::new(
        vec![
            record("/r/.bare", None, true, WorktreeStatus::Clean),
            record("/r/a", None, false, WorktreeStatus::Clean),
            record("/r/b", None, false, WorktreeStatus::Clean),
        ],
        None,
    );
    session.move_to_top();
    session.move_selection_up();
    assert_eq!(session.selected_index, 0);
    session.move_to_bottom();
    assert_eq!(session.selected_index, 2);
    session.move_selection_down();
    assert_eq!(session.selected_index, 2);
    session.move_selection_half_page_down(50);
    assert_eq!(session.selected_index, 2);
    session.move_selection_half_page_up(50);
    assert_eq!(session.selected_index, 0);

    let mut empty = SessionState::new(Vec::new(), None);
    empty.move_selection_down();
    empty.move_to_bottom();
    assert_eq!(empty.selected_index, 0);
}

#[test]
fn new_session_selects_first_non_bare() {
    let session = SessionState::new(
        vec![
            record("/r/.bare", None, true, WorktreeStatus::Clean),
            record("/r/a", None, false, WorktreeStatus::Clean),
        ],
        None,
    );
    assert_eq!(session.selected_index, 1);

    let launched = SessionState::new(
        vec![
            record("/r/.bare", None, true, WorktreeStatus::Clean),
            record("/r/a", None, false, WorktreeStatus::Clean),
            record("/r/b", None, false, WorktreeStatus::Clean),
        ],
        Some("/r/b".to_string()),
    );
    assert_eq!(launched.selected_index, 2);
}

#[test]
fn remove_by_path_prunes_and_clamps() {
    let mut session = SessionState::new(
        vec![
            record("/r/.bare", None, true, WorktreeStatus::Clean),
            record("/r/a", None, false, WorktreeStatus::Clean),
            record("/r/b", None, false, WorktreeStatus::Clean),
        ],
        None,
    );
    session.move_to_bottom();
    session.remove_by_path(&"/r/b".to_string());
    assert_eq!(session.worktrees.len(), 2);
    assert_eq!(session.selected_index, 1);
    assert!(find_by_path(&session.worktrees, &"/r/b".to_string()).is_none());
}

#[test]
fn refresh_preserves_selection_by_path() {
    let mut session = SessionState::new(
        vec![
            record("/r/.bare", None, true, WorktreeStatus::Clean),
            record("/r/a", None, false, WorktreeStatus::Clean),
            record("/r/b", None, false, WorktreeStatus::Clean),
        ],
        None,
    );
    session.move_to_bottom();
    // The rebuilt inventory arrives in another order; selection follows /r/b.
    session.apply_refresh(vec![
        record("/r/b", None, false, WorktreeStatus::Clean),
        record("/r/.bare", None, true, WorktreeStatus::Clean),
        record("/r/c", None, false, WorktreeStatus::Clean),
    ]);
    assert_eq!(session.worktrees[session.selected_index].path, "/r/b");
    // A vanished path falls back to a valid index.
    session.move_to_bottom();
    let shorter = vec![record("/r/.bare", None, true, WorktreeStatus::Clean)];
    session.apply_refresh(shorter);
    assert_eq!(session.selected_index, 0);
}

#[test]
fn display_name_and_branch_display() {
    let bare = record("/r/.bare", None, true, WorktreeStatus::Clean);
    assert_eq!(bare.display_name(), "(bare)");
    let wt = record("/home/u/proj/feature-x", Some("feature/x"), false, WorktreeStatus::Clean);
    assert_eq!(wt.display_name(), "feature-x");
    assert_eq!(wt.branch_display(), "feature/x");
    let detached = record("plain", None, false, WorktreeStatus::Clean);
    assert_eq!(detached.display_name(), "plain");
    assert_eq!(detached.branch_display(), "-");
}

#[test]
fn ahead_behind_renders_nonzero_counts() {
    let both = AheadBehind { ahead: 2, behind: 13 };
    assert_eq!(both.display(), Some("\u{2191}2\u{2193}13".to_string()));
    let ahead_only = AheadBehind { ahead: 4, behind: 0 };
    assert_eq!(ahead_only.display(), Some("\u{2191}4".to_string()));
    let behind_only = AheadBehind { ahead: 0, behind: 7 };
    assert_eq!(behind_only.display(), Some("\u{2193}7".to_string()));
    let none = AheadBehind { ahead: 0, behind: 0 };
    assert_eq!(none.display(), None);
}

#[test]
fn status_symbols_and_labels() {
    assert_eq!(WorktreeStatus::Clean.symbol(), "\u{2713}");
    assert_eq!(WorktreeStatus::Staged.symbol(), "+");
    assert_eq!(WorktreeStatus::Unstaged.symbol(), "~");
    assert_eq!(WorktreeStatus::Conflict.symbol(), "!");
    assert_eq!(WorktreeStatus::Mixed.symbol(), "*");
    assert_eq!(WorktreeStatus::Conflict.label(), "conflict");
    assert_eq!(WorktreeStatus::Clean.label(), "clean");
}

#[test]
fn sort_mode_cycles() {
    assert_eq!(SortMode::Name.next(), SortMode::Recent);
    assert_eq!(SortMode::Recent.next(), SortMode::Status);
    assert_eq!(SortMode::Status.next(), SortMode::Name);
    assert_eq!(SortMode::Name.label(), "name");
    assert_eq!(SortMode::Recent.label(), "recent");
    assert_eq!(SortMode::Status.label(), "status");
}
