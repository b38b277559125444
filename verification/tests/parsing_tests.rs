use owt::config::default_branch_types;
use owt::config::Config;
use owt::git::extract_repo_name;
use owt::git::parse_ahead_behind;
use owt::git::parse_branch_list;
use owt::git::parse_commit_info;
use owt::git::parse_default_branch;
use owt::git::parse_worktree_list;
use owt::status::classify_status;
use owt::text::parse_u32;
use owt::text::truncate_str;
use owt::text::u32_to_chars;
use owt::types::WorktreeStatus;

#[test]
fn test_parse_empty() {
    let config = Config::parse("");
    assert!(config.editor.is_none());
    assert!(config.terminal.is_none());
}

#[test]
fn test_parse_values() {
    let content = "\n[core]\neditor = \"code\"\nterminal = \"Ghostty\"\n";
    let config = Config::parse(content);
    assert_eq!(config.editor, Some("code".to_string()));
    assert_eq!(config.terminal, Some("Ghostty".to_string()));
}

#[test]
fn test_parse_with_comments() {
    let content = "\n# This is a comment\neditor = vim\n# terminal = iTerm\n";
    let config = Config::parse(content);
    assert_eq!(config.editor, Some("vim".to_string()));
    assert!(config.terminal.is_none());
}

#[test]
fn test_parse_copy_files() {
    let content = "\ncopy_files = [\".env\", \".envrc\", \"config.json\"]\n";
    let config = Config::parse(content);
    assert_eq!(config.copy_files, vec![".env", ".envrc", "config.json"]);
}

#[test]
fn test_parse_branch_types() {
    let content = "\neditor = \"vim\"\n\n[[branch_types]]\nname = \"feature\"\nprefix = \"feature/\"\nbase = \"develop\"\nshortcut = \"f\"\n\n[[branch_types]]\nname = \"hotfix\"\nprefix = \"hotfix/\"\nbase = \"main\"\nshortcut = \"h\"\n";
    let config = Config::parse(content);
    assert_eq!(config.editor, Some("vim".to_string()));
    assert_eq!(config.branch_types.len(), 2);
    assert_eq!(config.branch_types[0].name, "feature");
    assert_eq!(config.branch_types[0].prefix, "feature/");
    assert_eq!(config.branch_types[0].base, "develop");
    assert_eq!(config.branch_types[0].shortcut, 'f');
    assert_eq!(config.branch_types[1].name, "hotfix");
    assert_eq!(config.branch_types[1].base, "main");
    assert_eq!(config.branch_types[1].shortcut, 'h');
}

#[test]
fn test_find_branch_type_by_shortcut() {
    let config = Config {
        branch_types: default_branch_types(),
        ..Default::default()
    };

    let feature = config.find_branch_type_by_shortcut('f');
    assert!(feature.is_some());
    assert_eq!(feature.unwrap().name, "feature");

    let hotfix = config.find_branch_type_by_shortcut('h');
    assert!(hotfix.is_some());
    assert_eq!(hotfix.unwrap().base, "main");

    let unknown = config.find_branch_type_by_shortcut('x');
    assert!(unknown.is_none());
}

#[test]
fn test_extract_repo_name() {
    let cases = vec![
        ("https://github.com/user/repo.git", "repo"),
        ("git@github.com:user/repo.git", "repo"),
        ("https://github.com/user/repo", "repo"),
        ("repo.git", "repo"),
        ("/path/to/repo.git", "repo"),
    ];

    for (url, expected) in cases {
        let name = extract_repo_name(url);
        assert_eq!(name, expected, "Failed for URL: {}", url);
    }
}

#[test]
fn classify_conflict_dominates_other_lines() {
    // One unmerged pair among otherwise ordinary lines forces Conflict.
    let report = "UU merged.txt\n M dirty.txt\nA  staged.txt\n?? new.txt\n";
    assert_eq!(classify_status(report), WorktreeStatus::Conflict);
    assert_eq!(classify_status("AA both.txt\n"), WorktreeStatus::Conflict);
    assert_eq!(classify_status("DD both.txt\n"), WorktreeStatus::Conflict);
    assert_eq!(classify_status(" U one.txt\n"), WorktreeStatus::Conflict);
}

#[test]
fn classify_empty_report_is_clean() {
    assert_eq!(classify_status(""), WorktreeStatus::Clean);
    assert_eq!(classify_status("\n"), WorktreeStatus::Clean);
    assert_eq!(classify_status("x"), WorktreeStatus::Clean);
    // Whitespace-only reports hold zero change lines.
    assert_eq!(classify_status("\t\t"), WorktreeStatus::Clean);
    assert_eq!(classify_status("  \n \n"), WorktreeStatus::Clean);
}

#[test]
fn classify_single_and_mixed_kinds() {
    assert_eq!(classify_status("M  staged.txt\n"), WorktreeStatus::Staged);
    assert_eq!(classify_status(" M unstaged.txt\n"), WorktreeStatus::Unstaged);
    assert_eq!(
        classify_status("M  staged.txt\n M unstaged.txt\n"),
        WorktreeStatus::Mixed
    );
    assert_eq!(classify_status("MM one.txt\n"), WorktreeStatus::Mixed);
    // Untracked markers count as neither staged nor unstaged.
    assert_eq!(classify_status("?? new.txt\n"), WorktreeStatus::Clean);
}

#[test]
fn worktree_list_parses_blocks() {
    let listing = "worktree /repo/.bare\nbare\n\nworktree /repo/main\nHEAD abc123\nbranch refs/heads/main\n\nworktree /repo/detached\nHEAD def456\ndetached\n";
    let entries = parse_worktree_list(listing);
    assert_eq!(entries.len(), 3);
    assert_eq!(entries[0].path, "/repo/.bare");
    assert!(entries[0].is_bare);
    assert_eq!(entries[0].branch, None);
    assert_eq!(entries[1].path, "/repo/main");
    assert!(!entries[1].is_bare);
    assert_eq!(entries[1].branch, Some("main".to_string()));
    assert_eq!(entries[2].path, "/repo/detached");
    assert!(!entries[2].is_bare);
    assert_eq!(entries[2].branch, None);
}

#[test]
fn worktree_list_empty_is_empty() {
    assert_eq!(parse_worktree_list("").len(), 0);
}

#[test]
fn ahead_behind_parses_counts() {
    let ab = parse_ahead_behind("2\t5\n").unwrap();
    assert_eq!(ab.behind, 2);
    assert_eq!(ab.ahead, 5);
    assert!(parse_ahead_behind("").is_none());
    assert!(parse_ahead_behind("1\t2\t3").is_none());
    // Malformed numbers fall back to zero, as a lenient count.
    let ab = parse_ahead_behind("x\t7").unwrap();
    assert_eq!(ab.behind, 0);
    assert_eq!(ab.ahead, 7);
}

#[test]
fn commit_info_parses_three_fields() {
    let ci = parse_commit_info("abc1234|Fix the thing|2 days ago\n").unwrap();
    assert_eq!(ci.hash, "abc1234");
    assert_eq!(ci.message, "Fix the thing");
    assert_eq!(ci.time_ago, "2 days ago");
    // A pipe inside the tail stays in the last field.
    let ci = parse_commit_info("abc|msg|now|extra").unwrap();
    assert_eq!(ci.time_ago, "now|extra");
    assert!(parse_commit_info("abc|no-time").is_none());
}

#[test]
fn commit_stamp_splits_age_and_epoch() {
    let stamp = owt::git::parse_commit_stamp("2 days ago|1699828000\n").unwrap();
    assert_eq!(stamp.0, "2 days ago");
    assert_eq!(stamp.1, 1_699_828_000);
    assert!(owt::git::parse_commit_stamp("").is_none());
    assert!(owt::git::parse_commit_stamp("no separator").is_none());
}

#[test]
fn default_branch_parses_symbolic_ref() {
    assert_eq!(
        parse_default_branch("refs/heads/main\n"),
        Some("main".to_string())
    );
    assert_eq!(parse_default_branch("ref: something"), None);
}

#[test]
fn branch_list_keeps_nonempty_trimmed_lines() {
    let branches = parse_branch_list("main\n  feature/x \n\ndevelop\n");
    assert_eq!(branches, vec!["main", "feature/x", "develop"]);
    assert_eq!(parse_branch_list("").len(), 0);
}

#[test]
fn decimal_parse_and_format() {
    let digits: Vec<char> = "4294967295".chars().collect();
    assert_eq!(parse_u32(&digits), u32::MAX);
    let over: Vec<char> = "4294967296".chars().collect();
    assert_eq!(parse_u32(&over), 0);
    let junk: Vec<char> = "12a".chars().collect();
    assert_eq!(parse_u32(&junk), 0);
    let empty: Vec<char> = Vec::new();
    assert_eq!(parse_u32(&empty), 0);

    let rendered: String = u32_to_chars(9081).into_iter().collect();
    assert_eq!(rendered, "9081");
    let zero: String = u32_to_chars(0).into_iter().collect();
    assert_eq!(zero, "0");
}

#[test]
fn truncate_marks_cuts() {
    assert_eq!(truncate_str("short", 10), "short");
    assert_eq!(truncate_str("a longer text", 8), "a lon...");
    assert_eq!(truncate_str("abc", 3), "abc");
}

#[test]
fn config_round_trips_through_toml() {
    let config = Config {
        editor: Some("vim".to_string()),
        terminal: None,
        copy_files: vec![".env".to_string(), "config.json".to_string()],
        post_add_script: Some("setup.sh".to_string()),
        branch_types: default_branch_types(),
    };
    let text = config.to_toml();
    let back = Config::parse(&text);
    assert_eq!(back.editor, Some("vim".to_string()));
    assert_eq!(back.terminal, None);
    assert_eq!(back.copy_files, vec![".env", "config.json"]);
    assert_eq!(back.post_add_script, Some("setup.sh".to_string()));
    assert_eq!(back.branch_types.len(), 4);
    assert_eq!(back.branch_types[0].name, "feature");
    assert_eq!(back.branch_types[0].shortcut, 'f');
}

#[test]
fn resolve_prefers_project_values() {
    let global = "editor = \"vim\"\nterminal = \"alacritty\"\n";
    let project = "editor = \"code\"\n";
    let config = Config::resolve(Some(global), Some(project));
    assert_eq!(config.editor, Some("code".to_string()));
    assert_eq!(config.terminal, Some("alacritty".to_string()));
    // No presets in either text: the built-in four stand in.
    assert_eq!(config.branch_types.len(), 4);
}

#[test]
fn owt_paths_sit_beside_the_root() {
    assert_eq!(Config::owt_dir("/home/u/proj/.bare"), "/home/u/proj/.owt");
    assert_eq!(
        Config::project_config_path("/home/u/proj/.bare"),
        "/home/u/proj/.owt/config.toml"
    );
    assert_eq!(
        Config::post_add_script_path("/home/u/proj/.bare"),
        "/home/u/proj/.owt/post-add.sh"
    );
    assert_eq!(Config::owt_dir("bare"), ".owt");
}
