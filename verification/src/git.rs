//! Parsers for the line-oriented output formats of the external
//! version-control tool: the worktree listing, ahead/behind counts, commit
//! summaries, branch listings and reference names.
//!
//! Only text comes in and plain values come out; invoking the tool itself is
//! the caller's business.

use vstd::prelude::*;

use crate::text::after_last;
use crate::text::chars_eq;
use crate::text::chars_of;
use crate::text::is_prefix;
use crate::text::parse_u32;
use crate::text::parse_u32_spec;
use crate::text::slice_range;
use crate::text::split_chars;
use crate::text::split_on;
use crate::text::starts_with;
use crate::text::string_from_chars;
use crate::text::strip_suffix_all;
use crate::text::tail_after_last;
use crate::text::trim;
use crate::text::trim_chars;
use crate::text::trim_end_matches_seq;
use crate::text::trim_end_matching;
use crate::types::AheadBehind;
use crate::types::CommitInfo;
use crate::types::Worktree;
use crate::types::WorktreeStatus;

verus! {

/// One block of the worktree listing: location, optional branch, bareness.
#[derive(Debug, Clone)]
pub struct WorktreeEntry {
    pub path: String,
    pub branch: Option<String>,
    pub is_bare: bool,
}

/// Mathematical form of one parsed listing block.
pub struct WtEntry {
    pub path: Seq<char>,
    pub branch: Option<Seq<char>>,
    pub bare: bool,
}

impl WorktreeEntry {
    /// The mathematical form of this entry.
    pub open spec fn spec_entry(self) -> WtEntry {
        WtEntry {
            path: self.path@,
            branch: match self.branch {
                Some(b) => Some(b@),
                None => None,
            },
            bare: self.is_bare,
        }
    }
}

/// Parsing state of the listing: the open block and the finished entries.
pub struct WtState {
    pub path: Option<Seq<char>>,
    pub branch: Option<Seq<char>>,
    pub bare: bool,
    pub done: Seq<WtEntry>,
}

/// The state with nothing read yet.
pub open spec fn wt_init() -> WtState {
    WtState { path: None, branch: None, bare: false, done: Seq::empty() }
}

/// The open block of `st` as a finished entry.
pub open spec fn wt_current(st: WtState) -> WtEntry {
    WtEntry { path: st.path->0, branch: st.branch, bare: st.bare }
}

/// One line of the listing applied to the parsing state: a path line closes
/// the open block and opens a new one, a branch line records the checked-out
/// branch, a bare marker flags the block, anything else is ignored.
pub open spec fn wt_step(st: WtState, line: Seq<char>) -> WtState {
    if is_prefix("worktree "@, line) {
        WtState {
            path: Some(line.skip("worktree "@.len() as int)),
            branch: if st.path is Some {
                None
            } else {
                st.branch
            },
            bare: false,
            done: if st.path is Some {
                st.done.push(wt_current(st))
            } else {
                st.done
            },
        }
    } else if is_prefix("branch refs/heads/"@, line) {
        WtState { branch: Some(line.skip("branch refs/heads/"@.len() as int)), ..st }
    } else if is_prefix("branch "@, line) {
        WtState { branch: Some(line.skip("branch "@.len() as int)), ..st }
    } else if line == "bare"@ {
        WtState { bare: true, ..st }
    } else {
        st
    }
}

/// The parsing state after all lines are read.
pub open spec fn wt_fold(lines: Seq<Seq<char>>, st: WtState) -> WtState
    decreases lines.len(),
{
    if lines.len() == 0 {
        st
    } else {
        wt_fold(lines.drop_first(), wt_step(st, lines.first()))
    }
}

/// The finished entries of a final state: the open block, if any, closes.
pub open spec fn wt_finish(st: WtState) -> Seq<WtEntry> {
    if st.path is Some {
        st.done.push(wt_current(st))
    } else {
        st.done
    }
}

/// The entries denoted by a whole worktree listing.
pub open spec fn parse_worktree_list_spec(s: Seq<char>) -> Seq<WtEntry> {
    wt_finish(wt_fold(split_on(s, '\n'), wt_init()))
}

/// The view of an optional character vector.
pub open spec fn opt_chars_view(v: Option<Vec<char>>) -> Option<Seq<char>> {
    match v {
        Some(c) => Some(c@),
        None => None,
    }
}

/// Parses the porcelain worktree listing into its entries.
pub fn parse_worktree_list(output: &str) -> (r: Vec<WorktreeEntry>)
    ensures
        r@.map_values(|e: WorktreeEntry| e.spec_entry()) == parse_worktree_list_spec(output@),
{
    let chars = chars_of(output);
    let lines = split_chars(&chars, '\n');
    let ghost lv = lines@.map_values(|v: Vec<char>| v@);
    let wt_prefix = chars_of("worktree ");
    let branch_full_prefix = chars_of("branch refs/heads/");
    let branch_prefix = chars_of("branch ");
    let bare_word = chars_of("bare");

    let mut cur_path: Option<Vec<char>> = None;
    let mut cur_branch: Option<Vec<char>> = None;
    let mut cur_bare: bool = false;
    let mut done: Vec<WorktreeEntry> = Vec::new();

    let mut k: usize = 0;
    proof {
        assert(lv.skip(0) =~= lv);
        assert(done@.map_values(|e: WorktreeEntry| e.spec_entry()) =~= Seq::<WtEntry>::empty());
    }
    while k < lines.len()
        invariant
            k <= lines@.len(),
            lv == lines@.map_values(|v: Vec<char>| v@),
            lv == split_on(output@, '\n'),
            wt_prefix@ == "worktree "@,
            branch_full_prefix@ == "branch refs/heads/"@,
            branch_prefix@ == "branch "@,
            bare_word@ == "bare"@,
            wt_fold(lv, wt_init()) == wt_fold(
                lv.skip(k as int),
                WtState {
                    path: opt_chars_view(cur_path),
                    branch: opt_chars_view(cur_branch),
                    bare: cur_bare,
                    done: done@.map_values(|e: WorktreeEntry| e.spec_entry()),
                },
            ),
        decreases lines@.len() - k,
    {
        let ghost st = WtState {
            path: opt_chars_view(cur_path),
            branch: opt_chars_view(cur_branch),
            bare: cur_bare,
            done: done@.map_values(|e: WorktreeEntry| e.spec_entry()),
        };
        let line = &lines[k];
        proof {
            assert(lv[k as int] == lines@[k as int]@);
            assert(lv.skip(k as int).first() == lv[k as int]);
            assert(lv.skip(k as int).drop_first() =~= lv.skip(k + 1));
        }
        if starts_with(line, &wt_prefix) {
            if let Some(p) = cur_path {
                let entry = WorktreeEntry {
                    path: string_from_chars(&p),
                    branch: match &cur_branch {
                        Some(b) => Some(string_from_chars(b)),
                        None => None,
                    },
                    is_bare: cur_bare,
                };
                let ghost done0 = done@;
                done.push(entry);
                proof {
                    assert(done@.map_values(|e: WorktreeEntry| e.spec_entry()) =~= done0.map_values(
                        |e: WorktreeEntry| e.spec_entry(),
                    ).push(wt_current(st)));
                }
                cur_branch = None;
            }
            let n = line.len();
            let rest = slice_range(line, wt_prefix.len(), n);
            proof {
                assert(rest@ =~= lv[k as int].skip("worktree "@.len() as int));
            }
            cur_path = Some(rest);
            cur_bare = false;
        } else if starts_with(line, &branch_full_prefix) {
            let n = line.len();
            let rest = slice_range(line, branch_full_prefix.len(), n);
            proof {
                assert(rest@ =~= lv[k as int].skip("branch refs/heads/"@.len() as int));
            }
            cur_branch = Some(rest);
        } else if starts_with(line, &branch_prefix) {
            let n = line.len();
            let rest = slice_range(line, branch_prefix.len(), n);
            proof {
                assert(rest@ =~= lv[k as int].skip("branch "@.len() as int));
            }
            cur_branch = Some(rest);
        } else if chars_eq(line, &bare_word) {
            cur_bare = true;
        }
        proof {
            assert(WtState {
                path: opt_chars_view(cur_path),
                branch: opt_chars_view(cur_branch),
                bare: cur_bare,
                done: done@.map_values(|e: WorktreeEntry| e.spec_entry()),
            } == wt_step(st, lv[k as int]));
        }
        k = k + 1;
    }
    proof {
        assert(lv.skip(k as int) =~= Seq::<Seq<char>>::empty());
    }
    if let Some(p) = cur_path {
        let ghost done0 = done@;
        let ghost st = WtState {
            path: opt_chars_view(Some(p)),
            branch: opt_chars_view(cur_branch),
            bare: cur_bare,
            done: done@.map_values(|e: WorktreeEntry| e.spec_entry()),
        };
        let entry = WorktreeEntry {
            path: string_from_chars(&p),
            branch: match &cur_branch {
                Some(b) => Some(string_from_chars(b)),
                None => None,
            },
            is_bare: cur_bare,
        };
        done.push(entry);
        proof {
            assert(done@.map_values(|e: WorktreeEntry| e.spec_entry()) =~= done0.map_values(
                |e: WorktreeEntry| e.spec_entry(),
            ).push(wt_current(st)));
        }
    }
    done
}

/// The record of one worktree, assembled from its listing entry and the
/// per-worktree probes. The bare root never carries status probes; for the
/// others a failed status probe falls back to clean, and a missing upstream
/// simply leaves the counts out — neither aborts the inventory.
pub fn build_worktree(
    entry: WorktreeEntry,
    status: Option<WorktreeStatus>,
    last_commit_time: Option<String>,
    last_commit_epoch: Option<u64>,
    ahead_behind: Option<AheadBehind>,
) -> (r: Worktree)
    ensures
        r.path == entry.path,
        r.branch == entry.branch,
        r.is_bare == entry.is_bare,
        entry.is_bare ==> r.status == WorktreeStatus::Clean && r.last_commit_time is None
            && r.last_commit_epoch is None && r.ahead_behind is None,
        !entry.is_bare ==> r.status == (match status {
            Some(s) => s,
            None => WorktreeStatus::Clean,
        }),
        !entry.is_bare ==> r.last_commit_time == last_commit_time,
        !entry.is_bare ==> r.last_commit_epoch == last_commit_epoch,
        !entry.is_bare ==> r.ahead_behind == ahead_behind,
{
    if entry.is_bare {
        Worktree {
            path: entry.path,
            branch: entry.branch,
            is_bare: true,
            status: WorktreeStatus::Clean,
            last_commit_time: None,
            last_commit_epoch: None,
            ahead_behind: None,
        }
    } else {
        Worktree {
            path: entry.path,
            branch: entry.branch,
            is_bare: false,
            status: match status {
                Some(s) => s,
                None => WorktreeStatus::Clean,
            },
            last_commit_time,
            last_commit_epoch,
            ahead_behind,
        }
    }
}

/// Parses the two-sided commit count: a tab-separated pair, commits unique
/// to the upstream first, to the local tip second.
pub fn parse_ahead_behind(output: &str) -> (r: Option<AheadBehind>)
    ensures
        (match r {
            Some(ab) => split_on(trim(output@), '\t').len() == 2 && ab.behind == parse_u32_spec(
                split_on(trim(output@), '\t')[0],
            ) && ab.ahead == parse_u32_spec(split_on(trim(output@), '\t')[1]),
            None => split_on(trim(output@), '\t').len() != 2,
        }),
{
    let chars = chars_of(output);
    let trimmed = trim_chars(&chars);
    let parts = split_chars(&trimmed, '\t');
    let ghost pv = parts@.map_values(|v: Vec<char>| v@);
    if parts.len() == 2 {
        proof {
            assert(pv[0] == parts@[0]@);
            assert(pv[1] == parts@[1]@);
        }
        let behind = parse_u32(&parts[0]);
        let ahead = parse_u32(&parts[1]);
        Some(AheadBehind { ahead, behind })
    } else {
        None
    }
}

/// Parses one commit summary formatted as short hash, first message line and
/// relative time, separated by two pipe characters; the time keeps any
/// further pipes.
pub fn parse_commit_info(output: &str) -> (r: Option<CommitInfo>)
    ensures
        (match r {
            Some(ci) => {
                let parts = split_on(trim(output@), '|');
                parts.len() >= 3 && ci.hash@ == parts[0] && ci.message@ == parts[1] && ci.time_ago@
                    == join_with(parts.skip(2), '|')
            },
            None => split_on(trim(output@), '|').len() < 3,
        }),
{
    let chars = chars_of(output);
    let trimmed = trim_chars(&chars);
    let parts = split_chars(&trimmed, '|');
    let ghost pv = parts@.map_values(|v: Vec<char>| v@);
    if parts.len() < 3 {
        return None;
    }
    proof {
        assert(pv[0] == parts@[0]@);
        assert(pv[1] == parts@[1]@);
    }
    let hash = string_from_chars(&parts[0]);
    let message = string_from_chars(&parts[1]);
    let rest = join_from(&parts, 2, '|');
    proof {
        assert(pv.skip(2) =~= parts@.map_values(|v: Vec<char>| v@).skip(2));
    }
    let time_ago = string_from_chars(&rest);
    Some(CommitInfo { hash, message, time_ago })
}

/// Parses one commit stamp formatted as the human-relative age, a pipe,
/// and the epoch seconds: the age for display, the seconds as the sort key.
pub fn parse_commit_stamp(output: &str) -> (r: Option<(String, u64)>)
    ensures
        (match r {
            Some(stamp) => split_on(trim(output@), '|').len() == 2 && stamp.0@ == split_on(
                trim(output@),
                '|',
            )[0] && stamp.1 == crate::text::parse_u64_spec(split_on(trim(output@), '|')[1]),
            None => split_on(trim(output@), '|').len() != 2,
        }),
{
    let chars = chars_of(output);
    let trimmed = trim_chars(&chars);
    let parts = split_chars(&trimmed, '|');
    let ghost pv = parts@.map_values(|v: Vec<char>| v@);
    if parts.len() == 2 {
        proof {
            assert(pv[0] == parts@[0]@);
            assert(pv[1] == parts@[1]@);
        }
        let age = string_from_chars(&parts[0]);
        let epoch = crate::text::parse_u64(&parts[1]);
        Some((age, epoch))
    } else {
        None
    }
}

/// The segments joined with the separator between them.
pub open spec fn join_with(parts: Seq<Seq<char>>, c: char) -> Seq<char>
    decreases parts.len(),
{
    if parts.len() == 0 {
        Seq::empty()
    } else if parts.len() == 1 {
        parts[0]
    } else {
        parts[0] + seq![c] + join_with(parts.drop_first(), c)
    }
}

/// Joins the segments from `from` on, with `c` between them.
fn join_from(parts: &Vec<Vec<char>>, from: usize, c: char) -> (r: Vec<char>)
    requires
        from <= parts@.len(),
    ensures
        r@ == join_with(parts@.map_values(|v: Vec<char>| v@).skip(from as int), c),
{
    let ghost pv = parts@.map_values(|v: Vec<char>| v@);
    let mut r: Vec<char> = Vec::new();
    let mut k: usize = from;
    proof {
        assert(r@ + join_with(pv.skip(from as int), c) =~= join_with(pv.skip(from as int), c));
    }
    while k < parts.len()
        invariant
            from <= k <= parts@.len(),
            pv == parts@.map_values(|v: Vec<char>| v@),
            join_with(pv.skip(from as int), c) == r@ + join_with(pv.skip(k as int), c),
        decreases parts@.len() - k,
    {
        let ghost r0 = r@;
        proof {
            assert(pv[k as int] == parts@[k as int]@);
            assert(pv.skip(k as int).first() == pv[k as int]);
            assert(pv.skip(k as int).drop_first() =~= pv.skip(k + 1));
        }
        let part = &parts[k];
        let mut i: usize = 0;
        while i < part.len()
            invariant
                i <= part@.len(),
                r@ == r0 + part@.subrange(0, i as int),
            decreases part.len() - i,
        {
            r.push(part[i]);
            proof {
                assert(r@ =~= r0 + part@.subrange(0, i + 1));
            }
            i = i + 1;
        }
        proof {
            assert(r0 + part@.subrange(0, part@.len() as int) =~= r0 + pv[k as int]);
        }
        if k + 1 < parts.len() {
            r.push(c);
            proof {
                assert(pv.skip(k as int).len() > 1);
                assert(r@ =~= (r0 + pv[k as int]).push(c));
                assert(r@ + join_with(pv.skip(k + 1), c) =~= r0 + join_with(pv.skip(k as int), c));
            }
        } else {
            proof {
                assert(pv.skip(k as int).len() == 1);
                assert(join_with(pv.skip(k as int), c) == pv[k as int]);
                assert(pv.skip(k + 1) =~= Seq::<Seq<char>>::empty());
                assert(r@ + join_with(pv.skip(k + 1), c) =~= r0 + join_with(pv.skip(k as int), c));
            }
        }
        k = k + 1;
    }
    proof {
        assert(pv.skip(k as int) =~= Seq::<Seq<char>>::empty());
        assert(r@ + join_with(pv.skip(k as int), c) =~= r@);
    }
    r
}

/// Reads the default branch from a symbolic reference: the name after the
/// local-branch prefix, or nothing when the reference has another shape.
pub fn parse_default_branch(output: &str) -> (r: Option<String>)
    ensures
        (match r {
            Some(b) => is_prefix("refs/heads/"@, trim(output@)) && b@ == trim(output@).skip(
                "refs/heads/"@.len() as int,
            ),
            None => !is_prefix("refs/heads/"@, trim(output@)),
        }),
{
    let chars = chars_of(output);
    let trimmed = trim_chars(&chars);
    let prefix = chars_of("refs/heads/");
    if starts_with(&trimmed, &prefix) {
        let n = trimmed.len();
        let rest = slice_range(&trimmed, prefix.len(), n);
        proof {
            assert(rest@ =~= trim(output@).skip("refs/heads/"@.len() as int));
        }
        Some(string_from_chars(&rest))
    } else {
        None
    }
}

/// The lines of a listing, trimmed, with empty lines dropped.
pub open spec fn kept_lines(lines: Seq<Seq<char>>) -> Seq<Seq<char>>
    decreases lines.len(),
{
    if lines.len() == 0 {
        Seq::empty()
    } else {
        let rest = kept_lines(lines.drop_first());
        if trim(lines.first()).len() > 0 {
            seq![trim(lines.first())] + rest
        } else {
            rest
        }
    }
}

/// Parses a one-name-per-line branch listing: each line trimmed, empty
/// lines dropped, order kept.
pub fn parse_branch_list(output: &str) -> (r: Vec<String>)
    ensures
        r@.map_values(|s: String| s@) == kept_lines(split_on(output@, '\n')),
{
    let chars = chars_of(output);
    let lines = split_chars(&chars, '\n');
    let ghost lv = lines@.map_values(|v: Vec<char>| v@);
    let mut r: Vec<String> = Vec::new();
    let mut k: usize = lines.len();
    proof {
        assert(lv.skip(k as int) =~= Seq::<Seq<char>>::empty());
        assert(r@.map_values(|s: String| s@) =~= kept_lines(lv.skip(k as int)));
    }
    while k > 0
        invariant
            k <= lines@.len(),
            lv == lines@.map_values(|v: Vec<char>| v@),
            lv == split_on(output@, '\n'),
            r@.map_values(|s: String| s@) == kept_lines(lv.skip(k as int)),
        decreases k,
    {
        k = k - 1;
        proof {
            assert(lv[k as int] == lines@[k as int]@);
            assert(lv.skip(k as int).first() == lv[k as int]);
            assert(lv.skip(k as int).drop_first() =~= lv.skip(k + 1));
        }
        let line = &lines[k];
        let t = trim_chars(line);
        if t.len() > 0 {
            let ghost r0 = r@;
            let name = string_from_chars(&t);
            r.insert(0, name);
            proof {
                assert(r@.map_values(|s: String| s@) =~= seq![trim(lv[k as int])]
                    + r0.map_values(|s: String| s@));
            }
        }
    }
    proof {
        assert(lv.skip(0) =~= lv);
    }
    r
}

/// The repository name denoted by a clone source: the last path segment,
/// with trailing slashes and every trailing `.git` removed.
pub open spec fn repo_name_of(url: Seq<char>) -> Seq<char> {
    strip_suffix_all(after_last(trim_end_matching(url, '/'), '/'), ".git"@)
}

/// Extracts the repository name from a clone URL or path.
pub fn extract_repo_name(url: &str) -> (r: String)
    ensures
        r@ == repo_name_of(url@),
{
    let chars = chars_of(url);
    let no_slash = trim_matching_end_only(&chars, '/');
    let name = tail_after_last(&no_slash, '/');
    let git_suffix = chars_of(".git");
    let stripped = trim_end_matches_seq(&name, &git_suffix);
    string_from_chars(&stripped)
}

/// Removes every trailing occurrence of `c`.
fn trim_matching_end_only(s: &Vec<char>, c: char) -> (r: Vec<char>)
    ensures
        r@ == trim_end_matching(s@, c),
{
    let mut hi: usize = s.len();
    proof {
        assert(s@.subrange(0, s@.len() as int) =~= s@);
    }
    while hi > 0 && s[hi - 1] == c
        invariant
            hi <= s@.len(),
            trim_end_matching(s@, c) == trim_end_matching(s@.subrange(0, hi as int), c),
        decreases hi,
    {
        proof {
            assert(s@.subrange(0, hi as int).last() == s@[hi - 1]);
            assert(s@.subrange(0, hi as int).drop_last() =~= s@.subrange(0, hi - 1));
        }
        hi = hi - 1;
    }
    proof {
        assert(trim_end_matching(s@.subrange(0, hi as int), c) == s@.subrange(0, hi as int));
    }
    slice_range(s, 0, hi)
}

} // verus!

verus! {

/// Parses a two-sided commit count as the tool prints it: left count, a
/// tab, right count.
pub fn parse_left_right(output: &str) -> (r: Option<(u32, u32)>)
    ensures
        (match r {
            Some(c) => split_on(trim(output@), '\t').len() == 2 && c.0 == parse_u32_spec(
                split_on(trim(output@), '\t')[0],
            ) && c.1 == parse_u32_spec(split_on(trim(output@), '\t')[1]),
            None => split_on(trim(output@), '\t').len() != 2,
        }),
{
    let chars = chars_of(output);
    let trimmed = trim_chars(&chars);
    let parts = split_chars(&trimmed, '\t');
    let ghost pv = parts@.map_values(|v: Vec<char>| v@);
    if parts.len() == 2 {
        proof {
            assert(pv[0] == parts@[0]@);
            assert(pv[1] == parts@[1]@);
        }
        let left = parse_u32(&parts[0]);
        let right = parse_u32(&parts[1]);
        Some((left, right))
    } else {
        None
    }
}

/// Assembles the comparison between a local branch and its remote
/// counterpart: the counts stand only when both sides and a count were
/// resolved, and read ahead first, behind second.
pub fn build_branch_comparison(
    local: Option<CommitInfo>,
    remote: Option<CommitInfo>,
    counts: Option<(u32, u32)>,
) -> (r: crate::types::BranchComparison)
    ensures
        r.local == local,
        r.remote == remote,
        (local is Some && remote is Some && counts is Some) ==> (match counts {
            Some(c) => r.ahead_count == c.0 && r.behind_count == c.1,
            None => false,
        }),
        !(local is Some && remote is Some && counts is Some) ==> r.ahead_count == 0
            && r.behind_count == 0,
{
    let both = local.is_some() && remote.is_some();
    let (ahead_count, behind_count): (u32, u32) = if both {
        match counts {
            Some(c) => (c.0, c.1),
            None => (0, 0),
        }
    } else {
        (0, 0)
    };
    crate::types::BranchComparison { local, remote, behind_count, ahead_count }
}

} // verus!
