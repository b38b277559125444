//! The status classifier: derives one worktree status from the short-format
//! change report, scanning the two state characters of every change line.

use vstd::prelude::*;

use crate::text::chars_of;
use crate::text::split_chars;
use crate::text::split_on;
use crate::text::trim;
use crate::text::trim_chars;
use crate::types::WorktreeStatus;

verus! {

/// Whether the two state characters mark an unmerged path: either side
/// unmerged, or a both-added or both-deleted collision.
pub open spec fn pair_is_conflict(x: char, w: char) -> bool {
    x == 'U' || w == 'U' || (x == 'A' && w == 'A') || (x == 'D' && w == 'D')
}

/// Whether the index-state character marks a staged change: non-blank and
/// not the untracked marker.
pub open spec fn pair_is_staged(x: char) -> bool {
    x != ' ' && x != '?'
}

/// Whether the working-tree-state character marks an unstaged change:
/// non-blank and not the untracked marker.
pub open spec fn pair_is_unstaged(w: char) -> bool {
    w != ' ' && w != '?'
}

/// Whether a report line carries two state characters; shorter lines are
/// ignored by the classifier.
pub open spec fn line_counted(l: Seq<char>) -> bool {
    l.len() >= 2
}

/// Whether any line of the report marks an unmerged path.
pub open spec fn lines_conflict(lines: Seq<Seq<char>>) -> bool {
    exists|i: int|
        0 <= i < lines.len() && line_counted(#[trigger] lines[i]) && pair_is_conflict(
            lines[i][0],
            lines[i][1],
        )
}

/// Whether any line of the report marks a staged change.
pub open spec fn lines_staged(lines: Seq<Seq<char>>) -> bool {
    exists|i: int|
        0 <= i < lines.len() && line_counted(#[trigger] lines[i]) && pair_is_staged(lines[i][0])
}

/// Whether any line of the report marks an unstaged change.
pub open spec fn lines_unstaged(lines: Seq<Seq<char>>) -> bool {
    exists|i: int|
        0 <= i < lines.len() && line_counted(#[trigger] lines[i]) && pair_is_unstaged(lines[i][1])
}

/// Resolution order of the classifier: conflicts dominate, staged and
/// unstaged together make mixed, one kind alone names itself, else clean.
pub open spec fn classify_lines(lines: Seq<Seq<char>>) -> WorktreeStatus {
    if lines_conflict(lines) {
        WorktreeStatus::Conflict
    } else if lines_staged(lines) && lines_unstaged(lines) {
        WorktreeStatus::Mixed
    } else if lines_staged(lines) {
        WorktreeStatus::Staged
    } else if lines_unstaged(lines) {
        WorktreeStatus::Unstaged
    } else {
        WorktreeStatus::Clean
    }
}

/// Status of a whole change report: a report that is blank once trimmed
/// holds no change lines and is clean outright; anything else is read line
/// by line.
pub open spec fn classify_report(s: Seq<char>) -> WorktreeStatus {
    if trim(s).len() == 0 {
        WorktreeStatus::Clean
    } else {
        classify_lines(split_on(s, '\n'))
    }
}

/// Classifies a short-format change report.
pub fn classify_status(report: &str) -> (r: WorktreeStatus)
    ensures
        r == classify_report(report@),
{
    let chars = chars_of(report);
    let trimmed = trim_chars(&chars);
    if trimmed.len() == 0 {
        return WorktreeStatus::Clean;
    }
    let lines = split_chars(&chars, '\n');
    let ghost lv = lines@.map_values(|v: Vec<char>| v@);
    let mut has_conflict = false;
    let mut has_staged = false;
    let mut has_unstaged = false;
    let mut k: usize = 0;
    while k < lines.len()
        invariant
            k <= lines@.len(),
            lv == lines@.map_values(|v: Vec<char>| v@),
            lv == split_on(report@, '\n'),
            has_conflict == (exists|i: int|
                0 <= i < k && line_counted(#[trigger] lv[i]) && pair_is_conflict(
                    lv[i][0],
                    lv[i][1],
                )),
            has_staged == (exists|i: int|
                0 <= i < k && line_counted(#[trigger] lv[i]) && pair_is_staged(lv[i][0])),
            has_unstaged == (exists|i: int|
                0 <= i < k && line_counted(#[trigger] lv[i]) && pair_is_unstaged(lv[i][1])),
        decreases lines@.len() - k,
    {
        let line = &lines[k];
        proof {
            assert(lv[k as int] == lines@[k as int]@);
        }
        if line.len() >= 2 {
            let x = line[0];
            let w = line[1];
            if x == 'U' || w == 'U' || (x == 'A' && w == 'A') || (x == 'D' && w == 'D') {
                has_conflict = true;
            }
            if x != ' ' && x != '?' {
                has_staged = true;
            }
            if w != ' ' && w != '?' {
                has_unstaged = true;
            }
        }
        k = k + 1;
    }
    if has_conflict {
        WorktreeStatus::Conflict
    } else if has_staged && has_unstaged {
        WorktreeStatus::Mixed
    } else if has_staged {
        WorktreeStatus::Staged
    } else if has_unstaged {
        WorktreeStatus::Unstaged
    } else {
        WorktreeStatus::Clean
    }
}

/// An unmerged pair anywhere in the report makes the whole report a
/// conflict, whatever the other lines hold.
pub proof fn lemma_conflict_dominates(lines: Seq<Seq<char>>)
    requires
        lines_conflict(lines),
    ensures
        classify_lines(lines) == WorktreeStatus::Conflict,
{
}

/// A report without a single counted change line is clean.
pub proof fn lemma_empty_report_clean(lines: Seq<Seq<char>>)
    requires
        forall|i: int| 0 <= i < lines.len() ==> !line_counted(#[trigger] lines[i]),
    ensures
        classify_lines(lines) == WorktreeStatus::Clean,
{
}

/// A report with zero change lines — empty or all whitespace — is clean.
pub proof fn lemma_blank_report_clean(s: Seq<char>)
    requires
        trim(s).len() == 0,
    ensures
        classify_report(s) == WorktreeStatus::Clean,
{
}

} // verus!
