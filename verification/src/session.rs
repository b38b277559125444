//! The session model: the current worktree list, the bounds-clamped
//! selection, the sort mode, and the filter text. All transformations keep
//! the selection valid and track the selected record by its path, never by
//! its position.

use vstd::prelude::*;

use crate::sort::sort_spec;
use crate::sort::sort_worktrees;
use crate::text::chars_of;
use crate::text::contains_chars;
use crate::text::contains_seq;
use crate::text::fold_lower;
use crate::text::lower_of;
use crate::text::string_from_chars;
use crate::types::SortMode;
use crate::types::Worktree;

verus! {

broadcast use vstd::seq_lib::group_to_multiset_ensures;

/// The mutable root of the interaction: list, selection, sort and filter.
pub struct SessionState {
    /// The records, ordered by the sort mode.
    pub worktrees: Vec<Worktree>,
    /// Index of the selected record; 0 on an empty list.
    pub selected_index: usize,
    /// Current order of the list.
    pub sort_mode: SortMode,
    /// Filter text; empty means no filter.
    pub filter_text: Vec<char>,
    /// The worktree the session was launched from, when resolvable.
    pub current_worktree_path: Option<String>,
}

impl SessionState {
    /// The selection is in bounds, and rests at zero on an empty list.
    pub open spec fn wf(self) -> bool {
        if self.worktrees@.len() == 0 {
            self.selected_index == 0
        } else {
            (self.selected_index as int) < self.worktrees@.len()
        }
    }
}

/// Whether a record passes the filter: an empty filter passes everything,
/// else a case-folded substring match against display name or branch name.
pub open spec fn matches_filter(w: Worktree, f: Seq<char>) -> bool {
    f.len() == 0 || contains_seq(lower_of(w.spec_display_name()), lower_of(f)) || contains_seq(
        lower_of(w.spec_branch_display()),
        lower_of(f),
    )
}

/// Whether a record passes the filter.
pub fn matches_filter_exec(w: &Worktree, f: &Vec<char>) -> (r: bool)
    ensures
        r == matches_filter(*w, f@),
{
    if f.len() == 0 {
        return true;
    }
    let fl = chars_of(fold_lower(string_from_chars(f).as_str()).as_str());
    let dnl = chars_of(fold_lower(w.display_name().as_str()).as_str());
    if contains_chars(&dnl, &fl) {
        return true;
    }
    let bdl = chars_of(fold_lower(w.branch_display().as_str()).as_str());
    contains_chars(&bdl, &fl)
}

/// The default selection: the first non-bare record when one exists, else
/// the top of the list.
pub open spec fn fallback_selection_ok(wts: Seq<Worktree>, sel: int) -> bool {
    if exists|i: int| 0 <= i < wts.len() && !(#[trigger] wts[i]).is_bare {
        &&& 0 <= sel < wts.len()
        &&& !wts[sel].is_bare
        &&& forall|j: int| 0 <= j < sel ==> (#[trigger] wts[j]).is_bare
    } else {
        sel == 0
    }
}

/// The initial selection: the launch worktree's row when its path is
/// present, else the default selection.
pub open spec fn initial_selection_ok(
    wts: Seq<Worktree>,
    current: Option<String>,
    sel: int,
) -> bool {
    match current {
        Some(p) => {
            if exists|i: int| 0 <= i < wts.len() && (#[trigger] wts[i]).path@ == p@ {
                &&& 0 <= sel < wts.len()
                &&& wts[sel].path@ == p@
                &&& forall|j: int| 0 <= j < sel ==> (#[trigger] wts[j]).path@ != p@
            } else {
                fallback_selection_ok(wts, sel)
            }
        },
        None => fallback_selection_ok(wts, sel),
    }
}

/// Least index whose record carries the path, if the path is present.
pub fn find_by_path(v: &Vec<Worktree>, path: &String) -> (r: Option<usize>)
    ensures
        (match r {
            Some(i) => i < v@.len() && v@[i as int].path@ == path@ && (forall|j: int|
                0 <= j < i ==> v@[j].path@ != path@),
            None => forall|j: int| 0 <= j < v@.len() ==> v@[j].path@ != path@,
        }),
{
    let mut i: usize = 0;
    while i < v.len()
        invariant
            i <= v@.len(),
            forall|j: int| 0 <= j < i ==> v@[j].path@ != path@,
        decreases v@.len() - i,
    {
        if v[i].path.eq(path) {
            return Some(i);
        }
        i = i + 1;
    }
    None
}

/// Least index of a non-bare record, if one is present.
fn find_first_non_bare(v: &Vec<Worktree>) -> (r: Option<usize>)
    ensures
        (match r {
            Some(i) => i < v@.len() && !v@[i as int].is_bare && (forall|j: int|
                0 <= j < i ==> v@[j].is_bare),
            None => forall|j: int| 0 <= j < v@.len() ==> v@[j].is_bare,
        }),
{
    let mut i: usize = 0;
    while i < v.len()
        invariant
            i <= v@.len(),
            forall|j: int| 0 <= j < i ==> v@[j].is_bare,
        decreases v@.len() - i,
    {
        if !v[i].is_bare {
            return Some(i);
        }
        i = i + 1;
    }
    None
}

impl SessionState {
    /// A fresh session over the given inventory: name order, no filter, and
    /// the initial selection on the launch worktree when it is present, else
    /// on the first non-bare record, else at the top.
    pub fn new(worktrees: Vec<Worktree>, current_worktree_path: Option<String>) -> (r: Self)
        ensures
            r.worktrees == worktrees,
            r.sort_mode == SortMode::Name,
            r.filter_text@ == Seq::<char>::empty(),
            r.current_worktree_path == current_worktree_path,
            r.wf(),
            initial_selection_ok(worktrees@, current_worktree_path, r.selected_index as int),
    {
        let selected_index: usize = match &current_worktree_path {
            Some(p) => {
                match find_by_path(&worktrees, p) {
                    Some(i) => i,
                    None => {
                        match find_first_non_bare(&worktrees) {
                            Some(i) => i,
                            None => 0,
                        }
                    },
                }
            },
            None => {
                match find_first_non_bare(&worktrees) {
                    Some(i) => i,
                    None => 0,
                }
            },
        };
        SessionState {
            worktrees,
            selected_index,
            sort_mode: SortMode::Name,
            filter_text: Vec::new(),
            current_worktree_path,
        }
    }

    /// The selected record, when the list is not empty.
    pub fn selected_worktree(&self) -> (r: Option<&Worktree>)
        requires
            self.wf(),
        ensures
            (match r {
                Some(w) => self.worktrees@.len() > 0 && *w == self.worktrees@[
                    self.selected_index as int
                ],
                None => self.worktrees@.len() == 0,
            }),
    {
        if self.worktrees.len() == 0 {
            None
        } else {
            Some(&self.worktrees[self.selected_index])
        }
    }

    /// Moves the selection one row up, stopping at the top.
    pub fn move_selection_up(&mut self)
        requires
            old(self).wf(),
        ensures
            final(self).wf(),
            final(self).selected_index == (if old(self).selected_index > 0 {
                old(self).selected_index - 1
            } else {
                0int
            }),
            final(self).worktrees == old(self).worktrees,
            final(self).sort_mode == old(self).sort_mode,
            final(self).filter_text == old(self).filter_text,
            final(self).current_worktree_path == old(self).current_worktree_path,
    {
        if self.selected_index > 0 {
            self.selected_index = self.selected_index - 1;
        }
    }

    /// Moves the selection one row down, stopping at the last row.
    pub fn move_selection_down(&mut self)
        requires
            old(self).wf(),
        ensures
            final(self).wf(),
            final(self).selected_index == (if old(self).worktrees@.len() > 0 && old(self).selected_index + 1 < old(self).worktrees@.len() {
                old(self).selected_index + 1
            } else {
                old(self).selected_index as int
            }),
            final(self).worktrees == old(self).worktrees,
            final(self).sort_mode == old(self).sort_mode,
            final(self).filter_text == old(self).filter_text,
            final(self).current_worktree_path == old(self).current_worktree_path,
    {
        if self.worktrees.len() > 0 && self.selected_index + 1 < self.worktrees.len() {
            self.selected_index = self.selected_index + 1;
        }
    }

    /// Moves the selection to the first row.
    pub fn move_to_top(&mut self)
        requires
            old(self).wf(),
        ensures
            final(self).wf(),
            final(self).selected_index == 0,
            final(self).worktrees == old(self).worktrees,
            final(self).sort_mode == old(self).sort_mode,
            final(self).filter_text == old(self).filter_text,
            final(self).current_worktree_path == old(self).current_worktree_path,
    {
        self.selected_index = 0;
    }

    /// Moves the selection to the last row; no-op on an empty list.
    pub fn move_to_bottom(&mut self)
        requires
            old(self).wf(),
        ensures
            final(self).wf(),
            final(self).selected_index == (if old(self).worktrees@.len() == 0 {
                0int
            } else {
                old(self).worktrees@.len() - 1
            }),
            final(self).worktrees == old(self).worktrees,
            final(self).sort_mode == old(self).sort_mode,
            final(self).filter_text == old(self).filter_text,
            final(self).current_worktree_path == old(self).current_worktree_path,
    {
        if self.worktrees.len() == 0 {
            self.selected_index = 0;
        } else {
            self.selected_index = self.worktrees.len() - 1;
        }
    }

    /// Moves the selection `step` rows down, clamped to the last row.
    pub fn move_selection_half_page_down(&mut self, step: usize)
        requires
            old(self).wf(),
        ensures
            final(self).wf(),
            old(self).worktrees@.len() == 0 ==> final(self).selected_index == 0,
            old(self).worktrees@.len() > 0 ==> final(self).selected_index == vstd::math::min(
                old(self).selected_index + step,
                old(self).worktrees@.len() - 1,
            ),
            final(self).worktrees == old(self).worktrees,
            final(self).sort_mode == old(self).sort_mode,
            final(self).filter_text == old(self).filter_text,
            final(self).current_worktree_path == old(self).current_worktree_path,
    {
        if self.worktrees.len() == 0 {
            self.selected_index = 0;
            return ;
        }
        let max_index = self.worktrees.len() - 1;
        if step > max_index - self.selected_index {
            self.selected_index = max_index;
        } else {
            self.selected_index = self.selected_index + step;
        }
    }

    /// Moves the selection `step` rows up, stopping at the top.
    pub fn move_selection_half_page_up(&mut self, step: usize)
        requires
            old(self).wf(),
        ensures
            final(self).wf(),
            final(self).selected_index == vstd::math::max(
                old(self).selected_index - step,
                0int,
            ),
            final(self).worktrees == old(self).worktrees,
            final(self).sort_mode == old(self).sort_mode,
            final(self).filter_text == old(self).filter_text,
            final(self).current_worktree_path == old(self).current_worktree_path,
    {
        if self.selected_index > step {
            self.selected_index = self.selected_index - step;
        } else {
            self.selected_index = 0;
        }
    }

    /// Jumps to the launch worktree: selects its row and reports success,
    /// or reports that no launch worktree is known or present.
    pub fn jump_to_current_worktree(&mut self) -> (found: bool)
        requires
            old(self).wf(),
        ensures
            final(self).wf(),
            final(self).worktrees == old(self).worktrees,
            final(self).sort_mode == old(self).sort_mode,
            final(self).filter_text == old(self).filter_text,
            final(self).current_worktree_path == old(self).current_worktree_path,
            found ==> (match old(self).current_worktree_path {
                Some(p) => old(self).worktrees@[final(self).selected_index as int].path@ == p@,
                None => false,
            }),
            !found ==> final(self).selected_index == old(self).selected_index,
            !found ==> (match old(self).current_worktree_path {
                Some(p) => forall|j: int|
                    0 <= j < old(self).worktrees@.len() ==> old(self).worktrees@[j].path@ != p@,
                None => true,
            }),
    {
        let path = match &self.current_worktree_path {
            Some(p) => p.clone(),
            None => {
                return false;
            },
        };
        match find_by_path(&self.worktrees, &path) {
            Some(i) => {
                self.selected_index = i;
                true
            },
            None => false,
        }
    }

    /// On a filter keystroke: selects the first record of the full,
    /// unfiltered list that matches the filter text, top to bottom in the
    /// current order; an empty filter or a filter nothing matches leaves the
    /// selection alone.
    pub fn select_first_filtered_worktree(&mut self)
        requires
            old(self).wf(),
        ensures
            final(self).wf(),
            final(self).worktrees == old(self).worktrees,
            final(self).sort_mode == old(self).sort_mode,
            final(self).filter_text == old(self).filter_text,
            final(self).current_worktree_path == old(self).current_worktree_path,
            old(self).filter_text@.len() == 0 ==> final(self).selected_index == old(self).selected_index,
            old(self).filter_text@.len() > 0 ==> {
                if exists|i: int|
                    0 <= i < old(self).worktrees@.len() && matches_filter(
                        #[trigger] old(self).worktrees@[i],
                        old(self).filter_text@,
                    ) {
                    matches_filter(
                        old(self).worktrees@[final(self).selected_index as int],
                        old(self).filter_text@,
                    ) && (forall|j: int|
                        0 <= j < final(self).selected_index ==> !matches_filter(
                            #[trigger] old(self).worktrees@[j],
                            old(self).filter_text@,
                        ))
                } else {
                    final(self).selected_index == old(self).selected_index
                }
            },
    {
        if self.filter_text.len() == 0 {
            return ;
        }
        let mut i: usize = 0;
        while i < self.worktrees.len()
            invariant
                i <= self.worktrees@.len(),
                self.filter_text@.len() > 0,
                forall|j: int|
                    0 <= j < i ==> !matches_filter(
                        #[trigger] self.worktrees@[j],
                        self.filter_text@,
                    ),
                self == old(self),
            decreases self.worktrees@.len() - i,
        {
            if matches_filter_exec(&self.worktrees[i], &self.filter_text) {
                self.selected_index = i;
                return ;
            }
            i = i + 1;
        }
    }

    /// Re-sorts the list under the current mode. The selection follows the
    /// selected record's path: after sorting, the first row carrying that
    /// path is selected; on an empty list the selection stays at the top.
    pub fn apply_sort(&mut self)
        requires
            old(self).wf(),
        ensures
            final(self).wf(),
            final(self).worktrees@ == sort_spec(old(self).sort_mode, old(self).worktrees@),
            final(self).sort_mode == old(self).sort_mode,
            final(self).filter_text == old(self).filter_text,
            final(self).current_worktree_path == old(self).current_worktree_path,
            old(self).worktrees@.len() > 0 ==> {
                let p = old(self).worktrees@[old(self).selected_index as int].path@;
                final(self).worktrees@[final(self).selected_index as int].path@ == p && (forall|
                    j: int,
                |
                    0 <= j < final(self).selected_index ==> final(self).worktrees@[j].path@ != p)
            },
            old(self).worktrees@.len() > 0 && unique_paths(old(self).worktrees@) ==> final(self).worktrees@[final(self).selected_index as int] == old(self).worktrees@[old(self).selected_index as int],
            old(self).worktrees@.len() == 0 ==> final(self).selected_index == 0,
    {
        proof {
            crate::sort::lemma_sort_spec_ensures(self.sort_mode, self.worktrees@);
            if self.worktrees@.len() > 0 && unique_paths(self.worktrees@) {
                lemma_resort_reselect(
                    self.sort_mode,
                    self.worktrees@,
                    self.selected_index as int,
                );
            }
        }
        if self.worktrees.len() == 0 {
            let mut tmp: Vec<Worktree> = Vec::new();
            core::mem::swap(&mut self.worktrees, &mut tmp);
            let sorted = sort_worktrees(self.sort_mode, tmp);
            self.worktrees = sorted;
            self.selected_index = 0;
            return ;
        }
        let selected_path = self.worktrees[self.selected_index].path.clone();
        let mut tmp: Vec<Worktree> = Vec::new();
        core::mem::swap(&mut self.worktrees, &mut tmp);
        let sorted = sort_worktrees(self.sort_mode, tmp);
        self.worktrees = sorted;
        match find_by_path(&self.worktrees, &selected_path) {
            Some(i) => {
                self.selected_index = i;
            },
            None => {
                proof {
                    lemma_path_present_after_sort(
                        old(self).sort_mode,
                        old(self).worktrees@,
                        old(self).selected_index as int,
                    );
                }
            },
        }
    }

    /// Advances to the next sort mode and re-sorts, tracking the selected
    /// record's path.
    pub fn cycle_sort_mode(&mut self)
        requires
            old(self).wf(),
        ensures
            final(self).wf(),
            final(self).sort_mode == (match old(self).sort_mode {
                SortMode::Name => SortMode::Recent,
                SortMode::Recent => SortMode::Status,
                SortMode::Status => SortMode::Name,
            }),
            final(self).worktrees@ == sort_spec(final(self).sort_mode, old(self).worktrees@),
            final(self).filter_text == old(self).filter_text,
            final(self).current_worktree_path == old(self).current_worktree_path,
            old(self).worktrees@.len() > 0 ==> {
                let p = old(self).worktrees@[old(self).selected_index as int].path@;
                final(self).worktrees@[final(self).selected_index as int].path@ == p && (forall|
                    j: int,
                |
                    0 <= j < final(self).selected_index ==> final(self).worktrees@[j].path@ != p)
            },
            old(self).worktrees@.len() > 0 && unique_paths(old(self).worktrees@) ==> final(self).worktrees@[final(self).selected_index as int] == old(self).worktrees@[old(self).selected_index as int],
    {
        self.sort_mode = self.sort_mode.next();
        self.apply_sort();
    }

    /// Removes the record with the given path, keeping the order of the
    /// rest, and clamps the selection to the shortened list.
    pub fn remove_by_path(&mut self, path: &String)
        requires
            old(self).wf(),
        ensures
            final(self).wf(),
            final(self).worktrees@ == keep_other_paths(old(self).worktrees@, path@),
            final(self).sort_mode == old(self).sort_mode,
            final(self).filter_text == old(self).filter_text,
            final(self).current_worktree_path == old(self).current_worktree_path,
            final(self).selected_index == (if (old(self).selected_index as int) < keep_other_paths(
                old(self).worktrees@,
                path@,
            ).len() {
                old(self).selected_index as int
            } else if keep_other_paths(old(self).worktrees@, path@).len() == 0 {
                0int
            } else {
                keep_other_paths(old(self).worktrees@, path@).len() - 1
            }),
    {
        let ghost w0 = self.worktrees@;
        let mut kept: Vec<Worktree> = Vec::new();
        proof {
            assert(w0.skip(w0.len() as int) =~= Seq::<Worktree>::empty());
            assert(kept@ =~= keep_other_paths(w0.skip(w0.len() as int), path@));
        }
        while self.worktrees.len() > 0
            invariant
                self.worktrees@.len() <= w0.len(),
                self.worktrees@ == w0.subrange(0, self.worktrees@.len() as int),
                kept@ == keep_other_paths(w0.skip(self.worktrees@.len() as int), path@),
                self.selected_index == old(self).selected_index,
                self.sort_mode == old(self).sort_mode,
                self.filter_text == old(self).filter_text,
                self.current_worktree_path == old(self).current_worktree_path,
            decreases self.worktrees@.len(),
        {
            let ghost n = self.worktrees@.len();
            let w = self.worktrees.pop().unwrap();
            proof {
                assert(w == w0[n - 1]);
                assert(self.worktrees@ =~= w0.subrange(0, n - 1));
                assert(w0.skip(n - 1).first() == w0[n - 1]);
                assert(w0.skip(n - 1).drop_first() =~= w0.skip(n as int));
            }
            if !w.path.eq(path) {
                let ghost kept0 = kept@;
                kept.insert(0, w);
                proof {
                    assert(kept@ =~= seq![w0[n - 1]] + kept0);
                }
            }
        }
        proof {
            assert(w0.skip(0) =~= w0);
        }
        self.worktrees = kept;
        if self.selected_index >= self.worktrees.len() {
            if self.worktrees.len() == 0 {
                self.selected_index = 0;
            } else {
                self.selected_index = self.worktrees.len() - 1;
            }
        }
    }

    /// Replaces the list with a fresh inventory: the new records are sorted
    /// under the current mode, the previously selected record is re-located
    /// by path, and an absent path falls back to the nearest valid index.
    pub fn apply_refresh(&mut self, new_list: Vec<Worktree>)
        requires
            old(self).wf(),
        ensures
            final(self).wf(),
            final(self).worktrees@ == sort_spec(old(self).sort_mode, new_list@),
            final(self).sort_mode == old(self).sort_mode,
            final(self).filter_text == old(self).filter_text,
            final(self).current_worktree_path == old(self).current_worktree_path,
            old(self).worktrees@.len() > 0 ==> {
                let p = old(self).worktrees@[old(self).selected_index as int].path@;
                (exists|i: int|
                    0 <= i < final(self).worktrees@.len() && final(self).worktrees@[i].path@ == p)
                    ==> final(self).worktrees@[final(self).selected_index as int].path@ == p
            },
    {
        let old_path: Option<String> = if self.worktrees.len() > 0 {
            Some(self.worktrees[self.selected_index].path.clone())
        } else {
            None
        };
        let sorted = sort_worktrees(self.sort_mode, new_list);
        self.worktrees = sorted;
        let found: Option<usize> = match &old_path {
            Some(p) => find_by_path(&self.worktrees, p),
            None => None,
        };
        match found {
            Some(i) => {
                self.selected_index = i;
            },
            None => {
                if self.selected_index >= self.worktrees.len() {
                    if self.worktrees.len() == 0 {
                        self.selected_index = 0;
                    } else {
                        self.selected_index = self.worktrees.len() - 1;
                    }
                }
            },
        }
    }
}

/// The records whose path differs from `p`, in their original order.
pub open spec fn keep_other_paths(s: Seq<Worktree>, p: Seq<char>) -> Seq<Worktree>
    decreases s.len(),
{
    if s.len() == 0 {
        Seq::empty()
    } else {
        let rest = keep_other_paths(s.drop_first(), p);
        if s.first().path@ == p {
            rest
        } else {
            seq![s.first()] + rest
        }
    }
}

/// Whether the records carry pairwise distinct paths.
pub open spec fn unique_paths(s: Seq<Worktree>) -> bool {
    forall|i: int, j: int|
        0 <= i < j < s.len() ==> (#[trigger] s[i]).path@ != (#[trigger] s[j]).path@
}

/// A selected record's path is still present after any re-sort.
pub proof fn lemma_path_present_after_sort(mode: SortMode, s: Seq<Worktree>, sel: int)
    requires
        0 <= sel < s.len(),
    ensures
        exists|k: int|
            0 <= k < sort_spec(mode, s).len() && (#[trigger] sort_spec(mode, s)[k]).path@ == s[
                sel
            ].path@,
{
    crate::sort::lemma_sort_spec_ensures(mode, s);
    let x = s[sel];
    assert(s.contains(x));
    assert(s.to_multiset().count(x) > 0);
    assert(sort_spec(mode, s).to_multiset().count(x) > 0);
    assert(sort_spec(mode, s).contains(x));
    let k = choose|k: int| 0 <= k < sort_spec(mode, s).len() && sort_spec(mode, s)[k] == x;
    assert(sort_spec(mode, s)[k].path@ == s[sel].path@);
}

/// Re-sort and select-by-path round-trip: when paths are unique, locating
/// the previously selected record's path in the re-sorted list finds it,
/// and every row found that way holds the very record that was selected —
/// the selection tracks identity, not position.
pub proof fn lemma_resort_reselect(mode: SortMode, s: Seq<Worktree>, sel: int)
    requires
        0 <= sel < s.len(),
        unique_paths(s),
    ensures
        exists|k: int|
            0 <= k < sort_spec(mode, s).len() && (#[trigger] sort_spec(mode, s)[k]).path@ == s[
                sel
            ].path@,
        forall|k: int|
            0 <= k < sort_spec(mode, s).len() && (#[trigger] sort_spec(mode, s)[k]).path@ == s[
                sel
            ].path@ ==> sort_spec(mode, s)[k] == s[sel],
{
    crate::sort::lemma_sort_spec_ensures(mode, s);
    lemma_path_present_after_sort(mode, s, sel);
    let sorted = sort_spec(mode, s);
    assert forall|k: int|
        0 <= k < sorted.len() && (#[trigger] sorted[k]).path@ == s[sel].path@ implies sorted[k]
        == s[sel] by {
        assert(sorted.contains(sorted[k]));
        assert(sorted.to_multiset().count(sorted[k]) > 0);
        assert(s.to_multiset().count(sorted[k]) > 0);
        assert(s.contains(sorted[k]));
        let j = choose|j: int| 0 <= j < s.len() && s[j] == sorted[k];
        if j != sel {
            assert(s[j].path@ != s[sel].path@);
        }
    }
}

} // verus!
