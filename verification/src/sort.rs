//! Ordering of the worktree list: the bare root always sorts first, and the
//! remaining records compare by folded display name, by recency, or by
//! status severity. The sort is a stable insertion sort, specified by a
//! recursive mathematical sort that the laws below are proved of.

use vstd::prelude::*;

use vstd::multiset::Multiset;

use crate::text::chars_of;
use crate::text::fold_lower;
use crate::text::lex_le;
use crate::text::lex_le_chars;
use crate::text::lemma_lex_le_total;
use crate::text::lemma_lex_le_trans;
use crate::text::lower_of;
use crate::types::SortMode;
use crate::types::Worktree;

verus! {

broadcast use vstd::seq_lib::group_to_multiset_ensures;

/// The name key of a record: its display name, case-folded.
pub open spec fn name_key(w: Worktree) -> Seq<char> {
    lower_of(w.spec_display_name())
}

/// Order on optional commit stamps: an absent stamp counts as oldest.
pub open spec fn opt_age_le(x: Option<u64>, y: Option<u64>) -> bool {
    match (x, y) {
        (Option::None, _) => true,
        (Option::Some(_), Option::None) => false,
        (Option::Some(a), Option::Some(b)) => a <= b,
    }
}

/// The recency of a record: its last commit's epoch stamp.
pub open spec fn recency_key(w: Worktree) -> Option<u64> {
    w.last_commit_epoch
}

/// Order between two non-bare records under the given mode: by folded name,
/// by descending recency with unknown recency oldest, or by status severity.
pub open spec fn key_le(mode: SortMode, a: Worktree, b: Worktree) -> bool {
    match mode {
        SortMode::Name => lex_le(name_key(a), name_key(b)),
        SortMode::Recent => opt_age_le(recency_key(b), recency_key(a)),
        SortMode::Status => a.status.spec_severity() <= b.status.spec_severity(),
    }
}

/// The list order: the bare root before everything else, the rest by the
/// mode's key.
pub open spec fn wt_le(mode: SortMode, a: Worktree, b: Worktree) -> bool {
    if a.is_bare != b.is_bare {
        a.is_bare
    } else {
        key_le(mode, a, b)
    }
}

/// Strictly before: ordered one way and not the other.
pub open spec fn wt_lt(mode: SortMode, a: Worktree, b: Worktree) -> bool {
    wt_le(mode, a, b) && !wt_le(mode, b, a)
}

/// Any two records are comparable.
pub proof fn lemma_wt_le_total(mode: SortMode, a: Worktree, b: Worktree)
    ensures
        wt_le(mode, a, b) || wt_le(mode, b, a),
{
    if a.is_bare == b.is_bare {
        match mode {
            SortMode::Name => lemma_lex_le_total(name_key(a), name_key(b)),
            SortMode::Recent => {},
            SortMode::Status => {},
        }
    }
}

/// The record order is transitive.
pub proof fn lemma_wt_le_trans(mode: SortMode, a: Worktree, b: Worktree, c: Worktree)
    requires
        wt_le(mode, a, b),
        wt_le(mode, b, c),
    ensures
        wt_le(mode, a, c),
{
    if a.is_bare == b.is_bare && b.is_bare == c.is_bare {
        match mode {
            SortMode::Name => lemma_lex_le_trans(name_key(a), name_key(b), name_key(c)),
            SortMode::Recent => {},
            SortMode::Status => {},
        }
    }
}

/// Whether the list is ordered under the mode.
pub open spec fn sorted_by(mode: SortMode, s: Seq<Worktree>) -> bool {
    forall|i: int, j: int| 0 <= i < j < s.len() ==> wt_le(mode, #[trigger] s[i], #[trigger] s[j])
}

/// `x` placed into `l` after every element strictly before it; among equals
/// it comes first, which keeps the sort stable.
pub open spec fn insert_le(mode: SortMode, x: Worktree, l: Seq<Worktree>) -> Seq<Worktree>
    decreases l.len(),
{
    if l.len() == 0 {
        seq![x]
    } else if wt_lt(mode, l.first(), x) {
        seq![l.first()] + insert_le(mode, x, l.drop_first())
    } else {
        seq![x] + l
    }
}

/// The list sorted under the mode: each element inserted, back to front,
/// into the sorted rest.
pub open spec fn sort_spec(mode: SortMode, l: Seq<Worktree>) -> Seq<Worktree>
    decreases l.len(),
{
    if l.len() == 0 {
        l
    } else {
        insert_le(mode, l.first(), sort_spec(mode, l.drop_first()))
    }
}

/// Every element of an insertion is the new element or one of the old.
proof fn lemma_insert_le_elems(mode: SortMode, x: Worktree, l: Seq<Worktree>)
    ensures
        insert_le(mode, x, l).len() == l.len() + 1,
        forall|i: int|
            0 <= i < insert_le(mode, x, l).len() ==> insert_le(mode, x, l)[i] == x || l.contains(
                #[trigger] insert_le(mode, x, l)[i],
            ),
    decreases l.len(),
{
    if l.len() > 0 && wt_lt(mode, l.first(), x) {
        lemma_insert_le_elems(mode, x, l.drop_first());
        let r = insert_le(mode, x, l);
        let r1 = insert_le(mode, x, l.drop_first());
        assert forall|i: int| 0 <= i < r.len() implies r[i] == x || l.contains(#[trigger] r[i]) by {
            if i == 0 {
                assert(l[0] == r[i]);
            } else {
                assert(r[i] == r1[i - 1]);
                if r1[i - 1] != x {
                    let j = choose|j: int|
                        0 <= j < l.drop_first().len() && l.drop_first()[j] == r1[i - 1];
                    assert(l[j + 1] == r1[i - 1]);
                }
            }
        }
    }
}

/// Inserting into an ordered list keeps it ordered.
proof fn lemma_insert_le_sorted(mode: SortMode, x: Worktree, l: Seq<Worktree>)
    requires
        sorted_by(mode, l),
    ensures
        sorted_by(mode, insert_le(mode, x, l)),
    decreases l.len(),
{
    let r = insert_le(mode, x, l);
    if l.len() == 0 {
    } else if wt_lt(mode, l.first(), x) {
        let t = l.drop_first();
        assert(sorted_by(mode, t)) by {
            assert forall|i: int, j: int| 0 <= i < j < t.len() implies wt_le(
                mode,
                #[trigger] t[i],
                #[trigger] t[j],
            ) by {
                assert(t[i] == l[i + 1] && t[j] == l[j + 1]);
            }
        }
        lemma_insert_le_sorted(mode, x, t);
        lemma_insert_le_elems(mode, x, t);
        let r1 = insert_le(mode, x, t);
        assert forall|i: int, j: int| 0 <= i < j < r.len() implies wt_le(
            mode,
            #[trigger] r[i],
            #[trigger] r[j],
        ) by {
            if i == 0 {
                assert(r[j] == r1[j - 1]);
                if r1[j - 1] == x {
                    assert(wt_le(mode, l.first(), x));
                } else {
                    let k = choose|k: int| 0 <= k < t.len() && t[k] == r1[j - 1];
                    assert(t[k] == l[k + 1]);
                    assert(wt_le(mode, l[0], l[k + 1]));
                }
            } else {
                assert(r[i] == r1[i - 1] && r[j] == r1[j - 1]);
            }
        }
    } else {
        lemma_wt_le_total(mode, l.first(), x);
        assert(wt_le(mode, x, l.first()));
        assert forall|i: int, j: int| 0 <= i < j < r.len() implies wt_le(
            mode,
            #[trigger] r[i],
            #[trigger] r[j],
        ) by {
            if i == 0 {
                assert(r[j] == l[j - 1]);
                if j == 1 {
                } else {
                    assert(wt_le(mode, l[0], l[j - 1]));
                    lemma_wt_le_trans(mode, x, l[0], l[j - 1]);
                }
            } else {
                assert(r[i] == l[i - 1] && r[j] == l[j - 1]);
            }
        }
    }
}

/// Insertion adds exactly the new element to the list's contents.
proof fn lemma_insert_le_multiset(mode: SortMode, x: Worktree, l: Seq<Worktree>)
    ensures
        insert_le(mode, x, l).to_multiset() == l.to_multiset().insert(x),
    decreases l.len(),
{
    broadcast use vstd::seq_lib::lemma_multiset_commutative;

    if l.len() == 0 {
        assert(insert_le(mode, x, l) =~= seq![x]);
        assert(seq![x].to_multiset() =~= l.to_multiset().insert(x)) by {
            assert(seq![x].drop_first() =~= Seq::<Worktree>::empty());
        }
    } else if wt_lt(mode, l.first(), x) {
        lemma_insert_le_multiset(mode, x, l.drop_first());
        let r1 = insert_le(mode, x, l.drop_first());
        assert((seq![l.first()] + r1).to_multiset() =~= seq![l.first()].to_multiset().add(
            r1.to_multiset(),
        ));
        assert((seq![l.first()] + l.drop_first()).to_multiset() =~= seq![
            l.first(),
        ].to_multiset().add(l.drop_first().to_multiset()));
        assert(seq![l.first()] + l.drop_first() =~= l);
        assert(insert_le(mode, x, l).to_multiset() =~= l.to_multiset().insert(x));
    } else {
        assert((seq![x] + l).to_multiset() =~= seq![x].to_multiset().add(l.to_multiset()));
        assert(seq![x].to_multiset() =~= Multiset::<Worktree>::empty().insert(x)) by {
            assert(seq![x].drop_first() =~= Seq::<Worktree>::empty());
        }
        assert(insert_le(mode, x, l).to_multiset() =~= l.to_multiset().insert(x));
    }
}

/// Sorting orders the list and keeps exactly its records.
pub proof fn lemma_sort_spec_ensures(mode: SortMode, l: Seq<Worktree>)
    ensures
        sorted_by(mode, sort_spec(mode, l)),
        sort_spec(mode, l).to_multiset() == l.to_multiset(),
        sort_spec(mode, l).len() == l.len(),
    decreases l.len(),
{
    if l.len() > 0 {
        lemma_sort_spec_ensures(mode, l.drop_first());
        let st = sort_spec(mode, l.drop_first());
        lemma_insert_le_sorted(mode, l.first(), st);
        lemma_insert_le_multiset(mode, l.first(), st);
        lemma_insert_le_elems(mode, l.first(), st);
        assert(l.to_multiset() =~= l.drop_first().to_multiset().insert(l.first())) by {
            assert(seq![l.first()] + l.drop_first() =~= l);
            broadcast use vstd::seq_lib::lemma_multiset_commutative;

            assert(seq![l.first()].to_multiset() =~= Multiset::<Worktree>::empty().insert(
                l.first(),
            )) by {
                assert(seq![l.first()].drop_first() =~= Seq::<Worktree>::empty());
            }
        }
    }
}

/// Sorting an already ordered list changes nothing: among equal keys the
/// earlier record stays earlier.
pub proof fn lemma_sort_of_sorted_id(mode: SortMode, l: Seq<Worktree>)
    requires
        sorted_by(mode, l),
    ensures
        sort_spec(mode, l) == l,
    decreases l.len(),
{
    if l.len() > 0 {
        let t = l.drop_first();
        assert(sorted_by(mode, t)) by {
            assert forall|i: int, j: int| 0 <= i < j < t.len() implies wt_le(
                mode,
                #[trigger] t[i],
                #[trigger] t[j],
            ) by {
                assert(t[i] == l[i + 1] && t[j] == l[j + 1]);
            }
        }
        lemma_sort_of_sorted_id(mode, t);
        if t.len() > 0 {
            assert(wt_le(mode, l[0], l[1]));
            assert(t.first() == l[1]);
            assert(!wt_lt(mode, t.first(), l.first()));
        }
        assert(sort_spec(mode, l) =~= l);
    }
}

/// Sorting is idempotent, in every mode and for any arrangement of the
/// records: a second sort returns the first sort's list unchanged.
pub proof fn lemma_sort_idempotent(mode: SortMode, l: Seq<Worktree>)
    ensures
        sort_spec(mode, sort_spec(mode, l)) == sort_spec(mode, l),
{
    lemma_sort_spec_ensures(mode, l);
    lemma_sort_of_sorted_id(mode, sort_spec(mode, l));
}

/// Whenever a bare record is present — in any arrangement — the sorted
/// list starts with a bare record.
pub proof fn lemma_sort_bare_first(mode: SortMode, l: Seq<Worktree>)
    requires
        exists|i: int| 0 <= i < l.len() && (#[trigger] l[i]).is_bare,
    ensures
        sort_spec(mode, l).len() == l.len(),
        sort_spec(mode, l)[0].is_bare,
{
    lemma_sort_spec_ensures(mode, l);
    let s = sort_spec(mode, l);
    let i = choose|i: int| 0 <= i < l.len() && (#[trigger] l[i]).is_bare;
    let x = l[i];
    assert(l.contains(x));
    assert(l.to_multiset().count(x) > 0);
    assert(s.to_multiset().count(x) > 0);
    assert(s.contains(x));
    let k = choose|k: int| 0 <= k < s.len() && s[k] == x;
    if !s[0].is_bare {
        if k > 0 {
            assert(wt_le(mode, s[0], s[k]));
            assert(false);
        }
    }
}

/// Where insertion has walked past a strictly-smaller prefix, the prefix
/// stands unchanged before the insertion into the rest.
proof fn lemma_insert_le_split(mode: SortMode, x: Worktree, l: Seq<Worktree>, j: int)
    requires
        0 <= j <= l.len(),
        forall|k: int| 0 <= k < j ==> wt_lt(mode, #[trigger] l[k], x),
    ensures
        insert_le(mode, x, l) == l.subrange(0, j) + insert_le(mode, x, l.skip(j)),
    decreases j,
{
    if j == 0 {
        assert(l.skip(0) =~= l);
        assert(l.subrange(0, 0) + insert_le(mode, x, l) =~= insert_le(mode, x, l));
    } else {
        assert(wt_lt(mode, l[0], x));
        lemma_insert_le_split(mode, x, l.drop_first(), j - 1);
        assert(l.drop_first().subrange(0, j - 1) =~= l.subrange(1, j));
        assert(l.drop_first().skip(j - 1) =~= l.skip(j));
        assert(seq![l.first()] + (l.subrange(1, j) + insert_le(mode, x, l.skip(j))) =~= l.subrange(
            0,
            j,
        ) + insert_le(mode, x, l.skip(j)));
    }
}

/// Comparison of two records under the mode.
pub fn wt_le_exec(mode: SortMode, a: &Worktree, b: &Worktree) -> (r: bool)
    ensures
        r == wt_le(mode, *a, *b),
{
    if a.is_bare != b.is_bare {
        return a.is_bare;
    }
    match mode {
        SortMode::Name => {
            let an = fold_lower(a.display_name().as_str());
            let bn = fold_lower(b.display_name().as_str());
            let ak = chars_of(an.as_str());
            let bk = chars_of(bn.as_str());
            lex_le_chars(&ak, &bk)
        },
        SortMode::Recent => {
            match (&b.last_commit_epoch, &a.last_commit_epoch) {
                (Option::None, _) => true,
                (Option::Some(_), Option::None) => false,
                (Option::Some(x), Option::Some(y)) => *x <= *y,
            }
        },
        SortMode::Status => a.status.severity() <= b.status.severity(),
    }
}

/// Places one record at its position in an ordered list.
fn insert_sorted(mode: SortMode, acc: &mut Vec<Worktree>, x: Worktree)
    ensures
        final(acc)@ == insert_le(mode, x, old(acc)@),
{
    let mut j: usize = 0;
    loop
        invariant
            j <= acc@.len(),
            acc@ == old(acc)@,
            forall|k: int| 0 <= k < j ==> wt_lt(mode, #[trigger] acc@[k], x),
        ensures
            j <= acc@.len(),
            acc@ == old(acc)@,
            forall|k: int| 0 <= k < j ==> wt_lt(mode, #[trigger] acc@[k], x),
            j == acc@.len() || !wt_lt(mode, acc@[j as int], x),
        decreases acc@.len() - j,
    {
        if j == acc.len() {
            break;
        }
        let goes_after = wt_le_exec(mode, &acc[j], &x);
        let goes_before = wt_le_exec(mode, &x, &acc[j]);
        if !(goes_after && !goes_before) {
            break;
        }
        j = j + 1;
    }
    proof {
        lemma_insert_le_split(mode, x, acc@, j as int);
        if j < acc@.len() {
            assert(acc@.skip(j as int).first() == acc@[j as int]);
            assert(insert_le(mode, x, acc@.skip(j as int)) == seq![x] + acc@.skip(j as int));
        } else {
            assert(acc@.skip(j as int) =~= Seq::<Worktree>::empty());
        }
    }
    let ghost acc0 = acc@;
    acc.insert(j, x);
    proof {
        assert(acc@ =~= acc0.subrange(0, j as int) + (seq![x] + acc0.skip(j as int)));
    }
}

/// Sorts the records under the mode: stable insertion sort.
pub fn sort_worktrees(mode: SortMode, v: Vec<Worktree>) -> (r: Vec<Worktree>)
    ensures
        r@ == sort_spec(mode, v@),
        sorted_by(mode, r@),
        r@.to_multiset() == v@.to_multiset(),
        r@.len() == v@.len(),
{
    let ghost v0 = v@;
    let mut rest = v;
    let mut acc: Vec<Worktree> = Vec::new();
    proof {
        assert(v0.skip(v0.len() as int) =~= Seq::<Worktree>::empty());
    }
    while rest.len() > 0
        invariant
            rest@.len() <= v0.len(),
            rest@ == v0.subrange(0, rest@.len() as int),
            acc@ == sort_spec(mode, v0.skip(rest@.len() as int)),
        decreases rest@.len(),
    {
        let ghost n = rest@.len();
        let x = rest.pop().unwrap();
        proof {
            assert(x == v0[n - 1]);
            assert(rest@ =~= v0.subrange(0, n - 1));
            assert(v0.skip(n - 1).first() == v0[n - 1]);
            assert(v0.skip(n - 1).drop_first() =~= v0.skip(n as int));
        }
        insert_sorted(mode, &mut acc, x);
    }
    proof {
        assert(v0.skip(0) =~= v0);
        lemma_sort_spec_ensures(mode, v0);
    }
    acc
}

} // verus!
