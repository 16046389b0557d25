//! Lists ordered by falling rank: the stable ordering that combat uses for
//! initiative and the list of saves for age.
use vstd::prelude::*;

verus! {

/// An entry that has a rank.
pub trait Ranked {
    spec fn rank(&self) -> int;
}

/// `c` placed into a list that is ordered by falling rank: behind every entry
/// whose rank is at least its own.
pub open spec fn insert_by_rank<T: Ranked>(s: Seq<T>, c: T) -> Seq<T>
    decreases s.len(),
{
    if s.len() == 0 {
        seq![c]
    } else if s.last().rank() >= c.rank() {
        s.push(c)
    } else {
        insert_by_rank(s.drop_last(), c).push(s.last())
    }
}

/// The entries ordered by falling rank, those of equal rank in the order in
/// which they were listed.
pub open spec fn sort_by_rank<T: Ranked>(s: Seq<T>) -> Seq<T>
    decreases s.len(),
{
    if s.len() == 0 {
        s
    } else {
        insert_by_rank(sort_by_rank(s.drop_last()), s.last())
    }
}

/// The rank never rises along the list.
pub open spec fn falling_rank<T: Ranked>(s: Seq<T>) -> bool {
    forall|i: int, j: int| 0 <= i <= j < s.len() ==> s[i].rank() >= s[j].rank()
}

/// Placing `c` at index `k` is the ordered insertion when every entry from `k`
/// on has a lower rank and the entry before `k` has not.
pub proof fn lemma_insert_at<T: Ranked>(s: Seq<T>, c: T, k: int)
    requires
        0 <= k <= s.len(),
        forall|j: int| k <= j < s.len() ==> s[j].rank() < c.rank(),
        k > 0 ==> s[k - 1].rank() >= c.rank(),
    ensures
        insert_by_rank(s, c) == s.insert(k, c),
    decreases s.len() - k,
{
    if s.len() == 0 {
        assert(s.insert(k, c) =~= seq![c]);
    } else if k == s.len() {
        assert(s.insert(k, c) =~= s.push(c));
    } else {
        lemma_insert_at(s.drop_last(), c, k);
        assert(s.insert(k, c) =~= s.drop_last().insert(k, c).push(s.last()));
    }
}

/// Ordered insertion adds one entry and keeps the order.
pub proof fn lemma_insert_keeps_order<T: Ranked>(s: Seq<T>, c: T)
    requires
        falling_rank(s),
    ensures
        falling_rank(insert_by_rank(s, c)),
        insert_by_rank(s, c).len() == s.len() + 1,
        insert_by_rank(s, c).to_multiset() == s.to_multiset().insert(c),
    decreases s.len(),
{
    broadcast use vstd::seq_lib::group_to_multiset_ensures;

    let r = insert_by_rank(s, c);
    if s.len() == 0 {
        assert(s =~= Seq::empty());
        assert(r =~= Seq::empty().push(c));
    } else if s.last().rank() >= c.rank() {
    } else {
        let head = s.drop_last();
        lemma_insert_keeps_order(head, c);
        let inner = insert_by_rank(head, c);
        assert(s =~= head.push(s.last()));
        assert forall|i: int, j: int| 0 <= i <= j < r.len() implies r[i].rank()
            >= r[j].rank() by {
            if j == r.len() - 1 && i < j {
                assert(inner.to_multiset().count(inner[i]) > 0);
                if inner[i] != c {
                    assert(head.to_multiset().count(inner[i]) > 0);
                    assert(head.contains(inner[i]));
                    let k = choose|k: int| 0 <= k < head.len() && head[k] == inner[i];
                    assert(s[k].rank() >= s[s.len() - 1].rank());
                }
            }
        }
        assert(inner.push(s.last()).to_multiset() =~= head.to_multiset().insert(c).insert(
            s.last(),
        ));
        assert(s.to_multiset() =~= head.to_multiset().insert(s.last()));
    }
}

/// Sorting keeps every entry, as often as it was listed, and orders them by
/// falling rank.
pub proof fn lemma_sort_by_rank<T: Ranked>(s: Seq<T>)
    ensures
        falling_rank(sort_by_rank(s)),
        sort_by_rank(s).len() == s.len(),
        sort_by_rank(s).to_multiset() == s.to_multiset(),
    decreases s.len(),
{
    broadcast use vstd::seq_lib::group_to_multiset_ensures;

    if s.len() > 0 {
        lemma_sort_by_rank(s.drop_last());
        lemma_insert_keeps_order(sort_by_rank(s.drop_last()), s.last());
        assert(s =~= s.drop_last().push(s.last()));
    }
}

} // verus!
