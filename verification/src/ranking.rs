//! Top-K ranking: the K largest readings in descending order, equal readings
//! in the order in which the provider listed them.

use vstd::prelude::*;
use vstd::seq_lib::seq_to_set_is_finite;
use vstd::set_lib::{lemma_int_range, lemma_len_subset, set_int_range};

verus! {

/// Position `a` comes before position `b` in a ranking of `keys`: its reading
/// is larger, or the readings are equal and `a` was listed first.
pub open spec fn outranks(keys: Seq<u64>, a: int, b: int) -> bool {
    keys[a] > keys[b] || (keys[a] == keys[b] && a < b)
}

/// Position `m` is one of the entries of `order`.
pub open spec fn lists(order: Seq<usize>, m: int) -> bool {
    exists|j: int| 0 <= j < order.len() && order[j] == m
}

/// `order` lists positions of `keys`, each before every later one and before
/// every position that is left out.
pub open spec fn is_ranked_prefix(keys: Seq<u64>, order: Seq<usize>) -> bool {
    &&& forall|i: int| 0 <= i < order.len() ==> (#[trigger] order[i]) < keys.len()
    &&& forall|i: int, j: int|
        #![trigger order[i], order[j]]
        0 <= i < j < order.len() ==> outranks(keys, order[i] as int, order[j] as int)
    &&& forall|i: int, m: int|
        #![trigger order[i], lists(order, m)]
        0 <= i < order.len() && 0 <= m < keys.len() && !lists(order, m) ==> outranks(
            keys,
            order[i] as int,
            m,
        )
}

/// `order` is the top-`k` ranking of `keys`: the positions of the `k` largest
/// readings (all of them when there are fewer), largest first, ties in
/// listing order.
pub open spec fn is_ranking(keys: Seq<u64>, k: nat, order: Seq<usize>) -> bool {
    &&& order.len() == if k <= keys.len() { k } else { keys.len() }
    &&& is_ranked_prefix(keys, order)
}

/// The top-`k` ranking of `keys`.
pub open spec fn ranking_of(keys: Seq<u64>, k: nat) -> Seq<usize> {
    choose|order: Seq<usize>| is_ranking(keys, k, order)
}

/// Position `m` may follow `prev` in a ranking: anything may come first.
pub open spec fn may_follow(keys: Seq<u64>, prev: Option<usize>, m: int) -> bool {
    match prev {
        Some(p) => outranks(keys, p as int, m),
        None => true,
    }
}

/// A list that holds every position below `n` has at least `n` entries.
proof fn lemma_cover_length(order: Seq<usize>, n: nat)
    requires
        forall|m: int| 0 <= m < n ==> lists(order, m),
    ensures
        order.len() >= n,
{
    let ints = order.map_values(|x: usize| x as int);
    let range = set_int_range(0, n as int);
    lemma_int_range(0, n as int);
    seq_to_set_is_finite(ints);
    assert forall|m: int| range.contains(m) implies ints.to_set().contains(m) by {
        assert(lists(order, m));
        let j = choose|j: int| 0 <= j < order.len() && order[j] == m;
        assert(ints[j] == m);
    }
    lemma_len_subset(range, ints.to_set());
    ints.lemma_cardinality_of_set();
}

/// A ranking is determined by the readings and `k`: two rankings of the same
/// readings agree entry by entry.
pub proof fn lemma_ranking_unique(keys: Seq<u64>, k: nat, a: Seq<usize>, b: Seq<usize>)
    requires
        is_ranking(keys, k, a),
        is_ranking(keys, k, b),
    ensures
        a == b,
{
    assert forall|i: int| 0 <= i < a.len() implies a[i] == b[i] by {
        lemma_ranking_agree(keys, a, b, i);
    }
    assert(a =~= b);
}

/// Two equally long ranked prefixes agree up to and including entry `i`.
proof fn lemma_ranking_agree(keys: Seq<u64>, a: Seq<usize>, b: Seq<usize>, i: int)
    requires
        is_ranked_prefix(keys, a),
        is_ranked_prefix(keys, b),
        a.len() == b.len(),
        0 <= i < a.len(),
    ensures
        a[i] == b[i],
    decreases i,
{
    if i > 0 {
        lemma_ranking_agree(keys, a, b, i - 1);
    }
    assert forall|j: int| 0 <= j < i implies a[j] == b[j] by {
        lemma_ranking_agree(keys, a, b, j);
    }
    if a[i] != b[i] {
        lemma_not_before(keys, a, b, i);
        lemma_not_before(keys, b, a, i);
    }
}

/// Where two ranked prefixes agree before entry `i`, the entry of the second
/// does not come before the entry of the first unless they are the same.
proof fn lemma_not_before(keys: Seq<u64>, a: Seq<usize>, b: Seq<usize>, i: int)
    requires
        is_ranked_prefix(keys, a),
        is_ranked_prefix(keys, b),
        a.len() == b.len(),
        0 <= i < a.len(),
        forall|j: int| 0 <= j < i ==> a[j] == b[j],
        a[i] != b[i],
    ensures
        outranks(keys, b[i] as int, a[i] as int),
{
    let x = a[i] as int;
    if lists(b, x) {
        let j = choose|j: int| 0 <= j < b.len() && b[j] == x;
        if j < i {
            assert(a[j] == x);
            assert(outranks(keys, a[j] as int, a[i] as int));
        } else {
            assert(j > i);
            assert(outranks(keys, b[i] as int, b[j] as int));
        }
    } else {
        assert(outranks(keys, b[i] as int, x));
    }
}

/// Readings never increase along a ranking, and positions with equal
/// readings appear in the order in which they were listed.
pub proof fn lemma_ranking_stable(keys: Seq<u64>, k: nat, order: Seq<usize>, i: int, j: int)
    requires
        is_ranking(keys, k, order),
        0 <= i < j < order.len(),
    ensures
        keys[order[i] as int] >= keys[order[j] as int],
        keys[order[i] as int] == keys[order[j] as int] ==> order[i] < order[j],
        order[i] != order[j],
{
    assert(outranks(keys, order[i] as int, order[j] as int));
}

/// The first entry of a ranking is the first position that holds the largest reading.
pub proof fn lemma_ranking_head(keys: Seq<u64>, k: nat, order: Seq<usize>, m: int)
    requires
        is_ranking(keys, k, order),
        k >= 1,
        0 <= m < keys.len(),
    ensures
        order.len() >= 1,
        keys[order[0] as int] >= keys[m],
        m < order[0] ==> keys[order[0] as int] > keys[m],
{
    if lists(order, m) {
        let j = choose|j: int| 0 <= j < order.len() && order[j] == m;
        if j > 0 {
            assert(outranks(keys, order[0] as int, order[j] as int));
        }
    } else {
        assert(outranks(keys, order[0] as int, m));
    }
}

/// The last entry of a list, if it has one.
pub open spec fn last_of(order: Seq<usize>) -> Option<usize> {
    if order.len() == 0 {
        None
    } else {
        Some(order.last())
    }
}

/// Position `b` is next after `prev`: it may follow `prev` and outranks
/// every other position that may.
pub open spec fn is_next(keys: Seq<u64>, prev: Option<usize>, b: int) -> bool {
    &&& 0 <= b < keys.len()
    &&& may_follow(keys, prev, b)
    &&& forall|m: int|
        0 <= m < keys.len() && #[trigger] may_follow(keys, prev, m) && m != b ==> outranks(
            keys,
            b,
            m,
        )
}

/// A ranked prefix stays one when the position that is next after its last
/// entry is put behind it.
proof fn lemma_extend_prefix(keys: Seq<u64>, before: Seq<usize>, b: usize)
    requires
        is_ranked_prefix(keys, before),
        is_next(keys, last_of(before), b as int),
    ensures
        is_ranked_prefix(keys, before.push(b)),
{
    let after = before.push(b);
    let t = before.len() as int;
    let prev = last_of(before);
    assert forall|m: int| !lists(after, m) implies !lists(before, m) by {
        if lists(before, m) {
            let j = choose|j: int| 0 <= j < before.len() && before[j] == m;
            assert(after[j] == m);
        }
    }
    assert forall|i: int, j: int| 0 <= i < j < after.len() implies outranks(
        keys,
        after[i] as int,
        after[j] as int,
    ) by {
        if j == t {
            assert(may_follow(keys, prev, b as int));
            if i < t - 1 {
                assert(outranks(keys, before[i] as int, before[t - 1] as int));
            }
        } else {
            assert(outranks(keys, before[i] as int, before[j] as int));
        }
    }
    assert forall|i: int, m: int|
        0 <= i < after.len() && 0 <= m < keys.len() && !lists(after, m) implies outranks(
        keys,
        after[i] as int,
        m,
    ) by {
        assert(!lists(before, m));
        assert(after[t] == b);
        assert(m != b);
        if i < t {
            assert(outranks(keys, before[i] as int, m));
        } else {
            if t > 0 {
                assert(outranks(keys, before[t - 1] as int, m));
            }
            assert(may_follow(keys, prev, m));
        }
    }
}

/// A ranked prefix that nothing may follow lists every position.
proof fn lemma_nothing_follows(keys: Seq<u64>, order: Seq<usize>)
    requires
        is_ranked_prefix(keys, order),
        forall|m: int| 0 <= m < keys.len() ==> !#[trigger] may_follow(keys, last_of(order), m),
    ensures
        order.len() >= keys.len(),
{
    let t = order.len() as int;
    if t == 0 {
        if keys.len() > 0 {
            assert(may_follow(keys, last_of(order), 0));
        }
    } else {
        assert forall|m: int| 0 <= m < keys.len() implies lists(order, m) by {
            assert(!may_follow(keys, last_of(order), m));
            if !lists(order, m) {
                assert(outranks(keys, order[t - 1] as int, m));
            }
        }
        lemma_cover_length(order, keys.len());
    }
}

/// Among the positions below `bound` that may follow `prev`, the one that
/// outranks the others.
spec fn best_below(keys: Seq<u64>, prev: Option<usize>, bound: int) -> Option<int>
    decreases bound,
{
    if bound <= 0 {
        None
    } else {
        let rest = best_below(keys, prev, bound - 1);
        let m = bound - 1;
        if may_follow(keys, prev, m) {
            match rest {
                Some(b) => if keys[m] > keys[b] {
                    Some(m)
                } else {
                    Some(b)
                },
                None => Some(m),
            }
        } else {
            rest
        }
    }
}

/// `best_below` finds the position that is next among those below `bound`,
/// and finds none only when none of them may follow `prev`.
proof fn lemma_best_below(keys: Seq<u64>, prev: Option<usize>, bound: int)
    requires
        0 <= bound <= keys.len(),
    ensures
        match best_below(keys, prev, bound) {
            Some(b) => 0 <= b < bound && may_follow(keys, prev, b) && forall|m: int|
                0 <= m < bound && #[trigger] may_follow(keys, prev, m) && m != b ==> outranks(
                    keys,
                    b,
                    m,
                ),
            None => forall|m: int| 0 <= m < bound ==> !#[trigger] may_follow(keys, prev, m),
        },
    decreases bound,
{
    if bound > 0 {
        lemma_best_below(keys, prev, bound - 1);
    }
}

/// Readings that a machine can hold have a ranked prefix of every length up
/// to their number.
proof fn lemma_prefix_exists(keys: Seq<u64>, t: nat) -> (order: Seq<usize>)
    requires
        t <= keys.len() <= usize::MAX,
    ensures
        is_ranked_prefix(keys, order),
        order.len() == t,
    decreases t,
{
    if t == 0 {
        Seq::empty()
    } else {
        let before = lemma_prefix_exists(keys, (t - 1) as nat);
        let prev = last_of(before);
        lemma_best_below(keys, prev, keys.len() as int);
        match best_below(keys, prev, keys.len() as int) {
            Some(b) => {
                lemma_extend_prefix(keys, before, b as usize);
                before.push(b as usize)
            },
            None => {
                lemma_nothing_follows(keys, before);
                before
            },
        }
    }
}

/// Every list of readings that a machine can hold has a top-`k` ranking, so
/// `ranking_of` names it.
pub proof fn lemma_ranking_exists(keys: Seq<u64>, k: nat)
    requires
        keys.len() <= usize::MAX,
    ensures
        is_ranking(keys, k, ranking_of(keys, k)),
{
    let t: nat = if k <= keys.len() {
        k
    } else {
        keys.len()
    };
    let order = lemma_prefix_exists(keys, t);
    assert(is_ranking(keys, k, order));
}

/// The position that comes next after `prev`: the first largest reading among
/// those that `prev` outranks, or among all when nothing is ranked yet.
fn best_after(keys: &Vec<u64>, prev: Option<usize>) -> (best: Option<usize>)
    requires
        prev matches Some(p) ==> p < keys.len(),
    ensures
        match best {
            Some(b) => is_next(keys@, prev, b as int),
            None => forall|m: int| 0 <= m < keys.len() ==> !#[trigger] may_follow(keys@, prev, m),
        },
{
    let n: usize = keys.len();
    let mut best: Option<usize> = None;
    let mut m: usize = 0;
    while m < n
        invariant
            n == keys.len(),
            m <= n,
            prev matches Some(p) ==> p < n,
            match best {
                Some(b) => b < m && may_follow(keys@, prev, b as int) && forall|j: int|
                    0 <= j < m && #[trigger] may_follow(keys@, prev, j) && j != b ==> outranks(
                        keys@,
                        b as int,
                        j,
                    ),
                None => forall|j: int| 0 <= j < m ==> !#[trigger] may_follow(keys@, prev, j),
            },
        decreases n - m,
    {
        let follows: bool = match prev {
            Some(p) => keys[p] > keys[m] || (keys[p] == keys[m] && p < m),
            None => true,
        };
        if follows {
            match best {
                Some(b) => {
                    if keys[m] > keys[b] {
                        best = Some(m);
                    }
                },
                None => {
                    best = Some(m);
                },
            }
        }
        m = m + 1;
    }
    best
}

/// Ranks the readings: the positions of the `k` largest, largest first, equal
/// readings in listing order.
pub fn rank_top(keys: &Vec<u64>, k: usize) -> (order: Vec<usize>)
    ensures
        is_ranking(keys@, k as nat, order@),
        order@ == ranking_of(keys@, k as nat),
{
    let n: usize = keys.len();
    let mut order: Vec<usize> = Vec::new();
    while order.len() < k && order.len() < n
        invariant
            n == keys.len(),
            order.len() <= k,
            order.len() <= n,
            is_ranked_prefix(keys@, order@),
        decreases n - order.len(),
    {
        let t: usize = order.len();
        let prev: Option<usize> = if t == 0 {
            None
        } else {
            Some(order[t - 1])
        };
        let best: Option<usize> = best_after(keys, prev);
        match best {
            Some(b) => {
                proof {
                    lemma_extend_prefix(keys@, order@, b);
                }
                order.push(b);
            },
            None => {
                // Nothing may follow only once every position is listed,
                // and then the loop has ended.
                proof {
                    lemma_nothing_follows(keys@, order@);
                }
                return order;
            },
        }
    }
    proof {
        assert(is_ranking(keys@, k as nat, order@));
        lemma_ranking_unique(keys@, k as nat, order@, ranking_of(keys@, k as nat));
    }
    order
}

} // verus!
