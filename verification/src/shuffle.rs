//! Shuffle orders: random permutations of track positions.

use vstd::prelude::*;
use rand::seq::SliceRandom;

verus! {

broadcast use vstd::seq_lib::group_to_multiset_ensures, vstd::multiset::group_multiset_axioms;

/// The positions `0, 1, ..., n - 1` in order.
pub open spec fn index_range(n: nat) -> Seq<usize> {
    Seq::new(n, |i: int| i as usize)
}

/// `order` holds each of the positions `0..n` exactly once.
pub open spec fn is_shuffle_of(order: Seq<usize>, n: nat) -> bool {
    order.to_multiset() =~= index_range(n).to_multiset()
}

/// Shuffles a vector of positions in place (rand's `SliceRandom::shuffle`
/// with the thread-local generator `rand::rng()`).
///
/// Trusted: the contract claims only that the result is a rearrangement of
/// the input (rand documents an in-place shuffle); which rearrangement comes
/// out is random and left open.
#[verifier::external_body]
fn shuffle_in_place(v: &mut Vec<usize>)
    ensures
        final(v)@.to_multiset() == old(v)@.to_multiset(),
{
    v.shuffle(&mut rand::rng());
}

proof fn lemma_range_counts(n: nat)
    requires
        n <= usize::MAX + 1,
    ensures
        forall|x: usize| #[trigger] index_range(n).to_multiset().count(x) == if x < n { 1nat } else { 0nat },
{
    let r = index_range(n);
    assert(r.no_duplicates());
    r.lemma_multiset_has_no_duplicates();
    assert forall|x: usize| #[trigger] r.to_multiset().count(x) == if x < n { 1nat } else { 0nat } by {
        if x < n {
            assert(r[x as int] == x);
            assert(r.contains(x));
        } else {
            assert(!r.contains(x));
        }
    }
}

/// What a shuffle order gives: every position below `n` once, nothing else.
pub proof fn lemma_shuffle_facts(order: Seq<usize>, n: nat)
    requires
        is_shuffle_of(order, n),
        n <= usize::MAX + 1,
    ensures
        order.len() == n,
        order.no_duplicates(),
        forall|i: int| 0 <= i < order.len() ==> (#[trigger] order[i]) < n,
        forall|x: usize| x < n ==> #[trigger] order.contains(x),
{
    lemma_range_counts(n);
    assert(order.to_multiset().len() == index_range(n).to_multiset().len());
    assert forall|x: usize| order.to_multiset().contains(x) implies order.to_multiset().count(x) == 1 by {
        assert(order.to_multiset().count(x) == index_range(n).to_multiset().count(x));
    }
    order.lemma_multiset_has_no_duplicates_conv();
    assert forall|i: int| 0 <= i < order.len() implies (#[trigger] order[i]) < n by {
        assert(order.contains(order[i]));
        assert(order.to_multiset().count(order[i]) > 0);
        assert(index_range(n).to_multiset().count(order[i]) > 0);
    }
    assert forall|x: usize| x < n implies #[trigger] order.contains(x) by {
        assert(index_range(n).to_multiset().count(x) == 1);
        assert(order.to_multiset().count(x) > 0);
    }
}

proof fn lemma_swap_multiset(s: Seq<usize>, i: int, j: int)
    requires
        0 <= i < s.len(),
        0 <= j < s.len(),
    ensures
        s.update(i, s[j]).update(j, s[i]).to_multiset() =~= s.to_multiset(),
{
    if i == j {
        assert(s.update(i, s[j]).update(j, s[i]) =~= s);
    } else {
        let s1 = s.update(i, s[j]);
        let m = s.to_multiset();
        assert(s1.to_multiset() == m.insert(s[j]).remove(s[i]));
        assert(s1[j] == s[j]);
        assert(s1.update(j, s[i]).to_multiset() == s1.to_multiset().insert(s[i]).remove(s[j]));
        assert(m.count(s[i]) > 0) by {
            assert(s.contains(s[i]));
        }
        assert forall|x: usize| #[trigger] m.insert(s[j]).remove(s[i]).insert(s[i]).remove(s[j]).count(x)
            == m.count(x) by {}
    }
}

/// Builds a shuffle order of the positions `0..n`, with `current` moved to
/// the front when it is one of them (so playback continues from the
/// current track).
pub fn shuffled_order(n: usize, current: Option<usize>) -> (r: Vec<usize>)
    ensures
        is_shuffle_of(r@, n as nat),
        r@.len() == n,
        current matches Some(c) ==> (c < n ==> r@[0] == c),
{
    let mut v: Vec<usize> = Vec::new();
    let mut i: usize = 0;
    while i < n
        invariant
            i <= n,
            v@ =~= index_range(i as nat),
        decreases n - i,
    {
        v.push(i);
        i = i + 1;
    }
    shuffle_in_place(&mut v);
    proof {
        lemma_shuffle_facts(v@, n as nat);
    }
    if let Some(c) = current {
        let mut pos: usize = 0;
        let len = v.len();
        while pos < len
            invariant
                len == v@.len(),
                pos <= len,
                forall|k: int| 0 <= k < pos ==> v@[k] != c,
            ensures
                pos <= len,
                pos < len ==> v@[pos as int] == c,
                forall|k: int| 0 <= k < pos ==> v@[k] != c,
            decreases len - pos,
        {
            if v[pos] == c {
                break;
            }
            pos = pos + 1;
        }
        if pos < len {
            let first = v[0];
            let found = v[pos];
            proof {
                lemma_swap_multiset(v@, 0, pos as int);
            }
            v.set(0, found);
            v.set(pos, first);
        } else {
            proof {
                if c < n {
                    assert(v@.contains(c));
                }
            }
        }
    }
    proof {
        lemma_shuffle_facts(v@, n as nat);
    }
    v
}

} // verus!
