use vstd::prelude::*;
use vstd::arithmetic::div_mod::lemma_small_mod;
use vstd::seq_lib::group_to_multiset_ensures;

use crate::protocol::track_ids;

verus! {

/// Relies on `rand::random`: a value drawn from the thread-local generator.
/// Nothing is known of the value.
pub assume_specification<T>[ rand::random::<T> ]() -> T
    where
        rand::distributions::Standard: rand::distributions::Distribution<T>,
;

/// `s` with entries `i` and `j` exchanged.
pub open spec fn swapped<A>(s: Seq<A>, i: int, j: int) -> Seq<A> {
    s.update(i, s[j]).update(j, s[i])
}

/// The Fisher–Yates scan from position `i` on: each position in turn is
/// exchanged with the position `draws[i] % (remaining)` places after it.
pub open spec fn fisher_yates<A>(s: Seq<A>, draws: Seq<u32>, i: int) -> Seq<A>
    decreases s.len() - i,
{
    if i < 0 || i >= s.len() || i >= draws.len() {
        s
    } else {
        let j = i + (draws[i] as int) % (s.len() - i);
        fisher_yates(swapped(s, i, j), draws, i + 1)
    }
}

/// At each step of the scan every entry at or after the current position,
/// the last one included, is brought to that position by some draw (for
/// entries within the range of one 32-bit draw).
pub proof fn every_entry_can_be_drawn<A>(s: Seq<A>, i: int, k: int)
    requires
        0 <= i <= k < s.len(),
        k - i <= u32::MAX,
    ensures
        exists|d: u32| #[trigger] swapped(s, i, i + (d as int) % (s.len() - i))[i] == s[k],
{
    let d = (k - i) as u32;
    lemma_small_mod(d as nat, (s.len() - i) as nat);
    assert(swapped(s, i, i + (d as int) % (s.len() - i))[i] == s[k]);
}

/// Swapping two entries keeps the multiset of entries.
proof fn lemma_swap_keeps_multiset<A>(s: Seq<A>, i: int, j: int)
    requires
        0 <= i < s.len(),
        0 <= j < s.len(),
    ensures
        swapped(s, i, j).to_multiset() =~= s.to_multiset(),
{
    broadcast use group_to_multiset_ensures;

    let s1 = s.update(i, s[j]);
    assert(s1[j] == s[j]);
    let m = s.to_multiset();
    assert(s1.update(j, s[i]).to_multiset() == m.insert(s[j]).remove(s[i]).insert(s[i]).remove(
        s[j],
    ));
    assert forall|x: A| #[trigger]
        m.insert(s[j]).remove(s[i]).insert(s[i]).remove(s[j]).count(x) == m.count(x) by {
        assert(m.count(s[i]) > 0) by {
            assert(s.contains(s[i]));
        }
    }
}

/// Exchanges entries `i` and `j` of `v`.
fn swap_entries(v: &mut Vec<String>, i: usize, j: usize)
    requires
        i < old(v)@.len(),
        j < old(v)@.len(),
    ensures
        final(v)@ == swapped(old(v)@, i as int, j as int),
        final(v)@.to_multiset() == old(v)@.to_multiset(),
        track_ids(final(v)@).to_multiset() == track_ids(old(v)@).to_multiset(),
{
    proof {
        lemma_swap_keeps_multiset(v@, i as int, j as int);
        let t = track_ids(v@);
        lemma_swap_keeps_multiset(t, i as int, j as int);
        assert(track_ids(swapped(v@, i as int, j as int)) =~= swapped(t, i as int, j as int));
    }
    let a = v[i].clone();
    let b = v[j].clone();
    v.set(i, b);
    v.set(j, a);
}

/// Permutes `queue` by the Fisher–Yates scan driven by `draws`, one draw per
/// position; a position without a draw stays where it is.
pub fn shuffle_with(queue: Vec<String>, draws: &Vec<u32>) -> (r: Vec<String>)
    ensures
        r@ == fisher_yates(queue@, draws@, 0),
        r@.len() == queue@.len(),
        r@.to_multiset() == queue@.to_multiset(),
        track_ids(r@).to_multiset() == track_ids(queue@).to_multiset(),
{
    let mut shuffle_array = queue;
    let n = shuffle_array.len();
    let mut i: usize = 0;
    while i < n && i < draws.len()
        invariant
            n == shuffle_array@.len(),
            i <= n,
            fisher_yates(shuffle_array@, draws@, i as int) == fisher_yates(queue@, draws@, 0),
            shuffle_array@.to_multiset() == queue@.to_multiset(),
            track_ids(shuffle_array@).to_multiset() == track_ids(queue@).to_multiset(),
        decreases n - i,
    {
        let j: usize = i + (draws[i] as usize) % (n - i);
        swap_entries(&mut shuffle_array, i, j);
        i = i + 1;
    }
    shuffle_array
}

/// A fresh random permutation of `queue`: each position in turn is swapped
/// with a uniformly drawn position at or after it, so that every entry can
/// reach every position.
pub fn shuffle_queue(queue: Vec<String>) -> (r: Vec<String>)
    ensures
        r@.to_multiset() == queue@.to_multiset(),
        r@.len() == queue@.len(),
        track_ids(r@).to_multiset() == track_ids(queue@).to_multiset(),
        exists|draws: Seq<u32>| r@ == fisher_yates(queue@, draws, 0),
{
    let mut draws: Vec<u32> = Vec::new();
    let mut i: usize = 0;
    while i < queue.len()
        invariant
            i <= queue@.len(),
        decreases queue@.len() - i,
    {
        draws.push(rand::random::<u32>());
        i = i + 1;
    }
    let r = shuffle_with(queue, &draws);
    proof {
        assert(r@ == fisher_yates(queue@, draws@, 0));
    }
    r
}

} // verus!
