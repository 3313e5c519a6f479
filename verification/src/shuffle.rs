//! Seeded deterministic per-epoch sample order.
//!
//! The order fed to the batcher each epoch is a Fisher-Yates shuffle driven
//! by a linear congruential generator keyed on the run seed and the epoch.
//! The whole computation is a pure function of `(seed, epoch, n)`, so two
//! runs with the same seed walk the samples in the same order.

use vstd::prelude::*;
use vstd::seq_lib::group_to_multiset_ensures;

verus! {

pub const LCG_MUL: u64 = 6364136223846793005;

pub const LCG_ADD: u64 = 1442695040888963407;

pub const TWO_64: u128 = 0x10000000000000000;

/// One step of the linear congruential generator, modulo 2^64.
pub open spec fn lcg_next(s: u64) -> u64 {
    (((s as int) * (LCG_MUL as int) + (LCG_ADD as int)) % (TWO_64 as int)) as u64
}

/// The identity order over `n` samples.
pub open spec fn identity_order(n: nat) -> Seq<usize> {
    Seq::new(n, |i: int| i as usize)
}

/// Fisher-Yates from position `i` downwards: draw, swap, recurse.
pub open spec fn fisher_yates(v: Seq<usize>, s: u64, i: nat) -> Seq<usize>
    recommends
        i <= v.len(),
    decreases i,
{
    if i <= 1 {
        v
    } else {
        let s2 = lcg_next(s);
        let j = (s2 as int) % (i as int);
        let a = v[i - 1];
        let b = v[j];
        fisher_yates(v.update(i - 1, b).update(j, a), s2, (i - 1) as nat)
    }
}

/// The sample order of one epoch: a pure function of seed, epoch and length.
pub open spec fn epoch_order_spec(seed: u64, epoch: u64, n: nat) -> Seq<usize> {
    fisher_yates(identity_order(n), seed ^ epoch, n)
}

/// Updating position `i` exchanges one occurrence of the old element for the
/// new one in the sequence's multiset.
proof fn lemma_update_to_multiset<A>(s: Seq<A>, i: int, a: A)
    requires
        0 <= i < s.len(),
    ensures
        s.update(i, a).to_multiset() == s.to_multiset().remove(s[i]).insert(a),
{
    broadcast use group_to_multiset_ensures;

    let u = s.update(i, a);
    assert(u.remove(i) =~= s.remove(i));
    assert(u.remove(i).to_multiset() == u.to_multiset().remove(a));
    assert(s.remove(i).to_multiset() == s.to_multiset().remove(s[i]));
    assert(u.to_multiset().contains(a)) by {
        assert(u[i] == a);
        assert(u.contains(a));
    }
    assert(u.to_multiset() =~= s.to_multiset().remove(s[i]).insert(a)) by {
        assert(u.to_multiset().remove(a).insert(a) =~= u.to_multiset());
    }
}

/// Swapping two positions leaves the sequence's multiset unchanged.
proof fn lemma_swap_to_multiset<A>(v: Seq<A>, x: int, y: int)
    requires
        0 <= x < v.len(),
        0 <= y < v.len(),
    ensures
        v.update(x, v[y]).update(y, v[x]).to_multiset() == v.to_multiset(),
{
    broadcast use group_to_multiset_ensures;

    if x == y {
        assert(v.update(x, v[y]).update(y, v[x]) =~= v);
    } else {
        let u = v.update(x, v[y]);
        let w = u.update(y, v[x]);
        lemma_update_to_multiset(v, x, v[y]);
        lemma_update_to_multiset(u, y, v[x]);
        assert(u[y] == v[y]);
        assert(v.to_multiset().contains(v[x])) by {
            assert(v.contains(v[x]));
        }
        assert(w.to_multiset() =~= v.to_multiset());
    }
}

/// One step of the generator, exactly the spec's arithmetic.
fn lcg_step(s: u64) -> (r: u64)
    ensures
        r == lcg_next(s),
{
    proof {
        assert((s as int) * (LCG_MUL as int) + (LCG_ADD as int) < u128::MAX as int)
            by (nonlinear_arith)
            requires
                0 <= s as int <= u64::MAX as int,
        ;
    }
    let wide: u128 = (s as u128) * (LCG_MUL as u128) + (LCG_ADD as u128);
    (wide % TWO_64) as u64
}

/// The order in which one epoch visits the dataset. The result is pinned to
/// a pure function of `(seed, epoch, n)`: with a fixed seed, two independent
/// runs shuffle every epoch identically. The result is a permutation of
/// `0 .. n`.
pub fn epoch_order(seed: u64, epoch: u64, n: usize) -> (order: Vec<usize>)
    ensures
        order@ == epoch_order_spec(seed, epoch, n as nat),
        order@.len() == n,
        forall|k: int| 0 <= k < n ==> (#[trigger] order@[k]) < n,
        order@.to_multiset() == identity_order(n as nat).to_multiset(),
{
    let mut order: Vec<usize> = Vec::new();
    let mut k: usize = 0;
    while k < n
        invariant
            k <= n,
            order@ == identity_order(k as nat),
        decreases n - k,
    {
        proof {
            assert(identity_order((k + 1) as nat) =~= identity_order(k as nat).push(k));
        }
        order.push(k);
        k = k + 1;
    }
    let mut s: u64 = seed ^ epoch;
    let mut i: usize = n;
    while i > 1
        invariant
            i <= n,
            order@.len() == n,
            fisher_yates(order@, s, i as nat) == epoch_order_spec(seed, epoch, n as nat),
            forall|k: int| 0 <= k < n ==> (#[trigger] order@[k]) < n,
            order@.to_multiset() == identity_order(n as nat).to_multiset(),
        decreases i,
    {
        s = lcg_step(s);
        let j: usize = (s % (i as u64)) as usize;
        let ghost before = order@;
        let a = order[i - 1];
        let b = order[j];
        order[i - 1] = b;
        order[j] = a;
        proof {
            assert(order@ =~= before.update(i - 1, b).update(j as int, a));
            lemma_swap_to_multiset(before, i - 1, j as int);
        }
        i = i - 1;
    }
    order
}

} // verus!
