//! The computations a rendering layer makes over the typed replies: totals,
//! ordering, and matching addresses to coin types.  The rendering itself —
//! widgets, layout — stays with the owning application; everything it
//! computes from reply data stands here, with contracts.

use vstd::prelude::*;
use vstd::seq_lib::group_to_multiset_ensures;
use vstd::multiset::Multiset;
use crate::methods::CoinBalInfo;

verus! {

/// One coin type's funds: channel total plus output total, in satoshi.
pub fn grand_total(b: &CoinBalInfo) -> (r: i64)
    requires
        i64::MIN <= b.ChanTotal + b.TxoTotal <= i64::MAX,
    ensures
        r == b.ChanTotal + b.TxoTotal,
{
    b.ChanTotal + b.TxoTotal
}

/// The balance list reordered ascending by coin type: a permutation of the
/// input, sorted on the `CoinType` field.
pub fn sort_bals_by_cointype(v: Vec<CoinBalInfo>) -> (r: Vec<CoinBalInfo>)
    ensures
        r@.len() == v@.len(),
        forall|i: int, j: int|
            0 <= i < j < r@.len() ==> (#[trigger] r@[i]).CoinType <= (#[trigger] r@[j]).CoinType,
        r@.to_multiset() == v@.to_multiset(),
{
    broadcast use group_to_multiset_ensures;

    let mut rest = v;
    let mut out: Vec<CoinBalInfo> = Vec::new();
    while rest.len() > 0
        invariant
            out@.len() + rest@.len() == v@.len(),
            out@.to_multiset().add(rest@.to_multiset()) == v@.to_multiset(),
            forall|i: int, j: int|
                0 <= i < j < out@.len() ==> (#[trigger] out@[i]).CoinType <= (
                #[trigger] out@[j]).CoinType,
            forall|i: int, j: int|
                0 <= i < out@.len() && 0 <= j < rest@.len() ==> (#[trigger] out@[i]).CoinType <= (
                #[trigger] rest@[j]).CoinType,
        decreases rest@.len(),
    {
        let mut m: usize = 0;
        let mut k: usize = 1;
        while k < rest.len()
            invariant
                m < k <= rest@.len() || (k <= rest@.len() && m < rest@.len()),
                m < rest@.len(),
                forall|j: int|
                    0 <= j < k && j < rest@.len() ==> rest@[m as int].CoinType <= (
                    #[trigger] rest@[j]).CoinType,
            decreases rest@.len() - k,
        {
            if rest[k].CoinType < rest[m].CoinType {
                m = k;
            }
            k = k + 1;
        }
        let x = rest.remove(m);
        proof {
            broadcast use group_to_multiset_ensures;

            assert(out@.push(x).to_multiset() =~= out@.to_multiset().insert(x));
        }
        out.push(x);
        proof {
            assert(out@.to_multiset().add(rest@.to_multiset()) =~= v@.to_multiset());
        }
    }
    proof {
        assert(rest@.to_multiset() =~= Multiset::<CoinBalInfo>::empty());
        assert(out@.to_multiset().add(Multiset::<CoinBalInfo>::empty()) =~= out@.to_multiset());
    }
    out
}

/// Pairs each coin type with the address reported alongside it; the shorter
/// list decides how many pairs there are.
pub fn pair_addrs(types: &Vec<u32>, addrs: &Vec<String>) -> (r: Vec<(u32, String)>)
    ensures
        r@.len() == if types@.len() <= addrs@.len() {
            types@.len()
        } else {
            addrs@.len()
        },
        forall|i: int|
            0 <= i < r@.len() ==> (#[trigger] r@[i]).0 == types@[i] && r@[i].1@ == addrs@[i]@,
{
    let n = if types.len() <= addrs.len() {
        types.len()
    } else {
        addrs.len()
    };
    let mut out: Vec<(u32, String)> = Vec::new();
    let mut i: usize = 0;
    while i < n
        invariant
            i <= n,
            n == if types@.len() <= addrs@.len() {
                types@.len()
            } else {
                addrs@.len()
            },
            out@.len() == i,
            forall|j: int|
                0 <= j < i ==> (#[trigger] out@[j]).0 == types@[j] && out@[j].1@ == addrs@[j]@,
        decreases n - i,
    {
        out.push((types[i], addrs[i].clone()));
        i = i + 1;
    }
    out
}

/// The addresses paired with one coin type, in their original order.
pub open spec fn addrs_of(pairs: Seq<(u32, Seq<char>)>, ct: u32) -> Seq<Seq<char>>
    decreases pairs.len(),
{
    if pairs.len() == 0 {
        Seq::empty()
    } else if pairs.last().0 == ct {
        addrs_of(pairs.drop_last(), ct).push(pairs.last().1)
    } else {
        addrs_of(pairs.drop_last(), ct)
    }
}

/// Picks out the addresses of one coin type, keeping their order.
pub fn addrs_for_cointype(pairs: &Vec<(u32, String)>, ct: u32) -> (r: Vec<String>)
    ensures
        r@.map_values(|s: String| s@) == addrs_of(
            pairs@.map_values(|p: (u32, String)| (p.0, p.1@)),
            ct,
        ),
{
    let ghost model = pairs@.map_values(|p: (u32, String)| (p.0, p.1@));
    let mut out: Vec<String> = Vec::new();
    let mut i: usize = 0;
    while i < pairs.len()
        invariant
            i <= pairs@.len(),
            model == pairs@.map_values(|p: (u32, String)| (p.0, p.1@)),
            out@.map_values(|s: String| s@) == addrs_of(model.subrange(0, i as int), ct),
        decreases pairs@.len() - i,
    {
        proof {
            let pre = model.subrange(0, i as int);
            let post = model.subrange(0, i + 1 as int);
            assert(post.drop_last() =~= pre);
            assert(post.last() == model[i as int]);
        }
        if pairs[i].0 == ct {
            let ghost oldmap = out@.map_values(|s: String| s@);
            out.push(pairs[i].1.clone());
            proof {
                assert(out@.map_values(|s: String| s@) =~= oldmap.push(model[i as int].1));
            }
        }
        i = i + 1;
    }
    proof {
        assert(model.subrange(0, pairs@.len() as int) =~= model);
    }
    out
}

} // verus!
