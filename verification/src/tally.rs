use vstd::prelude::*;

use std::collections::BTreeMap;

use vstd::laws_cmp::obeys_cmp;
use vstd::std_specs::btree::{increasing_seq, spec_btree_map_iter};
use vstd::std_specs::cmp::OrdSpec;
use vstd::std_specs::iter::IteratorSpec;

use crate::types::{exceeds_two_thirds, BlockIdentifier, VotingPower};

verus! {

broadcast use {vstd::std_specs::btree::group_btree_axioms, vstd::laws_cmp::group_laws_cmp};

/// The proposals of a tally appear in strictly increasing order.
pub open spec fn tally_sorted(t: Seq<(BlockIdentifier, VotingPower)>) -> bool {
    forall|i: int, j: int| 0 <= i < j < t.len() ==> t[i].0 < t[j].0
}

/// Power tallied for proposal `k` (0 where it has none).
pub open spec fn tally_amount(t: Seq<(BlockIdentifier, VotingPower)>, k: BlockIdentifier) -> int
    decreases t.len(),
{
    if t.len() == 0 {
        0
    } else if t[0].0 == k {
        t[0].1 as int
    } else {
        tally_amount(t.drop_first(), k)
    }
}

/// Power tallied over all proposals.
pub open spec fn tally_sum(t: Seq<(BlockIdentifier, VotingPower)>) -> int
    decreases t.len(),
{
    if t.len() == 0 {
        0
    } else {
        t[0].1 + tally_sum(t.drop_first())
    }
}

/// The tally after `a` more power has been counted for proposal `k`.
pub open spec fn tally_add(t: Seq<(BlockIdentifier, VotingPower)>, k: BlockIdentifier, a: VotingPower) -> Seq<
    (BlockIdentifier, VotingPower),
>
    decreases t.len(),
{
    if t.len() == 0 {
        seq![(k, a)]
    } else if k < t[0].0 {
        seq![(k, a)] + t
    } else if k == t[0].0 {
        t.update(0, (k, (t[0].1 + a) as u64))
    } else {
        seq![t[0]] + tally_add(t.drop_first(), k, a)
    }
}

/// The first proposal, in the tally's order, with more than two thirds of `total`.
pub open spec fn first_over(t: Seq<(BlockIdentifier, VotingPower)>, total: int) -> Option<BlockIdentifier>
    decreases t.len(),
{
    if t.len() == 0 {
        None
    } else if exceeds_two_thirds(t[0].1 as int, total) {
        Some(t[0].0)
    } else {
        first_over(t.drop_first(), total)
    }
}

/// The last proposal, in the tally's order, with more than two thirds of `total`.
pub open spec fn last_over(t: Seq<(BlockIdentifier, VotingPower)>, total: int) -> Option<BlockIdentifier>
    decreases t.len(),
{
    if t.len() == 0 {
        None
    } else if exceeds_two_thirds(t.last().1 as int, total) {
        Some(t.last().0)
    } else {
        last_over(t.drop_last(), total)
    }
}

pub proof fn lemma_tally_sum_nonneg(t: Seq<(BlockIdentifier, VotingPower)>)
    ensures
        tally_sum(t) >= 0,
    decreases t.len(),
{
    if t.len() > 0 {
        lemma_tally_sum_nonneg(t.drop_first());
    }
}

/// What one proposal has is at most what all have.
pub proof fn lemma_amount_le_sum(t: Seq<(BlockIdentifier, VotingPower)>, k: BlockIdentifier)
    ensures
        0 <= tally_amount(t, k) <= tally_sum(t),
    decreases t.len(),
{
    if t.len() > 0 {
        lemma_amount_le_sum(t.drop_first(), k);
        lemma_tally_sum_nonneg(t.drop_first());
    }
}

/// In a sorted tally, an entry's power is the proposal's amount.
pub proof fn lemma_amount_at(t: Seq<(BlockIdentifier, VotingPower)>, i: int)
    requires
        tally_sorted(t),
        0 <= i < t.len(),
    ensures
        tally_amount(t, t[i].0) == t[i].1,
    decreases i,
{
    if i > 0 {
        assert(tally_sorted(t.drop_first()));
        lemma_amount_at(t.drop_first(), i - 1);
    }
}

/// `tally_add` inserts or updates at the first position whose proposal is not below `k`.
pub proof fn lemma_tally_add_at(t: Seq<(BlockIdentifier, VotingPower)>, k: BlockIdentifier, a: VotingPower, i: int)
    requires
        tally_sorted(t),
        0 <= i <= t.len(),
        forall|j: int| 0 <= j < i ==> t[j].0 < k,
        i < t.len() ==> t[i].0 >= k,
    ensures
        tally_add(t, k, a) == (if i < t.len() && t[i].0 == k {
            t.update(i, (k, (t[i].1 + a) as u64))
        } else {
            t.insert(i, (k, a))
        }),
    decreases i,
{
    if i == 0 {
        if t.len() == 0 {
            assert(t.insert(0, (k, a)) =~= seq![(k, a)]);
        } else if k < t[0].0 {
            assert(t.insert(0, (k, a)) =~= seq![(k, a)] + t);
        }
    } else {
        let r = t.drop_first();
        assert(tally_sorted(r));
        lemma_tally_add_at(r, k, a, i - 1);
        if i < t.len() && t[i].0 == k {
            assert(seq![t[0]] + r.update(i - 1, (k, (r[i - 1].1 + a) as u64)) =~= t.update(
                i,
                (k, (t[i].1 + a) as u64),
            ));
        } else {
            assert(seq![t[0]] + r.insert(i - 1, (k, a)) =~= t.insert(i, (k, a)));
        }
    }
}

/// Counting power for one proposal adds it to the sum.
pub proof fn lemma_tally_add_sum(t: Seq<(BlockIdentifier, VotingPower)>, k: BlockIdentifier, a: VotingPower)
    requires
        tally_amount(t, k) + a <= u64::MAX,
    ensures
        tally_sum(tally_add(t, k, a)) == tally_sum(t) + a,
    decreases t.len(),
{
    if t.len() == 0 {
        let s = seq![(k, a)];
        assert(s.drop_first() =~= Seq::<(BlockIdentifier, VotingPower)>::empty());
        assert(tally_sum(s) == s[0].1 + tally_sum(s.drop_first()));
    } else if k < t[0].0 {
        let s = seq![(k, a)] + t;
        assert(s.drop_first() =~= t);
        assert(tally_sum(s) == s[0].1 + tally_sum(s.drop_first()));
    } else if k == t[0].0 {
        let s = t.update(0, (k, (t[0].1 + a) as u64));
        assert(s.drop_first() =~= t.drop_first());
        assert(tally_sum(s) == s[0].1 + tally_sum(s.drop_first()));
    } else {
        lemma_tally_add_sum(t.drop_first(), k, a);
        let s = seq![t[0]] + tally_add(t.drop_first(), k, a);
        assert(tally_sum(s) == s[0].1 + tally_sum(s.drop_first()));
        assert((seq![t[0]] + tally_add(t.drop_first(), k, a)).drop_first() =~= tally_add(
            t.drop_first(),
            k,
            a,
        ));
    }
}

/// Counting power for `k` changes the amount of `k` alone.
pub proof fn lemma_tally_add_amount(
    t: Seq<(BlockIdentifier, VotingPower)>,
    k: BlockIdentifier,
    a: VotingPower,
    q: BlockIdentifier,
)
    requires
        tally_sorted(t),
        tally_amount(t, k) + a <= u64::MAX,
    ensures
        tally_amount(tally_add(t, k, a), q) == tally_amount(t, q) + (if q == k {
            a as int
        } else {
            0
        }),
    decreases t.len(),
{
    if t.len() == 0 {
        let s = seq![(k, a)];
        assert(s.drop_first() =~= Seq::<(BlockIdentifier, VotingPower)>::empty());
        assert(tally_amount(s.drop_first(), q) == 0);
    } else if k < t[0].0 {
        let s = seq![(k, a)] + t;
        assert(s.drop_first() =~= t);
        if q == k {
            lemma_amount_absent(t, k);
        }
    } else if k == t[0].0 {
        let s = t.update(0, (k, (t[0].1 + a) as u64));
        assert(s.drop_first() =~= t.drop_first());
    } else {
        assert(tally_sorted(t.drop_first()));
        lemma_tally_add_amount(t.drop_first(), k, a, q);
        let s = seq![t[0]] + tally_add(t.drop_first(), k, a);
        assert(s[0] == t[0]);
        assert((seq![t[0]] + tally_add(t.drop_first(), k, a)).drop_first() =~= tally_add(
            t.drop_first(),
            k,
            a,
        ));
    }
}

/// A proposal below every entry of a sorted tally has nothing.
pub proof fn lemma_amount_absent(t: Seq<(BlockIdentifier, VotingPower)>, k: BlockIdentifier)
    requires
        tally_sorted(t),
        forall|j: int| 0 <= j < t.len() ==> t[j].0 != k,
    ensures
        tally_amount(t, k) == 0,
    decreases t.len(),
{
    if t.len() > 0 {
        assert(tally_sorted(t.drop_first()));
        lemma_amount_absent(t.drop_first(), k);
    }
}

/// Counting power keeps a tally sorted.
pub proof fn lemma_tally_add_sorted(t: Seq<(BlockIdentifier, VotingPower)>, k: BlockIdentifier, a: VotingPower)
    requires
        tally_sorted(t),
    ensures
        tally_sorted(tally_add(t, k, a)),
        forall|j: int|
            0 <= j < tally_add(t, k, a).len() ==> #[trigger] tally_add(t, k, a)[j].0 == k || exists|
                i: int,
            |
                0 <= i < t.len() && t[i].0 == tally_add(t, k, a)[j].0,
    decreases t.len(),
{
    if t.len() > 0 && k > t[0].0 {
        let r = t.drop_first();
        assert(tally_sorted(r));
        lemma_tally_add_sorted(r, k, a);
        let s = tally_add(r, k, a);
        assert forall|j: int| 0 <= j < s.len() implies t[0].0 < #[trigger] s[j].0 by {
            if s[j].0 != k {
                let i = choose|i: int| 0 <= i < r.len() && r[i].0 == s[j].0;
                assert(t[i + 1].0 == s[j].0);
            }
        }
        assert forall|j: int| 0 <= j < tally_add(t, k, a).len() implies #[trigger] tally_add(
            t,
            k,
            a,
        )[j].0 == k || exists|i: int| 0 <= i < t.len() && t[i].0 == tally_add(t, k, a)[j].0 by {
            if j == 0 {
                assert(t[0].0 == tally_add(t, k, a)[0].0);
            } else if s[j - 1].0 != k {
                let i = choose|i: int| 0 <= i < r.len() && r[i].0 == s[j - 1].0;
                assert(t[i + 1].0 == tally_add(t, k, a)[j].0);
            }
        }
    } else if t.len() > 0 && k == t[0].0 {
        assert forall|j: int| 0 <= j < tally_add(t, k, a).len() implies #[trigger] tally_add(
            t,
            k,
            a,
        )[j].0 == k || exists|i: int| 0 <= i < t.len() && t[i].0 == tally_add(t, k, a)[j].0 by {
            assert(t[j].0 == tally_add(t, k, a)[j].0);
        }
    } else if t.len() > 0 {
        assert forall|j: int| 0 <= j < tally_add(t, k, a).len() implies #[trigger] tally_add(
            t,
            k,
            a,
        )[j].0 == k || exists|i: int| 0 <= i < t.len() && t[i].0 == tally_add(t, k, a)[j].0 by {
            if j > 0 {
                assert(t[j - 1].0 == tally_add(t, k, a)[j].0);
            }
        }
    }
}

/// Some proposal has more than two thirds of `total`.
pub open spec fn any_over(t: Seq<(BlockIdentifier, VotingPower)>, total: int) -> bool {
    exists|i: int| 0 <= i < t.len() && exceeds_two_thirds(#[trigger] t[i].1 as int, total)
}

/// The first qualifying proposal exists exactly when one qualifies, and qualifies.
pub proof fn lemma_first_over(t: Seq<(BlockIdentifier, VotingPower)>, total: int)
    ensures
        (first_over(t, total) is Some) == any_over(t, total),
        first_over(t, total) is Some ==> exists|i: int|
            0 <= i < t.len() && t[i].0 == first_over(t, total)->0 && exceeds_two_thirds(
                #[trigger] t[i].1 as int,
                total,
            ),
    decreases t.len(),
{
    if t.len() > 0 {
        let r = t.drop_first();
        lemma_first_over(r, total);
        if !exceeds_two_thirds(t[0].1 as int, total) {
            if any_over(t, total) {
                let i = choose|i: int| 0 <= i < t.len() && exceeds_two_thirds(#[trigger] t[i].1 as int, total);
                assert(exceeds_two_thirds(r[i - 1].1 as int, total));
            }
            if any_over(r, total) {
                let i = choose|i: int| 0 <= i < r.len() && exceeds_two_thirds(#[trigger] r[i].1 as int, total);
                assert(exceeds_two_thirds(t[i + 1].1 as int, total));
            }
            if first_over(t, total) is Some {
                let i = choose|i: int|
                    0 <= i < r.len() && r[i].0 == first_over(r, total)->0 && exceeds_two_thirds(
                        #[trigger] r[i].1 as int,
                        total,
                    );
                assert(t[i + 1] == r[i]);
            }
        } else {
            assert(exceeds_two_thirds(t[0].1 as int, total));
        }
    }
}

/// The last qualifying proposal exists exactly when one qualifies, and qualifies.
pub proof fn lemma_last_over(t: Seq<(BlockIdentifier, VotingPower)>, total: int)
    ensures
        (last_over(t, total) is Some) == any_over(t, total),
        last_over(t, total) is Some ==> exists|i: int|
            0 <= i < t.len() && t[i].0 == last_over(t, total)->0 && exceeds_two_thirds(
                #[trigger] t[i].1 as int,
                total,
            ),
    decreases t.len(),
{
    if t.len() > 0 {
        let r = t.drop_last();
        lemma_last_over(r, total);
        if !exceeds_two_thirds(t.last().1 as int, total) {
            if any_over(t, total) {
                let i = choose|i: int| 0 <= i < t.len() && exceeds_two_thirds(#[trigger] t[i].1 as int, total);
                assert(exceeds_two_thirds(r[i].1 as int, total));
            }
            if any_over(r, total) {
                let i = choose|i: int| 0 <= i < r.len() && exceeds_two_thirds(#[trigger] r[i].1 as int, total);
                assert(exceeds_two_thirds(t[i].1 as int, total));
            }
            if last_over(t, total) is Some {
                let i = choose|i: int|
                    0 <= i < r.len() && r[i].0 == last_over(r, total)->0 && exceeds_two_thirds(
                        #[trigger] r[i].1 as int,
                        total,
                    );
                assert(t[i] == r[i]);
            }
        } else {
            assert(exceeds_two_thirds(t[t.len() - 1].1 as int, total));
        }
    }
}

/// `t` lists the entries of `m`: each entry of `t` is an entry of `m`, and
/// each proposal of `m` has an entry in `t`.
pub open spec fn tally_lists(m: Map<BlockIdentifier, VotingPower>, t: Seq<(BlockIdentifier, VotingPower)>) -> bool {
    &&& forall|i: int| 0 <= i < t.len() ==> m.contains_key(#[trigger] t[i].0) && m[t[i].0] == t[i].1
    &&& forall|k: BlockIdentifier| m.contains_key(k) ==> exists|i: int| 0 <= i < t.len() && #[trigger] t[i].0 == k
}

/// A map has one listing in increasing order of proposal.
pub proof fn lemma_listing_unique(
    m: Map<BlockIdentifier, VotingPower>,
    a: Seq<(BlockIdentifier, VotingPower)>,
    b: Seq<(BlockIdentifier, VotingPower)>,
)
    requires
        tally_sorted(a),
        tally_sorted(b),
        tally_lists(m, a),
        tally_lists(m, b),
    ensures
        a == b,
    decreases a.len(),
{
    if a.len() == 0 {
        if b.len() > 0 {
            assert(m.contains_key(b[0].0));
        }
        assert(a =~= b);
    } else {
        assert(m.contains_key(a[0].0));
        let j = choose|j: int| 0 <= j < b.len() && #[trigger] b[j].0 == a[0].0;
        assert(m.contains_key(b[0].0));
        let i = choose|i: int| 0 <= i < a.len() && #[trigger] a[i].0 == b[0].0;
        if i > 0 {
            assert(a[0].0 < a[i].0);
        }
        if j > 0 {
            assert(b[0].0 < b[j].0);
        }
        assert(a[0] == b[0]);
        let m2 = m.remove(a[0].0);
        let a2 = a.drop_first();
        let b2 = b.drop_first();
        assert(tally_sorted(a2));
        assert(tally_sorted(b2));
        assert forall|x: int| 0 <= x < a2.len() implies m2.contains_key(#[trigger] a2[x].0) && m2[a2[x].0]
            == a2[x].1 by {
            assert(a[0].0 < a[x + 1].0);
        }
        assert forall|x: int| 0 <= x < b2.len() implies m2.contains_key(#[trigger] b2[x].0) && m2[b2[x].0]
            == b2[x].1 by {
            assert(b[0].0 < b[x + 1].0);
        }
        assert forall|k: BlockIdentifier| m2.contains_key(k) implies exists|x: int|
            0 <= x < a2.len() && #[trigger] a2[x].0 == k by {
            let x = choose|x: int| 0 <= x < a.len() && #[trigger] a[x].0 == k;
            assert(a2[x - 1].0 == k);
        }
        assert forall|k: BlockIdentifier| m2.contains_key(k) implies exists|x: int|
            0 <= x < b2.len() && #[trigger] b2[x].0 == k by {
            let x = choose|x: int| 0 <= x < b.len() && #[trigger] b[x].0 == k;
            assert(b2[x - 1].0 == k);
        }
        lemma_listing_unique(m2, a2, b2);
        assert forall|x: int| 0 <= x < a.len() implies a[x] == b[x] by {
            if x > 0 {
                assert(a[x] == a2[x - 1]);
                assert(b[x] == b2[x - 1]);
            }
        }
        assert(a =~= b);
    }
}

/// The first position of `t` whose proposal is not below `k`.
pub proof fn lemma_insert_position(t: Seq<(BlockIdentifier, VotingPower)>, k: BlockIdentifier) -> (i: int)
    ensures
        0 <= i <= t.len(),
        forall|j: int| 0 <= j < i ==> t[j].0 < k,
        i < t.len() ==> t[i].0 >= k,
    decreases t.len(),
{
    if t.len() == 0 || t[0].0 >= k {
        0
    } else {
        let r = lemma_insert_position(t.drop_first(), k);
        assert forall|j: int| 0 <= j < r + 1 implies t[j].0 < k by {
            if j > 0 {
                assert(t[j] == t.drop_first()[j - 1]);
            }
        }
        r + 1
    }
}

/// Counting power for `k` in a map lists as counting it in the map's listing.
pub proof fn lemma_tally_add_lists(
    m: Map<BlockIdentifier, VotingPower>,
    t: Seq<(BlockIdentifier, VotingPower)>,
    k: BlockIdentifier,
    a: VotingPower,
)
    requires
        tally_sorted(t),
        tally_lists(m, t),
        tally_amount(t, k) + a <= u64::MAX,
    ensures
        tally_lists(m.insert(k, (tally_amount(t, k) + a) as u64), tally_add(t, k, a)),
{
    let m2 = m.insert(k, (tally_amount(t, k) + a) as u64);
    let i = lemma_insert_position(t, k);
    lemma_tally_add_at(t, k, a, i);
    let n = tally_add(t, k, a);
    if i < t.len() && t[i].0 == k {
        lemma_amount_at(t, i);
        assert forall|j: int| 0 <= j < n.len() implies m2.contains_key(#[trigger] n[j].0) && m2[n[j].0]
            == n[j].1 by {
            if j != i {
                assert(n[j] == t[j]);
                assert(t[j].0 != k);
            }
        }
        assert forall|q: BlockIdentifier| m2.contains_key(q) implies exists|x: int|
            0 <= x < n.len() && #[trigger] n[x].0 == q by {
            if q == k {
                assert(n[i].0 == q);
            } else {
                let x = choose|x: int| 0 <= x < t.len() && #[trigger] t[x].0 == q;
                assert(n[x].0 == q);
            }
        }
    } else {
        assert forall|j: int| 0 <= j < t.len() implies t[j].0 != k by {
            if j >= i {
                if j > i {
                    assert(t[i].0 < t[j].0);
                }
            }
        }
        lemma_amount_absent(t, k);
        assert forall|j: int| 0 <= j < n.len() implies m2.contains_key(#[trigger] n[j].0) && m2[n[j].0]
            == n[j].1 by {
            if j < i {
                assert(n[j] == t[j]);
            } else if j > i {
                assert(n[j] == t[j - 1]);
            }
        }
        assert forall|q: BlockIdentifier| m2.contains_key(q) implies exists|x: int|
            0 <= x < n.len() && #[trigger] n[x].0 == q by {
            if q == k {
                assert(n[i].0 == q);
            } else {
                let x = choose|x: int| 0 <= x < t.len() && #[trigger] t[x].0 == q;
                if x < i {
                    assert(n[x].0 == q);
                } else {
                    assert(n[x + 1].0 == q);
                }
            }
        }
    }
}

/// Power counted per proposal. The entries are read in increasing order of
/// proposal, which is the order in which the map keeps them.
pub struct Tally {
    map: BTreeMap<BlockIdentifier, VotingPower>,
    entries: Ghost<Seq<(BlockIdentifier, VotingPower)>>,
}

impl Tally {
    #[verifier::type_invariant]
    spec fn listed(self) -> bool {
        &&& tally_sorted(self.entries@)
        &&& tally_lists(self.map@, self.entries@)
    }
}

impl View for Tally {
    type V = Seq<(BlockIdentifier, VotingPower)>;

    /// The map's entries in increasing order of proposal.
    closed spec fn view(&self) -> Seq<(BlockIdentifier, VotingPower)> {
        self.entries@
    }
}

impl Tally {
    /// A tally with nothing counted.
    pub fn new() -> (t: Tally)
        ensures
            t@ == Seq::<(BlockIdentifier, VotingPower)>::empty(),
    {
        Tally { map: BTreeMap::new(), entries: Ghost(Seq::empty()) }
    }

    /// The map's entries, in increasing order of proposal.
    fn entries(&self) -> (v: Vec<(BlockIdentifier, VotingPower)>)
        ensures
            v@ == self@,
    {
        proof {
            use_type_invariant(self);
        }
        let mut v: Vec<(BlockIdentifier, VotingPower)> = Vec::new();
        let ghost s = spec_btree_map_iter(&self.map).remaining();
        for (k, a) in it: self.map.iter()
            invariant
                it.seq() == s,
                v.len() == it.index(),
                forall|i: int| 0 <= i < it.index() ==> v@[i] == (*s[i].0, *s[i].1),
        {
            v.push((*k, *a));
        }
        proof {
            let ks = s.map_values(|kv: (&BlockIdentifier, &VotingPower)| *kv.0);
            assert(increasing_seq(ks));
            assert forall|i: int, j: int| 0 <= i < j < v.len() implies v@[i].0 < v@[j].0 by {
                assert(ks[i] == v@[i].0);
                assert(ks[j] == v@[j].0);
                assert(obeys_cmp::<BlockIdentifier>());
                assert(ks[i].cmp_spec(&ks[j]) is Less);
            }
            assert forall|k: BlockIdentifier| self.map@.contains_key(k) implies exists|i: int|
                0 <= i < v.len() && #[trigger] v@[i].0 == k by {
                assert(s.contains((&k, &self.map@[k])));
                let i = choose|i: int| 0 <= i < s.len() && s[i] == (&k, &self.map@[k]);
                assert(v@[i].0 == k);
            }
            lemma_listing_unique(self.map@, v@, self@);
        }
        v
    }

    /// Power counted for `proposal`.
    pub fn amount(&self, proposal: BlockIdentifier) -> (a: VotingPower)
        ensures
            a == tally_amount(self@, proposal),
    {
        proof {
            use_type_invariant(self);
        }
        match self.map.get(&proposal) {
            Some(a) => {
                proof {
                    let i = choose|i: int| 0 <= i < self@.len() && #[trigger] self@[i].0 == proposal;
                    lemma_amount_at(self@, i);
                }
                *a
            },
            None => {
                proof {
                    lemma_amount_absent(self@, proposal);
                }
                0
            },
        }
    }

    /// Power counted over all proposals.
    pub fn sum(&self) -> (s: VotingPower)
        requires
            tally_sum(self@) <= u64::MAX,
        ensures
            s == tally_sum(self@),
    {
        let entries = self.entries();
        let n = entries.len();
        let mut acc: u64 = 0;
        let mut i: usize = 0;
        assert(entries@.skip(0) =~= entries@);
        while i < n
            invariant
                n == entries@.len(),
                entries@ == self@,
                0 <= i <= n,
                acc + tally_sum(entries@.skip(i as int)) == tally_sum(entries@),
                tally_sum(entries@) <= u64::MAX,
            decreases n - i,
        {
            assert(entries@.skip(i as int).drop_first() =~= entries@.skip(i + 1));
            proof {
                lemma_tally_sum_nonneg(entries@.skip(i + 1));
            }
            acc = acc + entries[i].1;
            i = i + 1;
        }
        acc
    }

    /// Counts `power` more for `proposal`.
    pub fn add(&mut self, proposal: BlockIdentifier, power: VotingPower)
        requires
            tally_amount(old(self)@, proposal) + power <= u64::MAX,
        ensures
            final(self)@ == tally_add(old(self)@, proposal, power),
            tally_sorted(final(self)@),
    {
        proof {
            use_type_invariant(&*self);
        }
        let current = self.amount(proposal);
        let ghost t = self@;
        let mut map = self.map.clone();
        map.insert(proposal, current + power);
        proof {
            lemma_tally_add_lists(self.map@, t, proposal, power);
            lemma_tally_add_sorted(t, proposal, power);
        }
        *self = Tally { map, entries: Ghost(tally_add(t, proposal, power)) };
    }

    /// The first proposal, in increasing order, with more than two thirds of `total`.
    pub fn first_over(&self, total: VotingPower) -> (p: Option<BlockIdentifier>)
        ensures
            p == first_over(self@, total as int),
    {
        let entries = self.entries();
        let n = entries.len();
        let mut i: usize = 0;
        assert(entries@.skip(0) =~= entries@);
        while i < n
            invariant
                n == entries@.len(),
                entries@ == self@,
                0 <= i <= n,
                first_over(entries@, total as int) == first_over(entries@.skip(i as int), total as int),
            decreases n - i,
        {
            assert(entries@.skip(i as int).drop_first() =~= entries@.skip(i + 1));
            let (proposal, power) = entries[i];
            if (power as u128) * 3 > (total as u128) * 2 {
                return Some(proposal);
            }
            i = i + 1;
        }
        None
    }

    /// The last proposal, in increasing order, with more than two thirds of `total`.
    pub fn last_over(&self, total: VotingPower) -> (p: Option<BlockIdentifier>)
        ensures
            p == last_over(self@, total as int),
    {
        let entries = self.entries();
        let n = entries.len();
        let mut i: usize = n;
        assert(entries@.take(n as int) =~= entries@);
        while i > 0
            invariant
                n == entries@.len(),
                entries@ == self@,
                0 <= i <= n,
                last_over(entries@, total as int) == last_over(entries@.take(i as int), total as int),
            decreases i,
        {
            assert(entries@.take(i as int).drop_last() =~= entries@.take(i - 1));
            let (proposal, power) = entries[i - 1];
            if (power as u128) * 3 > (total as u128) * 2 {
                return Some(proposal);
            }
            i = i - 1;
        }
        None
    }
}

} // verus!
