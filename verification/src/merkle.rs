use vstd::prelude::*;

use crate::hash::{aggregate_hash, sha3_256_digest, zero_hash, Hash256};

verus! {

/// The level above `level` in a Merkle tree: adjacent nodes are paired and
/// each pair hashed together; a last node without a partner is hashed alone.
pub open spec fn merkle_parent_level(level: Seq<Seq<u8>>) -> Seq<Seq<u8>> {
    Seq::new(
        ((level.len() + 1) / 2) as nat,
        |i: int|
            if 2 * i + 1 < level.len() {
                aggregate_hash(level[2 * i], level[2 * i + 1])
            } else {
                sha3_256_digest(level[2 * i])
            },
    )
}

/// The root of the Merkle tree over `leaves`: the zero hash for no leaves, the
/// leaf itself for one, otherwise the root over the level above.
pub open spec fn merkle_root(leaves: Seq<Seq<u8>>) -> Seq<u8>
    decreases leaves.len(),
{
    if leaves.len() == 0 {
        zero_hash()
    } else if leaves.len() == 1 {
        leaves[0]
    } else {
        merkle_root(merkle_parent_level(leaves))
    }
}

/// The values of a list of hashes.
pub open spec fn hash_values(hashes: Seq<Hash256>) -> Seq<Seq<u8>> {
    hashes.map_values(|h: Hash256| h@)
}

/// The root of the Merkle tree over `leaves`.
pub fn merkle_root_of(leaves: &[Hash256]) -> (root: Hash256)
    ensures
        root@ == merkle_root(hash_values(leaves@)),
{
    if leaves.len() == 0 {
        return Hash256::zero();
    }
    let mut level: Vec<Hash256> = Vec::new();
    let mut k: usize = 0;
    while k < leaves.len()
        invariant
            0 <= k <= leaves@.len(),
            level@ == leaves@.take(k as int),
        decreases leaves@.len() - k,
    {
        level.push(leaves[k]);
        k = k + 1;
        assert(level@ =~= leaves@.take(k as int));
    }
    assert(leaves@.take(leaves@.len() as int) =~= leaves@);
    while level.len() > 1
        invariant
            level@.len() >= 1,
            merkle_root(hash_values(level@)) == merkle_root(hash_values(leaves@)),
        decreases level@.len(),
    {
        let n = level.len();
        let mut parent: Vec<Hash256> = Vec::new();
        let mut i: usize = 0;
        while i + 1 < n
            invariant
                n == level@.len(),
                n >= 2,
                i % 2 == 0,
                0 <= i <= n,
                parent@.len() == i / 2,
                forall|j: int|
                    0 <= j < parent@.len() ==> #[trigger] parent@[j]@ == merkle_parent_level(
                        hash_values(level@),
                    )[j],
            decreases n - i,
        {
            let h = level[i].aggregate(&level[i + 1]);
            parent.push(h);
            i = i + 2;
        }
        if i < n {
            let h = Hash256::hash(level[i].hash.as_slice());
            parent.push(h);
        }
        assert(hash_values(parent@) =~= merkle_parent_level(hash_values(level@)));
        level = parent;
    }
    level[0]
}

} // verus!
