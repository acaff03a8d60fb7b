//! Merkle commitment over a reward epoch's allocation set.
//!
//! A leaf commits to `(domain, enclave, epoch, leaf index, agent, amount)`;
//! interior nodes hash sibling pairs, a level of odd width duplicating its
//! last node.  Claim verification folds a caller-supplied sibling path back
//! up to the published root, using index parity to decide sibling order.

use vstd::prelude::*;

use crate::addr::{push_bytes, Address};
use crate::hashing::{hash_bytes, sha256_of};
use vstd::bytes::{spec_u32_to_le_bytes, spec_u64_to_le_bytes, u32_to_le_bytes, u64_to_le_bytes};

verus! {

/// Domain separator prepended to every reward leaf: `WUNDERLAND_REWARDS_V1`.
pub open spec fn merkle_domain() -> Seq<u8> {
    seq![
        87u8, 85u8, 78u8, 68u8, 69u8, 82u8, 76u8, 65u8, 78u8, 68u8, 95u8, 82u8, 69u8, 87u8,
        65u8, 82u8, 68u8, 83u8, 95u8, 86u8, 49u8,
    ]
}

/// Returns the reward-leaf domain separator bytes.
fn merkle_domain_bytes() -> (r: Vec<u8>)
    ensures
        r@ == merkle_domain(),
{
    let r: Vec<u8> = vec![
        87u8, 85u8, 78u8, 68u8, 69u8, 82u8, 76u8, 65u8, 78u8, 68u8, 95u8, 82u8, 69u8, 87u8,
        65u8, 82u8, 68u8, 83u8, 95u8, 86u8, 49u8,
    ];
    proof {
        assert(r@ =~= merkle_domain());
    }
    r
}

/// Hash of an interior node from its left and right children.
pub open spec fn node_hash(a: Seq<u8>, b: Seq<u8>) -> Seq<u8> {
    sha256_of(a + b)
}

/// The leaf commitment for one allocation.
pub open spec fn leaf_hash(
    enclave: Seq<u8>,
    epoch: u64,
    index: u32,
    agent: Seq<u8>,
    amount: u64,
) -> Seq<u8> {
    sha256_of(
        merkle_domain() + enclave + spec_u64_to_le_bytes(epoch) + spec_u32_to_le_bytes(index)
            + agent + spec_u64_to_le_bytes(amount),
    )
}

/// Computes the leaf commitment for one allocation.
pub fn compute_leaf(
    enclave: &Address,
    epoch: u64,
    index: u32,
    agent: &Address,
    amount: u64,
) -> (r: [u8; 32])
    ensures
        r@ == leaf_hash(enclave@, epoch, index, agent@, amount),
{
    let mut data = merkle_domain_bytes();
    push_bytes(&mut data, enclave.as_slice());
    let epoch_le = u64_to_le_bytes(epoch);
    push_bytes(&mut data, epoch_le.as_slice());
    let index_le = u32_to_le_bytes(index);
    push_bytes(&mut data, index_le.as_slice());
    push_bytes(&mut data, agent.as_slice());
    let amount_le = u64_to_le_bytes(amount);
    push_bytes(&mut data, amount_le.as_slice());
    proof {
        assert(data@ =~= merkle_domain() + enclave@ + spec_u64_to_le_bytes(epoch)
            + spec_u32_to_le_bytes(index) + agent@ + spec_u64_to_le_bytes(amount));
    }
    hash_bytes(data)
}

/// Hashes a sibling pair into its parent node.
fn hash_pair(a: &[u8; 32], b: &[u8; 32]) -> (r: [u8; 32])
    ensures
        r@ == node_hash(a@, b@),
{
    let mut data: Vec<u8> = Vec::new();
    push_bytes(&mut data, a.as_slice());
    push_bytes(&mut data, b.as_slice());
    proof {
        assert(data@ =~= a@ + b@);
    }
    hash_bytes(data)
}

/// Folds a leaf up a sibling path: at each level the sibling joins on the
/// side given by the index's parity, and the index halves.
pub open spec fn merkle_fold(leaf: Seq<u8>, path: Seq<Seq<u8>>, index: nat) -> Seq<u8>
    decreases path.len(),
{
    if path.len() == 0 {
        leaf
    } else {
        let joined = if index % 2 == 0 {
            node_hash(leaf, path[0])
        } else {
            node_hash(path[0], leaf)
        };
        merkle_fold(joined, path.drop_first(), index / 2)
    }
}

/// Verifies a Merkle proof: folding `leaf` up `proof` from position
/// `index` must reproduce `root`.
pub fn verify_merkle_proof(
    root: &[u8; 32],
    leaf: &[u8; 32],
    proof: &Vec<[u8; 32]>,
    index: u32,
) -> (r: bool)
    ensures
        r == (merkle_fold(leaf@, proof@.map_values(|s: [u8; 32]| s@), index as nat) == root@),
{
    let ghost full_path = proof@.map_values(|s: [u8; 32]| s@);
    proof {
        assert(full_path.skip(0) =~= full_path);
    }
    let mut computed: [u8; 32] = *leaf;
    let mut idx: u32 = index;
    let mut i: usize = 0;
    while i < proof.len()
        invariant
            0 <= i <= proof@.len(),
            full_path == proof@.map_values(|s: [u8; 32]| s@),
            merkle_fold(computed@, full_path.skip(i as int), idx as nat) == merkle_fold(
                leaf@,
                full_path,
                index as nat,
            ),
        decreases proof@.len() - i,
    {
        let sibling = proof[i];
        proof {
            let rest = full_path.skip(i as int);
            assert(rest.len() > 0);
            assert(rest[0] == sibling@);
            assert(rest.drop_first() =~= full_path.skip(i + 1));
        }
        computed = if idx % 2 == 0 {
            hash_pair(&computed, &sibling)
        } else {
            hash_pair(&sibling, &computed)
        };
        idx = idx / 2;
        i = i + 1;
    }
    proof {
        assert(full_path.skip(i as int) =~= Seq::<Seq<u8>>::empty());
    }
    crate::addr::addr_eq(&computed, root)
}

/// One level up the tree: siblings pair off left to right, and a level of
/// odd width pairs its last node with itself.
pub open spec fn next_level(level: Seq<Seq<u8>>) -> Seq<Seq<u8>> {
    Seq::new(((level.len() + 1) / 2) as nat, |i: int| {
        if 2 * i + 1 < level.len() {
            node_hash(level[2 * i], level[2 * i + 1])
        } else {
            node_hash(level[2 * i], level[2 * i])
        }
    })
}

/// The root of the tree over `level`, reducing level by level.
pub open spec fn merkle_root_of(level: Seq<Seq<u8>>) -> Seq<u8>
    decreases level.len(),
{
    if level.len() <= 1 {
        if level.len() == 1 {
            level[0]
        } else {
            Seq::empty()
        }
    } else {
        merkle_root_of(next_level(level))
    }
}

/// The sibling path for position `index`, gathered level by level.
pub open spec fn merkle_path_of(level: Seq<Seq<u8>>, index: int) -> Seq<Seq<u8>>
    decreases level.len(),
{
    if level.len() <= 1 {
        Seq::empty()
    } else {
        let sibling = if index % 2 == 0 {
            if index + 1 < level.len() {
                level[index + 1]
            } else {
                level[index]
            }
        } else {
            level[index - 1]
        };
        seq![sibling] + merkle_path_of(next_level(level), index / 2)
    }
}

/// Every leaf's generated sibling path folds back to the tree's root:
/// the proof produced for position `index` verifies against the root
/// built over the same leaves.
pub proof fn lemma_merkle_round_trip(level: Seq<Seq<u8>>, index: int)
    requires
        0 <= index < level.len(),
    ensures
        merkle_fold(level[index], merkle_path_of(level, index), index as nat) == merkle_root_of(
            level,
        ),
    decreases level.len(),
{
    if level.len() <= 1 {
    } else {
        let next = next_level(level);
        let path = merkle_path_of(level, index);
        let sibling = path[0];
        let joined = if index % 2 == 0 {
            node_hash(level[index], sibling)
        } else {
            node_hash(sibling, level[index])
        };
        assert(2 * (index / 2) + index % 2 == index);
        assert(joined == next[index / 2]);
        assert(path.drop_first() =~= merkle_path_of(next, index / 2));
        assert(0 <= index / 2 < next.len());
        lemma_merkle_round_trip(next, index / 2);
        assert((index as nat) / 2 == (index / 2) as nat);
    }
}

/// Builds the Merkle root over the given leaves.
pub fn build_merkle_root(leaves: &Vec<[u8; 32]>) -> (r: [u8; 32])
    requires
        leaves@.len() >= 1,
    ensures
        r@ == merkle_root_of(leaves@.map_values(|s: [u8; 32]| s@)),
{
    let mut level: Vec<[u8; 32]> = Vec::new();
    let mut i: usize = 0;
    while i < leaves.len()
        invariant
            0 <= i <= leaves@.len(),
            level@.len() == i,
            forall|k: int| 0 <= k < i ==> level@[k] == leaves@[k],
        decreases leaves@.len() - i,
    {
        level.push(leaves[i]);
        i = i + 1;
    }
    proof {
        assert(level@ =~= leaves@);
    }
    proof {
        assert(level@.map_values(|s: [u8; 32]| s@) =~= leaves@.map_values(|s: [u8; 32]| s@));
    }
    let ghost orig = leaves@.map_values(|s: [u8; 32]| s@);
    while level.len() > 1
        invariant
            level@.len() >= 1,
            merkle_root_of(level@.map_values(|s: [u8; 32]| s@)) == merkle_root_of(orig),
        decreases level@.len(),
    {
        let ghost cur = level@.map_values(|s: [u8; 32]| s@);
        let mut next: Vec<[u8; 32]> = Vec::new();
        let cur_len: usize = level.len();
        let next_len: usize = cur_len / 2 + cur_len % 2;
        proof {
            assert(next_len == next_level(cur).len());
        }
        let mut p: usize = 0;
        while p < next_len
            invariant
                0 <= p <= next_len,
                next_len == next_level(cur).len(),
                next_len == (level@.len() + 1) / 2,
                cur_len == level@.len(),
                level@.len() >= 1,
                cur == level@.map_values(|s: [u8; 32]| s@),
                cur.len() == level@.len(),
                next@.map_values(|s: [u8; 32]| s@) =~= next_level(cur).take(p as int),
            decreases next_len - p,
        {
            proof {
                assert(2 * p < cur_len + 1);
            }
            let li: usize = 2 * p;
            let left = level[li];
            let right = if li + 1 < level.len() {
                level[li + 1]
            } else {
                level[li]
            };
            let parent = hash_pair(&left, &right);
            proof {
                assert(next_level(cur)[p as int] == parent@);
                assert(next@.map_values(|s: [u8; 32]| s@).push(parent@) =~= next_level(cur).take(
                    p + 1,
                ));
            }
            next.push(parent);
            p = p + 1;
        }
        proof {
            assert(next@.map_values(|s: [u8; 32]| s@) =~= next_level(cur));
        }
        level = next;
    }
    proof {
        let last = level@.map_values(|s: [u8; 32]| s@);
        assert(last.len() == 1);
        assert(merkle_root_of(last) == last[0]);
    }
    level[0]
}

/// Generates the sibling path proving position `index` among `leaves`.
pub fn generate_merkle_proof(leaves: &Vec<[u8; 32]>, index: u32) -> (r: Vec<[u8; 32]>)
    requires
        (index as int) < leaves@.len(),
    ensures
        r@.map_values(|s: [u8; 32]| s@) == merkle_path_of(
            leaves@.map_values(|s: [u8; 32]| s@),
            index as int,
        ),
{
    let ghost orig = leaves@.map_values(|s: [u8; 32]| s@);
    let mut level: Vec<[u8; 32]> = Vec::new();
    let mut i: usize = 0;
    while i < leaves.len()
        invariant
            0 <= i <= leaves@.len(),
            level@.len() == i,
            forall|k: int| 0 <= k < i ==> level@[k] == leaves@[k],
        decreases leaves@.len() - i,
    {
        level.push(leaves[i]);
        i = i + 1;
    }
    proof {
        assert(level@ =~= leaves@);
    }
    proof {
        assert(level@.map_values(|s: [u8; 32]| s@) =~= orig);
    }
    let mut path: Vec<[u8; 32]> = Vec::new();
    let mut idx: u32 = index;
    while level.len() > 1
        invariant
            level@.len() >= 1,
            (idx as int) < level@.len(),
            path@.map_values(|s: [u8; 32]| s@) + merkle_path_of(
                level@.map_values(|s: [u8; 32]| s@),
                idx as int,
            ) =~= merkle_path_of(orig, index as int),
        decreases level@.len(),
    {
        let ghost cur = level@.map_values(|s: [u8; 32]| s@);
        let sibling: [u8; 32] = if idx % 2 == 0 {
            if (idx as usize) + 1 < level.len() {
                level[(idx as usize) + 1]
            } else {
                level[idx as usize]
            }
        } else {
            level[(idx as usize) - 1]
        };
        proof {
            assert(merkle_path_of(cur, idx as int)[0] == sibling@);
        }
        let mut next: Vec<[u8; 32]> = Vec::new();
        let cur_len: usize = level.len();
        let next_len: usize = cur_len / 2 + cur_len % 2;
        proof {
            assert(next_len == next_level(cur).len());
        }
        let mut p: usize = 0;
        while p < next_len
            invariant
                0 <= p <= next_len,
                next_len == next_level(cur).len(),
                next_len == (level@.len() + 1) / 2,
                cur_len == level@.len(),
                level@.len() >= 1,
                cur == level@.map_values(|s: [u8; 32]| s@),
                cur.len() == level@.len(),
                next@.map_values(|s: [u8; 32]| s@) =~= next_level(cur).take(p as int),
            decreases next_len - p,
        {
            proof {
                assert(2 * p < cur_len + 1);
            }
            let li: usize = 2 * p;
            let left = level[li];
            let right = if li + 1 < level.len() {
                level[li + 1]
            } else {
                level[li]
            };
            let parent = hash_pair(&left, &right);
            proof {
                assert(next_level(cur)[p as int] == parent@);
                assert(next@.map_values(|s: [u8; 32]| s@).push(parent@) =~= next_level(cur).take(
                    p + 1,
                ));
            }
            next.push(parent);
            p = p + 1;
        }
        proof {
            assert(next@.map_values(|s: [u8; 32]| s@) =~= next_level(cur));
            let tail = merkle_path_of(next_level(cur), (idx / 2) as int);
            assert(merkle_path_of(cur, idx as int) =~= seq![sibling@] + tail);
            assert(path@.map_values(|s: [u8; 32]| s@).push(sibling@) + tail =~= merkle_path_of(
                orig,
                index as int,
            ));
            assert(((idx / 2) as int) < next_level(cur).len());
        }
        path.push(sibling);
        level = next;
        idx = idx / 2;
    }
    proof {
        assert(merkle_path_of(level@.map_values(|s: [u8; 32]| s@), idx as int)
            =~= Seq::<Seq<u8>>::empty());
        assert(path@.map_values(|s: [u8; 32]| s@) =~= path@.map_values(|s: [u8; 32]| s@)
            + Seq::<Seq<u8>>::empty());
    }
    path
}

} // verus!
