//! Merkle distributor commitment tests: leaf encoding, tree building,
//! proof generation and verification.

use wunderland_sol::merkle::{
    build_merkle_root, compute_leaf, generate_merkle_proof, verify_merkle_proof,
};

fn addr(tag: u8) -> [u8; 32] {
    let mut a = [0u8; 32];
    a[0] = tag;
    a[31] = tag.wrapping_add(1);
    a
}

fn leaves_for(enclave: &[u8; 32], epoch: u64, n: u32) -> Vec<[u8; 32]> {
    let mut leaves = Vec::new();
    for i in 0..n {
        let agent = addr(10 + i as u8);
        let amount = 1_000_000u64 * (i as u64 + 1);
        leaves.push(compute_leaf(enclave, epoch, i, &agent, amount));
    }
    leaves
}

#[test]
fn every_leaf_proof_verifies_against_root() {
    let enclave = addr(3);
    for n in [1u32, 2, 3, 5, 8, 13] {
        let leaves = leaves_for(&enclave, 7, n);
        let root = build_merkle_root(&leaves);
        for i in 0..n {
            let proof = generate_merkle_proof(&leaves, i);
            assert!(
                verify_merkle_proof(&root, &leaves[i as usize], &proof, i),
                "leaf {i} of {n} failed"
            );
        }
    }
}

#[test]
fn mutating_any_leaf_field_invalidates_its_proof() {
    let enclave = addr(3);
    let leaves = leaves_for(&enclave, 7, 6);
    let root = build_merkle_root(&leaves);
    let index = 4u32;
    let proof = generate_merkle_proof(&leaves, index);
    let agent = addr(10 + index as u8);
    let amount = 1_000_000u64 * (index as u64 + 1);

    // The unmodified leaf verifies.
    let good = compute_leaf(&enclave, 7, index, &agent, amount);
    assert!(verify_merkle_proof(&root, &good, &proof, index));

    // A different amount invalidates it.
    let bad_amount = compute_leaf(&enclave, 7, index, &agent, amount + 1);
    assert!(!verify_merkle_proof(&root, &bad_amount, &proof, index));

    // A different agent invalidates it.
    let bad_agent = compute_leaf(&enclave, 7, index, &addr(99), amount);
    assert!(!verify_merkle_proof(&root, &bad_agent, &proof, index));

    // A different epoch invalidates it.
    let bad_epoch = compute_leaf(&enclave, 8, index, &agent, amount);
    assert!(!verify_merkle_proof(&root, &bad_epoch, &proof, index));

    // A different enclave invalidates it.
    let bad_enclave = compute_leaf(&addr(44), 7, index, &agent, amount);
    assert!(!verify_merkle_proof(&root, &bad_enclave, &proof, index));

    // The right leaf at the wrong index invalidates it.
    let bad_index = compute_leaf(&enclave, 7, index + 1, &agent, amount);
    assert!(!verify_merkle_proof(&root, &bad_index, &proof, index));
}

#[test]
fn single_leaf_tree_root_is_the_leaf() {
    let enclave = addr(1);
    let leaf = compute_leaf(&enclave, 1, 0, &addr(2), 500);
    let leaves = vec![leaf];
    let root = build_merkle_root(&leaves);
    assert_eq!(root, leaf);
    let proof = generate_merkle_proof(&leaves, 0);
    assert!(proof.is_empty());
    assert!(verify_merkle_proof(&root, &leaf, &proof, 0));
}

#[test]
fn leaf_encoding_is_deterministic_and_field_sensitive() {
    let enclave = addr(5);
    let agent = addr(6);
    let a = compute_leaf(&enclave, 3, 2, &agent, 42);
    let b = compute_leaf(&enclave, 3, 2, &agent, 42);
    assert_eq!(a, b);
    assert_ne!(a, compute_leaf(&enclave, 3, 2, &agent, 43));
    assert_ne!(a, compute_leaf(&enclave, 3, 3, &agent, 42));
    assert_ne!(a, compute_leaf(&enclave, 4, 2, &agent, 42));
}

#[test]
fn wrong_root_rejects_valid_proof() {
    let enclave = addr(9);
    let leaves = leaves_for(&enclave, 2, 4);
    let proof = generate_merkle_proof(&leaves, 1);
    let wrong_root = addr(200);
    assert!(!verify_merkle_proof(&wrong_root, &leaves[1], &proof, 1));
}
