use alloy::primitives::FixedBytes;
use cb_signer::signature::{
    compute_domain, compute_signing_root, delegation_root, ecdsa_delegation_root,
    COMMIT_BOOST_DOMAIN,
};
use cb_signer::types::{BlsPublicKey, Chain, EcdsaPublicKey};
use tree_hash::{MerkleHasher, TreeHash};

fn hex(bytes: &[u8]) -> String {
    bytes.iter().map(|b| format!("{b:02x}")).collect()
}

fn container_root(first: &[u8], second: &[u8]) -> [u8; 32] {
    let mut hasher = MerkleHasher::with_leaves(2);
    hasher.write(first).unwrap();
    hasher.write(second).unwrap();
    hasher.finish().unwrap().0
}

#[test]
fn commit_boost_domain_mask_spells_its_name_backwards() {
    assert_eq!(&COMMIT_BOOST_DOMAIN, b"mmoC");
}

#[test]
fn genesis_fork_versions() {
    assert_eq!(Chain::Mainnet.genesis_fork_version(), [0, 0, 0, 0]);
    assert_eq!(Chain::Holesky.genesis_fork_version(), [1, 1, 112, 0]);
    assert_eq!(Chain::Sepolia.genesis_fork_version(), [144, 0, 0, 105]);
    assert_eq!(
        Chain::Custom { genesis_fork_version: [9, 8, 7, 6] }.genesis_fork_version(),
        [9, 8, 7, 6]
    );
}

#[test]
fn mainnet_commit_boost_domain() {
    let domain = compute_domain(Chain::Mainnet, COMMIT_BOOST_DOMAIN);
    assert_eq!(
        hex(&domain),
        "6d6d6f43f5a5fd42d16a20302798ef6ed309979b43003d2320d9f0e8ea9831a9"
    );
}

#[test]
fn domain_is_mask_then_fork_data_root() {
    for chain in [
        Chain::Mainnet,
        Chain::Holesky,
        Chain::Sepolia,
        Chain::Custom { genesis_fork_version: [1, 2, 3, 4] },
    ] {
        let mut version_chunk = [0u8; 32];
        version_chunk[..4].copy_from_slice(&chain.genesis_fork_version());
        let fork_data_root = container_root(&version_chunk, &[0u8; 32]);
        let domain = compute_domain(chain, [7, 8, 9, 10]);
        assert_eq!(&domain[..4], &[7, 8, 9, 10]);
        assert_eq!(&domain[4..], &fork_data_root[..28]);
    }
}

#[test]
fn domains_of_different_chains_differ() {
    let mainnet = compute_domain(Chain::Mainnet, COMMIT_BOOST_DOMAIN);
    let holesky = compute_domain(Chain::Holesky, COMMIT_BOOST_DOMAIN);
    let sepolia = compute_domain(Chain::Sepolia, COMMIT_BOOST_DOMAIN);
    assert_ne!(mainnet, holesky);
    assert_ne!(mainnet, sepolia);
    assert_ne!(holesky, sepolia);
    assert_eq!(
        compute_domain(Chain::Custom { genesis_fork_version: [0, 0, 0, 0] }, COMMIT_BOOST_DOMAIN),
        mainnet
    );
}

#[test]
fn signing_root_hashes_root_and_domain() {
    let object_root = [0x11u8; 32];
    let domain = compute_domain(Chain::Mainnet, COMMIT_BOOST_DOMAIN);
    let root = compute_signing_root(&object_root, &domain);
    assert_eq!(root, container_root(&object_root, &domain));
    assert_ne!(root, object_root);
    assert_ne!(root, compute_signing_root(&domain, &object_root));
}

#[test]
fn signing_root_of_zeros_is_the_zero_hash_of_two_chunks() {
    let root = compute_signing_root(&[0u8; 32], &[0u8; 32]);
    assert_eq!(hex(&root), "f5a5fd42d16a20302798ef6ed309979b43003d2320d9f0e8ea9831a92759fb4b");
}

#[test]
fn delegation_root_is_the_root_of_the_two_key_roots() {
    let delegator = BlsPublicKey::new([0xaa; 48]);
    let proxy = BlsPublicKey::new([0xbb; 48]);
    let delegator_root = FixedBytes::<48>::from(delegator.bytes).tree_hash_root();
    let proxy_root = FixedBytes::<48>::from(proxy.bytes).tree_hash_root();
    let expected = container_root(delegator_root.as_slice(), proxy_root.as_slice());
    assert_eq!(delegation_root(&delegator, &proxy), expected);
    assert_ne!(delegation_root(&proxy, &delegator), expected);
}

#[test]
fn ecdsa_delegation_root_is_the_root_of_the_two_key_roots() {
    let delegator = BlsPublicKey::new([0xaa; 48]);
    let proxy = EcdsaPublicKey { encoded: [0x02; 33] };
    let delegator_root = FixedBytes::<48>::from(delegator.bytes).tree_hash_root();
    let proxy_root = FixedBytes::<33>::from(proxy.encoded).tree_hash_root();
    let expected = container_root(delegator_root.as_slice(), proxy_root.as_slice());
    assert_eq!(ecdsa_delegation_root(&delegator, &proxy), expected);
}
