use cb_signer::error::SignerModuleError;
use cb_signer::manager::local::{
    verify_delegation, verify_signature, ConsensusSigner, LocalSigningManager,
};
use cb_signer::signature::{
    compute_domain, compute_signing_root, ecdsa_delegation_root, COMMIT_BOOST_DOMAIN,
};
use cb_signer::types::{BlsPublicKey, BlsSignature, Chain, ConsensusProxyMap, ModuleId};
use k256::ecdsa::signature::hazmat::PrehashVerifier;
use k256::ecdsa::{RecoveryId, Signature, VerifyingKey};

fn hex(bytes: &[u8]) -> String {
    bytes.iter().map(|b| format!("{b:02x}")).collect()
}

fn module(name: &str) -> ModuleId {
    ModuleId(name.to_string())
}

fn secret(last: u8) -> [u8; 32] {
    let mut bytes = [0u8; 32];
    bytes[31] = last;
    bytes
}

fn signer(last: u8) -> ConsensusSigner {
    ConsensusSigner::new_from_bytes(secret(last)).unwrap()
}

fn manager(chain: Chain) -> LocalSigningManager<()> {
    let mut manager = LocalSigningManager::new(chain, None);
    manager.add_consensus_signer(signer(1));
    manager.add_consensus_signer(signer(2));
    manager
}

#[test]
fn public_key_of_the_secret_one_is_the_generator() {
    assert_eq!(
        hex(&signer(1).pubkey.bytes),
        "97f1d3a73197d7942695638c4fa9ac0fc3688c4f9774b905a14e3a3f171bac586c55e83ff97a1aeffb3af00adb22c6bb"
    );
    assert_eq!(signer(1).secret, secret(1));
    assert_ne!(signer(1).pubkey, signer(2).pubkey);
}

#[test]
fn bytes_that_are_no_secret_key_make_no_signer() {
    assert!(ConsensusSigner::new_from_bytes([0u8; 32]).is_none());
    assert!(ConsensusSigner::new_from_bytes([0xff; 32]).is_none());
    assert!(ConsensusSigner::new_from_bytes([0x01; 32]).is_some());
}

#[test]
fn new_manager_holds_nothing() {
    let manager: LocalSigningManager<String> =
        LocalSigningManager::new(Chain::Sepolia, Some("store".to_string()));
    assert_eq!(manager.chain, Chain::Sepolia);
    assert_eq!(manager.proxy_store, Some("store".to_string()));
    assert!(manager.consensus_pubkeys().is_empty());
    assert!(manager.get_consensus_proxy_maps(&module("mev")).is_empty());
}

#[test]
fn consensus_signers_are_kept_in_order_and_replaced_by_key() {
    let mut manager = manager(Chain::Mainnet);
    assert_eq!(manager.consensus_pubkeys(), vec![signer(1).pubkey, signer(2).pubkey]);
    manager.add_consensus_signer(signer(1));
    manager.add_consensus_signer(signer(3));
    assert_eq!(
        manager.consensus_pubkeys(),
        vec![signer(1).pubkey, signer(2).pubkey, signer(3).pubkey]
    );
    assert!(manager.has_consensus(&signer(3).pubkey));
    assert!(!manager.has_consensus(&signer(4).pubkey));
}

#[test]
fn local_sign_consensus_verifies_under_the_mainnet_domain() {
    let manager = manager(Chain::Mainnet);
    let pubkey = signer(1).pubkey;
    let signature = manager.sign_consensus(&pubkey, &[0u8; 32]).unwrap();
    assert!(verify_signature(Chain::Mainnet, &pubkey, &[0u8; 32], &signature));
    assert!(!verify_signature(Chain::Holesky, &pubkey, &[0u8; 32], &signature));
    assert!(!verify_signature(Chain::Mainnet, &pubkey, &[1u8; 32], &signature));
    assert!(!verify_signature(Chain::Mainnet, &signer(2).pubkey, &[0u8; 32], &signature));
}

#[test]
fn sign_consensus_is_deterministic_and_independent_of_order() {
    let manager = manager(Chain::Holesky);
    let first = manager.sign_consensus(&signer(1).pubkey, &[7u8; 32]).unwrap();
    let other = manager.sign_consensus(&signer(2).pubkey, &[7u8; 32]).unwrap();
    let again = manager.sign_consensus(&signer(1).pubkey, &[7u8; 32]).unwrap();
    assert_eq!(first, again);
    assert_ne!(first, other);
    let mut reordered = LocalSigningManager::<()>::new(Chain::Holesky, None);
    reordered.add_consensus_signer(signer(2));
    reordered.add_consensus_signer(signer(1));
    assert_eq!(reordered.sign_consensus(&signer(1).pubkey, &[7u8; 32]), Ok(first));
}

#[test]
fn signature_is_over_the_signing_root() {
    let manager = manager(Chain::Mainnet);
    let pubkey = signer(1).pubkey;
    let signature = manager.sign_consensus(&pubkey, &[9u8; 32]).unwrap();
    let domain = compute_domain(Chain::Mainnet, COMMIT_BOOST_DOMAIN);
    let root = compute_signing_root(&[9u8; 32], &domain);
    let key = blst::min_pk::PublicKey::from_bytes(&pubkey.bytes).unwrap();
    let sig = blst::min_pk::Signature::from_bytes(&signature.bytes).unwrap();
    let dst = b"BLS_SIG_BLS12381G2_XMD:SHA-256_SSWU_RO_POP_";
    assert_eq!(sig.verify(true, &root, dst, &[], &key, true), blst::BLST_ERROR::BLST_SUCCESS);
    assert_ne!(sig.verify(true, &[9u8; 32], dst, &[], &key, true), blst::BLST_ERROR::BLST_SUCCESS);
}

#[test]
fn unknown_consensus_key_is_a_404() {
    let manager = manager(Chain::Mainnet);
    let unknown = BlsPublicKey::new([0x01; 48]);
    let error = manager.sign_consensus(&unknown, &[0u8; 32]).unwrap_err();
    assert_eq!(error, SignerModuleError::UnknownConsensusSigner(vec![0x01; 48]));
    let (status, body) = error.into_response();
    assert_eq!(status, 404);
    assert_eq!(body, format!("unknown consensus signer: 0x{}", "01".repeat(48)));
}

#[test]
fn garbage_does_not_verify() {
    let pubkey = signer(1).pubkey;
    assert!(!verify_signature(Chain::Mainnet, &pubkey, &[0u8; 32], &BlsSignature::new([0; 96])));
    assert!(!verify_signature(
        Chain::Mainnet,
        &BlsPublicKey::new([0; 48]),
        &[0u8; 32],
        &BlsSignature::new([0; 96])
    ));
}

#[test]
fn minted_bls_proxy_is_delegated_by_the_consensus_key() {
    let mut manager = manager(Chain::Mainnet);
    let delegator = signer(1).pubkey;
    let delegation = manager.create_proxy_bls(module("mev"), delegator).unwrap();
    assert_eq!(delegation.message.delegator, delegator);
    assert_ne!(delegation.message.proxy, delegator);
    assert!(verify_delegation(Chain::Mainnet, &delegation));
    assert!(!verify_delegation(Chain::Holesky, &delegation));
    let mut forged = delegation;
    forged.message.proxy = signer(2).pubkey;
    assert!(!verify_delegation(Chain::Mainnet, &forged));
    let kept = manager.bls_proxy_signer(&delegation.message.proxy).unwrap();
    assert_eq!(kept.delegation, delegation);
    assert_eq!(kept.module_id, module("mev"));
    assert_eq!(
        ConsensusSigner::new_from_bytes(kept.secret).unwrap().pubkey,
        delegation.message.proxy
    );
}

#[test]
fn minting_from_the_same_key_material_gives_the_same_proxy() {
    let mut first = manager(Chain::Mainnet);
    let mut second = manager(Chain::Mainnet);
    let a = first.create_proxy_bls_from(module("mev"), signer(1).pubkey, [3; 32]).unwrap();
    let b = second.create_proxy_bls_from(module("other"), signer(1).pubkey, [3; 32]).unwrap();
    let c = second.create_proxy_bls_from(module("other"), signer(1).pubkey, [4; 32]).unwrap();
    assert_eq!(a, b);
    assert_ne!(a.message.proxy, c.message.proxy);
}

#[test]
fn fresh_mintings_give_distinct_proxies() {
    let mut manager = manager(Chain::Mainnet);
    let a = manager.create_proxy_bls(module("mev"), signer(1).pubkey).unwrap();
    let b = manager.create_proxy_bls(module("mev"), signer(1).pubkey).unwrap();
    assert_ne!(a.message.proxy, b.message.proxy);
    assert!(verify_delegation(Chain::Mainnet, &a));
    assert!(verify_delegation(Chain::Mainnet, &b));
}

#[test]
fn minting_under_an_unknown_key_changes_nothing() {
    let mut manager = manager(Chain::Mainnet);
    let unknown = signer(9).pubkey;
    assert_eq!(
        manager.create_proxy_bls(module("mev"), unknown),
        Err(SignerModuleError::UnknownConsensusSigner(unknown.to_vec()))
    );
    assert_eq!(
        manager.create_proxy_ecdsa(module("mev"), unknown),
        Err(SignerModuleError::UnknownConsensusSigner(unknown.to_vec()))
    );
    assert!(manager.bls_proxies.is_empty());
    assert!(manager.ecdsa_proxies.is_empty());
}

#[test]
fn proxy_maps_show_each_module_its_proxies_under_their_delegators() {
    let mut manager = manager(Chain::Mainnet);
    let (one, two) = (signer(1).pubkey, signer(2).pubkey);
    let a = manager.create_proxy_bls(module("mev"), one).unwrap().message.proxy;
    let b = manager.create_proxy_bls(module("preconf"), one).unwrap().message.proxy;
    let c = manager.create_proxy_bls(module("mev"), two).unwrap().message.proxy;
    let d = manager.create_proxy_bls(module("mev"), one).unwrap().message.proxy;
    let e = manager.create_proxy_ecdsa(module("mev"), two).unwrap().message.proxy;
    assert_eq!(
        manager.get_consensus_proxy_maps(&module("mev")),
        vec![
            ConsensusProxyMap { consensus: one, proxy_bls: vec![a, d], proxy_ecdsa: vec![] },
            ConsensusProxyMap { consensus: two, proxy_bls: vec![c], proxy_ecdsa: vec![e] },
        ]
    );
    assert_eq!(
        manager.get_consensus_proxy_maps(&module("preconf")),
        vec![
            ConsensusProxyMap { consensus: one, proxy_bls: vec![b], proxy_ecdsa: vec![] },
            ConsensusProxyMap { consensus: two, proxy_bls: vec![], proxy_ecdsa: vec![] },
        ]
    );
    assert!(manager.has_proxy_bls_for_module(&a, &module("mev")));
    assert!(!manager.has_proxy_bls_for_module(&a, &module("preconf")));
    assert!(!manager.has_proxy_bls_for_module(&one, &module("mev")));
    assert!(manager.has_proxy_ecdsa_for_module(&e, &module("mev")));
    assert!(!manager.has_proxy_ecdsa_for_module(&e, &module("preconf")));
}

#[test]
fn proxy_signs_with_its_own_key() {
    let mut manager = manager(Chain::Holesky);
    let proxy = manager.create_proxy_bls(module("mev"), signer(1).pubkey).unwrap().message.proxy;
    let signature = manager.sign_proxy_bls(&proxy, &[5u8; 32]).unwrap();
    assert!(verify_signature(Chain::Holesky, &proxy, &[5u8; 32], &signature));
    assert!(!verify_signature(Chain::Holesky, &signer(1).pubkey, &[5u8; 32], &signature));
    assert_eq!(
        manager.sign_proxy_bls(&signer(1).pubkey, &[5u8; 32]),
        Err(SignerModuleError::UnknownProxySigner(signer(1).pubkey.to_vec()))
    );
}

#[test]
fn public_key_of_the_ecdsa_secret_one_is_the_generator() {
    let mut manager = manager(Chain::Mainnet);
    let delegation =
        manager.create_proxy_ecdsa_from(module("mev"), signer(1).pubkey, secret(1)).unwrap();
    assert_eq!(
        hex(&delegation.message.proxy.encoded),
        "0279be667ef9dcbbac55a06295ce870b07029bfcdb2dce28d959f2815b16f81798"
    );
    let root = ecdsa_delegation_root(&delegation.message.delegator, &delegation.message.proxy);
    assert!(verify_signature(Chain::Mainnet, &signer(1).pubkey, &root, &delegation.signature));
    assert_eq!(
        manager.create_proxy_ecdsa_from(module("mev"), signer(1).pubkey, [0; 32]),
        Err(SignerModuleError::Internal("no key could be generated".to_string()))
    );
}

#[test]
fn ecdsa_proxy_signs_the_signing_root_with_recovery_byte() {
    let mut manager = manager(Chain::Mainnet);
    let proxy = manager.create_proxy_ecdsa(module("mev"), signer(1).pubkey).unwrap().message.proxy;
    let signature = manager.sign_proxy_ecdsa(&proxy, &[5u8; 32]).unwrap();
    assert_eq!(signature.bytes.len(), 65);
    let domain = compute_domain(Chain::Mainnet, COMMIT_BOOST_DOMAIN);
    let root = compute_signing_root(&[5u8; 32], &domain);
    let key = VerifyingKey::from_sec1_bytes(&proxy.encoded).unwrap();
    let rs = Signature::from_slice(&signature.bytes[..64]).unwrap();
    assert!(key.verify_prehash(&root, &rs).is_ok());
    assert!(key.verify_prehash(&[5u8; 32], &rs).is_err());
    let recovery = RecoveryId::from_byte(signature.bytes[64]).unwrap();
    assert_eq!(VerifyingKey::recover_from_prehash(&root, &rs, recovery).unwrap(), key);
    assert_eq!(manager.sign_proxy_ecdsa(&proxy, &[5u8; 32]), Ok(signature));
    let kept = manager.ecdsa_proxy_signer(&proxy).unwrap();
    assert_eq!(kept.module_id, module("mev"));
}
