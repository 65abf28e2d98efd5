use cb_signer::config::DirkConfig;
use cb_signer::error::SignerModuleError;
use cb_signer::manager::dirk::{
    find_listed_account, get_accounts_in_wallets, wallets_to_list, Account, DirkAccount,
    DirkManager, Reply, ResponseState, SetupError,
};
use cb_signer::types::{BlsPublicKey, Chain, ConsensusProxyMap, ModuleId};

fn key(byte: u8) -> BlsPublicKey {
    BlsPublicKey::new([byte; 48])
}

fn listed(name: &str, byte: u8) -> DirkAccount {
    DirkAccount { name: name.to_string(), public_key: vec![byte; 48] }
}

fn config(accounts: &[&str]) -> DirkConfig {
    DirkConfig {
        url: "https://dirk:8881".to_string(),
        accounts: accounts.iter().map(|a| a.to_string()).collect(),
        cert_path: "/certs/client.crt".to_string(),
        key_path: "/certs/client.key".to_string(),
        secrets_path: "/secrets".to_string(),
        ca_cert_path: None,
        server_domain: None,
        unlock: false,
    }
}

fn listing(accounts: Vec<DirkAccount>) -> Reply {
    Reply::Accounts(ResponseState::Succeeded, accounts)
}

fn manager(accounts: &[&str], listed_accounts: Vec<DirkAccount>) -> DirkManager<()> {
    DirkManager::new_from_config(Chain::Holesky, config(accounts), &listing(listed_accounts))
        .ok()
        .unwrap()
}

fn module(name: &str) -> ModuleId {
    ModuleId(name.to_string())
}

#[test]
fn complete_name_joins_wallet_and_name() {
    let account = Account { wallet: "wallet1".to_string(), name: "acct1".to_string(), public_key: None };
    assert_eq!(account.complete_name(), "wallet1/acct1");
    let nested =
        Account { wallet: "wallet1".to_string(), name: "acct1/sub".to_string(), public_key: None };
    assert_eq!(nested.complete_name(), "wallet1/acct1/sub");
}

#[test]
fn wallets_to_list_takes_the_text_before_the_first_slash() {
    let entries = vec![
        "wallet1/acct1".to_string(),
        "nowallet".to_string(),
        "wallet2/acct2/deep".to_string(),
        "wallet1/acct3".to_string(),
    ];
    assert_eq!(wallets_to_list(&entries), vec!["wallet1".to_string(), "wallet2".to_string()]);
    assert_eq!(wallets_to_list(&Vec::new()), Vec::<String>::new());
}

#[test]
fn listing_reply_is_read_by_its_state() {
    let accounts = vec![listed("wallet1/acct1", 1)];
    assert_eq!(
        get_accounts_in_wallets(&Reply::Accounts(ResponseState::Succeeded, accounts.clone())),
        Ok(&accounts)
    );
    for state in [ResponseState::Unknown, ResponseState::Denied, ResponseState::Failed] {
        assert_eq!(
            get_accounts_in_wallets(&Reply::Accounts(state, accounts.clone())),
            Err(SignerModuleError::DirkCommunicationError(
                "list accounts request returned error".to_string()
            ))
        );
    }
    assert_eq!(
        get_accounts_in_wallets(&Reply::Failed("connection reset".to_string())),
        Err(SignerModuleError::DirkCommunicationError(
            "error listing accounts: connection reset".to_string()
        ))
    );
    assert_eq!(
        get_accounts_in_wallets(&Reply::Completed),
        Err(SignerModuleError::Internal("unexpected reply".to_string()))
    );
}

#[test]
fn new_from_config_resolves_keys_by_full_name() {
    let dirk = manager(
        &["wallet1/acct1", "wallet2/acct2", "wallet3/acct3"],
        vec![
            listed("wallet2/acct2", 2),
            listed("wallet1/acct1/mev/1", 9),
            listed("wallet1/acct1", 1),
            listed("wallet1/acct1", 7),
        ],
    );
    assert_eq!(dirk.chain, Chain::Holesky);
    assert!(!dirk.unlock);
    assert_eq!(dirk.secrets_path, "/secrets");
    assert!(dirk.proxy_store.is_none());
    assert_eq!(
        dirk.accounts,
        vec![
            Account {
                wallet: "wallet1".to_string(),
                name: "acct1".to_string(),
                public_key: Some(key(1))
            },
            Account {
                wallet: "wallet2".to_string(),
                name: "acct2".to_string(),
                public_key: Some(key(2))
            },
            Account { wallet: "wallet3".to_string(), name: "acct3".to_string(), public_key: None },
        ]
    );
}

#[test]
fn new_from_config_skips_malformed_keys() {
    let dirk = manager(
        &["wallet1/acct1"],
        vec![
            DirkAccount { name: "wallet1/acct1".to_string(), public_key: vec![1; 47] },
            listed("wallet1/acct1", 5),
        ],
    );
    assert_eq!(dirk.accounts[0].public_key, Some(key(5)));
    let dirk = manager(
        &["wallet1/acct1"],
        vec![DirkAccount { name: "wallet1/acct1".to_string(), public_key: vec![] }],
    );
    assert_eq!(dirk.accounts[0].public_key, None);
}

#[test]
fn new_from_config_splits_at_the_first_slash() {
    let dirk = manager(&["wallet1/acct1/sub"], vec![listed("wallet1/acct1/sub", 3)]);
    assert_eq!(dirk.accounts[0].wallet, "wallet1");
    assert_eq!(dirk.accounts[0].name, "acct1/sub");
    assert_eq!(dirk.accounts[0].public_key, Some(key(3)));
}

#[test]
fn new_from_config_refuses_an_entry_without_slash() {
    let outcome = DirkManager::<()>::new_from_config(
        Chain::Holesky,
        config(&["wallet1/acct1", "broken", "also-broken"]),
        &listing(vec![]),
    );
    assert_eq!(outcome.err(), Some(SetupError::InvalidAccountName("broken".to_string())));
}

#[test]
fn new_from_config_fails_with_the_listing() {
    let outcome = DirkManager::<()>::new_from_config(
        Chain::Holesky,
        config(&["broken"]),
        &Reply::Accounts(ResponseState::Failed, vec![]),
    );
    assert_eq!(
        outcome.err(),
        Some(SetupError::Listing(SignerModuleError::DirkCommunicationError(
            "list accounts request returned error".to_string()
        )))
    );
}

#[test]
fn empty_configuration_gives_an_empty_backend() {
    let dirk = manager(&[], vec![listed("wallet1/acct1", 1)]);
    assert!(dirk.accounts.is_empty());
    assert!(dirk.wallets().is_empty());
    let reply = listing(vec![listed("wallet1/acct1", 1), listed("wallet1/acct1/mev/1", 2)]);
    assert_eq!(dirk.get_consensus_proxy_maps(&module("mev"), &reply), Ok(vec![]));
    assert_eq!(dirk.consensus_pubkeys(&reply), Ok(vec![]));
    assert_eq!(dirk.proxies(&reply), Ok(vec![]));
}

#[test]
fn with_proxy_store_sets_the_store_alone() {
    let dirk = DirkManager::<String>::new_from_config(
        Chain::Sepolia,
        config(&["wallet1/acct1"]),
        &listing(vec![listed("wallet1/acct1", 1)]),
    )
    .ok()
    .unwrap();
    let accounts = dirk.accounts.clone();
    let dirk = dirk.with_proxy_store("store".to_string());
    assert_eq!(dirk.proxy_store, Some("store".to_string()));
    assert_eq!(dirk.accounts, accounts);
    assert_eq!(dirk.chain, Chain::Sepolia);
}

#[test]
fn wallets_are_those_of_the_accounts_each_once() {
    let dirk = manager(&["w1/a", "w2/b", "w1/c", "w3/d", "w2/e"], vec![]);
    assert_eq!(dirk.wallets(), vec!["w1".to_string(), "w2".to_string(), "w3".to_string()]);
}

#[test]
fn cached_account_is_found_by_its_key() {
    let dirk =
        manager(&["w1/a", "w2/b", "w3/c"], vec![listed("w1/a", 1), listed("w3/c", 3), listed("w2/b", 1)]);
    assert_eq!(dirk.find_cached_account(&key(1)), Some("w1/a".to_string()));
    assert_eq!(dirk.find_cached_account(&key(3)), Some("w3/c".to_string()));
    assert_eq!(dirk.find_cached_account(&key(4)), None);
    assert!(dirk.is_configured_account("w2/b"));
    assert!(!dirk.is_configured_account("w2"));
    assert!(!dirk.is_configured_account("w2/b/mev/1"));
}

#[test]
fn listed_account_is_found_by_its_key_bytes() {
    let accounts = vec![
        DirkAccount { name: "short".to_string(), public_key: vec![1; 47] },
        listed("w1/a", 1),
        listed("w1/b", 1),
    ];
    assert_eq!(find_listed_account(&accounts, &key(1)), Some("w1/a".to_string()));
    assert_eq!(find_listed_account(&accounts, &key(2)), None);
    assert_eq!(find_listed_account(&vec![], &key(1)), None);
}

#[test]
fn consensus_pubkeys_are_the_known_keys_when_all_are_known() {
    let dirk = manager(&["w1/a", "w2/b"], vec![listed("w1/a", 1), listed("w2/b", 2)]);
    assert!(dirk.all_accounts_resolved());
    assert_eq!(dirk.registered_pubkeys(), vec![key(1), key(2)]);
    assert_eq!(dirk.consensus_pubkeys(&Reply::Failed("down".to_string())), Ok(vec![key(1), key(2)]));
}

#[test]
fn consensus_pubkeys_come_from_the_listing_when_one_is_missing() {
    let dirk = manager(&["w1/a", "w2/b"], vec![listed("w1/a", 1)]);
    assert!(!dirk.all_accounts_resolved());
    assert_eq!(dirk.registered_pubkeys(), vec![key(1)]);
    let reply = listing(vec![
        listed("w2/b", 2),
        listed("w9/z", 9),
        listed("w1/a/mev/1", 8),
        DirkAccount { name: "w1/a".to_string(), public_key: vec![1; 3] },
        listed("w1/a", 1),
    ]);
    assert_eq!(dirk.consensus_pubkeys(&reply), Ok(vec![key(2), key(1)]));
    assert_eq!(
        dirk.consensus_pubkeys(&Reply::Failed("down".to_string())),
        Err(SignerModuleError::DirkCommunicationError("error listing accounts: down".to_string()))
    );
}

#[test]
fn proxies_are_the_keys_under_configured_accounts() {
    let dirk = manager(&["w1/a", "w2/b"], vec![listed("w1/a", 1)]);
    let reply = listing(vec![
        listed("w1/a", 1),
        listed("w1/a/mev/1", 11),
        listed("w1/ab/mev/1", 12),
        listed("w2/b/preconf/7", 13),
        listed("w3/c/mev/1", 14),
        DirkAccount { name: "w1/a/mev/2".to_string(), public_key: vec![1, 2, 3] },
        listed("w1/a/", 15),
    ]);
    assert_eq!(dirk.proxies(&reply), Ok(vec![key(11), key(13), key(15)]));
    assert_eq!(
        dirk.proxies(&Reply::Accounts(ResponseState::Denied, vec![])),
        Err(SignerModuleError::DirkCommunicationError(
            "list accounts request returned error".to_string()
        ))
    );
}

#[test]
fn proxy_maps_show_a_module_its_own_proxies() {
    let dirk = manager(&["w1/a", "w2/b", "w3/c"], vec![listed("w1/a", 1), listed("w2/b", 2)]);
    let reply = listing(vec![
        listed("w1/a", 1),
        listed("w1/a/mev/1", 11),
        listed("w1/a/preconf/1", 12),
        listed("w2/b/mev/2", 13),
        listed("w1/a/mev/3", 14),
        listed("w1/a/mevx/1", 15),
        listed("w1/a/mev", 16),
        listed("w3/c/mev/1", 17),
        DirkAccount { name: "w2/b/mev/9".to_string(), public_key: vec![0; 49] },
    ]);
    assert_eq!(
        dirk.get_consensus_proxy_maps(&module("mev"), &reply),
        Ok(vec![
            ConsensusProxyMap { consensus: key(1), proxy_bls: vec![key(11), key(14)], proxy_ecdsa: vec![] },
            ConsensusProxyMap { consensus: key(2), proxy_bls: vec![key(13)], proxy_ecdsa: vec![] },
        ])
    );
    assert_eq!(
        dirk.get_consensus_proxy_maps(&module("preconf"), &reply),
        Ok(vec![
            ConsensusProxyMap { consensus: key(1), proxy_bls: vec![key(12)], proxy_ecdsa: vec![] },
            ConsensusProxyMap { consensus: key(2), proxy_bls: vec![], proxy_ecdsa: vec![] },
        ])
    );
    assert_eq!(
        dirk.get_consensus_proxy_maps(&module("nobody"), &reply),
        Ok(vec![
            ConsensusProxyMap { consensus: key(1), proxy_bls: vec![], proxy_ecdsa: vec![] },
            ConsensusProxyMap { consensus: key(2), proxy_bls: vec![], proxy_ecdsa: vec![] },
        ])
    );
}

#[test]
fn proxy_maps_are_the_same_for_the_same_listing() {
    let dirk = manager(&["w1/a"], vec![listed("w1/a", 1)]);
    let reply = listing(vec![listed("w1/a/mev/1", 11), listed("w1/a/mev/2", 12)]);
    let first = dirk.get_consensus_proxy_maps(&module("mev"), &reply);
    let second = dirk.get_consensus_proxy_maps(&module("mev"), &reply);
    assert_eq!(first, second);
}

#[test]
fn proxy_maps_only_grow_with_the_listing() {
    let dirk = manager(&["w1/a"], vec![listed("w1/a", 1)]);
    let earlier = listing(vec![listed("w1/a/mev/1", 11)]);
    let later = listing(vec![listed("w1/a/mev/2", 12), listed("w1/a/mev/1", 11)]);
    let before = dirk.get_consensus_proxy_maps(&module("mev"), &earlier).unwrap();
    let after = dirk.get_consensus_proxy_maps(&module("mev"), &later).unwrap();
    assert_eq!(before.len(), after.len());
    for (old, new) in before.iter().zip(after.iter()) {
        assert_eq!(old.consensus, new.consensus);
        for proxy in &old.proxy_bls {
            assert!(new.proxy_bls.contains(proxy));
        }
    }
    assert_eq!(after[0].proxy_bls, vec![key(12), key(11)]);
}

#[test]
fn proxy_maps_fail_with_the_listing() {
    let dirk = manager(&["w1/a"], vec![listed("w1/a", 1)]);
    assert_eq!(
        dirk.get_consensus_proxy_maps(&module("mev"), &Reply::Failed("tls".to_string())),
        Err(SignerModuleError::DirkCommunicationError("error listing accounts: tls".to_string()))
    );
    assert_eq!(
        dirk.get_consensus_proxy_maps(&module("mev"), &Reply::Password("x".to_string())),
        Err(SignerModuleError::Internal("unexpected reply".to_string()))
    );
}
