use cb_signer::error::SignerModuleError;
use cb_signer::manager::dirk::{Account, DirkAccount, DirkManager, Reply, ResponseState};
use cb_signer::manager::protocol::{
    read_password, read_signature, unlock_account, Effect, SignProgress, SignSession, SignStage,
};
use cb_signer::signature::{compute_domain, COMMIT_BOOST_DOMAIN};
use cb_signer::types::{BlsPublicKey, BlsSignature, Chain};

fn key(byte: u8) -> BlsPublicKey {
    BlsPublicKey::new([byte; 48])
}

fn manager(unlock: bool) -> DirkManager<()> {
    DirkManager {
        chain: Chain::Holesky,
        accounts: vec![
            Account { wallet: "wallet1".to_string(), name: "acct1".to_string(), public_key: Some(key(1)) },
            Account { wallet: "wallet2".to_string(), name: "acct2".to_string(), public_key: None },
        ],
        unlock,
        secrets_path: "/secrets".to_string(),
        proxy_store: None,
    }
}

fn sign_effect(pubkey: BlsPublicKey, data: [u8; 32]) -> Effect {
    Effect::Sign { pubkey, domain: compute_domain(Chain::Holesky, COMMIT_BOOST_DOMAIN), data }
}

fn signed(byte: u8) -> Reply {
    Reply::Signature(ResponseState::Succeeded, vec![byte; 96])
}

fn denied() -> Reply {
    Reply::Signature(ResponseState::Denied, vec![])
}

fn communication(text: &str) -> SignProgress {
    SignProgress::Done(Err(SignerModuleError::DirkCommunicationError(text.to_string())))
}

fn next(progress: SignProgress) -> (SignSession, Effect) {
    match progress {
        SignProgress::Continue(session, effect) => (session, effect),
        SignProgress::Done(outcome) => panic!("conversation ended with {outcome:?}"),
    }
}

#[test]
fn request_signature_opens_with_the_signing_request() {
    let dirk = manager(false);
    let (session, effect) = dirk.request_signature(key(1), [7; 32]);
    assert_eq!(
        session,
        SignSession { pubkey: key(1), object_root: [7; 32], stage: SignStage::FirstSignature }
    );
    assert_eq!(effect, sign_effect(key(1), [7; 32]));
}

#[test]
fn signing_request_carries_the_commit_boost_domain_of_the_chain() {
    for chain in [Chain::Mainnet, Chain::Holesky, Chain::Sepolia] {
        let mut dirk = manager(true);
        dirk.chain = chain;
        let (_, effect) = dirk.request_signature(key(1), [7; 32]);
        match effect {
            Effect::Sign { pubkey, domain, data } => {
                assert_eq!(pubkey, key(1));
                assert_eq!(data, [7; 32]);
                assert_eq!(domain, compute_domain(chain, COMMIT_BOOST_DOMAIN));
            }
            other => panic!("unexpected effect {other:?}"),
        }
    }
}

#[test]
fn a_granted_signature_ends_the_conversation() {
    let dirk = manager(true);
    let (session, _) = dirk.request_signature(key(1), [7; 32]);
    assert_eq!(
        dirk.continue_signature(session, &signed(5)),
        SignProgress::Done(Ok(BlsSignature::new([5; 96])))
    );
}

#[test]
fn a_malformed_signature_is_a_communication_error() {
    let dirk = manager(true);
    for length in [0usize, 95, 97] {
        let (session, _) = dirk.request_signature(key(1), [7; 32]);
        assert_eq!(
            dirk.continue_signature(
                session,
                &Reply::Signature(ResponseState::Succeeded, vec![5; length])
            ),
            communication("return value is not a valid signature")
        );
    }
}

#[test]
fn a_failed_call_is_a_communication_error() {
    let dirk = manager(true);
    let (session, _) = dirk.request_signature(key(1), [7; 32]);
    assert_eq!(
        dirk.continue_signature(session, &Reply::Failed("status: Unavailable".to_string())),
        communication("error on sign request: status: Unavailable")
    );
}

#[test]
fn a_refusal_without_unlock_is_a_communication_error() {
    let dirk = manager(false);
    for state in [ResponseState::Denied, ResponseState::Failed, ResponseState::Unknown] {
        let (session, _) = dirk.request_signature(key(1), [7; 32]);
        assert_eq!(
            dirk.continue_signature(session, &Reply::Signature(state, vec![5; 96])),
            communication("sign request returned error")
        );
    }
}

#[test]
fn a_failure_with_unlock_is_not_retried() {
    let dirk = manager(true);
    for state in [ResponseState::Failed, ResponseState::Unknown] {
        let (session, _) = dirk.request_signature(key(1), [7; 32]);
        assert_eq!(
            dirk.continue_signature(session, &Reply::Signature(state, vec![5; 96])),
            communication("sign request returned error")
        );
    }
}

#[test]
fn denied_signature_is_retried_once_after_unlock() {
    let dirk = manager(true);
    let (session, first) = dirk.request_signature(key(1), [7; 32]);
    assert_eq!(first, sign_effect(key(1), [7; 32]));

    let (session, effect) = next(dirk.continue_signature(session, &denied()));
    assert_eq!(effect, Effect::ReadPassword { account: "wallet1/acct1".to_string() });

    let (session, effect) =
        next(dirk.continue_signature(session, &Reply::Password("s3cret".to_string())));
    assert_eq!(
        effect,
        Effect::Unlock { account: "wallet1/acct1".to_string(), passphrase: b"s3cret".to_vec() }
    );

    let (session, effect) =
        next(dirk.continue_signature(session, &Reply::Unlocked(ResponseState::Succeeded)));
    assert_eq!(effect, sign_effect(key(1), [7; 32]));
    assert_eq!(session.stage, SignStage::SecondSignature);

    assert_eq!(
        dirk.continue_signature(session, &signed(9)),
        SignProgress::Done(Ok(BlsSignature::new([9; 96])))
    );
}

#[test]
fn second_denial_is_final() {
    let dirk = manager(true);
    let (session, _) = dirk.request_signature(key(1), [7; 32]);
    let (session, _) = next(dirk.continue_signature(session, &denied()));
    let (session, _) = next(dirk.continue_signature(session, &Reply::Password("s3cret".to_string())));
    let (session, _) =
        next(dirk.continue_signature(session, &Reply::Unlocked(ResponseState::Succeeded)));
    let outcome = dirk.continue_signature(session, &denied());
    assert_eq!(outcome, communication("sign request returned error"));
    match outcome {
        SignProgress::Done(Err(error)) => assert_eq!(error.status_code(), 502),
        other => panic!("unexpected progress {other:?}"),
    }
}

#[test]
fn passphrase_bytes_are_utf8() {
    let dirk = manager(true);
    let (session, _) = dirk.request_signature(key(1), [7; 32]);
    let (session, _) = next(dirk.continue_signature(session, &denied()));
    let (_, effect) = next(dirk.continue_signature(session, &Reply::Password("pä§".to_string())));
    assert_eq!(
        effect,
        Effect::Unlock { account: "wallet1/acct1".to_string(), passphrase: "pä§".as_bytes().to_vec() }
    );
}

#[test]
fn unknown_key_is_looked_up_in_a_listing() {
    let dirk = manager(true);
    let (session, _) = dirk.request_signature(key(2), [7; 32]);
    let (session, effect) = next(dirk.continue_signature(session, &denied()));
    assert_eq!(
        effect,
        Effect::ListAccounts { paths: vec!["wallet1".to_string(), "wallet2".to_string()] }
    );
    let listing = Reply::Accounts(
        ResponseState::Succeeded,
        vec![
            DirkAccount { name: "wallet1/acct1".to_string(), public_key: vec![1; 48] },
            DirkAccount { name: "wallet2/acct2/mev/77".to_string(), public_key: vec![2; 48] },
        ],
    );
    let (session, effect) = next(dirk.continue_signature(session, &listing));
    assert_eq!(effect, Effect::ReadPassword { account: "wallet2/acct2/mev/77".to_string() });
    assert_eq!(session.stage, SignStage::ReadingPassword { account: "wallet2/acct2/mev/77".to_string() });
}

#[test]
fn key_that_no_account_has_is_an_unknown_consensus_signer() {
    let dirk = manager(true);
    let (session, _) = dirk.request_signature(key(3), [7; 32]);
    let (session, _) = next(dirk.continue_signature(session, &denied()));
    let listing = Reply::Accounts(
        ResponseState::Succeeded,
        vec![DirkAccount { name: "wallet1/acct1".to_string(), public_key: vec![1; 48] }],
    );
    assert_eq!(
        dirk.continue_signature(session, &listing),
        SignProgress::Done(Err(SignerModuleError::UnknownConsensusSigner(vec![3; 48])))
    );
}

#[test]
fn failed_listing_ends_the_retry() {
    let dirk = manager(true);
    let (session, _) = dirk.request_signature(key(3), [7; 32]);
    let (session, _) = next(dirk.continue_signature(session.clone(), &denied()));
    assert_eq!(
        dirk.continue_signature(session.clone(), &Reply::Failed("reset".to_string())),
        communication("error listing accounts: reset")
    );
    assert_eq!(
        dirk.continue_signature(session, &Reply::Accounts(ResponseState::Denied, vec![])),
        communication("list accounts request returned error")
    );
}

#[test]
fn missing_secrets_file_is_an_internal_error() {
    let dirk = manager(true);
    let (session, _) = dirk.request_signature(key(1), [7; 32]);
    let (session, _) = next(dirk.continue_signature(session, &denied()));
    let outcome = dirk.continue_signature(
        session,
        &Reply::Failed("No such file or directory (os error 2)".to_string()),
    );
    assert_eq!(
        outcome,
        SignProgress::Done(Err(SignerModuleError::Internal(
            "error reading password for account 'wallet1/acct1': No such file or directory (os error 2)"
                .to_string()
        )))
    );
}

#[test]
fn refused_unlock_ends_the_retry() {
    let dirk = manager(true);
    let (session, _) = dirk.request_signature(key(1), [7; 32]);
    let (session, _) = next(dirk.continue_signature(session, &denied()));
    let (session, _) = next(dirk.continue_signature(session, &Reply::Password("p".to_string())));
    assert_eq!(
        dirk.continue_signature(session.clone(), &Reply::Unlocked(ResponseState::Denied)),
        communication("unlock request for 'wallet1/acct1' returned error")
    );
    assert_eq!(
        dirk.continue_signature(session, &Reply::Failed("timeout".to_string())),
        communication("error unlocking account 'wallet1/acct1': timeout")
    );
}

#[test]
fn a_reply_of_the_wrong_kind_is_an_internal_error() {
    let dirk = manager(true);
    let unexpected = SignProgress::Done(Err(SignerModuleError::Internal("unexpected reply".to_string())));
    let (session, _) = dirk.request_signature(key(1), [7; 32]);
    assert_eq!(dirk.continue_signature(session.clone(), &Reply::Completed), unexpected);
    let (session, _) = next(dirk.continue_signature(session, &denied()));
    assert_eq!(dirk.continue_signature(session.clone(), &signed(1)), unexpected);
    let (session, _) = next(dirk.continue_signature(session, &Reply::Password("p".to_string())));
    assert_eq!(dirk.continue_signature(session, &Reply::Password("p".to_string())), unexpected);
}

#[test]
fn replies_are_read_alone_too() {
    assert_eq!(unlock_account("w/a", &Reply::Unlocked(ResponseState::Succeeded)), Ok(()));
    assert_eq!(
        unlock_account("w/a", &Reply::Unlocked(ResponseState::Failed)),
        Err(SignerModuleError::DirkCommunicationError(
            "unlock request for 'w/a' returned error".to_string()
        ))
    );
    assert_eq!(read_password("w/a", &Reply::Password("pw".to_string())), Ok("pw".to_string()));
    assert_eq!(
        read_password("w/a", &Reply::Failed("denied".to_string())),
        Err(SignerModuleError::Internal(
            "error reading password for account 'w/a': denied".to_string()
        ))
    );
    assert_eq!(read_signature(&signed(4)), Ok(BlsSignature::new([4; 96])));
    assert_eq!(
        read_signature(&denied()),
        Err(SignerModuleError::DirkCommunicationError("sign request returned error".to_string()))
    );
}
