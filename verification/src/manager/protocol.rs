//! The Dirk backend's two conversations with Dirk, signing and the minting
//! of a proxy key, as state machines: each step takes the reply to the last
//! request and decides what to ask next, or how the conversation ends.

use crate::crypto::random_bytes;
use crate::encoding::{hex_encode, is_hex_digit, lemma_hex_string_shape};
use crate::error::{ErrorView, SignerModuleError};
use crate::manager::dirk::{
    cached_account, find_listed_account, get_accounts_in_wallets, is_configured, listed_account,
    listing_of, proxy_prefix, texts, unexpected, unexpected_reply, wallets_of, DirkManager, Reply,
    ResponseState,
};
use crate::signature::{
    compute_domain, delegation_root, delegation_root_of, domain_of, COMMIT_BOOST_DOMAIN,
};
use crate::text::{concat2, concat3, concat4, join, rsplit_once, split_last};
use crate::types::{
    BlsPublicKey, BlsSignature, Chain, DelegationView, ModuleId, ProxyDelegation,
    SignedProxyDelegation,
};
use vstd::prelude::*;
use vstd::string::*;
use vstd::utf8::encode_utf8;

verus! {

/// What the backend asks for next: a call to Dirk, or an operation on the
/// secrets directory or the proxy store.
#[derive(Clone, Debug, PartialEq, Eq)]
pub enum Effect {
    /// List the accounts of these wallets.
    ListAccounts { paths: Vec<String> },
    /// Sign `data` under `domain` with the account of this public key.
    Sign { pubkey: BlsPublicKey, domain: [u8; 32], data: [u8; 32] },
    /// Unlock the account with this passphrase.
    Unlock { account: String, passphrase: Vec<u8> },
    /// Create the account. Proxy accounts have one participant.
    Generate { account: String, passphrase: Vec<u8>, participants: u32, signing_threshold: u32 },
    /// Read the passphrase of the account from the file named after it
    /// under the secrets directory.
    ReadPassword { account: String },
    /// Create this directory under the secrets directory, parents included.
    CreateSecretsDir { directory: String },
    /// Write the passphrase to the file named after the account under the
    /// secrets directory.
    WritePassword { account: String, password: String },
    /// Keep the delegation in the proxy store, under the module.
    StoreDelegation { module_id: ModuleId, delegation: SignedProxyDelegation },
}

/// An `Effect` by the characters and bytes it carries.
pub enum EffectView {
    ListAccounts { paths: Seq<Seq<char>> },
    Sign { pubkey: Seq<u8>, domain: Seq<u8>, data: Seq<u8> },
    Unlock { account: Seq<char>, passphrase: Seq<u8> },
    Generate { account: Seq<char>, passphrase: Seq<u8>, participants: u32, signing_threshold: u32 },
    ReadPassword { account: Seq<char> },
    CreateSecretsDir { directory: Seq<char> },
    WritePassword { account: Seq<char>, password: Seq<char> },
    StoreDelegation { module_id: Seq<char>, delegation: DelegationView },
}

impl View for Effect {
    type V = EffectView;

    open spec fn view(&self) -> EffectView {
        match *self {
            Effect::ListAccounts { paths } => EffectView::ListAccounts { paths: texts(paths@) },
            Effect::Sign { pubkey, domain, data } => EffectView::Sign {
                pubkey: pubkey@,
                domain: domain@,
                data: data@,
            },
            Effect::Unlock { account, passphrase } => EffectView::Unlock {
                account: account@,
                passphrase: passphrase@,
            },
            Effect::Generate {
                account,
                passphrase,
                participants,
                signing_threshold,
            } => EffectView::Generate {
                account: account@,
                passphrase: passphrase@,
                participants,
                signing_threshold,
            },
            Effect::ReadPassword { account } => EffectView::ReadPassword { account: account@ },
            Effect::CreateSecretsDir { directory } => EffectView::CreateSecretsDir {
                directory: directory@,
            },
            Effect::WritePassword { account, password } => EffectView::WritePassword {
                account: account@,
                password: password@,
            },
            Effect::StoreDelegation { module_id, delegation } => EffectView::StoreDelegation {
                module_id: module_id@,
                delegation: delegation@,
            },
        }
    }
}

/// Where a signing conversation stands: what it waits for.
#[derive(Clone, Debug, PartialEq, Eq)]
pub enum SignStage {
    /// The answer to the first signing request.
    FirstSignature,
    /// The listing in which to look for the account of the key.
    Listing,
    /// The passphrase of the account.
    ReadingPassword { account: String },
    /// The answer to the unlock request.
    Unlocking { account: String },
    /// The answer to the second, and last, signing request.
    SecondSignature,
}

/// A `SignStage` by the characters it carries.
pub enum SignStageView {
    FirstSignature,
    Listing,
    ReadingPassword { account: Seq<char> },
    Unlocking { account: Seq<char> },
    SecondSignature,
}

impl View for SignStage {
    type V = SignStageView;

    open spec fn view(&self) -> SignStageView {
        match *self {
            SignStage::FirstSignature => SignStageView::FirstSignature,
            SignStage::Listing => SignStageView::Listing,
            SignStage::ReadingPassword { account } => SignStageView::ReadingPassword {
                account: account@,
            },
            SignStage::Unlocking { account } => SignStageView::Unlocking { account: account@ },
            SignStage::SecondSignature => SignStageView::SecondSignature,
        }
    }
}

/// A signing conversation: the key that is to sign, the root to be signed
/// and where the conversation stands.
#[derive(Clone, Debug, PartialEq, Eq)]
pub struct SignSession {
    pub pubkey: BlsPublicKey,
    pub object_root: [u8; 32],
    pub stage: SignStage,
}

/// A `SignSession` by the characters and bytes it carries.
pub struct SignSessionView {
    pub pubkey: Seq<u8>,
    pub object_root: Seq<u8>,
    pub stage: SignStageView,
}

impl View for SignSession {
    type V = SignSessionView;

    open spec fn view(&self) -> SignSessionView {
        SignSessionView { pubkey: self.pubkey@, object_root: self.object_root@, stage: self.stage@ }
    }
}

/// How a signing conversation goes on: with a request, or with its result.
#[derive(Debug, PartialEq, Eq)]
pub enum SignProgress {
    Continue(SignSession, Effect),
    Done(Result<BlsSignature, SignerModuleError>),
}

/// A `SignProgress` by the characters and bytes it carries.
pub enum SignProgressView {
    Continue(SignSessionView, EffectView),
    Done(Result<Seq<u8>, ErrorView>),
}

impl View for SignProgress {
    type V = SignProgressView;

    open spec fn view(&self) -> SignProgressView {
        match *self {
            SignProgress::Continue(session, effect) => SignProgressView::Continue(
                session@,
                effect@,
            ),
            SignProgress::Done(Ok(signature)) => SignProgressView::Done(Ok(signature@)),
            SignProgress::Done(Err(error)) => SignProgressView::Done(Err(error@)),
        }
    }
}

/// The signing request of a conversation: the key, the root, and the
/// domain of proposer commitments on the backend's chain.
pub open spec fn sign_request(chain: Chain, pubkey: Seq<u8>, object_root: Seq<u8>) -> EffectView {
    EffectView::Sign {
        pubkey,
        domain: domain_of(chain, COMMIT_BOOST_DOMAIN@),
        data: object_root,
    }
}

/// What the answer to an unlock request for `account` means: nothing to
/// report where Dirk succeeded, else a communication error.
pub open spec fn unlock_outcome(account: Seq<char>, reply: Reply) -> Result<(), ErrorView> {
    match reply {
        Reply::Failed(detail) => Err(
            ErrorView::DirkCommunicationError(
                "error unlocking account '"@ + account + "': "@ + detail@,
            ),
        ),
        Reply::Unlocked(state) => if state == ResponseState::Succeeded {
            Ok(())
        } else {
            Err(
                ErrorView::DirkCommunicationError(
                    "unlock request for '"@ + account + "' returned error"@,
                ),
            )
        },
        _ => Err(ErrorView::Internal(unexpected_reply())),
    }
}

/// What the answer to the reading of the passphrase of `account` means: the
/// passphrase, or an internal error where the file could not be read.
pub open spec fn password_outcome(account: Seq<char>, reply: Reply) -> Result<Seq<char>, ErrorView> {
    match reply {
        Reply::Failed(detail) => Err(
            ErrorView::Internal(
                "error reading password for account '"@ + account + "': "@ + detail@,
            ),
        ),
        Reply::Password(password) => Ok(password@),
        _ => Err(ErrorView::Internal(unexpected_reply())),
    }
}

/// What the answer to a signing request means once no retry is in order:
/// the signature where Dirk succeeded and sent 96 bytes, else a
/// communication error.
pub open spec fn signature_outcome(reply: Reply) -> Result<Seq<u8>, ErrorView> {
    match reply {
        Reply::Failed(detail) => Err(
            ErrorView::DirkCommunicationError("error on sign request: "@ + detail@),
        ),
        Reply::Signature(state, signature) => if state != ResponseState::Succeeded {
            Err(ErrorView::DirkCommunicationError("sign request returned error"@))
        } else if signature@.len() == 96 {
            Ok(signature@)
        } else {
            Err(ErrorView::DirkCommunicationError("return value is not a valid signature"@))
        },
        _ => Err(ErrorView::Internal(unexpected_reply())),
    }
}

/// True when the answer to the first signing request calls for an unlock
/// and a second request: Dirk denied it, and the backend unlocks.
pub open spec fn calls_for_unlock(unlock: bool, reply: Reply) -> bool {
    unlock && (reply matches Reply::Signature(state, _) && state == ResponseState::Denied)
}

/// The step of a signing conversation: what follows from `reply` where the
/// conversation stands as `session` says.
///
/// The first signing request is retried once, after an unlock, where Dirk
/// denied it and the backend unlocks. The account to unlock is the
/// configured one with the key, else the first listed one with it; its
/// passphrase is read from the secrets directory. Every other answer ends
/// the conversation.
pub open spec fn sign_step<S>(
    manager: DirkManager<S>,
    session: SignSessionView,
    reply: Reply,
) -> SignProgressView {
    match session.stage {
        SignStageView::FirstSignature => if calls_for_unlock(manager.unlock, reply) {
            match cached_account(manager.accounts@, session.pubkey) {
                Some(account) => SignProgressView::Continue(
                    SignSessionView { stage: SignStageView::ReadingPassword { account }, ..session },
                    EffectView::ReadPassword { account },
                ),
                None => SignProgressView::Continue(
                    SignSessionView { stage: SignStageView::Listing, ..session },
                    EffectView::ListAccounts { paths: wallets_of(manager.accounts@) },
                ),
            }
        } else {
            SignProgressView::Done(signature_outcome(reply))
        },
        SignStageView::Listing => match listing_of(reply) {
            Ok(listing) => match listed_account(listing, session.pubkey) {
                Some(account) => SignProgressView::Continue(
                    SignSessionView { stage: SignStageView::ReadingPassword { account }, ..session },
                    EffectView::ReadPassword { account },
                ),
                None => SignProgressView::Done(
                    Err(ErrorView::UnknownConsensusSigner(session.pubkey)),
                ),
            },
            Err(error) => SignProgressView::Done(Err(error)),
        },
        SignStageView::ReadingPassword { account } => match password_outcome(account, reply) {
            Ok(password) => SignProgressView::Continue(
                SignSessionView { stage: SignStageView::Unlocking { account }, ..session },
                EffectView::Unlock { account, passphrase: encode_utf8(password) },
            ),
            Err(error) => SignProgressView::Done(Err(error)),
        },
        SignStageView::Unlocking { account } => match unlock_outcome(account, reply) {
            Ok(_) => SignProgressView::Continue(
                SignSessionView { stage: SignStageView::SecondSignature, ..session },
                sign_request(manager.chain, session.pubkey, session.object_root),
            ),
            Err(error) => SignProgressView::Done(Err(error)),
        },
        SignStageView::SecondSignature => SignProgressView::Done(signature_outcome(reply)),
    }
}

/// What the answer to an unlock request for `account` means.
pub fn unlock_account(account: &str, reply: &Reply) -> (outcome: Result<(), SignerModuleError>)
    ensures
        match outcome {
            Ok(_) => unlock_outcome(account@, *reply) is Ok,
            Err(error) => unlock_outcome(account@, *reply) matches Err(meant) && meant == error@,
        },
{
    match reply {
        Reply::Failed(detail) => Err(
            SignerModuleError::DirkCommunicationError(
                concat4("error unlocking account '", account, "': ", detail.as_str()),
            ),
        ),
        Reply::Unlocked(state) => {
            if *state == ResponseState::Succeeded {
                Ok(())
            } else {
                Err(
                    SignerModuleError::DirkCommunicationError(
                        concat3("unlock request for '", account, "' returned error"),
                    ),
                )
            }
        },
        _ => Err(unexpected()),
    }
}

/// What the answer to the reading of the passphrase of `account` means.
pub fn read_password(account: &str, reply: &Reply) -> (outcome: Result<String, SignerModuleError>)
    ensures
        match outcome {
            Ok(password) => password_outcome(account@, *reply) matches Ok(meant) && meant
                == password@,
            Err(error) => password_outcome(account@, *reply) matches Err(meant) && meant == error@,
        },
{
    match reply {
        Reply::Failed(detail) => Err(
            SignerModuleError::Internal(
                concat4("error reading password for account '", account, "': ", detail.as_str()),
            ),
        ),
        Reply::Password(password) => Ok(password.clone()),
        _ => Err(unexpected()),
    }
}

/// What the answer to a signing request means once no retry is in order.
pub fn read_signature(reply: &Reply) -> (outcome: Result<BlsSignature, SignerModuleError>)
    ensures
        match outcome {
            Ok(signature) => signature_outcome(*reply) matches Ok(meant) && meant == signature@,
            Err(error) => signature_outcome(*reply) matches Err(meant) && meant == error@,
        },
{
    match reply {
        Reply::Failed(detail) => Err(
            SignerModuleError::DirkCommunicationError(
                concat2("error on sign request: ", detail.as_str()),
            ),
        ),
        Reply::Signature(state, signature) => {
            if *state != ResponseState::Succeeded {
                Err(
                    SignerModuleError::DirkCommunicationError(
                        "sign request returned error".to_owned(),
                    ),
                )
            } else {
                match BlsSignature::from_slice(signature.as_slice()) {
                    Some(signature) => Ok(signature),
                    None => Err(
                        SignerModuleError::DirkCommunicationError(
                            "return value is not a valid signature".to_owned(),
                        ),
                    ),
                }
            }
        },
        _ => Err(unexpected()),
    }
}

impl<S> DirkManager<S> {
    /// The signing request for `object_root` with the key `pubkey`, under
    /// the domain of proposer commitments on the backend's chain.
    fn sign_effect(&self, pubkey: &BlsPublicKey, object_root: &[u8; 32]) -> (effect: Effect)
        ensures
            effect@ == sign_request(self.chain, pubkey@, object_root@),
    {
        Effect::Sign {
            pubkey: *pubkey,
            domain: compute_domain(self.chain, COMMIT_BOOST_DOMAIN),
            data: *object_root,
        }
    }

    /// Opens the conversation that has Dirk sign `object_root` with the
    /// account of `pubkey`: its first request is the signing request.
    pub fn request_signature(&self, pubkey: BlsPublicKey, object_root: [u8; 32]) -> (opening: (
        SignSession,
        Effect,
    ))
        ensures
            opening.0@ == (SignSessionView {
                pubkey: pubkey@,
                object_root: object_root@,
                stage: SignStageView::FirstSignature,
            }),
            opening.1@ == sign_request(self.chain, pubkey@, object_root@),
    {
        let effect = self.sign_effect(&pubkey, &object_root);
        (SignSession { pubkey, object_root, stage: SignStage::FirstSignature }, effect)
    }

    /// Takes a signing conversation one step further with the reply to its
    /// last request.
    pub fn continue_signature(&self, session: SignSession, reply: &Reply) -> (progress: SignProgress)
        ensures
            progress@ == sign_step(*self, session@, *reply),
    {
        let SignSession { pubkey, object_root, stage } = session;
        match stage {
            SignStage::FirstSignature => {
                let denied = match reply {
                    Reply::Signature(state, _) => *state == ResponseState::Denied,
                    _ => false,
                };
                if self.unlock && denied {
                    match self.find_cached_account(&pubkey) {
                        Some(account) => SignProgress::Continue(
                            SignSession {
                                pubkey,
                                object_root,
                                stage: SignStage::ReadingPassword { account: account.clone() },
                            },
                            Effect::ReadPassword { account },
                        ),
                        None => SignProgress::Continue(
                            SignSession { pubkey, object_root, stage: SignStage::Listing },
                            Effect::ListAccounts { paths: self.wallets() },
                        ),
                    }
                } else {
                    SignProgress::Done(read_signature(reply))
                }
            },
            SignStage::Listing => match get_accounts_in_wallets(reply) {
                Ok(listing) => match find_listed_account(listing, &pubkey) {
                    Some(account) => SignProgress::Continue(
                        SignSession {
                            pubkey,
                            object_root,
                            stage: SignStage::ReadingPassword { account: account.clone() },
                        },
                        Effect::ReadPassword { account },
                    ),
                    None => SignProgress::Done(
                        Err(SignerModuleError::UnknownConsensusSigner(pubkey.to_vec())),
                    ),
                },
                Err(error) => SignProgress::Done(Err(error)),
            },
            SignStage::ReadingPassword { account } => match read_password(account.as_str(), reply) {
                Ok(password) => {
                    let passphrase = password.as_str().as_bytes_vec();
                    SignProgress::Continue(
                        SignSession {
                            pubkey,
                            object_root,
                            stage: SignStage::Unlocking { account: account.clone() },
                        },
                        Effect::Unlock { account, passphrase },
                    )
                },
                Err(error) => SignProgress::Done(Err(error)),
            },
            SignStage::Unlocking { account } => match unlock_account(account.as_str(), reply) {
                Ok(_) => {
                    let effect = self.sign_effect(&pubkey, &object_root);
                    SignProgress::Continue(
                        SignSession { pubkey, object_root, stage: SignStage::SecondSignature },
                        effect,
                    )
                },
                Err(error) => SignProgress::Done(Err(error)),
            },
            SignStage::SecondSignature => SignProgress::Done(read_signature(reply)),
        }
    }
}

/// Where the minting of a proxy key stands: what it waits for.
#[derive(Clone, Debug, PartialEq, Eq)]
pub enum ProxyStage {
    /// The listing in which to look for the account of the consensus key.
    Resolving,
    /// Dirk's answer to the request for the new account.
    Generating { account: String },
    /// The directory for the passphrase. The new key is kept as Dirk sent it.
    CreatingDirectory { account: String, directory: String, public_key: Vec<u8> },
    /// The passphrase file.
    WritingPassword { account: String, public_key: Vec<u8> },
    /// The answer to the unlock request for the new account.
    Unlocking { account: String, proxy: BlsPublicKey },
    /// The signature of the consensus key over the delegation.
    Signing { proxy: BlsPublicKey, signing: SignSession },
    /// The proxy store.
    Storing { delegation: SignedProxyDelegation },
}

/// A `ProxyStage` by the characters and bytes it carries.
pub enum ProxyStageView {
    Resolving,
    Generating { account: Seq<char> },
    CreatingDirectory { account: Seq<char>, directory: Seq<char>, public_key: Seq<u8> },
    WritingPassword { account: Seq<char>, public_key: Seq<u8> },
    Unlocking { account: Seq<char>, proxy: Seq<u8> },
    Signing { proxy: Seq<u8>, signing: SignSessionView },
    Storing { delegation: DelegationView },
}

impl View for ProxyStage {
    type V = ProxyStageView;

    open spec fn view(&self) -> ProxyStageView {
        match *self {
            ProxyStage::Resolving => ProxyStageView::Resolving,
            ProxyStage::Generating { account } => ProxyStageView::Generating { account: account@ },
            ProxyStage::CreatingDirectory {
                account,
                directory,
                public_key,
            } => ProxyStageView::CreatingDirectory {
                account: account@,
                directory: directory@,
                public_key: public_key@,
            },
            ProxyStage::WritingPassword { account, public_key } => ProxyStageView::WritingPassword {
                account: account@,
                public_key: public_key@,
            },
            ProxyStage::Unlocking { account, proxy } => ProxyStageView::Unlocking {
                account: account@,
                proxy: proxy@,
            },
            ProxyStage::Signing { proxy, signing } => ProxyStageView::Signing {
                proxy: proxy@,
                signing: signing@,
            },
            ProxyStage::Storing { delegation } => ProxyStageView::Storing {
                delegation: delegation@,
            },
        }
    }
}

/// The minting of a proxy key: the module it is for, the consensus key it
/// is bound to, the identifier and passphrase of the new account, and where
/// the conversation stands.
#[derive(Clone, Debug, PartialEq, Eq)]
pub struct ProxySession {
    pub module_id: ModuleId,
    pub consensus_pubkey: BlsPublicKey,
    pub uuid: String,
    pub password: String,
    pub stage: ProxyStage,
}

/// A `ProxySession` by the characters and bytes it carries.
pub struct ProxySessionView {
    pub module_id: Seq<char>,
    pub consensus_pubkey: Seq<u8>,
    pub uuid: Seq<char>,
    pub password: Seq<char>,
    pub stage: ProxyStageView,
}

impl View for ProxySession {
    type V = ProxySessionView;

    open spec fn view(&self) -> ProxySessionView {
        ProxySessionView {
            module_id: self.module_id@,
            consensus_pubkey: self.consensus_pubkey@,
            uuid: self.uuid@,
            password: self.password@,
            stage: self.stage@,
        }
    }
}

/// How the minting of a proxy key goes on: with a request, or with its result.
#[derive(Debug, PartialEq, Eq)]
pub enum ProxyProgress {
    Continue(ProxySession, Effect),
    Done(Result<SignedProxyDelegation, SignerModuleError>),
}

/// A `ProxyProgress` by the characters and bytes it carries.
pub enum ProxyProgressView {
    Continue(ProxySessionView, EffectView),
    Done(Result<DelegationView, ErrorView>),
}

impl View for ProxyProgress {
    type V = ProxyProgressView;

    open spec fn view(&self) -> ProxyProgressView {
        match *self {
            ProxyProgress::Continue(session, effect) => ProxyProgressView::Continue(
                session@,
                effect@,
            ),
            ProxyProgress::Done(Ok(delegation)) => ProxyProgressView::Done(Ok(delegation@)),
            ProxyProgress::Done(Err(error)) => ProxyProgressView::Done(Err(error@)),
        }
    }
}

/// The name of the proxy account that `module` gets under the consensus
/// account `consensus` with the identifier `uuid`.
pub open spec fn proxy_account_name(consensus: Seq<char>, module: Seq<char>, uuid: Seq<char>) -> Seq<
    char,
> {
    proxy_prefix(consensus, module) + uuid
}

/// The shape of an identifier: 36 characters, hyphens at four places and
/// lowercase hexadecimal digits at the others.
pub open spec fn is_uuid_text(text: Seq<char>) -> bool {
    &&& text.len() == 36
    &&& forall|i: int|
        0 <= i < 36 ==> if i == 8 || i == 13 || i == 18 || i == 23 {
            #[trigger] text[i] == '-'
        } else {
            is_hex_digit(text[i])
        }
}

/// The shape of a passphrase: 64 lowercase hexadecimal digits.
pub open spec fn is_password_text(text: Seq<char>) -> bool {
    &&& text.len() == 64
    &&& forall|i: int| 0 <= i < 64 ==> is_hex_digit(#[trigger] text[i])
}

/// Calls `uuid::Uuid::new_v4` and writes the identifier in its hyphenated
/// form. Trusted: the text has 36 characters, hyphens after the groups of
/// 8, 4, 4 and 4 digits, and lowercase hexadecimal digits elsewhere. Which
/// identifier comes is left open.
#[verifier::external_body]
fn new_uuid() -> (uuid: String)
    ensures
        is_uuid_text(uuid@),
{
    uuid::Uuid::new_v4().to_string()
}

/// A fresh passphrase: 32 random bytes in hexadecimal.
pub fn random_password() -> (password: String)
    ensures
        is_password_text(password@),
{
    let bytes = random_bytes();
    proof {
        lemma_hex_string_shape(bytes@);
    }
    hex_encode(bytes.as_slice())
}

/// The request for a new account under `account` with `password`. A proxy
/// account has one participant and a signing threshold of one.
pub open spec fn generate_request(account: Seq<char>, password: Seq<char>) -> EffectView {
    EffectView::Generate {
        account,
        passphrase: encode_utf8(password),
        participants: 1,
        signing_threshold: 1,
    }
}

/// What the answer to the request for a new account means: the bytes of
/// the new public key where Dirk succeeded, else a communication error.
pub open spec fn generate_outcome(reply: Reply) -> Result<Seq<u8>, ErrorView> {
    match reply {
        Reply::Failed(detail) => Err(
            ErrorView::DirkCommunicationError("error on generate request: "@ + detail@),
        ),
        Reply::Generated(state, public_key) => if state == ResponseState::Succeeded {
            Ok(public_key@)
        } else {
            Err(ErrorView::DirkCommunicationError("generate request returned error"@))
        },
        _ => Err(ErrorView::Internal(unexpected_reply())),
    }
}

/// What the answer to a file or store operation means: nothing to report
/// where it went through, else an internal error whose text is `context`
/// followed by what the operation reported.
pub open spec fn operation_outcome(context: Seq<char>, reply: Reply) -> Result<(), ErrorView> {
    match reply {
        Reply::Failed(detail) => Err(ErrorView::Internal(context + detail@)),
        Reply::Completed => Ok(()),
        _ => Err(ErrorView::Internal(unexpected_reply())),
    }
}

/// The directory, under the secrets directory, of the passphrase file of
/// `account`: the account's name up to its last slash. A name without a
/// slash has no place there.
pub open spec fn password_directory(account: Seq<char>) -> Result<Seq<char>, ErrorView> {
    match split_last(account, '/') {
        Some((directory, _)) => Ok(directory),
        None => Err(ErrorView::Internal("account name '"@ + account + "' is invalid"@)),
    }
}

/// How the minting goes on once the consensus key is resolved to the
/// account `consensus`: with the request for the proxy account where that
/// is a configured account, else with the key unknown.
pub open spec fn proxy_generate<S>(
    manager: DirkManager<S>,
    session: ProxySessionView,
    consensus: Seq<char>,
) -> ProxyProgressView {
    if is_configured(manager.accounts@, consensus) {
        let account = proxy_account_name(consensus, session.module_id, session.uuid);
        ProxyProgressView::Continue(
            ProxySessionView { stage: ProxyStageView::Generating { account }, ..session },
            generate_request(account, session.password),
        )
    } else {
        ProxyProgressView::Done(Err(ErrorView::UnknownConsensusSigner(session.consensus_pubkey)))
    }
}

/// The opening of the minting of a proxy key for `module` under
/// `consensus_pubkey`, with `uuid` and `password` for the new account.
///
/// Where a configured account has the key, the first request is for the new
/// account; else it is a listing in which to look for the key.
pub open spec fn proxy_start<S>(
    manager: DirkManager<S>,
    module_id: Seq<char>,
    consensus_pubkey: Seq<u8>,
    uuid: Seq<char>,
    password: Seq<char>,
) -> ProxyProgressView {
    let session = ProxySessionView {
        module_id,
        consensus_pubkey,
        uuid,
        password,
        stage: ProxyStageView::Resolving,
    };
    match cached_account(manager.accounts@, consensus_pubkey) {
        Some(consensus) => proxy_generate(manager, session, consensus),
        None => ProxyProgressView::Continue(
            session,
            EffectView::ListAccounts { paths: wallets_of(manager.accounts@) },
        ),
    }
}

/// The step of the minting of a proxy key: what follows from `reply` where
/// the conversation stands as `session` says.
///
/// In order: the consensus key is resolved to a configured account; Dirk
/// makes the proxy account; the passphrase is written under the secrets
/// directory; the new key is read; the new account is unlocked; the
/// consensus key signs the delegation, in a signing conversation of its
/// own; the delegation goes to the proxy store where there is one. The
/// first failure ends the conversation.
pub open spec fn proxy_step<S>(
    manager: DirkManager<S>,
    session: ProxySessionView,
    reply: Reply,
) -> ProxyProgressView {
    match session.stage {
        ProxyStageView::Resolving => match listing_of(reply) {
            Ok(listing) => match listed_account(listing, session.consensus_pubkey) {
                Some(consensus) => proxy_generate(manager, session, consensus),
                None => ProxyProgressView::Done(
                    Err(ErrorView::UnknownConsensusSigner(session.consensus_pubkey)),
                ),
            },
            Err(error) => ProxyProgressView::Done(Err(error)),
        },
        ProxyStageView::Generating { account } => match generate_outcome(reply) {
            Ok(public_key) => match password_directory(account) {
                Ok(directory) => ProxyProgressView::Continue(
                    ProxySessionView {
                        stage: ProxyStageView::CreatingDirectory { account, directory, public_key },
                        ..session
                    },
                    EffectView::CreateSecretsDir { directory },
                ),
                Err(error) => ProxyProgressView::Done(Err(error)),
            },
            Err(error) => ProxyProgressView::Done(Err(error)),
        },
        ProxyStageView::CreatingDirectory {
            account,
            directory,
            public_key,
        } => match operation_outcome("error creating dir '"@ + directory + "': "@, reply) {
            Ok(_) => ProxyProgressView::Continue(
                ProxySessionView {
                    stage: ProxyStageView::WritingPassword { account, public_key },
                    ..session
                },
                EffectView::WritePassword { account, password: session.password },
            ),
            Err(error) => ProxyProgressView::Done(Err(error)),
        },
        ProxyStageView::WritingPassword { account, public_key } => match operation_outcome(
            "error writing password for account '"@ + account + "': "@,
            reply,
        ) {
            Ok(_) => if public_key.len() == 48 {
                ProxyProgressView::Continue(
                    ProxySessionView {
                        stage: ProxyStageView::Unlocking { account, proxy: public_key },
                        ..session
                    },
                    EffectView::Unlock { account, passphrase: encode_utf8(session.password) },
                )
            } else {
                ProxyProgressView::Done(
                    Err(
                        ErrorView::DirkCommunicationError(
                            "return value is not a valid public key"@,
                        ),
                    ),
                )
            },
            Err(error) => ProxyProgressView::Done(Err(error)),
        },
        ProxyStageView::Unlocking { account, proxy } => match unlock_outcome(account, reply) {
            Ok(_) => {
                let object_root = delegation_root_of(session.consensus_pubkey, proxy);
                ProxyProgressView::Continue(
                    ProxySessionView {
                        stage: ProxyStageView::Signing {
                            proxy,
                            signing: SignSessionView {
                                pubkey: session.consensus_pubkey,
                                object_root,
                                stage: SignStageView::FirstSignature,
                            },
                        },
                        ..session
                    },
                    sign_request(manager.chain, session.consensus_pubkey, object_root),
                )
            },
            Err(error) => ProxyProgressView::Done(Err(error)),
        },
        ProxyStageView::Signing { proxy, signing } => match sign_step(manager, signing, reply) {
            SignProgressView::Continue(next, effect) => ProxyProgressView::Continue(
                ProxySessionView {
                    stage: ProxyStageView::Signing { proxy, signing: next },
                    ..session
                },
                effect,
            ),
            SignProgressView::Done(Ok(signature)) => {
                let delegation = DelegationView {
                    delegator: session.consensus_pubkey,
                    proxy,
                    signature,
                };
                if manager.proxy_store is Some {
                    ProxyProgressView::Continue(
                        ProxySessionView {
                            stage: ProxyStageView::Storing { delegation },
                            ..session
                        },
                        EffectView::StoreDelegation { module_id: session.module_id, delegation },
                    )
                } else {
                    ProxyProgressView::Done(Ok(delegation))
                }
            },
            SignProgressView::Done(Err(error)) => ProxyProgressView::Done(Err(error)),
        },
        ProxyStageView::Storing { delegation } => match operation_outcome(
            "error storing delegation signature: "@,
            reply,
        ) {
            Ok(_) => ProxyProgressView::Done(Ok(delegation)),
            Err(error) => ProxyProgressView::Done(Err(error)),
        },
    }
}

/// What the answer to the request for a new account means.
pub fn read_generated(reply: &Reply) -> (outcome: Result<Vec<u8>, SignerModuleError>)
    ensures
        match outcome {
            Ok(public_key) => generate_outcome(*reply) matches Ok(meant) && meant == public_key@,
            Err(error) => generate_outcome(*reply) matches Err(meant) && meant == error@,
        },
{
    match reply {
        Reply::Failed(detail) => Err(
            SignerModuleError::DirkCommunicationError(
                concat2("error on generate request: ", detail.as_str()),
            ),
        ),
        Reply::Generated(state, public_key) => {
            if *state == ResponseState::Succeeded {
                Ok(public_key.clone())
            } else {
                Err(
                    SignerModuleError::DirkCommunicationError(
                        "generate request returned error".to_owned(),
                    ),
                )
            }
        },
        _ => Err(unexpected()),
    }
}

/// Where the passphrase of `account` is stored: the directory to make
/// under the secrets directory before the file, named after the account,
/// is written.
pub fn store_password(account: &str) -> (outcome: Result<String, SignerModuleError>)
    ensures
        match outcome {
            Ok(directory) => password_directory(account@) matches Ok(meant) && meant
                == directory@,
            Err(error) => password_directory(account@) matches Err(meant) && meant == error@,
        },
{
    match rsplit_once(account, '/') {
        Some((directory, _)) => Ok(directory),
        None => Err(
            SignerModuleError::Internal(concat3("account name '", account, "' is invalid")),
        ),
    }
}

/// What the answer to a file or store operation means.
pub fn read_completion(context: &str, reply: &Reply) -> (outcome: Result<(), SignerModuleError>)
    ensures
        match outcome {
            Ok(_) => operation_outcome(context@, *reply) is Ok,
            Err(error) => operation_outcome(context@, *reply) matches Err(meant) && meant == error@,
        },
{
    match reply {
        Reply::Failed(detail) => Err(SignerModuleError::Internal(concat2(context, detail.as_str()))),
        Reply::Completed => Ok(()),
        _ => Err(unexpected()),
    }
}

impl<S> DirkManager<S> {
    /// How the minting goes on once the consensus key is resolved to the
    /// account `consensus`.
    fn generate_account(&self, session: ProxySession, consensus: &str) -> (progress: ProxyProgress)
        ensures
            progress@ == proxy_generate(*self, session@, consensus@),
    {
        let ProxySession { module_id, consensus_pubkey, uuid, password, stage: _ } = session;
        if self.is_configured_account(consensus) {
            let under = join(consensus, module_id.0.as_str());
            let account = join(under.as_str(), uuid.as_str());
            let passphrase = password.as_str().as_bytes_vec();
            assert(account@ =~= proxy_account_name(consensus@, module_id@, uuid@));
            ProxyProgress::Continue(
                ProxySession {
                    module_id,
                    consensus_pubkey,
                    uuid,
                    password,
                    stage: ProxyStage::Generating { account: account.clone() },
                },
                Effect::Generate { account, passphrase, participants: 1, signing_threshold: 1 },
            )
        } else {
            ProxyProgress::Done(
                Err(SignerModuleError::UnknownConsensusSigner(consensus_pubkey.to_vec())),
            )
        }
    }

    /// Opens the minting of a proxy key for `module_id` under
    /// `consensus_pubkey`, with `uuid` and `password` for the new account.
    pub fn begin_proxy_key(
        &self,
        module_id: ModuleId,
        consensus_pubkey: BlsPublicKey,
        uuid: String,
        password: String,
    ) -> (progress: ProxyProgress)
        ensures
            progress@ == proxy_start(*self, module_id@, consensus_pubkey@, uuid@, password@),
    {
        let session = ProxySession {
            module_id,
            consensus_pubkey,
            uuid,
            password,
            stage: ProxyStage::Resolving,
        };
        match self.find_cached_account(&consensus_pubkey) {
            Some(consensus) => self.generate_account(session, consensus.as_str()),
            None => ProxyProgress::Continue(session, Effect::ListAccounts { paths: self.wallets() }),
        }
    }

    /// Opens the minting of a proxy key for `module_id` under
    /// `consensus_pubkey`, with a fresh identifier and a fresh passphrase
    /// for the new account.
    pub fn generate_proxy_key(&self, module_id: ModuleId, consensus_pubkey: BlsPublicKey) -> (progress:
        ProxyProgress)
        ensures
            exists|uuid: Seq<char>, password: Seq<char>|
                {
                    &&& is_uuid_text(uuid)
                    &&& is_password_text(password)
                    &&& progress@ == #[trigger] proxy_start(
                        *self,
                        module_id@,
                        consensus_pubkey@,
                        uuid,
                        password,
                    )
                },
    {
        let uuid = new_uuid();
        let password = random_password();
        self.begin_proxy_key(module_id, consensus_pubkey, uuid, password)
    }

    /// Takes the minting of a proxy key one step further with the reply to
    /// its last request.
    pub fn continue_proxy_key(&self, session: ProxySession, reply: &Reply) -> (progress: ProxyProgress)
        ensures
            progress@ == proxy_step(*self, session@, *reply),
    {
        let ProxySession { module_id, consensus_pubkey, uuid, password, stage } = session;
        match stage {
            ProxyStage::Resolving => match get_accounts_in_wallets(reply) {
                Ok(listing) => match find_listed_account(listing, &consensus_pubkey) {
                    Some(consensus) => self.generate_account(
                        ProxySession {
                            module_id,
                            consensus_pubkey,
                            uuid,
                            password,
                            stage: ProxyStage::Resolving,
                        },
                        consensus.as_str(),
                    ),
                    None => ProxyProgress::Done(
                        Err(SignerModuleError::UnknownConsensusSigner(consensus_pubkey.to_vec())),
                    ),
                },
                Err(error) => ProxyProgress::Done(Err(error)),
            },
            ProxyStage::Generating { account } => match read_generated(reply) {
                Ok(public_key) => match store_password(account.as_str()) {
                    Ok(directory) => ProxyProgress::Continue(
                        ProxySession {
                            module_id,
                            consensus_pubkey,
                            uuid,
                            password,
                            stage: ProxyStage::CreatingDirectory {
                                account,
                                directory: directory.clone(),
                                public_key,
                            },
                        },
                        Effect::CreateSecretsDir { directory },
                    ),
                    Err(error) => ProxyProgress::Done(Err(error)),
                },
                Err(error) => ProxyProgress::Done(Err(error)),
            },
            ProxyStage::CreatingDirectory { account, directory, public_key } => {
                let context = concat3("error creating dir '", directory.as_str(), "': ");
                match read_completion(context.as_str(), reply) {
                    Ok(_) => ProxyProgress::Continue(
                        ProxySession {
                            module_id,
                            consensus_pubkey,
                            uuid,
                            password: password.clone(),
                            stage: ProxyStage::WritingPassword {
                                account: account.clone(),
                                public_key,
                            },
                        },
                        Effect::WritePassword { account, password },
                    ),
                    Err(error) => ProxyProgress::Done(Err(error)),
                }
            },
            ProxyStage::WritingPassword { account, public_key } => {
                let context = concat3(
                    "error writing password for account '",
                    account.as_str(),
                    "': ",
                );
                match read_completion(context.as_str(), reply) {
                    Ok(_) => match BlsPublicKey::from_slice(public_key.as_slice()) {
                        Some(proxy) => {
                            let passphrase = password.as_str().as_bytes_vec();
                            ProxyProgress::Continue(
                                ProxySession {
                                    module_id,
                                    consensus_pubkey,
                                    uuid,
                                    password,
                                    stage: ProxyStage::Unlocking { account: account.clone(), proxy },
                                },
                                Effect::Unlock { account, passphrase },
                            )
                        },
                        None => ProxyProgress::Done(
                            Err(
                                SignerModuleError::DirkCommunicationError(
                                    "return value is not a valid public key".to_owned(),
                                ),
                            ),
                        ),
                    },
                    Err(error) => ProxyProgress::Done(Err(error)),
                }
            },
            ProxyStage::Unlocking { account, proxy } => match unlock_account(
                account.as_str(),
                reply,
            ) {
                Ok(_) => {
                    let object_root = delegation_root(&consensus_pubkey, &proxy);
                    let (signing, effect) = self.request_signature(consensus_pubkey, object_root);
                    ProxyProgress::Continue(
                        ProxySession {
                            module_id,
                            consensus_pubkey,
                            uuid,
                            password,
                            stage: ProxyStage::Signing { proxy, signing },
                        },
                        effect,
                    )
                },
                Err(error) => ProxyProgress::Done(Err(error)),
            },
            ProxyStage::Signing { proxy, signing } => match self.continue_signature(
                signing,
                reply,
            ) {
                SignProgress::Continue(next, effect) => ProxyProgress::Continue(
                    ProxySession {
                        module_id,
                        consensus_pubkey,
                        uuid,
                        password,
                        stage: ProxyStage::Signing { proxy, signing: next },
                    },
                    effect,
                ),
                SignProgress::Done(Ok(signature)) => {
                    let delegation = SignedProxyDelegation {
                        message: ProxyDelegation { delegator: consensus_pubkey, proxy },
                        signature,
                    };
                    if self.proxy_store.is_some() {
                        ProxyProgress::Continue(
                            ProxySession {
                                module_id: ModuleId(module_id.0.clone()),
                                consensus_pubkey,
                                uuid,
                                password,
                                stage: ProxyStage::Storing { delegation },
                            },
                            Effect::StoreDelegation { module_id, delegation },
                        )
                    } else {
                        ProxyProgress::Done(Ok(delegation))
                    }
                },
                SignProgress::Done(Err(error)) => ProxyProgress::Done(Err(error)),
            },
            ProxyStage::Storing { delegation } => match read_completion(
                "error storing delegation signature: ",
                reply,
            ) {
                Ok(_) => ProxyProgress::Done(Ok(delegation)),
                Err(error) => ProxyProgress::Done(Err(error)),
            },
        }
    }
}

} // verus!
