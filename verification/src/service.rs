//! The signing service: how it starts, and what each request of the
//! Signer API is answered with.

use crate::config::StartSignerConfig;
use crate::error::{ErrorView, SignerModuleError};
use crate::manager::dirk::{
    consensus_keys_outcome, proxy_keys_outcome, proxy_maps_outcome, registered_keys, all_resolved,
    wallets_of, DirkManager, Reply,
};
use crate::manager::local::{
    bls_proxy_secret, consensus_signature, ecdsa_proxy_secret, local_proxy_maps, minted_bls,
    minted_ecdsa, owns_bls_proxy, owns_ecdsa_proxy, proxy_bls_signature, proxy_ecdsa_signature,
    BlsProxySigner, EcdsaProxySigner, LocalSigningManager,
};
use crate::manager::protocol::{
    is_password_text, is_uuid_text, proxy_start, sign_request, sign_step, Effect, EffectView,
    ProxyProgress, ProxyProgressView, ProxySession, ProxySessionView, SignProgress,
    SignProgressView, SignSession, SignSessionView, SignStageView,
};
use crate::registry::{jwt_auth, no_pairs, ModuleRegistry};
use crate::signature::{domain_of, COMMIT_BOOST_DOMAIN};
use crate::text::same_text;
use crate::types::{
    key_bytes, proxy_map_views, BlsPublicKey, BlsSignature, ConsensusProxyMap, DelegationView,
    EcdsaPublicKey, EcdsaSignature, EncryptionScheme, Jwt, ModuleId, ProxyMapView,
    SignedProxyDelegation, SignedProxyDelegationEcdsa,
};
use vstd::prelude::*;
use vstd::string::*;

verus! {

/// Status of the answer to a request that was served.
pub const STATUS_OK: u16 = 200;

/// The service that implements the Signer API.
pub struct SigningService;

/// The backend behind the service.
pub enum SigningManager<S> {
    Local(LocalSigningManager<S>),
    Dirk(DirkManager<S>),
}

/// How the service starts.
#[derive(Clone, Copy, Debug, PartialEq, Eq, Structural)]
pub enum StartPlan {
    /// No module is registered: there is nothing to serve, and the service
    /// ends without listening.
    Exit,
    /// Serve from a Dirk backend.
    Dirk,
    /// Serve from a local backend.
    Local,
}

impl SigningService {
    /// How the service starts from `config`: it ends at once where no
    /// module is registered, runs on Dirk where Dirk is configured, and on
    /// local keys otherwise.
    pub fn run<L, S>(config: &StartSignerConfig<L, S>) -> (plan: StartPlan)
        ensures
            plan == (if config.jwts.tokens() == no_pairs() {
                StartPlan::Exit
            } else if config.dirk is Some {
                StartPlan::Dirk
            } else {
                StartPlan::Local
            }),
    {
        if config.jwts.is_empty() {
            StartPlan::Exit
        } else if config.dirk.is_some() {
            StartPlan::Dirk
        } else {
            StartPlan::Local
        }
    }
}

/// Path of the liveness endpoint.
pub const STATUS_PATH: &'static str = "/status";

/// Path of the endpoint that lists the keys of the caller.
pub const GET_PUBKEYS_PATH: &'static str = "/get_pubkeys";

/// Path of the endpoint that signs an object root.
pub const REQUEST_SIGNATURE_PATH: &'static str = "/request_signature";

/// Path of the endpoint that mints a proxy key.
pub const GENERATE_PROXY_KEY_PATH: &'static str = "/generate_proxy_key";

/// The method of a request, as far as the service tells methods apart.
#[derive(Clone, Copy, Debug, PartialEq, Eq, Structural)]
pub enum Method {
    Get,
    Post,
    Other,
}

/// The endpoints of the Signer API.
#[derive(Clone, Copy, Debug, PartialEq, Eq, Structural)]
pub enum Endpoint {
    Status,
    GetPubkeys,
    RequestSignature,
    GenerateProxyKey,
}

/// The endpoint that a method and a path name, if they name one.
pub open spec fn endpoint_of(method: Method, path: Seq<char>) -> Option<Endpoint> {
    if method == Method::Get && path == STATUS_PATH@ {
        Some(Endpoint::Status)
    } else if method == Method::Get && path == GET_PUBKEYS_PATH@ {
        Some(Endpoint::GetPubkeys)
    } else if method == Method::Post && path == REQUEST_SIGNATURE_PATH@ {
        Some(Endpoint::RequestSignature)
    } else if method == Method::Post && path == GENERATE_PROXY_KEY_PATH@ {
        Some(Endpoint::GenerateProxyKey)
    } else {
        None
    }
}

/// The endpoint that a method and a path name, if they name one.
pub fn route(method: Method, path: &str) -> (endpoint: Option<Endpoint>)
    ensures
        endpoint == endpoint_of(method, path@),
{
    match method {
        Method::Get => {
            if same_text(path, STATUS_PATH) {
                Some(Endpoint::Status)
            } else if same_text(path, GET_PUBKEYS_PATH) {
                Some(Endpoint::GetPubkeys)
            } else {
                None
            }
        },
        Method::Post => {
            if same_text(path, REQUEST_SIGNATURE_PATH) {
                Some(Endpoint::RequestSignature)
            } else if same_text(path, GENERATE_PROXY_KEY_PATH) {
                Some(Endpoint::GenerateProxyKey)
            } else {
                None
            }
        },
        Method::Other => None,
    }
}

/// Decides whether a request reaches its handler, and on whose behalf.
///
/// The status endpoint is open to all and runs for no module. Every other
/// endpoint is reached only with the bearer token of a registered module,
/// and runs for that module; without a token, or with one that no module
/// is registered with, the request is unauthorized.
pub fn admit_request(registry: &ModuleRegistry, endpoint: Endpoint, bearer: Option<&Jwt>) -> (outcome:
    Result<Option<ModuleId>, SignerModuleError>)
    requires
        registry.wf(),
    ensures
        endpoint == Endpoint::Status ==> outcome matches Ok(None),
        endpoint != Endpoint::Status ==> match outcome {
            Ok(caller) => {
                &&& caller matches Some(module)
                &&& bearer matches Some(jwt)
                &&& registry.tokens().contains_pair(module@, jwt@)
            },
            Err(error) => {
                &&& error == SignerModuleError::Unauthorized
                &&& bearer matches Some(jwt) ==> forall|module: Seq<char>|
                    !registry.tokens().contains_pair(module, jwt@)
            },
        },
{
    match endpoint {
        Endpoint::Status => Ok(None),
        _ => match jwt_auth(registry, bearer) {
            Ok(module) => Ok(Some(module)),
            Err(error) => Err(error),
        },
    }
}

/// The labels under which an answer is counted: its status code and the
/// tag of the endpoint it came from.
#[derive(Clone, Copy, Debug, PartialEq, Eq)]
pub struct RequestLabels {
    pub status_code: u16,
    pub uri_tag: &'static str,
}

/// The tag of the endpoint at `path`, for the counter of answers.
pub open spec fn tag_of(path: Seq<char>) -> Seq<char> {
    if path == GET_PUBKEYS_PATH@ {
        "get_pubkeys"@
    } else if path == GENERATE_PROXY_KEY_PATH@ {
        "generate_proxy_key"@
    } else if path == REQUEST_SIGNATURE_PATH@ {
        "request_signature"@
    } else {
        "unknown"@
    }
}

/// The tag of the endpoint at `path`, for the counter of answers.
pub fn uri_to_tag(path: &str) -> (tag: &'static str)
    ensures
        tag@ == tag_of(path@),
{
    if same_text(path, GET_PUBKEYS_PATH) {
        "get_pubkeys"
    } else if same_text(path, GENERATE_PROXY_KEY_PATH) {
        "generate_proxy_key"
    } else if same_text(path, REQUEST_SIGNATURE_PATH) {
        "request_signature"
    } else {
        "unknown"
    }
}

/// The labels under which the answer with `status_code` to a request at
/// `path` is counted.
pub fn log_request(status_code: u16, path: &str) -> (labels: RequestLabels)
    ensures
        labels.status_code == status_code,
        labels.uri_tag@ == tag_of(path@),
{
    RequestLabels { status_code, uri_tag: uri_to_tag(path) }
}

/// The answer to a status request.
pub fn handle_status() -> (response: (u16, String))
    ensures
        response.0 == STATUS_OK,
        response.1@ == "OK"@,
{
    (STATUS_OK, "OK".to_owned())
}

/// A request for a signature over `object_root`.
#[derive(Clone, Copy, Debug, PartialEq, Eq)]
pub enum SignRequest {
    /// By a consensus key.
    Consensus { pubkey: BlsPublicKey, object_root: [u8; 32] },
    /// By a BLS proxy key of the caller.
    ProxyBls { pubkey: BlsPublicKey, object_root: [u8; 32] },
    /// By an ECDSA proxy key of the caller.
    ProxyEcdsa { pubkey: EcdsaPublicKey, object_root: [u8; 32] },
}

/// A request for a new proxy key under `consensus_pubkey`.
#[derive(Clone, Copy, Debug, PartialEq, Eq)]
pub struct GenerateProxyRequest {
    pub consensus_pubkey: BlsPublicKey,
    pub scheme: EncryptionScheme,
}

/// A signature of either scheme.
#[derive(Clone, Copy, Debug, PartialEq, Eq)]
pub enum Signature {
    Bls(BlsSignature),
    Ecdsa(EcdsaSignature),
}

/// A `Signature` by its bytes.
pub enum SignatureView {
    Bls(Seq<u8>),
    Ecdsa(Seq<u8>),
}

impl View for Signature {
    type V = SignatureView;

    open spec fn view(&self) -> SignatureView {
        match *self {
            Signature::Bls(signature) => SignatureView::Bls(signature@),
            Signature::Ecdsa(signature) => SignatureView::Ecdsa(signature@),
        }
    }
}

/// A signed delegation to a proxy key of either scheme.
#[derive(Clone, Copy, Debug, PartialEq, Eq)]
pub enum Delegation {
    Bls(SignedProxyDelegation),
    Ecdsa(SignedProxyDelegationEcdsa),
}

/// A `Delegation` by its bytes.
pub enum MintedView {
    Bls(DelegationView),
    Ecdsa(DelegationView),
}

impl View for Delegation {
    type V = MintedView;

    open spec fn view(&self) -> MintedView {
        match *self {
            Delegation::Bls(delegation) => MintedView::Bls(delegation@),
            Delegation::Ecdsa(delegation) => MintedView::Ecdsa(delegation@),
        }
    }
}

/// Where the serving of a signature request stands.
#[derive(Clone, Debug, PartialEq, Eq)]
pub enum SigningStage {
    /// It waits for the listing that tells whether the key is the caller's
    /// to use.
    Authorizing,
    /// It is in the signing conversation with Dirk.
    Signing(SignSession),
}

/// A `SigningStage` by the characters and bytes it carries.
pub enum SigningStageView {
    Authorizing,
    Signing(SignSessionView),
}

impl View for SigningStage {
    type V = SigningStageView;

    open spec fn view(&self) -> SigningStageView {
        match *self {
            SigningStage::Authorizing => SigningStageView::Authorizing,
            SigningStage::Signing(session) => SigningStageView::Signing(session@),
        }
    }
}

/// A signature request that is being served from Dirk.
#[derive(Clone, Debug, PartialEq, Eq)]
pub struct SigningTask {
    pub module_id: ModuleId,
    pub request: SignRequest,
    pub stage: SigningStage,
}

/// A `SigningTask` by the characters and bytes it carries.
pub struct SigningTaskView {
    pub module_id: Seq<char>,
    pub request: SignRequest,
    pub stage: SigningStageView,
}

impl View for SigningTask {
    type V = SigningTaskView;

    open spec fn view(&self) -> SigningTaskView {
        SigningTaskView { module_id: self.module_id@, request: self.request, stage: self.stage@ }
    }
}

/// How the serving of a signature request goes on: with a request to
/// Dirk, or with its result.
#[derive(Debug, PartialEq, Eq)]
pub enum SigningProgress {
    Continue(SigningTask, Effect),
    Done(Result<Signature, SignerModuleError>),
}

/// A `SigningProgress` by the characters and bytes it carries.
pub enum SigningProgressView {
    Continue(SigningTaskView, EffectView),
    Done(Result<SignatureView, ErrorView>),
}

impl View for SigningProgress {
    type V = SigningProgressView;

    open spec fn view(&self) -> SigningProgressView {
        match *self {
            SigningProgress::Continue(task, effect) => SigningProgressView::Continue(
                task@,
                effect@,
            ),
            SigningProgress::Done(Ok(signature)) => SigningProgressView::Done(Ok(signature@)),
            SigningProgress::Done(Err(error)) => SigningProgressView::Done(Err(error@)),
        }
    }
}

/// How the serving of a request for a proxy key goes on: with a request
/// to Dirk, or with its result.
#[derive(Debug, PartialEq, Eq)]
pub enum MintProgress {
    Continue(ProxySession, Effect),
    Done(Result<Delegation, SignerModuleError>),
}

/// A `MintProgress` by the characters and bytes it carries.
pub enum MintProgressView {
    Continue(ProxySessionView, EffectView),
    Done(Result<MintedView, ErrorView>),
}

impl View for MintProgress {
    type V = MintProgressView;

    open spec fn view(&self) -> MintProgressView {
        match *self {
            MintProgress::Continue(session, effect) => MintProgressView::Continue(
                session@,
                effect@,
            ),
            MintProgress::Done(Ok(delegation)) => MintProgressView::Done(Ok(delegation@)),
            MintProgress::Done(Err(error)) => MintProgressView::Done(Err(error@)),
        }
    }
}

/// The key that a request asks to sign with, by its bytes.
pub open spec fn requested_key(request: SignRequest) -> Seq<u8> {
    match request {
        SignRequest::Consensus { pubkey, .. } => pubkey@,
        SignRequest::ProxyBls { pubkey, .. } => pubkey@,
        SignRequest::ProxyEcdsa { pubkey, .. } => pubkey@,
    }
}

/// The root that a request asks to sign.
pub open spec fn requested_root(request: SignRequest) -> Seq<u8> {
    match request {
        SignRequest::Consensus { object_root, .. } => object_root@,
        SignRequest::ProxyBls { object_root, .. } => object_root@,
        SignRequest::ProxyEcdsa { object_root, .. } => object_root@,
    }
}

/// The answer of the local backend to a signature request of `module`.
///
/// A consensus key signs for any module. A proxy key signs for the module
/// that owns it; to any other it is unknown.
pub open spec fn local_signature<S>(
    manager: LocalSigningManager<S>,
    module: Seq<char>,
    request: SignRequest,
) -> Result<SignatureView, ErrorView> {
    match request {
        SignRequest::Consensus { pubkey, object_root } => match consensus_signature(
            manager.chain,
            manager.consensus_signers@,
            pubkey@,
            object_root@,
        ) {
            Ok(signature) => Ok(SignatureView::Bls(signature)),
            Err(error) => Err(error),
        },
        SignRequest::ProxyBls { pubkey, object_root } => if owns_bls_proxy(
            manager.bls_proxies@,
            module,
            pubkey@,
        ) {
            match proxy_bls_signature(
                manager.chain,
                manager.bls_proxies@,
                pubkey@,
                object_root@,
            ) {
                Ok(signature) => Ok(SignatureView::Bls(signature)),
                Err(error) => Err(error),
            }
        } else {
            Err(ErrorView::UnknownProxySigner(pubkey@))
        },
        SignRequest::ProxyEcdsa { pubkey, object_root } => if owns_ecdsa_proxy(
            manager.ecdsa_proxies@,
            module,
            pubkey@,
        ) {
            match proxy_ecdsa_signature(
                manager.chain,
                manager.ecdsa_proxies@,
                pubkey@,
                object_root@,
            ) {
                Ok(signature) => Ok(SignatureView::Ecdsa(signature)),
                Err(error) => Err(error),
            }
        } else {
            Err(ErrorView::UnknownProxySigner(pubkey@))
        },
    }
}

/// True when one of the maps holds `key` among its BLS proxy keys.
pub open spec fn holds_proxy(maps: Seq<ProxyMapView>, key: Seq<u8>) -> bool {
    exists|m: int| 0 <= m < maps.len() && (#[trigger] maps[m]).proxy_bls.contains(key)
}

/// Whether Dirk, by `reply` to a listing, lets `module` sign as `request`
/// asks: a consensus key has to be one of the backend's, a BLS proxy key
/// one that the module holds. Dirk holds no ECDSA keys.
pub open spec fn dirk_authorization<S>(
    manager: DirkManager<S>,
    module: Seq<char>,
    request: SignRequest,
    reply: Reply,
) -> Result<(), ErrorView> {
    match request {
        SignRequest::Consensus { pubkey, .. } => match consensus_keys_outcome(
            manager.accounts@,
            reply,
        ) {
            Ok(keys) => if keys.contains(pubkey@) {
                Ok(())
            } else {
                Err(ErrorView::UnknownConsensusSigner(pubkey@))
            },
            Err(error) => Err(error),
        },
        SignRequest::ProxyBls { pubkey, .. } => match proxy_maps_outcome(
            manager.accounts@,
            module,
            reply,
        ) {
            Ok(maps) => if holds_proxy(maps, pubkey@) {
                Ok(())
            } else {
                Err(ErrorView::UnknownProxySigner(pubkey@))
            },
            Err(error) => Err(error),
        },
        SignRequest::ProxyEcdsa { .. } => Err(ErrorView::DirkNotSupported),
    }
}

/// The task of a request once Dirk has let it through, and the signing
/// request that opens its conversation.
pub open spec fn dirk_signing<S>(manager: DirkManager<S>, task: SigningTaskView) -> SigningProgressView {
    SigningProgressView::Continue(
        SigningTaskView {
            stage: SigningStageView::Signing(
                SignSessionView {
                    pubkey: requested_key(task.request),
                    object_root: requested_root(task.request),
                    stage: SignStageView::FirstSignature,
                },
            ),
            ..task
        },
        sign_request(manager.chain, requested_key(task.request), requested_root(task.request)),
    )
}

/// How the Dirk backend takes up a signature request of `module`.
///
/// A request for an ECDSA signature is not supported. A request by a
/// consensus key goes to signing at once where every account of the
/// backend has its key and the key is among them, and fails where it is
/// not. Every other request first has Dirk list its accounts.
pub open spec fn dirk_sign_opening<S>(
    manager: DirkManager<S>,
    module: Seq<char>,
    request: SignRequest,
) -> SigningProgressView {
    let task = SigningTaskView { module_id: module, request, stage: SigningStageView::Authorizing };
    if request is ProxyEcdsa {
        SigningProgressView::Done(Err(ErrorView::DirkNotSupported))
    } else if request is Consensus && all_resolved(manager.accounts@) {
        if registered_keys(manager.accounts@).contains(requested_key(request)) {
            dirk_signing(manager, task)
        } else {
            SigningProgressView::Done(
                Err(ErrorView::UnknownConsensusSigner(requested_key(request))),
            )
        }
    } else {
        SigningProgressView::Continue(
            task,
            EffectView::ListAccounts { paths: wallets_of(manager.accounts@) },
        )
    }
}

/// The step of the serving of a signature request from Dirk.
pub open spec fn dirk_sign_step<S>(
    manager: DirkManager<S>,
    task: SigningTaskView,
    reply: Reply,
) -> SigningProgressView {
    match task.stage {
        SigningStageView::Authorizing => match dirk_authorization(
            manager,
            task.module_id,
            task.request,
            reply,
        ) {
            Ok(_) => dirk_signing(manager, task),
            Err(error) => SigningProgressView::Done(Err(error)),
        },
        SigningStageView::Signing(session) => match sign_step(manager, session, reply) {
            SignProgressView::Continue(next, effect) => SigningProgressView::Continue(
                SigningTaskView { stage: SigningStageView::Signing(next), ..task },
                effect,
            ),
            SignProgressView::Done(Ok(signature)) => SigningProgressView::Done(
                Ok(SignatureView::Bls(signature)),
            ),
            SignProgressView::Done(Err(error)) => SigningProgressView::Done(Err(error)),
        },
    }
}

/// True when `key` is among `keys`.
fn holds_key(keys: &Vec<BlsPublicKey>, key: &BlsPublicKey) -> (yes: bool)
    ensures
        yes == key_bytes(keys@).contains(key@),
{
    let mut i: usize = 0;
    while i < keys.len()
        invariant
            i <= keys.len(),
            forall|j: int| 0 <= j < i ==> key_bytes(keys@)[j] != key@,
        decreases keys.len() - i,
    {
        if keys[i] == *key {
            assert(key_bytes(keys@)[i as int] == key@);
            return true;
        }
        i += 1;
    }
    false
}

/// True when one of the maps holds `key` among its BLS proxy keys.
fn maps_hold_proxy(maps: &Vec<ConsensusProxyMap>, key: &BlsPublicKey) -> (yes: bool)
    ensures
        yes == holds_proxy(proxy_map_views(maps@), key@),
{
    let mut i: usize = 0;
    while i < maps.len()
        invariant
            i <= maps.len(),
            forall|j: int|
                0 <= j < i ==> !(#[trigger] proxy_map_views(maps@)[j]).proxy_bls.contains(key@),
        decreases maps.len() - i,
    {
        if holds_key(&maps[i].proxy_bls, key) {
            assert(proxy_map_views(maps@)[i as int].proxy_bls.contains(key@));
            return true;
        }
        i += 1;
    }
    false
}

impl<S> SigningManager<S> {
    /// The number of consensus keys that the backend holds. For Dirk,
    /// `reply` answers a listing of the backend's wallets; it is looked at
    /// only where the backend does not know all its keys. The local backend
    /// does not look at it.
    pub fn available_consensus_signers(&self, reply: &Reply) -> (outcome: Result<
        usize,
        SignerModuleError,
    >)
        ensures
            match *self {
                SigningManager::Local(local) => outcome matches Ok(count) && count
                    == local.consensus_signers@.len(),
                SigningManager::Dirk(dirk) => match outcome {
                    Ok(count) => consensus_keys_outcome(dirk.accounts@, *reply) matches Ok(keys)
                        && keys.len() == count,
                    Err(error) => consensus_keys_outcome(dirk.accounts@, *reply) matches Err(
                        meant,
                    ) && meant == error@,
                },
            },
    {
        match self {
            SigningManager::Local(local) => Ok(local.consensus_signers.len()),
            SigningManager::Dirk(dirk) => match dirk.consensus_pubkeys(reply) {
                Ok(keys) => Ok(keys.len()),
                Err(error) => Err(error),
            },
        }
    }

    /// The number of proxy keys that the backend holds, of both schemes;
    /// the largest number there is where the count does not fit. For Dirk,
    /// `reply` answers a listing of the backend's wallets; the local backend
    /// does not look at it.
    pub fn available_proxy_signers(&self, reply: &Reply) -> (outcome: Result<
        usize,
        SignerModuleError,
    >)
        ensures
            match *self {
                SigningManager::Local(local) => outcome matches Ok(count) && count == (
                if local.bls_proxies@.len() + local.ecdsa_proxies@.len() <= usize::MAX {
                    local.bls_proxies@.len() + local.ecdsa_proxies@.len()
                } else {
                    usize::MAX as nat
                }),
                SigningManager::Dirk(dirk) => match outcome {
                    Ok(count) => proxy_keys_outcome(dirk.accounts@, *reply) matches Ok(keys)
                        && keys.len() == count,
                    Err(error) => proxy_keys_outcome(dirk.accounts@, *reply) matches Err(meant)
                        && meant == error@,
                },
            },
    {
        match self {
            SigningManager::Local(local) => {
                match local.bls_proxies.len().checked_add(local.ecdsa_proxies.len()) {
                    Some(count) => Ok(count),
                    None => Ok(usize::MAX),
                }
            },
            SigningManager::Dirk(dirk) => match dirk.proxies(reply) {
                Ok(keys) => Ok(keys.len()),
                Err(error) => Err(error),
            },
        }
    }

    /// For each consensus key of the backend, that key and the proxy keys
    /// that `module_id` holds under it. For Dirk, `reply` answers a listing
    /// of the backend's wallets; the local backend does not look at it.
    pub fn get_consensus_proxy_maps(&self, module_id: &ModuleId, reply: &Reply) -> (outcome: Result<
        Vec<ConsensusProxyMap>,
        SignerModuleError,
    >)
        ensures
            match *self {
                SigningManager::Local(local) => outcome matches Ok(maps) && proxy_map_views(maps@)
                    == local_proxy_maps(
                    local.consensus_signers@,
                    local.bls_proxies@,
                    local.ecdsa_proxies@,
                    module_id@,
                ),
                SigningManager::Dirk(dirk) => match outcome {
                    Ok(maps) => proxy_maps_outcome(dirk.accounts@, module_id@, *reply) matches Ok(
                        meant,
                    ) && meant == proxy_map_views(maps@),
                    Err(error) => proxy_maps_outcome(dirk.accounts@, module_id@, *reply)
                        matches Err(meant) && meant == error@,
                },
            },
    {
        match self {
            SigningManager::Local(local) => Ok(local.get_consensus_proxy_maps(module_id)),
            SigningManager::Dirk(dirk) => dirk.get_consensus_proxy_maps(module_id, reply),
        }
    }
}

/// The answer to a request for the keys of `module_id`: the maps of the
/// backend, or the backend's error.
pub fn handle_get_pubkeys<S>(manager: &SigningManager<S>, module_id: &ModuleId, reply: &Reply) -> (outcome:
    Result<Vec<ConsensusProxyMap>, SignerModuleError>)
    ensures
        match *manager {
            SigningManager::Local(local) => outcome matches Ok(maps) && proxy_map_views(maps@)
                == local_proxy_maps(
                local.consensus_signers@,
                local.bls_proxies@,
                local.ecdsa_proxies@,
                module_id@,
            ),
            SigningManager::Dirk(dirk) => match outcome {
                Ok(maps) => proxy_maps_outcome(dirk.accounts@, module_id@, *reply) matches Ok(
                    meant,
                ) && meant == proxy_map_views(maps@),
                Err(error) => proxy_maps_outcome(dirk.accounts@, module_id@, *reply) matches Err(
                    meant,
                ) && meant == error@,
            },
        },
{
    manager.get_consensus_proxy_maps(module_id, reply)
}

/// The answer of the local backend to a signature request of `module_id`.
pub fn sign_locally<S>(manager: &LocalSigningManager<S>, module_id: &ModuleId, request: SignRequest) -> (outcome:
    Result<Signature, SignerModuleError>)
    ensures
        match outcome {
            Ok(signature) => local_signature(*manager, module_id@, request) matches Ok(meant)
                && meant == signature@,
            Err(error) => local_signature(*manager, module_id@, request) matches Err(meant)
                && meant == error@,
        },
{
    match request {
        SignRequest::Consensus { pubkey, object_root } => match manager.sign_consensus(
            &pubkey,
            &object_root,
        ) {
            Ok(signature) => Ok(Signature::Bls(signature)),
            Err(error) => Err(error),
        },
        SignRequest::ProxyBls { pubkey, object_root } => {
            if manager.has_proxy_bls_for_module(&pubkey, module_id) {
                match manager.sign_proxy_bls(&pubkey, &object_root) {
                    Ok(signature) => Ok(Signature::Bls(signature)),
                    Err(error) => Err(error),
                }
            } else {
                Err(SignerModuleError::UnknownProxySigner(pubkey.to_vec()))
            }
        },
        SignRequest::ProxyEcdsa { pubkey, object_root } => {
            if manager.has_proxy_ecdsa_for_module(&pubkey, module_id) {
                match manager.sign_proxy_ecdsa(&pubkey, &object_root) {
                    Ok(signature) => Ok(Signature::Ecdsa(signature)),
                    Err(error) => Err(error),
                }
            } else {
                Err(
                    SignerModuleError::UnknownProxySigner(
                        vstd::slice::slice_to_vec(pubkey.encoded.as_slice()),
                    ),
                )
            }
        },
    }
}

/// The task of a request once Dirk has let it through, and the signing
/// request that opens its conversation.
fn open_dirk_signing<S>(manager: &DirkManager<S>, task: SigningTask) -> (progress: SigningProgress)
    requires
        !(task.request is ProxyEcdsa),
    ensures
        progress@ == dirk_signing(*manager, task@),
{
    let SigningTask { module_id, request, stage: _ } = task;
    match request {
        SignRequest::Consensus { pubkey, object_root } => {
            let (session, effect) = manager.request_signature(pubkey, object_root);
            SigningProgress::Continue(
                SigningTask { module_id, request, stage: SigningStage::Signing(session) },
                effect,
            )
        },
        SignRequest::ProxyBls { pubkey, object_root } => {
            let (session, effect) = manager.request_signature(pubkey, object_root);
            SigningProgress::Continue(
                SigningTask { module_id, request, stage: SigningStage::Signing(session) },
                effect,
            )
        },
        SignRequest::ProxyEcdsa { .. } => SigningProgress::Done(
            Err(SignerModuleError::DirkNotSupported),
        ),
    }
}

/// Takes up a signature request of `module_id`: the local backend answers
/// it at once, the Dirk backend opens its serving.
pub fn handle_request_signature<S>(
    manager: &SigningManager<S>,
    module_id: ModuleId,
    request: SignRequest,
) -> (progress: SigningProgress)
    ensures
        match *manager {
            SigningManager::Local(local) => progress@ == SigningProgressView::Done(
                local_signature(local, module_id@, request),
            ),
            SigningManager::Dirk(dirk) => progress@ == dirk_sign_opening(dirk, module_id@, request),
        },
{
    match manager {
        SigningManager::Local(local) => SigningProgress::Done(
            sign_locally(local, &module_id, request),
        ),
        SigningManager::Dirk(dirk) => {
            let task = SigningTask { module_id, request, stage: SigningStage::Authorizing };
            match request {
                SignRequest::ProxyEcdsa { .. } => SigningProgress::Done(
                    Err(SignerModuleError::DirkNotSupported),
                ),
                SignRequest::Consensus { pubkey, .. } => {
                    if dirk.all_accounts_resolved() {
                        let known = dirk.registered_pubkeys();
                        if holds_key(&known, &pubkey) {
                            open_dirk_signing(dirk, task)
                        } else {
                            SigningProgress::Done(
                                Err(SignerModuleError::UnknownConsensusSigner(pubkey.to_vec())),
                            )
                        }
                    } else {
                        SigningProgress::Continue(
                            task,
                            Effect::ListAccounts { paths: dirk.wallets() },
                        )
                    }
                },
                SignRequest::ProxyBls { .. } => SigningProgress::Continue(
                    task,
                    Effect::ListAccounts { paths: dirk.wallets() },
                ),
            }
        },
    }
}

/// Whether Dirk, by `reply` to a listing, lets `module_id` sign as
/// `request` asks.
pub fn authorize_dirk_request<S>(
    manager: &DirkManager<S>,
    module_id: &ModuleId,
    request: &SignRequest,
    reply: &Reply,
) -> (outcome: Result<(), SignerModuleError>)
    ensures
        match outcome {
            Ok(_) => dirk_authorization(*manager, module_id@, *request, *reply) is Ok,
            Err(error) => dirk_authorization(*manager, module_id@, *request, *reply) matches Err(
                meant,
            ) && meant == error@,
        },
{
    match request {
        SignRequest::Consensus { pubkey, .. } => match manager.consensus_pubkeys(reply) {
            Ok(keys) => {
                if holds_key(&keys, pubkey) {
                    Ok(())
                } else {
                    Err(SignerModuleError::UnknownConsensusSigner(pubkey.to_vec()))
                }
            },
            Err(error) => Err(error),
        },
        SignRequest::ProxyBls { pubkey, .. } => match manager.get_consensus_proxy_maps(
            module_id,
            reply,
        ) {
            Ok(maps) => {
                if maps_hold_proxy(&maps, pubkey) {
                    Ok(())
                } else {
                    Err(SignerModuleError::UnknownProxySigner(pubkey.to_vec()))
                }
            },
            Err(error) => Err(error),
        },
        SignRequest::ProxyEcdsa { .. } => Err(SignerModuleError::DirkNotSupported),
    }
}

/// Takes the serving of a signature request from Dirk one step further
/// with the reply to its last request.
pub fn continue_request_signature<S>(manager: &DirkManager<S>, task: SigningTask, reply: &Reply) -> (progress:
    SigningProgress)
    ensures
        progress@ == dirk_sign_step(*manager, task@, *reply),
{
    let SigningTask { module_id, request, stage } = task;
    match stage {
        SigningStage::Authorizing => match authorize_dirk_request(
            manager,
            &module_id,
            &request,
            reply,
        ) {
            Ok(_) => open_dirk_signing(
                manager,
                SigningTask { module_id, request, stage: SigningStage::Authorizing },
            ),
            Err(error) => SigningProgress::Done(Err(error)),
        },
        SigningStage::Signing(session) => match manager.continue_signature(session, reply) {
            SignProgress::Continue(next, effect) => SigningProgress::Continue(
                SigningTask { module_id, request, stage: SigningStage::Signing(next) },
                effect,
            ),
            SignProgress::Done(Ok(signature)) => SigningProgress::Done(
                Ok(Signature::Bls(signature)),
            ),
            SignProgress::Done(Err(error)) => SigningProgress::Done(Err(error)),
        },
    }
}

/// The progress of the minting of a BLS proxy key on Dirk, as the service
/// passes it on.
pub open spec fn minting_passed_on(progress: ProxyProgressView) -> MintProgressView {
    match progress {
        ProxyProgressView::Continue(session, effect) => MintProgressView::Continue(session, effect),
        ProxyProgressView::Done(Ok(delegation)) => MintProgressView::Done(
            Ok(MintedView::Bls(delegation)),
        ),
        ProxyProgressView::Done(Err(error)) => MintProgressView::Done(Err(error)),
    }
}

/// The progress of the minting of a BLS proxy key on Dirk, as the service
/// passes it on.
pub fn pass_minting_on(progress: ProxyProgress) -> (passed: MintProgress)
    ensures
        passed@ == minting_passed_on(progress@),
{
    match progress {
        ProxyProgress::Continue(session, effect) => MintProgress::Continue(session, effect),
        ProxyProgress::Done(Ok(delegation)) => MintProgress::Done(Ok(Delegation::Bls(delegation))),
        ProxyProgress::Done(Err(error)) => MintProgress::Done(Err(error)),
    }
}

/// Takes up a request of `module_id` for a new proxy key: the local
/// backend mints it at once, the Dirk backend opens the minting of a BLS
/// key and does not support an ECDSA key.
pub fn handle_generate_proxy<S>(
    manager: &mut SigningManager<S>,
    module_id: ModuleId,
    request: GenerateProxyRequest,
) -> (progress: MintProgress)
    ensures
        match (*old(manager), *final(manager)) {
            (SigningManager::Dirk(before), SigningManager::Dirk(after)) => {
                &&& after == before
                &&& match request.scheme {
                    EncryptionScheme::Bls => exists|uuid: Seq<char>, password: Seq<char>|
                        {
                            &&& is_uuid_text(uuid)
                            &&& is_password_text(password)
                            &&& progress@ == minting_passed_on(
                                #[trigger] proxy_start(
                                    before,
                                    module_id@,
                                    request.consensus_pubkey@,
                                    uuid,
                                    password,
                                ),
                            )
                        },
                    EncryptionScheme::Ecdsa => progress@ == MintProgressView::Done(
                        Err(ErrorView::DirkNotSupported),
                    ),
                }
            },
            (SigningManager::Local(before), SigningManager::Local(after)) => {
                &&& after.chain == before.chain
                &&& after.proxy_store == before.proxy_store
                &&& after.consensus_signers == before.consensus_signers
                &&& before.wf() ==> after.wf()
                &&& match request.scheme {
                    EncryptionScheme::Bls => {
                        &&& after.ecdsa_proxies == before.ecdsa_proxies
                        &&& exists|ikm: Seq<u8>|
                            progress@ == MintProgressView::Done(
                                match #[trigger] minted_bls(
                                    before.chain,
                                    before.consensus_signers@,
                                    request.consensus_pubkey@,
                                    ikm,
                                ) {
                                    Ok(delegation) => Ok(MintedView::Bls(delegation)),
                                    Err(error) => Err(error),
                                },
                            )
                        &&& match progress {
                            MintProgress::Done(Ok(Delegation::Bls(delegation))) => {
                                &&& after.bls_proxies@.len() == before.bls_proxies@.len() + 1
                                &&& after.bls_proxies@.drop_last() == before.bls_proxies@
                                &&& after.bls_proxies@.last().module_id@ == module_id@
                                &&& after.bls_proxies@.last().delegation == delegation
                            },
                            _ => after.bls_proxies == before.bls_proxies,
                        }
                    },
                    EncryptionScheme::Ecdsa => {
                        &&& after.bls_proxies == before.bls_proxies
                        &&& exists|secret: Seq<u8>|
                            progress@ == MintProgressView::Done(
                                match #[trigger] minted_ecdsa(
                                    before.chain,
                                    before.consensus_signers@,
                                    request.consensus_pubkey@,
                                    secret,
                                ) {
                                    Ok(delegation) => Ok(MintedView::Ecdsa(delegation)),
                                    Err(error) => Err(error),
                                },
                            )
                        &&& match progress {
                            MintProgress::Done(Ok(Delegation::Ecdsa(delegation))) => {
                                &&& after.ecdsa_proxies@.len() == before.ecdsa_proxies@.len() + 1
                                &&& after.ecdsa_proxies@.drop_last() == before.ecdsa_proxies@
                                &&& after.ecdsa_proxies@.last().module_id@ == module_id@
                                &&& after.ecdsa_proxies@.last().delegation == delegation
                            },
                            _ => after.ecdsa_proxies == before.ecdsa_proxies,
                        }
                    },
                }
            },
            _ => false,
        },
{
    match manager {
        SigningManager::Local(local) => match request.scheme {
            EncryptionScheme::Bls => {
                let ghost before = *local;
                let outcome = local.create_proxy_bls(module_id, request.consensus_pubkey);
                proof {
                    let ikm = choose|ikm: Seq<u8>| #[trigger]
                        minted_bls(
                            before.chain,
                            before.consensus_signers@,
                            request.consensus_pubkey@,
                            ikm,
                        ) == (match outcome {
                            Ok(delegation) => Ok(delegation@),
                            Err(error) => Err(error@),
                        });
                    assert(minted_bls(
                        before.chain,
                        before.consensus_signers@,
                        request.consensus_pubkey@,
                        ikm,
                    ) == (match outcome {
                        Ok(delegation) => Ok::<DelegationView, ErrorView>(delegation@),
                        Err(error) => Err(error@),
                    }));
                }
                match outcome {
                    Ok(delegation) => MintProgress::Done(Ok(Delegation::Bls(delegation))),
                    Err(error) => MintProgress::Done(Err(error)),
                }
            },
            EncryptionScheme::Ecdsa => {
                let ghost before = *local;
                let outcome = local.create_proxy_ecdsa(module_id, request.consensus_pubkey);
                proof {
                    let secret = choose|secret: Seq<u8>| #[trigger]
                        minted_ecdsa(
                            before.chain,
                            before.consensus_signers@,
                            request.consensus_pubkey@,
                            secret,
                        ) == (match outcome {
                            Ok(delegation) => Ok(delegation@),
                            Err(error) => Err(error@),
                        });
                    assert(minted_ecdsa(
                        before.chain,
                        before.consensus_signers@,
                        request.consensus_pubkey@,
                        secret,
                    ) == (match outcome {
                        Ok(delegation) => Ok::<DelegationView, ErrorView>(delegation@),
                        Err(error) => Err(error@),
                    }));
                }
                match outcome {
                    Ok(delegation) => MintProgress::Done(Ok(Delegation::Ecdsa(delegation))),
                    Err(error) => MintProgress::Done(Err(error)),
                }
            },
        },
        SigningManager::Dirk(dirk) => match request.scheme {
            EncryptionScheme::Bls => pass_minting_on(
                dirk.generate_proxy_key(module_id, request.consensus_pubkey),
            ),
            EncryptionScheme::Ecdsa => MintProgress::Done(Err(SignerModuleError::DirkNotSupported)),
        },
    }
}

/// A proxy as the proxy store keeps it.
#[derive(Clone, Copy, Debug, PartialEq, Eq)]
pub enum ProxyRecord<'a> {
    Bls(&'a BlsProxySigner),
    Ecdsa(&'a EcdsaProxySigner),
}

/// What the proxy store is to keep after the local backend minted
/// `minted`: the proxy with its secret and delegation where the backend
/// has a store, and nothing where it has none. Dirk keeps its proxies
/// itself.
pub fn proxy_to_store<'a, S>(manager: &'a SigningManager<S>, minted: &Delegation) -> (record: Option<
    ProxyRecord<'a>,
>)
    ensures
        match *manager {
            SigningManager::Local(local) => match *minted {
                Delegation::Bls(delegation) => {
                    &&& record is Some <==> local.proxy_store is Some && bls_proxy_secret(
                        local.bls_proxies@,
                        delegation.message.proxy@,
                    ) is Some
                    &&& record matches Some(kept) ==> kept matches ProxyRecord::Bls(signer)
                        && local.bls_proxies@.contains(*signer)
                        && signer.delegation.message.proxy@ == delegation.message.proxy@
                },
                Delegation::Ecdsa(delegation) => {
                    &&& record is Some <==> local.proxy_store is Some && ecdsa_proxy_secret(
                        local.ecdsa_proxies@,
                        delegation.message.proxy@,
                    ) is Some
                    &&& record matches Some(kept) ==> kept matches ProxyRecord::Ecdsa(signer)
                        && local.ecdsa_proxies@.contains(*signer)
                        && signer.delegation.message.proxy@ == delegation.message.proxy@
                },
            },
            SigningManager::Dirk(_) => record is None,
        },
{
    match manager {
        SigningManager::Local(local) => {
            if local.proxy_store.is_none() {
                return None;
            }
            match minted {
                Delegation::Bls(delegation) => match local.bls_proxy_signer(
                    &delegation.message.proxy,
                ) {
                    Some(signer) => Some(ProxyRecord::Bls(signer)),
                    None => None,
                },
                Delegation::Ecdsa(delegation) => match local.ecdsa_proxy_signer(
                    &delegation.message.proxy,
                ) {
                    Some(signer) => Some(ProxyRecord::Ecdsa(signer)),
                    None => None,
                },
            }
        },
        SigningManager::Dirk(_) => None,
    }
}

/// No signing request goes to Dirk for a key that is not the caller's to
/// use: the first one of a task follows a listing that showed the key as a
/// consensus key of the backend or as a proxy key of the module, and each
/// one carries the requested key and root and the domain of proposer
/// commitments on the backend's chain.
pub proof fn lemma_dirk_signs_for_the_caller<S>(
    manager: DirkManager<S>,
    task: SigningTaskView,
    reply: Reply,
)
    requires
        task.stage matches SigningStageView::Signing(session) ==> session.pubkey == requested_key(
            task.request,
        ) && session.object_root == requested_root(task.request),
    ensures
        dirk_sign_step(manager, task, reply) matches SigningProgressView::Continue(
            next,
            EffectView::Sign { pubkey, domain, data },
        ) ==> {
            &&& pubkey == requested_key(task.request)
            &&& data == requested_root(task.request)
            &&& domain == domain_of(manager.chain, COMMIT_BOOST_DOMAIN@)
            &&& task.stage is Authorizing ==> dirk_authorization(
                manager,
                task.module_id,
                task.request,
                reply,
            ) is Ok
            &&& next.module_id == task.module_id
            &&& next.request == task.request
            &&& next.stage matches SigningStageView::Signing(session) && session.pubkey
                == requested_key(task.request) && session.object_root == requested_root(
                task.request,
            )
        },
{
}

/// The Dirk backend takes up no request without a check: where it opens
/// with a signing request, the key is a consensus key that the backend
/// knows as its own.
pub proof fn lemma_dirk_opens_for_known_keys<S>(
    manager: DirkManager<S>,
    module: Seq<char>,
    request: SignRequest,
)
    ensures
        dirk_sign_opening(manager, module, request) matches SigningProgressView::Continue(
            _,
            EffectView::Sign { pubkey, domain, data },
        ) ==> {
            &&& request is Consensus
            &&& registered_keys(manager.accounts@).contains(pubkey)
            &&& pubkey == requested_key(request)
            &&& data == requested_root(request)
            &&& domain == domain_of(manager.chain, COMMIT_BOOST_DOMAIN@)
        },
        request is ProxyEcdsa ==> dirk_sign_opening(manager, module, request)
            == SigningProgressView::Done(Err(ErrorView::DirkNotSupported)),
{
}

/// A proxy key signs for its owner alone: the local backend answers a
/// request by a proxy key that the caller does not own as it answers one by
/// an unknown key.
pub proof fn lemma_local_proxy_signs_for_owner<S>(
    manager: LocalSigningManager<S>,
    module: Seq<char>,
    request: SignRequest,
)
    ensures
        request matches SignRequest::ProxyBls { pubkey, .. } ==> (!owns_bls_proxy(
            manager.bls_proxies@,
            module,
            pubkey@,
        ) ==> (local_signature(manager, module, request) matches Err(error) && error
            == ErrorView::UnknownProxySigner(requested_key(request)))),
        request matches SignRequest::ProxyEcdsa { pubkey, .. } ==> (!owns_ecdsa_proxy(
            manager.ecdsa_proxies@,
            module,
            pubkey@,
        ) ==> (local_signature(manager, module, request) matches Err(error) && error
            == ErrorView::UnknownProxySigner(requested_key(request)))),
{
}

} // verus!
