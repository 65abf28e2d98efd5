//! The local backend: consensus keys and proxy keys held in this process.

use crate::crypto::{
    bls_key_gen, bls_public_key, bls_public_key_of, bls_secret_of, bls_sign, bls_signature_of,
    bls_verifies, bls_verify, ecdsa_public_key, ecdsa_public_key_of, ecdsa_sign,
    ecdsa_signature_of, random_bytes, BLS_DST,
};
use crate::error::{ErrorView, SignerModuleError};
use crate::signature::{
    compute_domain, compute_signing_root, delegation_root, delegation_root_of, domain_of,
    ecdsa_delegation_root, signing_root_of, COMMIT_BOOST_DOMAIN,
};
use crate::types::{
    ecdsa_key_bytes, key_bytes, proxy_map_views, BlsPublicKey, BlsSignature, Chain,
    ConsensusProxyMap, EcdsaPublicKey, EcdsaSignature, ModuleId, ProxyDelegation,
    ProxyDelegationEcdsa, ProxyMapView, SignedProxyDelegation, SignedProxyDelegationEcdsa,
};
use vstd::prelude::*;
use vstd::string::*;

verus! {

/// A consensus key with its secret.
#[derive(Clone, Copy, Debug, PartialEq, Eq)]
pub struct ConsensusSigner {
    pub pubkey: BlsPublicKey,
    pub secret: [u8; 32],
}

/// A BLS proxy key: the module that owns it, its secret, and the delegation
/// that binds it to a consensus key.
#[derive(Clone, Debug, PartialEq, Eq)]
pub struct BlsProxySigner {
    pub module_id: ModuleId,
    pub secret: [u8; 32],
    pub delegation: SignedProxyDelegation,
}

/// An ECDSA proxy key: the module that owns it, its secret, and the
/// delegation that binds it to a consensus key.
#[derive(Clone, Debug, PartialEq, Eq)]
pub struct EcdsaProxySigner {
    pub module_id: ModuleId,
    pub secret: [u8; 32],
    pub delegation: SignedProxyDelegationEcdsa,
}

/// The local backend. `S` is the store that keeps proxies.
pub struct LocalSigningManager<S> {
    pub chain: Chain,
    pub proxy_store: Option<S>,
    pub consensus_signers: Vec<ConsensusSigner>,
    pub bls_proxies: Vec<BlsProxySigner>,
    pub ecdsa_proxies: Vec<EcdsaProxySigner>,
}

/// The text of the error for a secret that does not sign.
pub open spec fn signing_failed() -> Seq<char> {
    "the secret key cannot sign"@
}

/// The text of the error for key material that gives no key.
pub open spec fn key_generation_failed() -> Seq<char> {
    "no key could be generated"@
}

/// The root that a key of `chain` signs for `object_root`: the signing root
/// under the domain of proposer commitments.
pub open spec fn commit_signing_root(chain: Chain, object_root: Seq<u8>) -> Seq<u8> {
    signing_root_of(object_root, domain_of(chain, COMMIT_BOOST_DOMAIN@))
}

/// The BLS signature of `secret` for `object_root` on `chain`.
pub open spec fn bls_signed(chain: Chain, secret: Seq<u8>, object_root: Seq<u8>) -> Option<Seq<u8>> {
    bls_signature_of(secret, commit_signing_root(chain, object_root), BLS_DST.spec_bytes())
}

/// The ECDSA signature of `secret` for `object_root` on `chain`: `r` and
/// `s`, then the recovery byte.
pub open spec fn ecdsa_signed(chain: Chain, secret: Seq<u8>, object_root: Seq<u8>) -> Option<
    Seq<u8>,
> {
    match ecdsa_signature_of(secret, commit_signing_root(chain, object_root)) {
        Some((rs, recovery)) => Some(rs + seq![recovery]),
        None => None,
    }
}

/// The secret of the first consensus signer with the key `key`.
pub open spec fn consensus_secret(signers: Seq<ConsensusSigner>, key: Seq<u8>) -> Option<Seq<u8>>
    decreases signers.len(),
{
    if signers.len() == 0 {
        None
    } else if signers[0].pubkey@ == key {
        Some(signers[0].secret@)
    } else {
        consensus_secret(signers.drop_first(), key)
    }
}

/// The secret of the first BLS proxy with the key `key`.
pub open spec fn bls_proxy_secret(proxies: Seq<BlsProxySigner>, key: Seq<u8>) -> Option<Seq<u8>>
    decreases proxies.len(),
{
    if proxies.len() == 0 {
        None
    } else if proxies[0].delegation.message.proxy@ == key {
        Some(proxies[0].secret@)
    } else {
        bls_proxy_secret(proxies.drop_first(), key)
    }
}

/// The secret of the first ECDSA proxy with the key `key`.
pub open spec fn ecdsa_proxy_secret(proxies: Seq<EcdsaProxySigner>, key: Seq<u8>) -> Option<
    Seq<u8>,
>
    decreases proxies.len(),
{
    if proxies.len() == 0 {
        None
    } else if proxies[0].delegation.message.proxy@ == key {
        Some(proxies[0].secret@)
    } else {
        ecdsa_proxy_secret(proxies.drop_first(), key)
    }
}

/// True when `module` owns a BLS proxy with the key `key`.
pub open spec fn owns_bls_proxy(proxies: Seq<BlsProxySigner>, module: Seq<char>, key: Seq<u8>) -> bool {
    exists|i: int|
        0 <= i < proxies.len() && (#[trigger] proxies[i]).module_id@ == module
            && proxies[i].delegation.message.proxy@ == key
}

/// True when `module` owns an ECDSA proxy with the key `key`.
pub open spec fn owns_ecdsa_proxy(
    proxies: Seq<EcdsaProxySigner>,
    module: Seq<char>,
    key: Seq<u8>,
) -> bool {
    exists|i: int|
        0 <= i < proxies.len() && (#[trigger] proxies[i]).module_id@ == module
            && proxies[i].delegation.message.proxy@ == key
}

/// The BLS proxy keys that `module` holds under the consensus key
/// `consensus`, in the order they were made.
pub open spec fn bls_proxies_under(
    proxies: Seq<BlsProxySigner>,
    module: Seq<char>,
    consensus: Seq<u8>,
) -> Seq<Seq<u8>> {
    proxies.filter_map(
        |proxy: BlsProxySigner|
            if proxy.module_id@ == module && proxy.delegation.message.delegator@ == consensus {
                Some(proxy.delegation.message.proxy@)
            } else {
                None
            },
    )
}

/// The ECDSA proxy keys that `module` holds under the consensus key
/// `consensus`, in the order they were made.
pub open spec fn ecdsa_proxies_under(
    proxies: Seq<EcdsaProxySigner>,
    module: Seq<char>,
    consensus: Seq<u8>,
) -> Seq<Seq<u8>> {
    proxies.filter_map(
        |proxy: EcdsaProxySigner|
            if proxy.module_id@ == module && proxy.delegation.message.delegator@ == consensus {
                Some(proxy.delegation.message.proxy@)
            } else {
                None
            },
    )
}

/// For each consensus key, in order, that key and the proxy keys that
/// `module` holds under it.
pub open spec fn local_proxy_maps(
    signers: Seq<ConsensusSigner>,
    bls: Seq<BlsProxySigner>,
    ecdsa: Seq<EcdsaProxySigner>,
    module: Seq<char>,
) -> Seq<ProxyMapView> {
    signers.map_values(
        |signer: ConsensusSigner|
            ProxyMapView {
                consensus: signer.pubkey@,
                proxy_bls: bls_proxies_under(bls, module, signer.pubkey@),
                proxy_ecdsa: ecdsa_proxies_under(ecdsa, module, signer.pubkey@),
            },
    )
}

/// What signing `object_root` with the consensus key `key` gives: the
/// signature of the key's secret, or the key unknown.
pub open spec fn consensus_signature(
    chain: Chain,
    signers: Seq<ConsensusSigner>,
    key: Seq<u8>,
    object_root: Seq<u8>,
) -> Result<Seq<u8>, ErrorView> {
    match consensus_secret(signers, key) {
        Some(secret) => match bls_signed(chain, secret, object_root) {
            Some(signature) => Ok(signature),
            None => Err(ErrorView::Internal(signing_failed())),
        },
        None => Err(ErrorView::UnknownConsensusSigner(key)),
    }
}

/// What signing `object_root` with the BLS proxy key `key` gives.
pub open spec fn proxy_bls_signature(
    chain: Chain,
    proxies: Seq<BlsProxySigner>,
    key: Seq<u8>,
    object_root: Seq<u8>,
) -> Result<Seq<u8>, ErrorView> {
    match bls_proxy_secret(proxies, key) {
        Some(secret) => match bls_signed(chain, secret, object_root) {
            Some(signature) => Ok(signature),
            None => Err(ErrorView::Internal(signing_failed())),
        },
        None => Err(ErrorView::UnknownProxySigner(key)),
    }
}

/// What signing `object_root` with the ECDSA proxy key `key` gives.
pub open spec fn proxy_ecdsa_signature(
    chain: Chain,
    proxies: Seq<EcdsaProxySigner>,
    key: Seq<u8>,
    object_root: Seq<u8>,
) -> Result<Seq<u8>, ErrorView> {
    match ecdsa_proxy_secret(proxies, key) {
        Some(secret) => match ecdsa_signed(chain, secret, object_root) {
            Some(signature) => Ok(signature),
            None => Err(ErrorView::Internal(signing_failed())),
        },
        None => Err(ErrorView::UnknownProxySigner(key)),
    }
}

/// `i` is the place of the first signer with the key `key`.
pub open spec fn is_first_signer(signers: Seq<ConsensusSigner>, key: Seq<u8>, i: int) -> bool {
    &&& 0 <= i < signers.len()
    &&& signers[i].pubkey@ == key
    &&& forall|j: int| 0 <= j < i ==> (#[trigger] signers[j]).pubkey@ != key
}

impl ConsensusSigner {
    /// The public key is the one of the secret.
    pub open spec fn wf(self) -> bool {
        bls_public_key_of(self.secret@) == Some(self.pubkey@)
    }
}

impl BlsProxySigner {
    /// The proxy key of the delegation is the one of the secret.
    pub open spec fn wf(self) -> bool {
        bls_public_key_of(self.secret@) == Some(self.delegation.message.proxy@)
    }
}

impl EcdsaProxySigner {
    /// The proxy key of the delegation is the one of the secret.
    pub open spec fn wf(self) -> bool {
        ecdsa_public_key_of(self.secret@) == Some(self.delegation.message.proxy@)
    }
}

impl<S> LocalSigningManager<S> {
    /// Every key that the backend holds is the key of the secret it
    /// holds for it.
    pub open spec fn wf(self) -> bool {
        &&& forall|i: int|
            0 <= i < self.consensus_signers@.len() ==> (#[trigger] self.consensus_signers@[i]).wf()
        &&& forall|i: int| 0 <= i < self.bls_proxies@.len() ==> (#[trigger] self.bls_proxies@[i]).wf()
        &&& forall|i: int|
            0 <= i < self.ecdsa_proxies@.len() ==> (#[trigger] self.ecdsa_proxies@[i]).wf()
    }
}

/// A secret that is found for a consensus key is the secret of one of the
/// signers.
pub proof fn lemma_consensus_secret_is_held(signers: Seq<ConsensusSigner>, key: Seq<u8>)
    requires
        consensus_secret(signers, key) is Some,
    ensures
        exists|i: int|
            0 <= i < signers.len() && (#[trigger] signers[i]).pubkey@ == key && signers[i].secret@
                == consensus_secret(signers, key)->0,
    decreases signers.len(),
{
    if signers[0].pubkey@ == key {
        assert(signers[0].secret@ == consensus_secret(signers, key)->0);
    } else {
        lemma_consensus_secret_is_held(signers.drop_first(), key);
        let i = choose|i: int|
            0 <= i < signers.drop_first().len() && (#[trigger] signers.drop_first()[i]).pubkey@
                == key && signers.drop_first()[i].secret@ == consensus_secret(
                signers.drop_first(),
                key,
            )->0;
        assert(signers[i + 1] == signers.drop_first()[i]);
    }
}

/// A secret that is found for a BLS proxy key is the secret of one of the
/// proxies.
pub proof fn lemma_proxy_secret_is_held(proxies: Seq<BlsProxySigner>, key: Seq<u8>)
    requires
        bls_proxy_secret(proxies, key) is Some,
    ensures
        exists|i: int|
            0 <= i < proxies.len() && (#[trigger] proxies[i]).delegation.message.proxy@ == key
                && proxies[i].secret@ == bls_proxy_secret(proxies, key)->0,
    decreases proxies.len(),
{
    if proxies[0].delegation.message.proxy@ == key {
        assert(proxies[0].secret@ == bls_proxy_secret(proxies, key)->0);
    } else {
        lemma_proxy_secret_is_held(proxies.drop_first(), key);
        let i = choose|i: int|
            0 <= i < proxies.drop_first().len() && (#[trigger] proxies.drop_first()[
                i
            ]).delegation.message.proxy@ == key && proxies.drop_first()[i].secret@
                == bls_proxy_secret(proxies.drop_first(), key)->0;
        assert(proxies[i + 1] == proxies.drop_first()[i]);
    }
}

/// The error for a secret that does not sign.
fn cannot_sign() -> (error: SignerModuleError)
    ensures
        error@ == ErrorView::Internal(signing_failed()),
{
    SignerModuleError::Internal("the secret key cannot sign".to_owned())
}

impl ConsensusSigner {
    /// The signer with this secret, where the bytes are a secret key.
    pub fn new_from_bytes(secret: [u8; 32]) -> (signer: Option<ConsensusSigner>)
        ensures
            match signer {
                Some(made) => made.secret == secret && made.wf(),
                None => bls_public_key_of(secret@).is_none(),
            },
    {
        match bls_public_key(&secret) {
            Some(bytes) => Some(ConsensusSigner { pubkey: BlsPublicKey { bytes }, secret }),
            None => None,
        }
    }
}

/// The BLS signature of `secret` for `object_root` on `chain`, where the
/// bytes are a secret key.
fn sign_bls(chain: Chain, secret: &[u8; 32], object_root: &[u8; 32]) -> (signature: Option<
    BlsSignature,
>)
    ensures
        match signature {
            Some(made) => bls_signed(chain, secret@, object_root@) == Some(made@),
            None => bls_signed(chain, secret@, object_root@).is_none(),
        },
        signature is Some <==> bls_public_key_of(secret@) is Some,
{
    let domain = compute_domain(chain, COMMIT_BOOST_DOMAIN);
    let root = compute_signing_root(object_root, &domain);
    match bls_sign(secret, root.as_slice(), BLS_DST.as_bytes()) {
        Some(bytes) => Some(BlsSignature { bytes }),
        None => None,
    }
}

/// The ECDSA signature of `secret` for `object_root` on `chain`, where the
/// bytes are a secret key and signing goes through.
fn sign_ecdsa(chain: Chain, secret: &[u8; 32], object_root: &[u8; 32]) -> (signature: Option<
    EcdsaSignature,
>)
    ensures
        match signature {
            Some(made) => ecdsa_signed(chain, secret@, object_root@) == Some(made@),
            None => ecdsa_signed(chain, secret@, object_root@).is_none(),
        },
{
    let domain = compute_domain(chain, COMMIT_BOOST_DOMAIN);
    let root = compute_signing_root(object_root, &domain);
    match ecdsa_sign(secret, &root) {
        Some((rs, recovery)) => {
            let mut bytes = [0u8; 65];
            let mut i: usize = 0;
            while i < 64
                invariant
                    i <= 64,
                    forall|j: int| 0 <= j < i ==> bytes@[j] == rs@[j],
                decreases 64 - i,
            {
                bytes[i] = rs[i];
                i += 1;
            }
            bytes[64] = recovery;
            assert(bytes@ =~= rs@ + seq![recovery]);
            Some(EcdsaSignature { bytes })
        },
        None => None,
    }
}

/// Whether `signature` is that of `pubkey` for `object_root` on `chain`.
pub fn verify_signature(
    chain: Chain,
    pubkey: &BlsPublicKey,
    object_root: &[u8; 32],
    signature: &BlsSignature,
) -> (valid: bool)
    ensures
        valid == bls_verifies(
            pubkey@,
            commit_signing_root(chain, object_root@),
            BLS_DST.spec_bytes(),
            signature@,
        ),
{
    let domain = compute_domain(chain, COMMIT_BOOST_DOMAIN);
    let root = compute_signing_root(object_root, &domain);
    bls_verify(&pubkey.bytes, root.as_slice(), BLS_DST.as_bytes(), &signature.bytes)
}

/// Whether the signature of a delegation is that of its delegator over the
/// delegation's root on `chain`.
pub fn verify_delegation(chain: Chain, delegation: &SignedProxyDelegation) -> (valid: bool)
    ensures
        valid == bls_verifies(
            delegation@.delegator,
            commit_signing_root(chain, delegation_root_of(delegation@.delegator, delegation@.proxy)),
            BLS_DST.spec_bytes(),
            delegation@.signature,
        ),
{
    let root = delegation_root(&delegation.message.delegator, &delegation.message.proxy);
    verify_signature(chain, &delegation.message.delegator, &root, &delegation.signature)
}

impl<S> LocalSigningManager<S> {
    /// A backend for `chain` without keys.
    pub fn new(chain: Chain, proxy_store: Option<S>) -> (manager: LocalSigningManager<S>)
        ensures
            manager.chain == chain,
            manager.proxy_store == proxy_store,
            manager.consensus_signers@.len() == 0,
            manager.bls_proxies@.len() == 0,
            manager.ecdsa_proxies@.len() == 0,
            manager.wf(),
    {
        LocalSigningManager {
            chain,
            proxy_store,
            consensus_signers: Vec::new(),
            bls_proxies: Vec::new(),
            ecdsa_proxies: Vec::new(),
        }
    }

    /// Takes a consensus signer in. It takes the place of the first signer
    /// with the same key, or comes last where there is none.
    pub fn add_consensus_signer(&mut self, signer: ConsensusSigner)
        ensures
            final(self).chain == old(self).chain,
            final(self).proxy_store == old(self).proxy_store,
            final(self).bls_proxies == old(self).bls_proxies,
            final(self).ecdsa_proxies == old(self).ecdsa_proxies,
            old(self).wf() && signer.wf() ==> final(self).wf(),
            consensus_secret(old(self).consensus_signers@, signer.pubkey@) is None ==> {
                final(self).consensus_signers@ == old(self).consensus_signers@.push(signer)
            },
            consensus_secret(old(self).consensus_signers@, signer.pubkey@) is Some ==> {
                exists|i: int|
                    {
                        &&& is_first_signer(old(self).consensus_signers@, signer.pubkey@, i)
                        &&& final(self).consensus_signers@ == old(self).consensus_signers@.update(
                            i,
                            signer,
                        )
                    }
            },
    {
        let mut i: usize = 0;
        assert(self.consensus_signers@.skip(0) =~= self.consensus_signers@);
        while i < self.consensus_signers.len()
            invariant
                i <= self.consensus_signers.len(),
                *self == *old(self),
                forall|j: int|
                    0 <= j < i ==> (#[trigger] self.consensus_signers@[j]).pubkey@ != signer.pubkey@,
                consensus_secret(self.consensus_signers@, signer.pubkey@) == consensus_secret(
                    self.consensus_signers@.skip(i as int),
                    signer.pubkey@,
                ),
            decreases self.consensus_signers.len() - i,
        {
            assert(self.consensus_signers@.skip(i as int).drop_first()
                =~= self.consensus_signers@.skip(i + 1));
            if self.consensus_signers[i].pubkey == signer.pubkey {
                assert(is_first_signer(old(self).consensus_signers@, signer.pubkey@, i as int));
                self.consensus_signers.set(i, signer);
                return ;
            }
            i += 1;
        }
        self.consensus_signers.push(signer);
    }

    /// The consensus keys, in order.
    pub fn consensus_pubkeys(&self) -> (keys: Vec<BlsPublicKey>)
        ensures
            keys@.len() == self.consensus_signers@.len(),
            forall|i: int| 0 <= i < keys@.len() ==> keys@[i] == self.consensus_signers@[i].pubkey,
    {
        let mut keys: Vec<BlsPublicKey> = Vec::new();
        let mut i: usize = 0;
        while i < self.consensus_signers.len()
            invariant
                i <= self.consensus_signers.len(),
                keys@.len() == i,
                forall|j: int| 0 <= j < i ==> keys@[j] == self.consensus_signers@[j].pubkey,
            decreases self.consensus_signers.len() - i,
        {
            keys.push(self.consensus_signers[i].pubkey);
            i += 1;
        }
        keys
    }

    /// The secret of the first consensus signer with the key `pubkey`.
    fn find_consensus_secret(&self, pubkey: &BlsPublicKey) -> (secret: Option<[u8; 32]>)
        ensures
            match secret {
                Some(found) => consensus_secret(self.consensus_signers@, pubkey@) == Some(found@),
                None => consensus_secret(self.consensus_signers@, pubkey@).is_none(),
            },
    {
        let mut i: usize = 0;
        assert(self.consensus_signers@.skip(0) =~= self.consensus_signers@);
        while i < self.consensus_signers.len()
            invariant
                i <= self.consensus_signers.len(),
                consensus_secret(self.consensus_signers@, pubkey@) == consensus_secret(
                    self.consensus_signers@.skip(i as int),
                    pubkey@,
                ),
            decreases self.consensus_signers.len() - i,
        {
            assert(self.consensus_signers@.skip(i as int).drop_first()
                =~= self.consensus_signers@.skip(i + 1));
            if self.consensus_signers[i].pubkey == *pubkey {
                return Some(self.consensus_signers[i].secret);
            }
            i += 1;
        }
        None
    }

    /// The secret of the first BLS proxy with the key `pubkey`.
    fn find_bls_proxy_secret(&self, pubkey: &BlsPublicKey) -> (secret: Option<[u8; 32]>)
        ensures
            match secret {
                Some(found) => bls_proxy_secret(self.bls_proxies@, pubkey@) == Some(found@),
                None => bls_proxy_secret(self.bls_proxies@, pubkey@).is_none(),
            },
    {
        let mut i: usize = 0;
        assert(self.bls_proxies@.skip(0) =~= self.bls_proxies@);
        while i < self.bls_proxies.len()
            invariant
                i <= self.bls_proxies.len(),
                bls_proxy_secret(self.bls_proxies@, pubkey@) == bls_proxy_secret(
                    self.bls_proxies@.skip(i as int),
                    pubkey@,
                ),
            decreases self.bls_proxies.len() - i,
        {
            assert(self.bls_proxies@.skip(i as int).drop_first() =~= self.bls_proxies@.skip(i + 1));
            if self.bls_proxies[i].delegation.message.proxy == *pubkey {
                return Some(self.bls_proxies[i].secret);
            }
            i += 1;
        }
        None
    }

    /// The secret of the first ECDSA proxy with the key `pubkey`.
    fn find_ecdsa_proxy_secret(&self, pubkey: &EcdsaPublicKey) -> (secret: Option<[u8; 32]>)
        ensures
            match secret {
                Some(found) => ecdsa_proxy_secret(self.ecdsa_proxies@, pubkey@) == Some(found@),
                None => ecdsa_proxy_secret(self.ecdsa_proxies@, pubkey@).is_none(),
            },
    {
        let mut i: usize = 0;
        assert(self.ecdsa_proxies@.skip(0) =~= self.ecdsa_proxies@);
        while i < self.ecdsa_proxies.len()
            invariant
                i <= self.ecdsa_proxies.len(),
                ecdsa_proxy_secret(self.ecdsa_proxies@, pubkey@) == ecdsa_proxy_secret(
                    self.ecdsa_proxies@.skip(i as int),
                    pubkey@,
                ),
            decreases self.ecdsa_proxies.len() - i,
        {
            assert(self.ecdsa_proxies@.skip(i as int).drop_first() =~= self.ecdsa_proxies@.skip(
                i + 1,
            ));
            if self.ecdsa_proxies[i].delegation.message.proxy == *pubkey {
                return Some(self.ecdsa_proxies[i].secret);
            }
            i += 1;
        }
        None
    }

    /// True when the backend holds the consensus key `pubkey`.
    pub fn has_consensus(&self, pubkey: &BlsPublicKey) -> (yes: bool)
        ensures
            yes == consensus_secret(self.consensus_signers@, pubkey@) is Some,
    {
        self.find_consensus_secret(pubkey).is_some()
    }

    /// True when `module_id` owns the BLS proxy key `pubkey`.
    pub fn has_proxy_bls_for_module(&self, pubkey: &BlsPublicKey, module_id: &ModuleId) -> (yes: bool)
        ensures
            yes == owns_bls_proxy(self.bls_proxies@, module_id@, pubkey@),
    {
        let mut i: usize = 0;
        while i < self.bls_proxies.len()
            invariant
                i <= self.bls_proxies.len(),
                forall|j: int|
                    0 <= j < i ==> !((#[trigger] self.bls_proxies@[j]).module_id@ == module_id@
                        && self.bls_proxies@[j].delegation.message.proxy@ == pubkey@),
            decreases self.bls_proxies.len() - i,
        {
            let proxy = &self.bls_proxies[i];
            if proxy.module_id.0 == module_id.0 && proxy.delegation.message.proxy == *pubkey {
                return true;
            }
            i += 1;
        }
        false
    }

    /// True when `module_id` owns the ECDSA proxy key `pubkey`.
    pub fn has_proxy_ecdsa_for_module(&self, pubkey: &EcdsaPublicKey, module_id: &ModuleId) -> (yes:
        bool)
        ensures
            yes == owns_ecdsa_proxy(self.ecdsa_proxies@, module_id@, pubkey@),
    {
        let mut i: usize = 0;
        while i < self.ecdsa_proxies.len()
            invariant
                i <= self.ecdsa_proxies.len(),
                forall|j: int|
                    0 <= j < i ==> !((#[trigger] self.ecdsa_proxies@[j]).module_id@ == module_id@
                        && self.ecdsa_proxies@[j].delegation.message.proxy@ == pubkey@),
            decreases self.ecdsa_proxies.len() - i,
        {
            let proxy = &self.ecdsa_proxies[i];
            if proxy.module_id.0 == module_id.0 && proxy.delegation.message.proxy == *pubkey {
                return true;
            }
            i += 1;
        }
        false
    }

    /// Signs `object_root` with the consensus key `pubkey`, under the
    /// domain of proposer commitments on the backend's chain. A key that
    /// the backend does not hold is an unknown consensus signer.
    pub fn sign_consensus(&self, pubkey: &BlsPublicKey, object_root: &[u8; 32]) -> (outcome: Result<
        BlsSignature,
        SignerModuleError,
    >)
        ensures
            match outcome {
                Ok(signature) => consensus_signature(
                    self.chain,
                    self.consensus_signers@,
                    pubkey@,
                    object_root@,
                ) matches Ok(meant) && meant == signature@,
                Err(error) => consensus_signature(
                    self.chain,
                    self.consensus_signers@,
                    pubkey@,
                    object_root@,
                ) matches Err(meant) && meant == error@,
            },
            self.wf() ==> (outcome is Ok <==> consensus_secret(self.consensus_signers@, pubkey@)
                is Some),
    {
        match self.find_consensus_secret(pubkey) {
            Some(secret) => {
                proof {
                    lemma_consensus_secret_is_held(self.consensus_signers@, pubkey@);
                }
                match sign_bls(self.chain, &secret, object_root) {
                    Some(signature) => Ok(signature),
                    None => Err(cannot_sign()),
                }
            },
            None => Err(SignerModuleError::UnknownConsensusSigner(pubkey.to_vec())),
        }
    }

    /// Signs `object_root` with the BLS proxy key `pubkey`. A key that the
    /// backend does not hold is an unknown proxy signer.
    pub fn sign_proxy_bls(&self, pubkey: &BlsPublicKey, object_root: &[u8; 32]) -> (outcome: Result<
        BlsSignature,
        SignerModuleError,
    >)
        ensures
            match outcome {
                Ok(signature) => proxy_bls_signature(
                    self.chain,
                    self.bls_proxies@,
                    pubkey@,
                    object_root@,
                ) matches Ok(meant) && meant == signature@,
                Err(error) => proxy_bls_signature(
                    self.chain,
                    self.bls_proxies@,
                    pubkey@,
                    object_root@,
                ) matches Err(meant) && meant == error@,
            },
            self.wf() ==> (outcome is Ok <==> bls_proxy_secret(self.bls_proxies@, pubkey@)
                is Some),
    {
        match self.find_bls_proxy_secret(pubkey) {
            Some(secret) => {
                proof {
                    lemma_proxy_secret_is_held(self.bls_proxies@, pubkey@);
                }
                match sign_bls(self.chain, &secret, object_root) {
                    Some(signature) => Ok(signature),
                    None => Err(cannot_sign()),
                }
            },
            None => Err(SignerModuleError::UnknownProxySigner(pubkey.to_vec())),
        }
    }

    /// Signs `object_root` with the ECDSA proxy key `pubkey`. A key that
    /// the backend does not hold is an unknown proxy signer.
    pub fn sign_proxy_ecdsa(&self, pubkey: &EcdsaPublicKey, object_root: &[u8; 32]) -> (outcome:
        Result<EcdsaSignature, SignerModuleError>)
        ensures
            match outcome {
                Ok(signature) => proxy_ecdsa_signature(
                    self.chain,
                    self.ecdsa_proxies@,
                    pubkey@,
                    object_root@,
                ) matches Ok(meant) && meant == signature@,
                Err(error) => proxy_ecdsa_signature(
                    self.chain,
                    self.ecdsa_proxies@,
                    pubkey@,
                    object_root@,
                ) matches Err(meant) && meant == error@,
            },
    {
        match self.find_ecdsa_proxy_secret(pubkey) {
            Some(secret) => match sign_ecdsa(self.chain, &secret, object_root) {
                Some(signature) => Ok(signature),
                None => Err(cannot_sign()),
            },
            None => Err(
                SignerModuleError::UnknownProxySigner(
                    vstd::slice::slice_to_vec(pubkey.encoded.as_slice()),
                ),
            ),
        }
    }
}

/// The BLS proxy keys that `module_id` holds under `consensus`.
fn bls_keys_under(proxies: &Vec<BlsProxySigner>, module_id: &ModuleId, consensus: &BlsPublicKey) -> (keys:
    Vec<BlsPublicKey>)
    ensures
        key_bytes(keys@) == bls_proxies_under(proxies@, module_id@, consensus@),
{
    let ghost pick = |proxy: BlsProxySigner|
        if proxy.module_id@ == module_id@ && proxy.delegation.message.delegator@ == consensus@ {
            Some(proxy.delegation.message.proxy@)
        } else {
            None
        };
    let mut keys: Vec<BlsPublicKey> = Vec::new();
    let mut i: usize = 0;
    assert(proxies@.take(0).filter_map(pick) =~= Seq::<Seq<u8>>::empty());
    while i < proxies.len()
        invariant
            i <= proxies.len(),
            pick == |proxy: BlsProxySigner|
                if proxy.module_id@ == module_id@ && proxy.delegation.message.delegator@
                    == consensus@ {
                    Some(proxy.delegation.message.proxy@)
                } else {
                    None
                },
            key_bytes(keys@) =~= proxies@.take(i as int).filter_map(pick),
        decreases proxies.len() - i,
    {
        let proxy = &proxies[i];
        proof {
            proxies@.lemma_filter_map_take_succ(pick, i as int);
        }
        if proxy.module_id.0 == module_id.0 && proxy.delegation.message.delegator == *consensus {
            keys.push(proxy.delegation.message.proxy);
        }
        i += 1;
    }
    assert(proxies@.take(proxies.len() as int) =~= proxies@);
    keys
}

/// The ECDSA proxy keys that `module_id` holds under `consensus`.
fn ecdsa_keys_under(
    proxies: &Vec<EcdsaProxySigner>,
    module_id: &ModuleId,
    consensus: &BlsPublicKey,
) -> (keys: Vec<EcdsaPublicKey>)
    ensures
        ecdsa_key_bytes(keys@) == ecdsa_proxies_under(proxies@, module_id@, consensus@),
{
    let ghost pick = |proxy: EcdsaProxySigner|
        if proxy.module_id@ == module_id@ && proxy.delegation.message.delegator@ == consensus@ {
            Some(proxy.delegation.message.proxy@)
        } else {
            None
        };
    let mut keys: Vec<EcdsaPublicKey> = Vec::new();
    let mut i: usize = 0;
    assert(proxies@.take(0).filter_map(pick) =~= Seq::<Seq<u8>>::empty());
    while i < proxies.len()
        invariant
            i <= proxies.len(),
            pick == |proxy: EcdsaProxySigner|
                if proxy.module_id@ == module_id@ && proxy.delegation.message.delegator@
                    == consensus@ {
                    Some(proxy.delegation.message.proxy@)
                } else {
                    None
                },
            ecdsa_key_bytes(keys@) =~= proxies@.take(i as int).filter_map(pick),
        decreases proxies.len() - i,
    {
        let proxy = &proxies[i];
        proof {
            proxies@.lemma_filter_map_take_succ(pick, i as int);
        }
        if proxy.module_id.0 == module_id.0 && proxy.delegation.message.delegator == *consensus {
            keys.push(proxy.delegation.message.proxy);
        }
        i += 1;
    }
    assert(proxies@.take(proxies.len() as int) =~= proxies@);
    keys
}

/// The error for key material that gives no key.
fn no_key() -> (error: SignerModuleError)
    ensures
        error@ == ErrorView::Internal(key_generation_failed()),
{
    SignerModuleError::Internal("no key could be generated".to_owned())
}

/// What the minting of a BLS proxy from the key material `ikm` gives: the
/// delegation to the key derived from it, signed by the secret of
/// `delegator`; or the error that stops it.
pub open spec fn minted_bls(
    chain: Chain,
    signers: Seq<ConsensusSigner>,
    delegator: Seq<u8>,
    ikm: Seq<u8>,
) -> Result<crate::types::DelegationView, ErrorView> {
    match bls_public_key_of(bls_secret_of(ikm)) {
        None => Err(ErrorView::Internal(key_generation_failed())),
        Some(proxy) => match consensus_secret(signers, delegator) {
            None => Err(ErrorView::UnknownConsensusSigner(delegator)),
            Some(secret) => match bls_signed(chain, secret, delegation_root_of(delegator, proxy)) {
                None => Err(ErrorView::Internal(signing_failed())),
                Some(signature) => Ok(
                    crate::types::DelegationView { delegator, proxy, signature },
                ),
            },
        },
    }
}

/// What the minting of an ECDSA proxy from the secret `secret` gives.
pub open spec fn minted_ecdsa(
    chain: Chain,
    signers: Seq<ConsensusSigner>,
    delegator: Seq<u8>,
    secret: Seq<u8>,
) -> Result<crate::types::DelegationView, ErrorView> {
    match ecdsa_public_key_of(secret) {
        None => Err(ErrorView::Internal(key_generation_failed())),
        Some(proxy) => match consensus_secret(signers, delegator) {
            None => Err(ErrorView::UnknownConsensusSigner(delegator)),
            Some(consensus) => match bls_signed(
                chain,
                consensus,
                delegation_root_of(delegator, proxy),
            ) {
                None => Err(ErrorView::Internal(signing_failed())),
                Some(signature) => Ok(
                    crate::types::DelegationView { delegator, proxy, signature },
                ),
            },
        },
    }
}

impl<S> LocalSigningManager<S> {
    /// For each consensus key, in order, that key and the proxy keys that
    /// `module_id` holds under it.
    pub fn get_consensus_proxy_maps(&self, module_id: &ModuleId) -> (maps: Vec<ConsensusProxyMap>)
        ensures
            proxy_map_views(maps@) == local_proxy_maps(
                self.consensus_signers@,
                self.bls_proxies@,
                self.ecdsa_proxies@,
                module_id@,
            ),
    {
        let mut maps: Vec<ConsensusProxyMap> = Vec::new();
        let mut i: usize = 0;
        while i < self.consensus_signers.len()
            invariant
                i <= self.consensus_signers.len(),
                maps@.len() == i,
                forall|j: int|
                    0 <= j < i ==> (#[trigger] maps@[j])@ == (ProxyMapView {
                        consensus: self.consensus_signers@[j].pubkey@,
                        proxy_bls: bls_proxies_under(
                            self.bls_proxies@,
                            module_id@,
                            self.consensus_signers@[j].pubkey@,
                        ),
                        proxy_ecdsa: ecdsa_proxies_under(
                            self.ecdsa_proxies@,
                            module_id@,
                            self.consensus_signers@[j].pubkey@,
                        ),
                    }),
            decreases self.consensus_signers.len() - i,
        {
            let consensus = self.consensus_signers[i].pubkey;
            let proxy_bls = bls_keys_under(&self.bls_proxies, module_id, &consensus);
            let proxy_ecdsa = ecdsa_keys_under(&self.ecdsa_proxies, module_id, &consensus);
            maps.push(ConsensusProxyMap { consensus, proxy_bls, proxy_ecdsa });
            i += 1;
        }
        assert(proxy_map_views(maps@) =~= local_proxy_maps(
            self.consensus_signers@,
            self.bls_proxies@,
            self.ecdsa_proxies@,
            module_id@,
        ));
        maps
    }

    /// The proxy signer of the BLS key `pubkey`: what the proxy store keeps.
    pub fn bls_proxy_signer(&self, pubkey: &BlsPublicKey) -> (signer: Option<&BlsProxySigner>)
        ensures
            signer is Some <==> bls_proxy_secret(self.bls_proxies@, pubkey@) is Some,
            signer matches Some(found) ==> exists|i: int|
                {
                    &&& 0 <= i < self.bls_proxies@.len()
                    &&& *found == self.bls_proxies@[i]
                    &&& found.delegation.message.proxy@ == pubkey@
                    &&& forall|j: int|
                        0 <= j < i ==> (#[trigger] self.bls_proxies@[j]).delegation.message.proxy@
                            != pubkey@
                },
    {
        let mut i: usize = 0;
        assert(self.bls_proxies@.skip(0) =~= self.bls_proxies@);
        while i < self.bls_proxies.len()
            invariant
                i <= self.bls_proxies.len(),
                bls_proxy_secret(self.bls_proxies@, pubkey@) == bls_proxy_secret(
                    self.bls_proxies@.skip(i as int),
                    pubkey@,
                ),
                forall|j: int|
                    0 <= j < i ==> (#[trigger] self.bls_proxies@[j]).delegation.message.proxy@
                        != pubkey@,
            decreases self.bls_proxies.len() - i,
        {
            assert(self.bls_proxies@.skip(i as int).drop_first() =~= self.bls_proxies@.skip(i + 1));
            if self.bls_proxies[i].delegation.message.proxy == *pubkey {
                return Some(&self.bls_proxies[i]);
            }
            i += 1;
        }
        None
    }

    /// The proxy signer of the ECDSA key `pubkey`: what the proxy store keeps.
    pub fn ecdsa_proxy_signer(&self, pubkey: &EcdsaPublicKey) -> (signer: Option<&EcdsaProxySigner>)
        ensures
            signer is Some <==> ecdsa_proxy_secret(self.ecdsa_proxies@, pubkey@) is Some,
            signer matches Some(found) ==> exists|i: int|
                {
                    &&& 0 <= i < self.ecdsa_proxies@.len()
                    &&& *found == self.ecdsa_proxies@[i]
                    &&& found.delegation.message.proxy@ == pubkey@
                    &&& forall|j: int|
                        0 <= j < i ==> (#[trigger] self.ecdsa_proxies@[j]).delegation.message.proxy@
                            != pubkey@
                },
    {
        let mut i: usize = 0;
        assert(self.ecdsa_proxies@.skip(0) =~= self.ecdsa_proxies@);
        while i < self.ecdsa_proxies.len()
            invariant
                i <= self.ecdsa_proxies.len(),
                ecdsa_proxy_secret(self.ecdsa_proxies@, pubkey@) == ecdsa_proxy_secret(
                    self.ecdsa_proxies@.skip(i as int),
                    pubkey@,
                ),
                forall|j: int|
                    0 <= j < i ==> (#[trigger] self.ecdsa_proxies@[j]).delegation.message.proxy@
                        != pubkey@,
            decreases self.ecdsa_proxies.len() - i,
        {
            assert(self.ecdsa_proxies@.skip(i as int).drop_first() =~= self.ecdsa_proxies@.skip(
                i + 1,
            ));
            if self.ecdsa_proxies[i].delegation.message.proxy == *pubkey {
                return Some(&self.ecdsa_proxies[i]);
            }
            i += 1;
        }
        None
    }

    /// Mints a BLS proxy key for `module_id` under `delegator` from the key
    /// material `ikm`: derives the key, has the consensus key sign the
    /// delegation, and records the proxy as the module's. On an error the
    /// backend is as before.
    pub fn create_proxy_bls_from(&mut self, module_id: ModuleId, delegator: BlsPublicKey, ikm: [u8; 32]) -> (outcome:
        Result<SignedProxyDelegation, SignerModuleError>)
        ensures
            final(self).chain == old(self).chain,
            final(self).proxy_store == old(self).proxy_store,
            final(self).consensus_signers == old(self).consensus_signers,
            final(self).ecdsa_proxies == old(self).ecdsa_proxies,
            old(self).wf() ==> final(self).wf(),
            match outcome {
                Ok(delegation) => {
                    &&& minted_bls(
                        old(self).chain,
                        old(self).consensus_signers@,
                        delegator@,
                        ikm@,
                    ) matches Ok(minted)
                    &&& minted == delegation@
                    &&& final(self).bls_proxies@.len() == old(self).bls_proxies@.len() + 1
                    &&& final(self).bls_proxies@.drop_last() == old(self).bls_proxies@
                    &&& final(self).bls_proxies@.last().module_id@ == module_id@
                    &&& final(self).bls_proxies@.last().secret@ == bls_secret_of(ikm@)
                    &&& final(self).bls_proxies@.last().delegation == delegation
                },
                Err(error) => {
                    &&& minted_bls(
                        old(self).chain,
                        old(self).consensus_signers@,
                        delegator@,
                        ikm@,
                    ) matches Err(meant)
                    &&& meant == error@
                    &&& final(self).bls_proxies == old(self).bls_proxies
                },
            },
    {
        let secret = bls_key_gen(&ikm);
        let proxy = match bls_public_key(&secret) {
            Some(bytes) => BlsPublicKey { bytes },
            None => {
                return Err(no_key());
            },
        };
        let root = delegation_root(&delegator, &proxy);
        let signature = match self.find_consensus_secret(&delegator) {
            Some(consensus) => match sign_bls(self.chain, &consensus, &root) {
                Some(signature) => signature,
                None => {
                    return Err(cannot_sign());
                },
            },
            None => {
                return Err(SignerModuleError::UnknownConsensusSigner(delegator.to_vec()));
            },
        };
        let delegation = SignedProxyDelegation {
            message: ProxyDelegation { delegator, proxy },
            signature,
        };
        self.bls_proxies.push(BlsProxySigner { module_id, secret, delegation });
        assert(self.bls_proxies@.drop_last() =~= old(self).bls_proxies@);
        Ok(delegation)
    }

    /// Mints a BLS proxy key for `module_id` under `delegator` from fresh
    /// key material. Which key material comes is left open; the rest is as
    /// `create_proxy_bls_from` says.
    pub fn create_proxy_bls(&mut self, module_id: ModuleId, delegator: BlsPublicKey) -> (outcome:
        Result<SignedProxyDelegation, SignerModuleError>)
        ensures
            final(self).chain == old(self).chain,
            final(self).proxy_store == old(self).proxy_store,
            final(self).consensus_signers == old(self).consensus_signers,
            final(self).ecdsa_proxies == old(self).ecdsa_proxies,
            old(self).wf() ==> final(self).wf(),
            exists|ikm: Seq<u8>| #[trigger]
                minted_bls(old(self).chain, old(self).consensus_signers@, delegator@, ikm) == (
                match outcome {
                    Ok(delegation) => Ok(delegation@),
                    Err(error) => Err(error@),
                }),
            match outcome {
                Ok(delegation) => {
                    &&& final(self).bls_proxies@.len() == old(self).bls_proxies@.len() + 1
                    &&& final(self).bls_proxies@.drop_last() == old(self).bls_proxies@
                    &&& final(self).bls_proxies@.last().module_id@ == module_id@
                    &&& final(self).bls_proxies@.last().delegation == delegation
                },
                Err(_) => final(self).bls_proxies == old(self).bls_proxies,
            },
    {
        let ikm = random_bytes();
        let outcome = self.create_proxy_bls_from(module_id, delegator, ikm);
        assert(minted_bls(old(self).chain, old(self).consensus_signers@, delegator@, ikm@) == (
        match outcome {
            Ok(delegation) => Ok(delegation@),
            Err(error) => Err(error@),
        }));
        outcome
    }

    /// Mints an ECDSA proxy key for `module_id` under `delegator` from the
    /// secret `secret`: derives the key, has the consensus key sign the
    /// delegation, and records the proxy as the module's. On an error the
    /// backend is as before.
    pub fn create_proxy_ecdsa_from(
        &mut self,
        module_id: ModuleId,
        delegator: BlsPublicKey,
        secret: [u8; 32],
    ) -> (outcome: Result<SignedProxyDelegationEcdsa, SignerModuleError>)
        ensures
            final(self).chain == old(self).chain,
            final(self).proxy_store == old(self).proxy_store,
            final(self).consensus_signers == old(self).consensus_signers,
            final(self).bls_proxies == old(self).bls_proxies,
            old(self).wf() ==> final(self).wf(),
            match outcome {
                Ok(delegation) => {
                    &&& minted_ecdsa(
                        old(self).chain,
                        old(self).consensus_signers@,
                        delegator@,
                        secret@,
                    ) matches Ok(minted)
                    &&& minted == delegation@
                    &&& final(self).ecdsa_proxies@.len() == old(self).ecdsa_proxies@.len() + 1
                    &&& final(self).ecdsa_proxies@.drop_last() == old(self).ecdsa_proxies@
                    &&& final(self).ecdsa_proxies@.last().module_id@ == module_id@
                    &&& final(self).ecdsa_proxies@.last().secret == secret
                    &&& final(self).ecdsa_proxies@.last().delegation == delegation
                },
                Err(error) => {
                    &&& minted_ecdsa(
                        old(self).chain,
                        old(self).consensus_signers@,
                        delegator@,
                        secret@,
                    ) matches Err(meant)
                    &&& meant == error@
                    &&& final(self).ecdsa_proxies == old(self).ecdsa_proxies
                },
            },
    {
        let proxy = match ecdsa_public_key(&secret) {
            Some(encoded) => EcdsaPublicKey { encoded },
            None => {
                return Err(no_key());
            },
        };
        let root = ecdsa_delegation_root(&delegator, &proxy);
        let signature = match self.find_consensus_secret(&delegator) {
            Some(consensus) => match sign_bls(self.chain, &consensus, &root) {
                Some(signature) => signature,
                None => {
                    return Err(cannot_sign());
                },
            },
            None => {
                return Err(SignerModuleError::UnknownConsensusSigner(delegator.to_vec()));
            },
        };
        let delegation = SignedProxyDelegationEcdsa {
            message: ProxyDelegationEcdsa { delegator, proxy },
            signature,
        };
        self.ecdsa_proxies.push(EcdsaProxySigner { module_id, secret, delegation });
        assert(self.ecdsa_proxies@.drop_last() =~= old(self).ecdsa_proxies@);
        Ok(delegation)
    }

    /// Mints an ECDSA proxy key for `module_id` under `delegator` from a
    /// fresh secret. Which secret comes is left open; the rest is as
    /// `create_proxy_ecdsa_from` says.
    pub fn create_proxy_ecdsa(&mut self, module_id: ModuleId, delegator: BlsPublicKey) -> (outcome:
        Result<SignedProxyDelegationEcdsa, SignerModuleError>)
        ensures
            final(self).chain == old(self).chain,
            final(self).proxy_store == old(self).proxy_store,
            final(self).consensus_signers == old(self).consensus_signers,
            final(self).bls_proxies == old(self).bls_proxies,
            old(self).wf() ==> final(self).wf(),
            exists|secret: Seq<u8>| #[trigger]
                minted_ecdsa(old(self).chain, old(self).consensus_signers@, delegator@, secret)
                    == (match outcome {
                    Ok(delegation) => Ok(delegation@),
                    Err(error) => Err(error@),
                }),
            match outcome {
                Ok(delegation) => {
                    &&& final(self).ecdsa_proxies@.len() == old(self).ecdsa_proxies@.len() + 1
                    &&& final(self).ecdsa_proxies@.drop_last() == old(self).ecdsa_proxies@
                    &&& final(self).ecdsa_proxies@.last().module_id@ == module_id@
                    &&& final(self).ecdsa_proxies@.last().delegation == delegation
                },
                Err(_) => final(self).ecdsa_proxies == old(self).ecdsa_proxies,
            },
    {
        let secret = random_bytes();
        let outcome = self.create_proxy_ecdsa_from(module_id, delegator, secret);
        assert(minted_ecdsa(old(self).chain, old(self).consensus_signers@, delegator@, secret@)
            == (match outcome {
            Ok(delegation) => Ok(delegation@),
            Err(error) => Err(error@),
        }));
        outcome
    }
}

/// A proxy that the backend takes in is shown to its own module under its
/// own delegator, after the proxies shown there before; what any other
/// module sees, and what is seen under any other key, stays as it was.
pub proof fn lemma_new_proxy_is_shown(
    proxies: Seq<BlsProxySigner>,
    added: BlsProxySigner,
    module: Seq<char>,
    consensus: Seq<u8>,
)
    ensures
        bls_proxies_under(proxies.push(added), module, consensus) == (if added.module_id@ == module
            && added.delegation.message.delegator@ == consensus {
            bls_proxies_under(proxies, module, consensus).push(added.delegation.message.proxy@)
        } else {
            bls_proxies_under(proxies, module, consensus)
        }),
{
    let grown = proxies.push(added);
    assert(grown.drop_last() =~= proxies);
    assert(grown.last() == added);
    assert(bls_proxies_under(grown, module, consensus) =~= (if added.module_id@ == module
        && added.delegation.message.delegator@ == consensus {
        bls_proxies_under(proxies, module, consensus).push(added.delegation.message.proxy@)
    } else {
        bls_proxies_under(proxies, module, consensus)
    }));
}

} // verus!
