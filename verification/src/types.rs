//! Keys, signatures and identities shared by the signer's components.

use crate::encoding::fixed_bytes;
use vstd::prelude::*;
use vstd::slice::slice_to_vec;
use vstd::std_specs::cmp::PartialEqSpecImpl;

verus! {

/// True when the two byte strings hold the same bytes.
pub fn bytes_equal(a: &[u8], b: &[u8]) -> (same: bool)
    ensures
        same == (a@ == b@),
{
    if a.len() != b.len() {
        return false;
    }
    let mut i: usize = 0;
    while i < a.len()
        invariant
            i <= a.len(),
            a.len() == b.len(),
            forall|j: int| 0 <= j < i ==> a@[j] == b@[j],
        decreases a.len() - i,
    {
        if a[i] != b[i] {
            return false;
        }
        i += 1;
    }
    assert(a@ =~= b@);
    true
}

/// A BLS public key: 48 bytes. Its view is the byte string.
#[derive(Clone, Copy, Debug, Hash)]
pub struct BlsPublicKey {
    pub bytes: [u8; 48],
}

impl View for BlsPublicKey {
    type V = Seq<u8>;

    open spec fn view(&self) -> Seq<u8> {
        self.bytes@
    }
}

impl PartialEq for BlsPublicKey {
    fn eq(&self, other: &BlsPublicKey) -> (same: bool) {
        bytes_equal(self.bytes.as_slice(), other.bytes.as_slice())
    }
}

impl Eq for BlsPublicKey {

}

impl PartialEqSpecImpl for BlsPublicKey {
    open spec fn obeys_eq_spec() -> bool {
        true
    }

    open spec fn eq_spec(&self, other: &BlsPublicKey) -> bool {
        self.bytes@ == other.bytes@
    }
}

impl BlsPublicKey {
    /// The key made of exactly these bytes.
    pub fn new(bytes: [u8; 48]) -> (key: BlsPublicKey)
        ensures
            key.bytes == bytes,
    {
        BlsPublicKey { bytes }
    }

    /// Reads a key from a byte string: `Some` exactly when it holds 48 bytes.
    pub fn from_slice(bytes: &[u8]) -> (key: Option<BlsPublicKey>)
        ensures
            key is Some <==> bytes@.len() == 48,
            key is Some ==> key->0@ == bytes@,
    {
        match fixed_bytes::<48>(bytes) {
            Some(fixed) => Some(BlsPublicKey { bytes: fixed }),
            None => None,
        }
    }

    /// The key's bytes as a vector.
    pub fn to_vec(&self) -> (bytes: Vec<u8>)
        ensures
            bytes@ == self@,
    {
        slice_to_vec(self.bytes.as_slice())
    }
}

/// A BLS signature: 96 bytes. Its view is the byte string.
#[derive(Clone, Copy, Debug, Hash)]
pub struct BlsSignature {
    pub bytes: [u8; 96],
}

impl View for BlsSignature {
    type V = Seq<u8>;

    open spec fn view(&self) -> Seq<u8> {
        self.bytes@
    }
}

impl PartialEq for BlsSignature {
    fn eq(&self, other: &BlsSignature) -> (same: bool) {
        bytes_equal(self.bytes.as_slice(), other.bytes.as_slice())
    }
}

impl Eq for BlsSignature {

}

impl PartialEqSpecImpl for BlsSignature {
    open spec fn obeys_eq_spec() -> bool {
        true
    }

    open spec fn eq_spec(&self, other: &BlsSignature) -> bool {
        self.bytes@ == other.bytes@
    }
}

impl BlsSignature {
    /// The signature made of exactly these bytes.
    pub fn new(bytes: [u8; 96]) -> (signature: BlsSignature)
        ensures
            signature.bytes == bytes,
    {
        BlsSignature { bytes }
    }

    /// Reads a signature from a byte string: `Some` exactly when it holds 96 bytes.
    pub fn from_slice(bytes: &[u8]) -> (signature: Option<BlsSignature>)
        ensures
            signature is Some <==> bytes@.len() == 96,
            signature is Some ==> signature->0@ == bytes@,
    {
        match fixed_bytes::<96>(bytes) {
            Some(fixed) => Some(BlsSignature { bytes: fixed }),
            None => None,
        }
    }

    /// The signature's bytes as a vector.
    pub fn to_vec(&self) -> (bytes: Vec<u8>)
        ensures
            bytes@ == self@,
    {
        slice_to_vec(self.bytes.as_slice())
    }
}

/// The name under which a module is registered with the signer.
#[derive(Clone, Debug, PartialEq, Eq, Hash)]
pub struct ModuleId(pub String);

impl View for ModuleId {
    type V = Seq<char>;

    open spec fn view(&self) -> Seq<char> {
        self.0@
    }
}

/// The bearer token that a module presents with each request.
#[derive(Clone, Debug, PartialEq, Eq, Hash)]
pub struct Jwt(pub String);

impl View for Jwt {
    type V = Seq<char>;

    open spec fn view(&self) -> Seq<char> {
        self.0@
    }
}

/// The chain the signer works for. It fixes the fork version that enters
/// every signing domain.
#[derive(Clone, Copy, Debug, PartialEq, Eq)]
pub enum Chain {
    Mainnet,
    Holesky,
    Sepolia,
    Custom { genesis_fork_version: [u8; 4] },
}

/// The bytes of each key of a list, in order.
pub open spec fn key_bytes(keys: Seq<BlsPublicKey>) -> Seq<Seq<u8>> {
    keys.map_values(|key: BlsPublicKey| key@)
}

/// An ECDSA public key in compressed form: 33 bytes.
#[derive(Clone, Copy, Debug, Hash)]
pub struct EcdsaPublicKey {
    pub encoded: [u8; 33],
}

impl View for EcdsaPublicKey {
    type V = Seq<u8>;

    open spec fn view(&self) -> Seq<u8> {
        self.encoded@
    }
}

impl PartialEq for EcdsaPublicKey {
    fn eq(&self, other: &EcdsaPublicKey) -> (same: bool) {
        bytes_equal(self.encoded.as_slice(), other.encoded.as_slice())
    }
}

impl Eq for EcdsaPublicKey {

}

impl PartialEqSpecImpl for EcdsaPublicKey {
    open spec fn obeys_eq_spec() -> bool {
        true
    }

    open spec fn eq_spec(&self, other: &EcdsaPublicKey) -> bool {
        self.encoded@ == other.encoded@
    }
}

/// The bytes of each key of a list, in order.
pub open spec fn ecdsa_key_bytes(keys: Seq<EcdsaPublicKey>) -> Seq<Seq<u8>> {
    keys.map_values(|key: EcdsaPublicKey| key@)
}

/// A consensus key with the proxy keys that one module holds under it.
#[derive(Clone, Debug, PartialEq, Eq)]
pub struct ConsensusProxyMap {
    pub consensus: BlsPublicKey,
    pub proxy_bls: Vec<BlsPublicKey>,
    pub proxy_ecdsa: Vec<EcdsaPublicKey>,
}

/// A `ConsensusProxyMap` by the bytes of its keys.
pub struct ProxyMapView {
    pub consensus: Seq<u8>,
    pub proxy_bls: Seq<Seq<u8>>,
    pub proxy_ecdsa: Seq<Seq<u8>>,
}

impl View for ConsensusProxyMap {
    type V = ProxyMapView;

    open spec fn view(&self) -> ProxyMapView {
        ProxyMapView {
            consensus: self.consensus@,
            proxy_bls: key_bytes(self.proxy_bls@),
            proxy_ecdsa: ecdsa_key_bytes(self.proxy_ecdsa@),
        }
    }
}

/// The views of a list of maps, in order.
pub open spec fn proxy_map_views(maps: Seq<ConsensusProxyMap>) -> Seq<ProxyMapView> {
    maps.map_values(|map: ConsensusProxyMap| map@)
}

/// The statement that `proxy` may sign on behalf of `delegator`.
#[derive(Clone, Copy, Debug, PartialEq, Eq)]
pub struct ProxyDelegation {
    pub delegator: BlsPublicKey,
    pub proxy: BlsPublicKey,
}

/// A delegation with the delegator's signature over its root.
#[derive(Clone, Copy, Debug, PartialEq, Eq)]
pub struct SignedProxyDelegation {
    pub message: ProxyDelegation,
    pub signature: BlsSignature,
}

/// A signed delegation by the bytes of its keys and signature.
pub struct DelegationView {
    pub delegator: Seq<u8>,
    pub proxy: Seq<u8>,
    pub signature: Seq<u8>,
}

impl View for SignedProxyDelegation {
    type V = DelegationView;

    open spec fn view(&self) -> DelegationView {
        DelegationView {
            delegator: self.message.delegator@,
            proxy: self.message.proxy@,
            signature: self.signature@,
        }
    }
}

/// An ECDSA signature: `r` and `s` in 64 bytes and the recovery byte.
#[derive(Clone, Copy, Debug, Hash)]
pub struct EcdsaSignature {
    pub bytes: [u8; 65],
}

impl View for EcdsaSignature {
    type V = Seq<u8>;

    open spec fn view(&self) -> Seq<u8> {
        self.bytes@
    }
}

impl PartialEq for EcdsaSignature {
    fn eq(&self, other: &EcdsaSignature) -> (same: bool) {
        bytes_equal(self.bytes.as_slice(), other.bytes.as_slice())
    }
}

impl Eq for EcdsaSignature {

}

impl PartialEqSpecImpl for EcdsaSignature {
    open spec fn obeys_eq_spec() -> bool {
        true
    }

    open spec fn eq_spec(&self, other: &EcdsaSignature) -> bool {
        self.bytes@ == other.bytes@
    }
}

/// The statement that the ECDSA key `proxy` may sign on behalf of `delegator`.
#[derive(Clone, Copy, Debug, PartialEq, Eq)]
pub struct ProxyDelegationEcdsa {
    pub delegator: BlsPublicKey,
    pub proxy: EcdsaPublicKey,
}

/// A delegation to an ECDSA key with the delegator's signature over its root.
#[derive(Clone, Copy, Debug, PartialEq, Eq)]
pub struct SignedProxyDelegationEcdsa {
    pub message: ProxyDelegationEcdsa,
    pub signature: BlsSignature,
}

impl View for SignedProxyDelegationEcdsa {
    type V = DelegationView;

    open spec fn view(&self) -> DelegationView {
        DelegationView {
            delegator: self.message.delegator@,
            proxy: self.message.proxy@,
            signature: self.signature@,
        }
    }
}

/// The scheme of a proxy key.
#[derive(Clone, Copy, Debug, PartialEq, Eq)]
pub enum EncryptionScheme {
    Bls,
    Ecdsa,
}

} // verus!
