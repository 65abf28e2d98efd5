//! Signing domains and the roots that get signed.

use crate::types::{BlsPublicKey, Chain, EcdsaPublicKey};
use vstd::prelude::*;

verus! {

/// The domain mask of proposer commitments.
pub const COMMIT_BOOST_DOMAIN: [u8; 4] = [109, 109, 111, 67];

/// The Merkle root that `tree_hash::merkle_root` gives for a byte string
/// of at most two 32-byte chunks.
pub uninterp spec fn merkle_root_of(bytes: Seq<u8>) -> Seq<u8>;

/// Calls `tree_hash::merkle_root` with no minimum leaf count. Trusted: the
/// result is a function of the bytes alone. Inputs are kept to two chunks,
/// where the outside function hashes at most once and cannot fail.
#[verifier::external_body]
pub(crate) fn merkle_root(bytes: &[u8]) -> (root: [u8; 32])
    requires
        bytes@.len() <= 64,
    ensures
        root@ == merkle_root_of(bytes@),
{
    tree_hash::merkle_root(bytes, 0).0
}

/// `n` zero bytes.
pub open spec fn zeros(n: nat) -> Seq<u8> {
    Seq::new(n, |i: int| 0u8)
}

impl Chain {
    /// The fork version at the chain's genesis.
    pub open spec fn fork_version(self) -> Seq<u8> {
        match self {
            Chain::Mainnet => seq![0u8, 0u8, 0u8, 0u8],
            Chain::Holesky => seq![1u8, 1u8, 112u8, 0u8],
            Chain::Sepolia => seq![144u8, 0u8, 0u8, 105u8],
            Chain::Custom { genesis_fork_version } => genesis_fork_version@,
        }
    }

    /// The fork version at the chain's genesis.
    pub fn genesis_fork_version(&self) -> (version: [u8; 4])
        ensures
            version@ == self.fork_version(),
    {
        let version: [u8; 4] = match self {
            Chain::Mainnet => [0, 0, 0, 0],
            Chain::Holesky => [1, 1, 112, 0],
            Chain::Sepolia => [144, 0, 0, 105],
            Chain::Custom { genesis_fork_version } => *genesis_fork_version,
        };
        assert(version@ =~= self.fork_version());
        version
    }
}

/// Root of the fork data of a chain: the fork version, padded to a chunk,
/// hashed with an all-zero genesis validators root.
pub open spec fn fork_data_root(fork_version: Seq<u8>) -> Seq<u8> {
    merkle_root_of(fork_version + zeros(28) + zeros(32))
}

/// The signing domain of `chain` under `mask`: the four mask bytes, then
/// the first 28 bytes of the chain's fork data root.
pub open spec fn domain_of(chain: Chain, mask: Seq<u8>) -> Seq<u8> {
    mask + fork_data_root(chain.fork_version()).subrange(0, 28)
}

/// The root that is signed for `object_root` under `domain`.
pub open spec fn signing_root_of(object_root: Seq<u8>, domain: Seq<u8>) -> Seq<u8> {
    merkle_root_of(object_root + domain)
}

/// Root of the delegation from `delegator` to a proxy key given by its bytes.
pub open spec fn delegation_root_of(delegator: Seq<u8>, proxy: Seq<u8>) -> Seq<u8> {
    merkle_root_of(merkle_root_of(delegator) + merkle_root_of(proxy))
}

/// Appends `n` zero bytes to `bytes`.
fn push_zeros(bytes: &mut Vec<u8>, n: usize)
    ensures
        final(bytes)@ == old(bytes)@ + zeros(n as nat),
{
    let mut i: usize = 0;
    while i < n
        invariant
            i <= n,
            bytes@ == old(bytes)@ + zeros(i as nat),
        decreases n - i,
    {
        bytes.push(0);
        i += 1;
        assert(bytes@ =~= old(bytes)@ + zeros(i as nat));
    }
    assert(bytes@ =~= old(bytes)@ + zeros(n as nat));
}

/// Appends `more` to `bytes`.
fn push_all(bytes: &mut Vec<u8>, more: &[u8])
    ensures
        final(bytes)@ == old(bytes)@ + more@,
{
    let mut i: usize = 0;
    while i < more.len()
        invariant
            i <= more.len(),
            bytes@ == old(bytes)@ + more@.subrange(0, i as int),
        decreases more.len() - i,
    {
        bytes.push(more[i]);
        i += 1;
        assert(bytes@ =~= old(bytes)@ + more@.subrange(0, i as int));
    }
    assert(more@.subrange(0, more@.len() as int) =~= more@);
}

/// The signing domain of `chain` under `domain_mask`.
pub fn compute_domain(chain: Chain, domain_mask: [u8; 4]) -> (domain: [u8; 32])
    ensures
        domain@ == domain_of(chain, domain_mask@),
{
    let version = chain.genesis_fork_version();
    let mut fork_data: Vec<u8> = Vec::new();
    push_all(&mut fork_data, version.as_slice());
    push_zeros(&mut fork_data, 28);
    push_zeros(&mut fork_data, 32);
    assert(fork_data@ =~= chain.fork_version() + zeros(28) + zeros(32));
    let root = merkle_root(fork_data.as_slice());
    let mut domain = [0u8; 32];
    let mut i: usize = 0;
    while i < 4
        invariant
            i <= 4,
            forall|j: int| 0 <= j < i ==> domain@[j] == domain_mask@[j],
        decreases 4 - i,
    {
        domain[i] = domain_mask[i];
        i += 1;
    }
    while i < 32
        invariant
            4 <= i <= 32,
            forall|j: int| 0 <= j < 4 ==> domain@[j] == domain_mask@[j],
            forall|j: int| 4 <= j < i ==> domain@[j] == root@[j - 4],
        decreases 32 - i,
    {
        domain[i] = root[i - 4];
        i += 1;
    }
    assert(domain@ =~= domain_of(chain, domain_mask@));
    domain
}

/// The root that is signed for `object_root` under `domain`.
pub fn compute_signing_root(object_root: &[u8; 32], domain: &[u8; 32]) -> (root: [u8; 32])
    ensures
        root@ == signing_root_of(object_root@, domain@),
{
    let mut data: Vec<u8> = Vec::new();
    push_all(&mut data, object_root.as_slice());
    push_all(&mut data, domain.as_slice());
    merkle_root(data.as_slice())
}

/// Root of the delegation that binds the BLS proxy key `proxy` to `delegator`.
pub fn delegation_root(delegator: &BlsPublicKey, proxy: &BlsPublicKey) -> (root: [u8; 32])
    ensures
        root@ == delegation_root_of(delegator@, proxy@),
{
    let delegator_root = merkle_root(delegator.bytes.as_slice());
    let proxy_root = merkle_root(proxy.bytes.as_slice());
    let mut roots: Vec<u8> = Vec::new();
    push_all(&mut roots, delegator_root.as_slice());
    push_all(&mut roots, proxy_root.as_slice());
    merkle_root(roots.as_slice())
}

/// Root of the delegation that binds the ECDSA proxy key `proxy` to `delegator`.
pub fn ecdsa_delegation_root(delegator: &BlsPublicKey, proxy: &EcdsaPublicKey) -> (root: [u8; 32])
    ensures
        root@ == delegation_root_of(delegator@, proxy@),
{
    let delegator_root = merkle_root(delegator.bytes.as_slice());
    let proxy_root = merkle_root(proxy.encoded.as_slice());
    let mut roots: Vec<u8> = Vec::new();
    push_all(&mut roots, delegator_root.as_slice());
    push_all(&mut roots, proxy_root.as_slice());
    merkle_root(roots.as_slice())
}

} // verus!
