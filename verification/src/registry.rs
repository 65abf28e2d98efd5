//! The registry of modules and their bearer tokens.

use crate::error::SignerModuleError;
use crate::types::{Jwt, ModuleId};
use bimap::BiHashMap;
use vstd::prelude::*;

verus! {

#[verifier::external_type_specification]
#[verifier::external_body]
#[verifier::reject_recursive_types(L)]
#[verifier::reject_recursive_types(R)]
#[verifier::reject_recursive_types(LS)]
#[verifier::reject_recursive_types(RS)]
pub struct ExBiHashMap<L, R, LS, RS>(BiHashMap<L, R, LS, RS>);

/// The pairs that a bimap of texts holds, as a map from each left value to
/// its right value.
pub uninterp spec fn pairs_of(table: BiHashMap<String, String>) -> Map<Seq<char>, Seq<char>>;

/// The bimap without pairs.
pub open spec fn no_pairs() -> Map<Seq<char>, Seq<char>> {
    Map::empty()
}

/// What a bimap holds after `(left, right)` was inserted: the pair itself,
/// and every earlier pair that shares neither side with it.
pub open spec fn pairs_after_insert(
    pairs: Map<Seq<char>, Seq<char>>,
    left: Seq<char>,
    right: Seq<char>,
) -> Map<Seq<char>, Seq<char>> {
    Map::new(
        |l: Seq<char>| l == left || (pairs.dom().contains(l) && pairs[l] != right),
        |l: Seq<char>|
            if l == left {
                right
            } else {
                pairs[l]
            },
    )
}

/// No two left values of `pairs` share a right value.
pub open spec fn one_to_one(pairs: Map<Seq<char>, Seq<char>>) -> bool {
    forall|a: Seq<char>, b: Seq<char>|
        pairs.dom().contains(a) && pairs.dom().contains(b) && #[trigger] pairs[a] == #[trigger] pairs[b]
            ==> a == b
}

/// Calls `bimap::BiHashMap::new`. Trusted: the new bimap holds no pair.
#[verifier::external_body]
fn bimap_new() -> (table: BiHashMap<String, String>)
    ensures
        pairs_of(table) == no_pairs(),
{
    BiHashMap::new()
}

/// Calls `bimap::BiHashMap::insert`. Trusted: the pair is in the bimap
/// afterwards, the pairs that had its left or its right value are gone, and
/// all others stay.
#[verifier::external_body]
fn bimap_insert(table: &mut BiHashMap<String, String>, left: String, right: String)
    ensures
        pairs_of(*final(table)) == pairs_after_insert(pairs_of(*old(table)), left@, right@),
{
    table.insert(left, right);
}

/// Calls `bimap::BiHashMap::get_by_right` and copies what it finds.
/// Trusted: the result is a left value paired with `right`, and `None` only
/// when no pair has `right`.
#[verifier::external_body]
fn bimap_get_by_right(table: &BiHashMap<String, String>, right: &str) -> (left: Option<String>)
    ensures
        match left {
            Some(l) => pairs_of(*table).contains_pair(l@, right@),
            None => forall|l: Seq<char>| !pairs_of(*table).contains_pair(l, right@),
        },
{
    table.get_by_right(right).cloned()
}

/// Calls `bimap::BiHashMap::is_empty`. Trusted: true exactly when the bimap
/// holds no pair.
#[verifier::external_body]
fn bimap_is_empty(table: &BiHashMap<String, String>) -> (empty: bool)
    ensures
        empty == (pairs_of(*table) == no_pairs()),
{
    table.is_empty()
}

/// The modules known to the signer, each with its one bearer token.
pub struct ModuleRegistry {
    table: BiHashMap<String, String>,
}

impl ModuleRegistry {
    /// The token of each registered module.
    pub closed spec fn tokens(&self) -> Map<Seq<char>, Seq<char>> {
        pairs_of(self.table)
    }

    /// No token belongs to two modules. This holds of every registry that
    /// `new` and `register` make, and there is no other way to make one.
    pub open spec fn wf(&self) -> bool {
        one_to_one(self.tokens())
    }

    /// A registry without modules.
    pub fn new() -> (registry: ModuleRegistry)
        ensures
            registry.wf(),
            registry.tokens() == no_pairs(),
    {
        ModuleRegistry { table: bimap_new() }
    }

    /// Registers `module` with `jwt`. An earlier registration of the same
    /// module, or of another module under the same token, is replaced.
    pub fn register(&mut self, module: ModuleId, jwt: Jwt)
        requires
            old(self).wf(),
        ensures
            final(self).wf(),
            final(self).tokens() == pairs_after_insert(old(self).tokens(), module@, jwt@),
    {
        bimap_insert(&mut self.table, module.0, jwt.0);
    }

    /// True when no module is registered.
    pub fn is_empty(&self) -> (empty: bool)
        ensures
            empty == (self.tokens() == no_pairs()),
    {
        bimap_is_empty(&self.table)
    }

    /// The module registered with `jwt`, if there is one.
    pub fn module_of(&self, jwt: &Jwt) -> (module: Option<ModuleId>)
        requires
            self.wf(),
        ensures
            forall|m: Seq<char>|
                self.tokens().contains_pair(m, jwt@) <==> (module is Some && module->0@ == m),
    {
        match bimap_get_by_right(&self.table, jwt.0.as_str()) {
            Some(name) => Some(ModuleId(name)),
            None => None,
        }
    }
}

/// Resolves the bearer token of a request to the module it belongs to.
/// A request without a token, or with one that no module is registered
/// with, is unauthorized.
pub fn jwt_auth(registry: &ModuleRegistry, bearer: Option<&Jwt>) -> (outcome: Result<
    ModuleId,
    SignerModuleError,
>)
    requires
        registry.wf(),
    ensures
        match outcome {
            Ok(module) => bearer is Some && registry.tokens().contains_pair(module@, bearer->0@),
            Err(error) => error == SignerModuleError::Unauthorized && (bearer is Some ==> forall|
                m: Seq<char>,
            |
                !registry.tokens().contains_pair(m, bearer->0@)),
        },
{
    match bearer {
        Some(jwt) => match registry.module_of(jwt) {
            Some(module) => Ok(module),
            None => Err(SignerModuleError::Unauthorized),
        },
        None => Err(SignerModuleError::Unauthorized),
    }
}

/// In a registry, a token names at most one module.
pub proof fn lemma_token_names_one_module(
    registry: ModuleRegistry,
    a: Seq<char>,
    b: Seq<char>,
    jwt: Seq<char>,
)
    requires
        registry.wf(),
        registry.tokens().contains_pair(a, jwt),
        registry.tokens().contains_pair(b, jwt),
    ensures
        a == b,
{
}

} // verus!
