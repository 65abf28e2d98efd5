//! The Dirk backend: the consensus accounts it was configured with and what
//! it reads out of Dirk's account listings.

use crate::config::DirkConfig;
use crate::error::{ErrorView, SignerModuleError};
use crate::text::{
    concat2, join, lemma_join_of_split_first, same_text, slash_join, split_first, split_once,
    starts_with, with_slash,
};
use crate::types::{
    bytes_equal, key_bytes, proxy_map_views, BlsPublicKey, Chain, ConsensusProxyMap, ModuleId,
    ProxyMapView,
};
use vstd::prelude::*;
use vstd::string::*;

verus! {

/// The state that Dirk reports with every answer. Only `Succeeded` is success.
#[derive(Clone, Copy, Debug, PartialEq, Eq, Structural)]
pub enum ResponseState {
    Unknown,
    Succeeded,
    Denied,
    Failed,
}

/// An account as Dirk lists it: its full name and the bytes of its public key.
#[derive(Clone, Debug, PartialEq, Eq)]
pub struct DirkAccount {
    pub name: String,
    pub public_key: Vec<u8>,
}

/// A consensus account named in the configuration, with its public key once
/// Dirk has told it.
#[derive(Clone, Debug, PartialEq, Eq)]
pub struct Account {
    pub wallet: String,
    pub name: String,
    pub public_key: Option<BlsPublicKey>,
}

impl Account {
    /// The account's full name: wallet, slash, name.
    pub open spec fn full_name(self) -> Seq<char> {
        slash_join(self.wallet@, self.name@)
    }

    /// The account's full name: wallet, slash, name.
    pub fn complete_name(&self) -> (name: String)
        ensures
            name@ == self.full_name(),
    {
        join(self.wallet.as_str(), self.name.as_str())
    }
}

/// The public key that a listed account carries, if its bytes make one.
pub open spec fn listed_key(account: DirkAccount) -> Option<Seq<u8>> {
    if account.public_key@.len() == 48 {
        Some(account.public_key@)
    } else {
        None
    }
}

/// The keys of the listed accounts whose name begins with `prefix`, in the
/// order of the listing. Accounts without a well-formed key are left out.
pub open spec fn keys_under(listing: Seq<DirkAccount>, prefix: Seq<char>) -> Seq<Seq<u8>> {
    listing.filter_map(
        |account: DirkAccount|
            if prefix.is_prefix_of(account.name@) {
                listed_key(account)
            } else {
                None
            },
    )
}

/// The prefix shared by the names of all proxy accounts that `module` holds
/// under the consensus account `consensus`.
pub open spec fn proxy_prefix(consensus: Seq<char>, module: Seq<char>) -> Seq<char> {
    consensus + seq!['/'] + module + seq!['/']
}

/// For each configured account with a known key, in order, that key and the
/// module's proxy keys under it. Dirk holds no ECDSA keys.
pub open spec fn proxy_maps(
    accounts: Seq<Account>,
    listing: Seq<DirkAccount>,
    module: Seq<char>,
) -> Seq<ProxyMapView> {
    accounts.filter_map(
        |account: Account|
            match account.public_key {
                Some(key) => Some(
                    ProxyMapView {
                        consensus: key@,
                        proxy_bls: keys_under(listing, proxy_prefix(account.full_name(), module)),
                        proxy_ecdsa: Seq::empty(),
                    },
                ),
                None => None,
            },
    )
}

/// The keys of the listed accounts whose name begins with `prefix`.
fn keys_with_prefix(listing: &Vec<DirkAccount>, prefix: &str) -> (keys: Vec<BlsPublicKey>)
    ensures
        key_bytes(keys@) == keys_under(listing@, prefix@),
{
    let ghost pick = |account: DirkAccount|
        if prefix@.is_prefix_of(account.name@) {
            listed_key(account)
        } else {
            None
        };
    let mut keys: Vec<BlsPublicKey> = Vec::new();
    let mut i: usize = 0;
    assert(listing@.take(0).filter_map(pick) =~= Seq::<Seq<u8>>::empty());
    while i < listing.len()
        invariant
            i <= listing.len(),
            pick == |account: DirkAccount|
                if prefix@.is_prefix_of(account.name@) {
                    listed_key(account)
                } else {
                    None
                },
            key_bytes(keys@) =~= listing@.take(i as int).filter_map(pick),
        decreases listing.len() - i,
    {
        let account = &listing[i];
        proof {
            listing@.lemma_filter_map_take_succ(pick, i as int);
        }
        if starts_with(account.name.as_str(), prefix) {
            match BlsPublicKey::from_slice(account.public_key.as_slice()) {
                Some(key) => {
                    keys.push(key);
                },
                None => {},
            }
        }
        i += 1;
    }
    assert(listing@.take(listing.len() as int) =~= listing@);
    keys
}

/// What came back from a call to Dirk, or from the file or store operation
/// that the backend asked for.
#[derive(Clone, Debug, PartialEq, Eq)]
pub enum Reply {
    /// The call or operation failed; the text says how.
    Failed(String),
    /// Dirk's answer to a listing: its state and the accounts.
    Accounts(ResponseState, Vec<DirkAccount>),
    /// Dirk's answer to a signing request: its state and the signature bytes.
    Signature(ResponseState, Vec<u8>),
    /// Dirk's answer to an unlock request.
    Unlocked(ResponseState),
    /// Dirk's answer to a request for a new account: its state and the
    /// bytes of the new public key.
    Generated(ResponseState, Vec<u8>),
    /// The passphrase that was read.
    Password(String),
    /// A file or store operation went through.
    Completed,
}

/// The text of the error for a reply that answers another request than the
/// one that was made.
pub open spec fn unexpected_reply() -> Seq<char> {
    "unexpected reply"@
}

/// The error for a reply that answers another request than the one made.
pub fn unexpected() -> (error: SignerModuleError)
    ensures
        error@ == ErrorView::Internal(unexpected_reply()),
{
    SignerModuleError::Internal("unexpected reply".to_owned())
}

/// The accounts that a reply to a listing brings, or the error it means:
/// a failed call and an answer in another state than `Succeeded` are
/// communication errors.
pub open spec fn listing_of(reply: Reply) -> Result<Seq<DirkAccount>, ErrorView> {
    match reply {
        Reply::Failed(detail) => Err(
            ErrorView::DirkCommunicationError("error listing accounts: "@ + detail@),
        ),
        Reply::Accounts(state, accounts) => if state == ResponseState::Succeeded {
            Ok(accounts@)
        } else {
            Err(ErrorView::DirkCommunicationError("list accounts request returned error"@))
        },
        _ => Err(ErrorView::Internal(unexpected_reply())),
    }
}

/// The accounts that a reply to a listing brings, or the error it means.
pub fn get_accounts_in_wallets(reply: &Reply) -> (outcome: Result<&Vec<DirkAccount>, SignerModuleError>)
    ensures
        match outcome {
            Ok(accounts) => listing_of(*reply) matches Ok(listed) && listed == accounts@,
            Err(error) => listing_of(*reply) matches Err(meant) && meant == error@,
        },
{
    match reply {
        Reply::Failed(detail) => Err(
            SignerModuleError::DirkCommunicationError(
                concat2("error listing accounts: ", detail.as_str()),
            ),
        ),
        Reply::Accounts(state, accounts) => {
            if *state == ResponseState::Succeeded {
                Ok(accounts)
            } else {
                Err(
                    SignerModuleError::DirkCommunicationError(
                        "list accounts request returned error".to_owned(),
                    ),
                )
            }
        },
        _ => Err(unexpected()),
    }
}

/// A configured account by the characters and bytes it carries.
pub struct AccountView {
    pub wallet: Seq<char>,
    pub name: Seq<char>,
    pub public_key: Option<Seq<u8>>,
}

impl View for Account {
    type V = AccountView;

    open spec fn view(&self) -> AccountView {
        AccountView {
            wallet: self.wallet@,
            name: self.name@,
            public_key: match self.public_key {
                Some(key) => Some(key@),
                None => None,
            },
        }
    }
}

/// The texts of a list of strings, in order.
pub open spec fn texts(strings: Seq<String>) -> Seq<Seq<char>> {
    strings.map_values(|s: String| s@)
}

/// The key of the first listed account that is called `name` and carries a
/// well-formed key.
pub open spec fn resolved_key(listing: Seq<DirkAccount>, name: Seq<char>) -> Option<Seq<u8>>
    decreases listing.len(),
{
    if listing.len() == 0 {
        None
    } else if listing[0].name@ == name && listing[0].public_key@.len() == 48 {
        Some(listing[0].public_key@)
    } else {
        resolved_key(listing.drop_first(), name)
    }
}

/// The full name of the first configured account whose known key is `key`.
pub open spec fn cached_account(accounts: Seq<Account>, key: Seq<u8>) -> Option<Seq<char>>
    decreases accounts.len(),
{
    if accounts.len() == 0 {
        None
    } else if accounts[0].public_key matches Some(known) && known@ == key {
        Some(accounts[0].full_name())
    } else {
        cached_account(accounts.drop_first(), key)
    }
}

/// The name of the first listed account whose key bytes are `key`.
pub open spec fn listed_account(listing: Seq<DirkAccount>, key: Seq<u8>) -> Option<Seq<char>>
    decreases listing.len(),
{
    if listing.len() == 0 {
        None
    } else if listing[0].public_key@ == key {
        Some(listing[0].name@)
    } else {
        listed_account(listing.drop_first(), key)
    }
}

/// True when `name` is the full name of a configured account.
pub open spec fn is_configured(accounts: Seq<Account>, name: Seq<char>) -> bool {
    exists|i: int| 0 <= i < accounts.len() && #[trigger] accounts[i].full_name() == name
}

/// True when `name` lies under a configured account: it begins with that
/// account's full name and a slash.
pub open spec fn is_under_configured(accounts: Seq<Account>, name: Seq<char>) -> bool {
    exists|i: int|
        0 <= i < accounts.len() && (#[trigger] accounts[i].full_name() + seq!['/']).is_prefix_of(name)
}

/// True when every configured account has its key.
pub open spec fn all_resolved(accounts: Seq<Account>) -> bool {
    forall|i: int| 0 <= i < accounts.len() ==> (#[trigger] accounts[i]).public_key is Some
}

/// The known keys of the configured accounts, in order.
pub open spec fn registered_keys(accounts: Seq<Account>) -> Seq<Seq<u8>> {
    accounts.filter_map(
        |account: Account|
            match account.public_key {
                Some(key) => Some(key@),
                None => None,
            },
    )
}

/// The keys of the listed accounts that bear the name of a configured one.
pub open spec fn listed_consensus_keys(accounts: Seq<Account>, listing: Seq<DirkAccount>) -> Seq<
    Seq<u8>,
> {
    listing.filter_map(
        |listed: DirkAccount|
            if is_configured(accounts, listed.name@) {
                listed_key(listed)
            } else {
                None
            },
    )
}

/// The keys of the listed accounts that lie under a configured one.
pub open spec fn listed_proxy_keys(accounts: Seq<Account>, listing: Seq<DirkAccount>) -> Seq<
    Seq<u8>,
> {
    listing.filter_map(
        |listed: DirkAccount|
            if is_under_configured(accounts, listed.name@) {
                listed_key(listed)
            } else {
                None
            },
    )
}

/// The consensus keys of a backend with these accounts: the known keys
/// where every account has one; else those that `reply`, the answer to a
/// listing, gives to the configured names.
pub open spec fn consensus_keys_outcome(accounts: Seq<Account>, reply: Reply) -> Result<
    Seq<Seq<u8>>,
    ErrorView,
> {
    if all_resolved(accounts) {
        Ok(registered_keys(accounts))
    } else {
        match listing_of(reply) {
            Ok(listing) => Ok(listed_consensus_keys(accounts, listing)),
            Err(error) => Err(error),
        }
    }
}

/// The proxy keys that `reply`, the answer to a listing, shows under the
/// accounts.
pub open spec fn proxy_keys_outcome(accounts: Seq<Account>, reply: Reply) -> Result<
    Seq<Seq<u8>>,
    ErrorView,
> {
    match listing_of(reply) {
        Ok(listing) => Ok(listed_proxy_keys(accounts, listing)),
        Err(error) => Err(error),
    }
}

/// The maps that `reply`, the answer to a listing, gives to `module`.
pub open spec fn proxy_maps_outcome(accounts: Seq<Account>, module: Seq<char>, reply: Reply) -> Result<
    Seq<ProxyMapView>,
    ErrorView,
> {
    match listing_of(reply) {
        Ok(listing) => Ok(proxy_maps(accounts, listing, module)),
        Err(error) => Err(error),
    }
}

/// `names` without repetitions: each name once, at the place where it
/// occurs first.
pub open spec fn distinct(names: Seq<Seq<char>>) -> Seq<Seq<char>>
    decreases names.len(),
{
    if names.len() == 0 {
        Seq::empty()
    } else {
        let rest = distinct(names.drop_last());
        if rest.contains(names.last()) {
            rest
        } else {
            rest.push(names.last())
        }
    }
}

/// The wallets of the configured accounts: each wallet once, in the order
/// in which the accounts name them first.
pub open spec fn wallets_of(accounts: Seq<Account>) -> Seq<Seq<char>> {
    distinct(accounts.map_values(|account: Account| account.wallet@))
}

/// The wallets that the entries of the configuration name: the text
/// before the first slash of each entry that has one, each wallet once, in
/// the order in which the entries name them first.
pub open spec fn wallets_named(entries: Seq<String>) -> Seq<Seq<char>> {
    distinct(
        entries.filter_map(
            |entry: String|
                match split_first(entry@, '/') {
                    Some((wallet, _)) => Some(wallet),
                    None => None,
                },
        ),
    )
}

/// A list without repetitions holds each name of the list it was made
/// from, and none twice.
pub proof fn lemma_distinct(names: Seq<Seq<char>>)
    ensures
        distinct(names).no_duplicates(),
        forall|name: Seq<char>| #[trigger] distinct(names).contains(name) <==> names.contains(name),
    decreases names.len(),
{
    if names.len() > 0 {
        let rest = names.drop_last();
        let last = names.last();
        lemma_distinct(rest);
        let kept = distinct(rest);
        let all = distinct(names);
        assert forall|name: Seq<char>| all.contains(name) <==> names.contains(name) by {
            if all.contains(name) {
                let i = choose|i: int| 0 <= i < all.len() && all[i] == name;
                if i < kept.len() {
                    assert(kept[i] == name);
                    assert(kept.contains(name));
                    assert(rest.contains(name));
                    let j = choose|j: int| 0 <= j < rest.len() && rest[j] == name;
                    assert(names[j] == name);
                } else {
                    assert(names[names.len() - 1] == name);
                }
            }
            if names.contains(name) {
                let j = choose|j: int| 0 <= j < names.len() && names[j] == name;
                if j < rest.len() {
                    assert(rest[j] == name);
                    assert(rest.contains(name));
                    assert(kept.contains(name));
                    let i = choose|i: int| 0 <= i < kept.len() && kept[i] == name;
                    assert(all[i] == name);
                } else if kept.contains(last) {
                    let i = choose|i: int| 0 <= i < kept.len() && kept[i] == last;
                    assert(all[i] == name);
                } else {
                    assert(all[all.len() - 1] == name);
                }
            }
        }
        if !kept.contains(last) {
            assert forall|i: int, j: int|
                0 <= i < all.len() && 0 <= j < all.len() && i != j implies all[i] != all[j] by {
                if i == kept.len() {
                    assert(kept[j] == all[j]);
                    assert(kept.contains(kept[j]));
                } else if j == kept.len() {
                    assert(kept[i] == all[i]);
                    assert(kept.contains(kept[i]));
                }
            }
        }
    }
}

/// The account that an entry of the configuration names, with the key that
/// the listing gives it.
pub open spec fn account_named(entry: Seq<char>, listing: Seq<DirkAccount>) -> Option<AccountView> {
    match split_first(entry, '/') {
        Some((wallet, name)) => Some(
            AccountView { wallet, name, public_key: resolved_key(listing, entry) },
        ),
        None => None,
    }
}

/// The key of the first listed account that is called `name` and carries a
/// well-formed key.
fn resolve_key(listing: &Vec<DirkAccount>, name: &str) -> (key: Option<BlsPublicKey>)
    ensures
        match key {
            Some(found) => resolved_key(listing@, name@) == Some(found@),
            None => resolved_key(listing@, name@).is_none(),
        },
{
    let mut i: usize = 0;
    assert(listing@.skip(0) =~= listing@);
    while i < listing.len()
        invariant
            i <= listing.len(),
            resolved_key(listing@, name@) == resolved_key(listing@.skip(i as int), name@),
        decreases listing.len() - i,
    {
        let listed = &listing[i];
        assert(listing@.skip(i as int).drop_first() =~= listing@.skip(i + 1));
        if same_text(listed.name.as_str(), name) {
            match BlsPublicKey::from_slice(listed.public_key.as_slice()) {
                Some(key) => {
                    return Some(key);
                },
                None => {},
            }
        }
        i += 1;
    }
    None
}

/// The name of the first listed account whose key bytes are those of `key`.
pub fn find_listed_account(listing: &Vec<DirkAccount>, key: &BlsPublicKey) -> (name: Option<String>)
    ensures
        match name {
            Some(found) => listed_account(listing@, key@) == Some(found@),
            None => listed_account(listing@, key@).is_none(),
        },
{
    let mut i: usize = 0;
    assert(listing@.skip(0) =~= listing@);
    while i < listing.len()
        invariant
            i <= listing.len(),
            listed_account(listing@, key@) == listed_account(listing@.skip(i as int), key@),
        decreases listing.len() - i,
    {
        let listed = &listing[i];
        assert(listing@.skip(i as int).drop_first() =~= listing@.skip(i + 1));
        if bytes_equal(listed.public_key.as_slice(), key.bytes.as_slice()) {
            return Some(listed.name.clone());
        }
        i += 1;
    }
    None
}

/// The Dirk backend: the chain it signs for, its consensus accounts and how
/// it treats locked accounts. `S` is the store that keeps delegations.
pub struct DirkManager<S> {
    pub chain: Chain,
    pub accounts: Vec<Account>,
    pub unlock: bool,
    pub secrets_path: String,
    pub proxy_store: Option<S>,
}

/// Why the Dirk backend could not be set up.
#[derive(Clone, Debug, PartialEq, Eq)]
pub enum SetupError {
    /// The listing of the wallets' accounts failed.
    Listing(SignerModuleError),
    /// An entry of the configuration is not of the form `wallet/account`.
    InvalidAccountName(String),
}

impl SetupError {
    /// The error's text.
    pub open spec fn message(self) -> Seq<char> {
        match self {
            SetupError::Listing(error) => error@.message(),
            SetupError::InvalidAccountName(entry) => "Invalid account name: "@ + entry@
                + ". It must be in format wallet/account"@,
        }
    }

    /// The error's text.
    pub fn to_string(&self) -> (text: String)
        ensures
            text@ == self.message(),
    {
        match self {
            SetupError::Listing(error) => error.to_string(),
            SetupError::InvalidAccountName(entry) => {
                let head = concat2("Invalid account name: ", entry.as_str());
                concat2(head.as_str(), ". It must be in format wallet/account")
            },
        }
    }
}

/// Puts `name` at the end of `names` unless it is among them.
fn push_distinct(names: &mut Vec<String>, name: String)
    ensures
        texts(final(names)@) == (if texts(old(names)@).contains(name@) {
            texts(old(names)@)
        } else {
            texts(old(names)@).push(name@)
        }),
{
    let mut i: usize = 0;
    while i < names.len()
        invariant
            i <= names.len(),
            *names == *old(names),
            forall|j: int| 0 <= j < i ==> texts(names@)[j] != name@,
        decreases names.len() - i,
    {
        if same_text(names[i].as_str(), name.as_str()) {
            assert(texts(names@)[i as int] == name@);
            return ;
        }
        i += 1;
    }
    names.push(name);
    assert(texts(names@) =~= texts(old(names)@).push(name@));
}

/// The wallets to list before the backend is set up: those that the
/// entries of the configuration name, each once.
pub fn wallets_to_list(entries: &Vec<String>) -> (wallets: Vec<String>)
    ensures
        texts(wallets@) == wallets_named(entries@),
{
    let ghost pick = |entry: String|
        match split_first(entry@, '/') {
            Some((wallet, _)) => Some(wallet),
            None => None,
        };
    let mut wallets: Vec<String> = Vec::new();
    let mut i: usize = 0;
    assert(entries@.take(0).filter_map(pick) =~= Seq::<Seq<char>>::empty());
    assert(texts(wallets@) =~= distinct(entries@.take(0).filter_map(pick)));
    while i < entries.len()
        invariant
            i <= entries.len(),
            pick == |entry: String|
                match split_first(entry@, '/') {
                    Some((wallet, _)) => Some(wallet),
                    None => None,
                },
            texts(wallets@) == distinct(entries@.take(i as int).filter_map(pick)),
        decreases entries.len() - i,
    {
        proof {
            entries@.lemma_filter_map_take_succ(pick, i as int);
        }
        match split_once(entries[i].as_str(), '/') {
            Some((wallet, _)) => {
                let ghost before = entries@.take(i as int).filter_map(pick);
                let ghost after = entries@.take(i + 1).filter_map(pick);
                assert(after =~= before.push(wallet@));
                assert(after.drop_last() =~= before);
                push_distinct(&mut wallets, wallet);
            },
            None => {
                assert(entries@.take(i + 1).filter_map(pick) =~= entries@.take(i as int).filter_map(
                    pick,
                ));
            },
        }
        i += 1;
    }
    assert(entries@.take(entries.len() as int) =~= entries@);
    wallets
}

impl<S> DirkManager<S> {
    /// Sets the backend up from its configuration and from Dirk's answer to
    /// the listing of the configured wallets.
    ///
    /// Each entry `wallet/account` becomes an account. Its key is that of the
    /// first listed account of the same full name with a well-formed key; an
    /// account that the listing does not resolve stays without one. A failed
    /// listing, and then the first entry without a slash, are errors.
    pub fn new_from_config(chain: Chain, config: DirkConfig, reply: &Reply) -> (outcome: Result<
        DirkManager<S>,
        SetupError,
    >)
        ensures
            match outcome {
                Ok(manager) => {
                    &&& listing_of(*reply) matches Ok(listing)
                    &&& manager.chain == chain
                    &&& manager.unlock == config.unlock
                    &&& manager.secrets_path == config.secrets_path
                    &&& manager.proxy_store is None
                    &&& manager.accounts@.len() == config.accounts@.len()
                    &&& forall|i: int|
                        0 <= i < config.accounts@.len() ==> account_named(
                            #[trigger] config.accounts@[i]@,
                            listing,
                        ) == Some(manager.accounts@[i]@)
                },
                Err(SetupError::Listing(error)) => listing_of(*reply) matches Err(meant) && meant
                    == error@,
                Err(SetupError::InvalidAccountName(entry)) => {
                    &&& listing_of(*reply) matches Ok(listing)
                    &&& exists|i: int|
                        {
                            &&& 0 <= i < config.accounts@.len()
                            &&& #[trigger] config.accounts@[i]@ == entry@
                            &&& split_first(entry@, '/') is None
                            &&& forall|j: int|
                                0 <= j < i ==> split_first(
                                    #[trigger] config.accounts@[j]@,
                                    '/',
                                ) is Some
                        }
                },
            },
    {
        let listing = match get_accounts_in_wallets(reply) {
            Ok(listing) => listing,
            Err(error) => {
                return Err(SetupError::Listing(error));
            },
        };
        let mut accounts: Vec<Account> = Vec::new();
        let mut i: usize = 0;
        while i < config.accounts.len()
            invariant
                i <= config.accounts.len(),
                accounts@.len() == i,
                listing_of(*reply) matches Ok(listed) && listed == listing@,
                forall|j: int|
                    0 <= j < i ==> account_named(#[trigger] config.accounts@[j]@, listing@) == Some(
                        accounts@[j]@,
                    ),
            decreases config.accounts.len() - i,
        {
            let entry = &config.accounts[i];
            match split_once(entry.as_str(), '/') {
                Some((wallet, name)) => {
                    let public_key = resolve_key(listing, entry.as_str());
                    accounts.push(Account { wallet, name, public_key });
                },
                None => {
                    assert forall|j: int| 0 <= j < i implies split_first(
                        #[trigger] config.accounts@[j]@,
                        '/',
                    ) is Some by {
                        assert(account_named(config.accounts@[j]@, listing@) is Some);
                    }
                    return Err(SetupError::InvalidAccountName(entry.clone()));
                },
            }
            i += 1;
        }
        Ok(
            DirkManager {
                chain,
                accounts,
                unlock: config.unlock,
                secrets_path: config.secrets_path,
                proxy_store: None,
            },
        )
    }

    /// The same backend, with `proxy_store` to keep its delegations.
    pub fn with_proxy_store(self, proxy_store: S) -> (manager: DirkManager<S>)
        ensures
            manager.proxy_store == Some(proxy_store),
            manager.chain == self.chain,
            manager.accounts == self.accounts,
            manager.unlock == self.unlock,
            manager.secrets_path == self.secrets_path,
    {
        DirkManager {
            chain: self.chain,
            accounts: self.accounts,
            unlock: self.unlock,
            secrets_path: self.secrets_path,
            proxy_store: Some(proxy_store),
        }
    }

    /// The wallets whose accounts the backend asks Dirk to list: those of
    /// the configured accounts, each once.
    pub fn wallets(&self) -> (wallets: Vec<String>)
        ensures
            texts(wallets@) == wallets_of(self.accounts@),
    {
        let ghost named = self.accounts@.map_values(|account: Account| account.wallet@);
        let mut wallets: Vec<String> = Vec::new();
        let mut i: usize = 0;
        assert(texts(wallets@) =~= distinct(named.take(0)));
        while i < self.accounts.len()
            invariant
                i <= self.accounts.len(),
                named == self.accounts@.map_values(|account: Account| account.wallet@),
                texts(wallets@) == distinct(named.take(i as int)),
            decreases self.accounts.len() - i,
        {
            assert(named.take(i + 1).drop_last() =~= named.take(i as int));
            assert(named.take(i + 1).last() == self.accounts@[i as int].wallet@);
            push_distinct(&mut wallets, self.accounts[i].wallet.clone());
            i += 1;
        }
        assert(named.take(named.len() as int) =~= named);
        wallets
    }

    /// The full name of the first configured account whose known key is `pubkey`.
    pub fn find_cached_account(&self, pubkey: &BlsPublicKey) -> (name: Option<String>)
        ensures
            match name {
                Some(found) => cached_account(self.accounts@, pubkey@) == Some(found@),
                None => cached_account(self.accounts@, pubkey@).is_none(),
            },
    {
        let mut i: usize = 0;
        assert(self.accounts@.skip(0) =~= self.accounts@);
        while i < self.accounts.len()
            invariant
                i <= self.accounts.len(),
                cached_account(self.accounts@, pubkey@) == cached_account(
                    self.accounts@.skip(i as int),
                    pubkey@,
                ),
            decreases self.accounts.len() - i,
        {
            let account = &self.accounts[i];
            assert(self.accounts@.skip(i as int).drop_first() =~= self.accounts@.skip(i + 1));
            match &account.public_key {
                Some(known) => {
                    if *known == *pubkey {
                        return Some(account.complete_name());
                    }
                },
                None => {},
            }
            i += 1;
        }
        None
    }

    /// True when `name` is the full name of a configured account.
    pub fn is_configured_account(&self, name: &str) -> (yes: bool)
        ensures
            yes == is_configured(self.accounts@, name@),
    {
        let mut i: usize = 0;
        while i < self.accounts.len()
            invariant
                i <= self.accounts.len(),
                forall|j: int| 0 <= j < i ==> (#[trigger] self.accounts@[j]).full_name() != name@,
            decreases self.accounts.len() - i,
        {
            let full = self.accounts[i].complete_name();
            if same_text(full.as_str(), name) {
                return true;
            }
            i += 1;
        }
        false
    }

    /// True when every configured account has its key, so that the
    /// consensus keys are known without asking Dirk.
    pub fn all_accounts_resolved(&self) -> (yes: bool)
        ensures
            yes == all_resolved(self.accounts@),
    {
        let mut i: usize = 0;
        while i < self.accounts.len()
            invariant
                i <= self.accounts.len(),
                forall|j: int| 0 <= j < i ==> (#[trigger] self.accounts@[j]).public_key is Some,
            decreases self.accounts.len() - i,
        {
            if self.accounts[i].public_key.is_none() {
                return false;
            }
            i += 1;
        }
        true
    }

    /// The known keys of the configured accounts, in order.
    pub fn registered_pubkeys(&self) -> (keys: Vec<BlsPublicKey>)
        ensures
            key_bytes(keys@) == registered_keys(self.accounts@),
    {
        let ghost pick = |account: Account|
            match account.public_key {
                Some(key) => Some(key@),
                None => None,
            };
        let mut keys: Vec<BlsPublicKey> = Vec::new();
        let mut i: usize = 0;
        assert(self.accounts@.take(0).filter_map(pick) =~= Seq::<Seq<u8>>::empty());
        while i < self.accounts.len()
            invariant
                i <= self.accounts.len(),
                pick == |account: Account|
                    match account.public_key {
                        Some(key) => Some(key@),
                        None => None,
                    },
                key_bytes(keys@) =~= self.accounts@.take(i as int).filter_map(pick),
            decreases self.accounts.len() - i,
        {
            proof {
                self.accounts@.lemma_filter_map_take_succ(pick, i as int);
            }
            match self.accounts[i].public_key {
                Some(key) => {
                    keys.push(key);
                },
                None => {},
            }
            i += 1;
        }
        assert(self.accounts@.take(self.accounts.len() as int) =~= self.accounts@);
        keys
    }

    /// The consensus keys of the backend.
    ///
    /// Where every configured account has its key, these are the known keys
    /// and `reply` is not looked at. Otherwise `reply` answers a listing of
    /// the backend's wallets, and the keys are those of the listed accounts
    /// that bear a configured name.
    pub fn consensus_pubkeys(&self, reply: &Reply) -> (outcome: Result<
        Vec<BlsPublicKey>,
        SignerModuleError,
    >)
        ensures
            match outcome {
                Ok(keys) => consensus_keys_outcome(self.accounts@, *reply) matches Ok(meant)
                    && meant == key_bytes(keys@),
                Err(error) => consensus_keys_outcome(self.accounts@, *reply) matches Err(meant)
                    && meant == error@,
            },
    {
        if self.all_accounts_resolved() {
            return Ok(self.registered_pubkeys());
        }
        let listing = match get_accounts_in_wallets(reply) {
            Ok(listing) => listing,
            Err(error) => {
                return Err(error);
            },
        };
        let ghost pick = |listed: DirkAccount|
            if is_configured(self.accounts@, listed.name@) {
                listed_key(listed)
            } else {
                None
            };
        let mut keys: Vec<BlsPublicKey> = Vec::new();
        let mut i: usize = 0;
        assert(listing@.take(0).filter_map(pick) =~= Seq::<Seq<u8>>::empty());
        while i < listing.len()
            invariant
                i <= listing.len(),
                pick == |listed: DirkAccount|
                    if is_configured(self.accounts@, listed.name@) {
                        listed_key(listed)
                    } else {
                        None
                    },
                key_bytes(keys@) =~= listing@.take(i as int).filter_map(pick),
            decreases listing.len() - i,
        {
            let listed = &listing[i];
            proof {
                listing@.lemma_filter_map_take_succ(pick, i as int);
            }
            if self.is_configured_account(listed.name.as_str()) {
                match BlsPublicKey::from_slice(listed.public_key.as_slice()) {
                    Some(key) => {
                        keys.push(key);
                    },
                    None => {},
                }
            }
            i += 1;
        }
        assert(listing@.take(listing.len() as int) =~= listing@);
        Ok(keys)
    }

    /// The keys of all proxy accounts that Dirk holds: those of the listed
    /// accounts whose name lies under a configured account. `reply` answers
    /// a listing of the backend's wallets.
    pub fn proxies(&self, reply: &Reply) -> (outcome: Result<Vec<BlsPublicKey>, SignerModuleError>)
        ensures
            match outcome {
                Ok(keys) => proxy_keys_outcome(self.accounts@, *reply) matches Ok(meant) && meant
                    == key_bytes(keys@),
                Err(error) => proxy_keys_outcome(self.accounts@, *reply) matches Err(meant)
                    && meant == error@,
            },
    {
        let listing = match get_accounts_in_wallets(reply) {
            Ok(listing) => listing,
            Err(error) => {
                return Err(error);
            },
        };
        let ghost pick = |listed: DirkAccount|
            if is_under_configured(self.accounts@, listed.name@) {
                listed_key(listed)
            } else {
                None
            };
        let mut keys: Vec<BlsPublicKey> = Vec::new();
        let mut i: usize = 0;
        assert(listing@.take(0).filter_map(pick) =~= Seq::<Seq<u8>>::empty());
        while i < listing.len()
            invariant
                i <= listing.len(),
                pick == |listed: DirkAccount|
                    if is_under_configured(self.accounts@, listed.name@) {
                        listed_key(listed)
                    } else {
                        None
                    },
                key_bytes(keys@) =~= listing@.take(i as int).filter_map(pick),
            decreases listing.len() - i,
        {
            let listed = &listing[i];
            proof {
                listing@.lemma_filter_map_take_succ(pick, i as int);
            }
            if self.is_under_account(listed.name.as_str()) {
                match BlsPublicKey::from_slice(listed.public_key.as_slice()) {
                    Some(key) => {
                        keys.push(key);
                    },
                    None => {},
                }
            }
            i += 1;
        }
        assert(listing@.take(listing.len() as int) =~= listing@);
        Ok(keys)
    }

    /// For each configured account with a known key, in order, that key and
    /// the proxy keys that `module_id` holds under it: the keys of the listed
    /// accounts named `<account>/<module_id>/...`. `reply` answers a listing
    /// of the backend's wallets.
    pub fn get_consensus_proxy_maps(&self, module_id: &ModuleId, reply: &Reply) -> (outcome: Result<
        Vec<ConsensusProxyMap>,
        SignerModuleError,
    >)
        ensures
            match outcome {
                Ok(maps) => proxy_maps_outcome(self.accounts@, module_id@, *reply) matches Ok(
                    meant,
                ) && meant == proxy_map_views(maps@),
                Err(error) => proxy_maps_outcome(self.accounts@, module_id@, *reply) matches Err(
                    meant,
                ) && meant == error@,
            },
    {
        let listing = match get_accounts_in_wallets(reply) {
            Ok(listing) => listing,
            Err(error) => {
                return Err(error);
            },
        };
        let ghost pick = |account: Account|
            match account.public_key {
                Some(key) => Some(
                    ProxyMapView {
                        consensus: key@,
                        proxy_bls: keys_under(
                            listing@,
                            proxy_prefix(account.full_name(), module_id@),
                        ),
                        proxy_ecdsa: Seq::empty(),
                    },
                ),
                None => None,
            };
        let mut maps: Vec<ConsensusProxyMap> = Vec::new();
        let mut i: usize = 0;
        assert(self.accounts@.take(0).filter_map(pick) =~= Seq::<ProxyMapView>::empty());
        while i < self.accounts.len()
            invariant
                i <= self.accounts.len(),
                pick == |account: Account|
                    match account.public_key {
                        Some(key) => Some(
                            ProxyMapView {
                                consensus: key@,
                                proxy_bls: keys_under(
                                    listing@,
                                    proxy_prefix(account.full_name(), module_id@),
                                ),
                                proxy_ecdsa: Seq::empty(),
                            },
                        ),
                        None => None,
                    },
                proxy_map_views(maps@) =~= self.accounts@.take(i as int).filter_map(pick),
            decreases self.accounts.len() - i,
        {
            let account = &self.accounts[i];
            proof {
                self.accounts@.lemma_filter_map_take_succ(pick, i as int);
            }
            match account.public_key {
                Some(consensus) => {
                    let full = account.complete_name();
                    let under = join(full.as_str(), module_id.0.as_str());
                    let prefix = with_slash(under.as_str());
                    let proxy_bls = keys_with_prefix(listing, prefix.as_str());
                    let map = ConsensusProxyMap { consensus, proxy_bls, proxy_ecdsa: Vec::new() };
                    assert(map@ == pick(*account)->0) by {
                        assert(map@.proxy_ecdsa =~= Seq::empty());
                    }
                    maps.push(map);
                },
                None => {},
            }
            i += 1;
        }
        assert(self.accounts@.take(self.accounts.len() as int) =~= self.accounts@);
        Ok(maps)
    }

    /// True when `name` begins with the full name of a configured account
    /// and a slash.
    fn is_under_account(&self, name: &str) -> (yes: bool)
        ensures
            yes == is_under_configured(self.accounts@, name@),
    {
        let mut i: usize = 0;
        while i < self.accounts.len()
            invariant
                i <= self.accounts.len(),
                forall|j: int|
                    0 <= j < i ==> !((#[trigger] self.accounts@[j]).full_name() + seq![
                        '/',
                    ]).is_prefix_of(name@),
            decreases self.accounts.len() - i,
        {
            let full = self.accounts[i].complete_name();
            let prefix = with_slash(full.as_str());
            if starts_with(name, prefix.as_str()) {
                return true;
            }
            i += 1;
        }
        false
    }
}

/// The account made from an entry of the configuration carries the
/// entry as its full name, so that it is found again in every listing by
/// the name it was configured with.
pub proof fn lemma_account_keeps_entry_name(entry: Seq<char>, listing: Seq<DirkAccount>)
    requires
        account_named(entry, listing) is Some,
    ensures
        slash_join(account_named(entry, listing)->0.wallet, account_named(entry, listing)->0.name)
            == entry,
        !account_named(entry, listing)->0.wallet.contains('/'),
        account_named(entry, listing)->0.public_key == resolved_key(listing, entry),
{
    lemma_join_of_split_first(entry);
}

} // verus!
