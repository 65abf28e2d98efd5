//! What holds of the keys that the Dirk backend shows to a module.

use crate::manager::dirk::{
    keys_under, listed_key, proxy_maps, proxy_prefix, Account, DirkAccount,
};
use crate::types::ProxyMapView;
use vstd::prelude::*;

verus! {

/// True when `name` holds `module` as a whole segment: a slash, the
/// module's name, and a slash again.
pub open spec fn has_segment(name: Seq<char>, module: Seq<char>) -> bool {
    exists|i: int|
        0 <= i && i + module.len() + 2 <= name.len() && #[trigger] name.subrange(
            i,
            i + module.len() + 2,
        ) == seq!['/'] + module + seq!['/']
}

/// The map shown for a configured account whose key is known: that key,
/// and the module's proxy keys under the account.
pub open spec fn map_for(account: Account, listing: Seq<DirkAccount>, module: Seq<char>) -> ProxyMapView {
    ProxyMapView {
        consensus: account.public_key->0@,
        proxy_bls: keys_under(listing, proxy_prefix(account.full_name(), module)),
        proxy_ecdsa: Seq::empty(),
    }
}

/// What a selection keeps of an element of its input is in its output.
proof fn lemma_filter_map_keeps<A, B>(s: Seq<A>, f: spec_fn(A) -> Option<B>, t: A)
    requires
        s.contains(t),
        f(t) is Some,
    ensures
        s.filter_map(f).contains(f(t)->0),
    decreases s.len(),
{
    let rest = s.drop_last();
    let out = s.filter_map(f);
    if s.last() == t {
        assert(out == rest.filter_map(f) + seq![f(t)->0]);
        assert(out[out.len() - 1] == f(t)->0);
    } else {
        let i = choose|i: int| 0 <= i < s.len() && s[i] == t;
        assert(rest[i] == t);
        lemma_filter_map_keeps(rest, f, t);
        let kept = rest.filter_map(f);
        let j = choose|j: int| 0 <= j < kept.len() && kept[j] == f(t)->0;
        assert(out[j] == f(t)->0);
    }
}

/// A key listed under a prefix belongs to a listed account whose name
/// begins with the prefix.
pub proof fn lemma_key_under_prefix(listing: Seq<DirkAccount>, prefix: Seq<char>, key: Seq<u8>)
    requires
        keys_under(listing, prefix).contains(key),
    ensures
        exists|j: int|
            0 <= j < listing.len() && (#[trigger] listing[j]).public_key@ == key
                && prefix.is_prefix_of(listing[j].name@),
{
    let pick = |account: DirkAccount|
        if prefix.is_prefix_of(account.name@) {
            listed_key(account)
        } else {
            None
        };
    listing.lemma_filter_map_contains(pick, key);
    let found = choose|t: DirkAccount| #[trigger] listing.contains(t) && pick(t) == Some(key);
    let j = choose|j: int| 0 <= j < listing.len() && listing[j] == found;
    assert(listing[j].public_key@ == key);
}

/// Where nothing leaves the listing, no key leaves the keys under a prefix.
pub proof fn lemma_keys_under_grow(
    earlier: Seq<DirkAccount>,
    later: Seq<DirkAccount>,
    prefix: Seq<char>,
    key: Seq<u8>,
)
    requires
        forall|account: DirkAccount| earlier.contains(account) ==> later.contains(account),
        keys_under(earlier, prefix).contains(key),
    ensures
        keys_under(later, prefix).contains(key),
{
    let pick = |account: DirkAccount|
        if prefix.is_prefix_of(account.name@) {
            listed_key(account)
        } else {
            None
        };
    earlier.lemma_filter_map_contains(pick, key);
    let found = choose|t: DirkAccount| #[trigger] earlier.contains(t) && pick(t) == Some(key);
    assert(later.contains(found));
    lemma_filter_map_keeps(later, pick, found);
}

/// Every map shown to a module stands for a configured account with a known
/// key, and every proxy key in it is the key of a listed account under that
/// account and the module.
pub proof fn lemma_map_origin(
    accounts: Seq<Account>,
    listing: Seq<DirkAccount>,
    module: Seq<char>,
    m: int,
)
    requires
        0 <= m < proxy_maps(accounts, listing, module).len(),
    ensures
        exists|a: int|
            0 <= a < accounts.len() && (#[trigger] accounts[a]).public_key is Some && proxy_maps(
                accounts,
                listing,
                module,
            )[m] == map_for(accounts[a], listing, module),
{
    let pick = |account: Account|
        match account.public_key {
            Some(key) => Some(
                ProxyMapView {
                    consensus: key@,
                    proxy_bls: keys_under(listing, proxy_prefix(account.full_name(), module)),
                    proxy_ecdsa: Seq::empty(),
                },
            ),
            None => None,
        };
    let maps = accounts.filter_map(pick);
    assert(maps.contains(maps[m]));
    accounts.lemma_filter_map_contains(pick, maps[m]);
    let found = choose|t: Account| #[trigger] accounts.contains(t) && pick(t) == Some(maps[m]);
    let a = choose|a: int| 0 <= a < accounts.len() && accounts[a] == found;
    assert(accounts[a].public_key is Some);
}

/// No proxy key is shown to a module unless the name of its account holds
/// the module as a segment.
pub proof fn lemma_proxies_belong_to_module(
    accounts: Seq<Account>,
    listing: Seq<DirkAccount>,
    module: Seq<char>,
    m: int,
    k: int,
)
    requires
        0 <= m < proxy_maps(accounts, listing, module).len(),
        0 <= k < proxy_maps(accounts, listing, module)[m].proxy_bls.len(),
    ensures
        exists|j: int|
            0 <= j < listing.len() && (#[trigger] listing[j]).public_key@ == proxy_maps(
                accounts,
                listing,
                module,
            )[m].proxy_bls[k] && has_segment(listing[j].name@, module),
        proxy_maps(accounts, listing, module)[m].proxy_ecdsa.len() == 0,
{
    lemma_map_origin(accounts, listing, module, m);
    let map = proxy_maps(accounts, listing, module)[m];
    let a = choose|a: int|
        0 <= a < accounts.len() && (#[trigger] accounts[a]).public_key is Some && map == map_for(
            accounts[a],
            listing,
            module,
        );
    let consensus = accounts[a].full_name();
    let prefix = proxy_prefix(consensus, module);
    let key = map.proxy_bls[k];
    assert(keys_under(listing, prefix).contains(key));
    lemma_key_under_prefix(listing, prefix, key);
    let j = choose|j: int|
        0 <= j < listing.len() && (#[trigger] listing[j]).public_key@ == key && prefix.is_prefix_of(
            listing[j].name@,
        );
    let name = listing[j].name@;
    let start = consensus.len() as int;
    assert(name.subrange(start, start + module.len() + 2) =~= seq!['/'] + module + seq!['/']) by {
        assert(name.subrange(0, prefix.len() as int) == prefix);
        assert forall|i: int| 0 <= i < module.len() + 2 implies name[start + i] == (seq!['/']
            + module + seq!['/'])[i] by {
            assert(name[start + i] == name.subrange(0, prefix.len() as int)[start + i]);
        }
    }
    assert(has_segment(name, module));
}

/// Between two listings of which the later lacks no account of the
/// earlier, the maps shown to a module keep their consensus keys, and no
/// proxy key leaves them.
pub proof fn lemma_proxies_grow(
    accounts: Seq<Account>,
    earlier: Seq<DirkAccount>,
    later: Seq<DirkAccount>,
    module: Seq<char>,
)
    requires
        forall|account: DirkAccount| earlier.contains(account) ==> later.contains(account),
    ensures
        proxy_maps(accounts, later, module).len() == proxy_maps(accounts, earlier, module).len(),
        forall|m: int|
            0 <= m < proxy_maps(accounts, earlier, module).len() ==> {
                &&& (#[trigger] proxy_maps(accounts, later, module)[m]).consensus == proxy_maps(
                    accounts,
                    earlier,
                    module,
                )[m].consensus
                &&& forall|key: Seq<u8>|
                    proxy_maps(accounts, earlier, module)[m].proxy_bls.contains(key)
                        ==> #[trigger] proxy_maps(accounts, later, module)[m].proxy_bls.contains(
                        key,
                    )
            },
    decreases accounts.len(),
{
    if accounts.len() > 0 {
        let rest = accounts.drop_last();
        let last = accounts.last();
        lemma_proxies_grow(rest, earlier, later, module);
        let before = proxy_maps(accounts, earlier, module);
        let after = proxy_maps(accounts, later, module);
        let before_rest = proxy_maps(rest, earlier, module);
        let after_rest = proxy_maps(rest, later, module);
        assert(before.len() == after.len());
        assert forall|m: int| 0 <= m < before.len() implies {
            &&& (#[trigger] after[m]).consensus == before[m].consensus
            &&& forall|key: Seq<u8>|
                before[m].proxy_bls.contains(key) ==> #[trigger] after[m].proxy_bls.contains(key)
        } by {
            if m < before_rest.len() {
                assert(before[m] == before_rest[m]);
                assert(after[m] == after_rest[m]);
            } else {
                let prefix = proxy_prefix(last.full_name(), module);
                assert(before[m].proxy_bls == keys_under(earlier, prefix));
                assert(after[m].proxy_bls == keys_under(later, prefix));
                assert forall|key: Seq<u8>| before[m].proxy_bls.contains(key) implies after[m]
                    .proxy_bls.contains(key) by {
                    lemma_keys_under_grow(earlier, later, prefix, key);
                }
            }
        }
    }
}

/// Two slash-free texts that are each followed by a slash at the head of
/// the same name are the same text.
proof fn lemma_first_segment(a: Seq<char>, b: Seq<char>, name: Seq<char>)
    requires
        (a + seq!['/']).is_prefix_of(name),
        (b + seq!['/']).is_prefix_of(name),
        !a.contains('/'),
        !b.contains('/'),
    ensures
        a == b,
{
    let head_a = a + seq!['/'];
    let head_b = b + seq!['/'];
    assert(name.subrange(0, head_a.len() as int) == head_a);
    assert(name.subrange(0, head_b.len() as int) == head_b);
    assert(name[a.len() as int] == name.subrange(0, head_a.len() as int)[a.len() as int]);
    assert(name[b.len() as int] == name.subrange(0, head_b.len() as int)[b.len() as int]);
    if a.len() < b.len() {
        assert(name.subrange(0, head_b.len() as int)[a.len() as int] == b[a.len() as int]);
        assert(b.contains(b[a.len() as int]));
    } else if b.len() < a.len() {
        assert(name.subrange(0, head_a.len() as int)[b.len() as int] == a[b.len() as int]);
        assert(a.contains(a[b.len() as int]));
    } else {
        assert forall|i: int| 0 <= i < a.len() implies a[i] == b[i] by {
            assert(name.subrange(0, head_a.len() as int)[i] == a[i]);
            assert(name.subrange(0, head_b.len() as int)[i] == b[i]);
        }
        assert(a =~= b);
    }
}

/// What follows a head in a name that begins with the head and more is
/// the more.
proof fn lemma_after_head(head: Seq<char>, more: Seq<char>, name: Seq<char>)
    requires
        (head + more).is_prefix_of(name),
    ensures
        more.is_prefix_of(name.skip(head.len() as int)),
{
    let whole = head + more;
    assert(name.subrange(0, whole.len() as int) == whole);
    assert forall|i: int| 0 <= i < more.len() implies name.skip(head.len() as int)[i] == more[i] by {
        assert(name.subrange(0, whole.len() as int)[head.len() + i] == more[i]);
    }
    assert(name.skip(head.len() as int).subrange(0, more.len() as int) =~= more);
}

/// A proxy account belongs to one consensus account and one module: where
/// wallets, account names and module names hold no slash, the name of a
/// proxy account lies under one pair of them only.
pub proof fn lemma_proxy_has_one_owner(
    first: Account,
    first_module: Seq<char>,
    second: Account,
    second_module: Seq<char>,
    name: Seq<char>,
)
    requires
        proxy_prefix(first.full_name(), first_module).is_prefix_of(name),
        proxy_prefix(second.full_name(), second_module).is_prefix_of(name),
        !first.wallet@.contains('/'),
        !first.name@.contains('/'),
        !first_module.contains('/'),
        !second.wallet@.contains('/'),
        !second.name@.contains('/'),
        !second_module.contains('/'),
    ensures
        first.wallet@ == second.wallet@,
        first.name@ == second.name@,
        first_module == second_module,
{
    let slash = seq!['/'];
    let (w1, n1, m1) = (first.wallet@, first.name@, first_module);
    let (w2, n2, m2) = (second.wallet@, second.name@, second_module);
    let p1 = proxy_prefix(first.full_name(), m1);
    let p2 = proxy_prefix(second.full_name(), m2);
    assert(p1 =~= (w1 + slash) + (n1 + slash + m1 + slash));
    assert(p2 =~= (w2 + slash) + (n2 + slash + m2 + slash));
    assert((w1 + slash).is_prefix_of(name)) by {
        assert(name.subrange(0, p1.len() as int) == p1);
        assert(name.subrange(0, (w1 + slash).len() as int) =~= w1 + slash);
    }
    assert((w2 + slash).is_prefix_of(name)) by {
        assert(name.subrange(0, p2.len() as int) == p2);
        assert(name.subrange(0, (w2 + slash).len() as int) =~= w2 + slash);
    }
    lemma_first_segment(w1, w2, name);

    lemma_after_head(w1 + slash, n1 + slash + m1 + slash, name);
    lemma_after_head(w2 + slash, n2 + slash + m2 + slash, name);
    let after_wallet = name.skip((w1 + slash).len() as int);
    let q1 = n1 + slash + m1 + slash;
    let q2 = n2 + slash + m2 + slash;
    assert(q1 =~= (n1 + slash) + (m1 + slash));
    assert(q2 =~= (n2 + slash) + (m2 + slash));
    assert((n1 + slash).is_prefix_of(after_wallet)) by {
        assert(after_wallet.subrange(0, q1.len() as int) == q1);
        assert(after_wallet.subrange(0, (n1 + slash).len() as int) =~= n1 + slash);
    }
    assert((n2 + slash).is_prefix_of(after_wallet)) by {
        assert(after_wallet.subrange(0, q2.len() as int) == q2);
        assert(after_wallet.subrange(0, (n2 + slash).len() as int) =~= n2 + slash);
    }
    lemma_first_segment(n1, n2, after_wallet);

    lemma_after_head(n1 + slash, m1 + slash, after_wallet);
    lemma_after_head(n2 + slash, m2 + slash, after_wallet);
    lemma_first_segment(m1, m2, after_wallet.skip((n1 + slash).len() as int));
}

/// A backend without configured accounts shows no keys, whatever Dirk lists.
pub proof fn lemma_no_accounts_no_maps(
    accounts: Seq<Account>,
    listing: Seq<DirkAccount>,
    module: Seq<char>,
)
    requires
        accounts.len() == 0,
    ensures
        proxy_maps(accounts, listing, module).len() == 0,
{
}

} // verus!
