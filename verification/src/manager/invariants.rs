//! What holds of every step of the Dirk backend's conversations: the domain
//! of each signing request, the order of the requests, and what a finished
//! delegation is bound to.

use crate::manager::dirk::{proxy_prefix, DirkManager, Reply};
use crate::manager::protocol::{
    is_uuid_text, proxy_account_name, proxy_start, proxy_step, sign_step, EffectView,
    ProxyProgressView, ProxySessionView, ProxyStageView, SignProgressView, SignSessionView,
    SignStageView,
};
use crate::signature::{delegation_root_of, domain_of, COMMIT_BOOST_DOMAIN};
use crate::text::{lemma_split_last_of_join, slash_join, split_last};
use vstd::prelude::*;

verus! {

/// How far a signing conversation has come.
pub open spec fn sign_rank(stage: SignStageView) -> nat {
    match stage {
        SignStageView::FirstSignature => 0,
        SignStageView::Listing => 1,
        SignStageView::ReadingPassword { .. } => 2,
        SignStageView::Unlocking { .. } => 3,
        SignStageView::SecondSignature => 4,
    }
}

/// How far the minting of a proxy key has come.
pub open spec fn proxy_rank(stage: ProxyStageView) -> nat {
    match stage {
        ProxyStageView::Resolving => 0,
        ProxyStageView::Generating { .. } => 1,
        ProxyStageView::CreatingDirectory { .. } => 2,
        ProxyStageView::WritingPassword { .. } => 3,
        ProxyStageView::Unlocking { .. } => 4,
        ProxyStageView::Signing { signing, .. } => 5 + sign_rank(signing.stage),
        ProxyStageView::Storing { .. } => 10,
    }
}

/// Every signing request of a signing conversation carries the domain of
/// proposer commitments on the backend's chain, the key of the conversation
/// and its root.
pub proof fn lemma_sign_requests_of_signing<S>(
    manager: DirkManager<S>,
    session: SignSessionView,
    reply: Reply,
)
    ensures
        sign_step(manager, session, reply) matches SignProgressView::Continue(
            _,
            EffectView::Sign { pubkey, domain, data },
        ) ==> {
            &&& domain == domain_of(manager.chain, COMMIT_BOOST_DOMAIN@)
            &&& pubkey == session.pubkey
            &&& data == session.object_root
        },
{
}

/// A signing conversation only moves forward, and it keeps its key and root.
/// So it ends after four more steps at most.
pub proof fn lemma_signing_advances<S>(
    manager: DirkManager<S>,
    session: SignSessionView,
    reply: Reply,
)
    ensures
        sign_step(manager, session, reply) matches SignProgressView::Continue(next, _) ==> {
            &&& sign_rank(next.stage) > sign_rank(session.stage)
            &&& next.pubkey == session.pubkey
            &&& next.object_root == session.object_root
        },
{
}

/// The retry is one-shot: a signing request is only ever repeated once, after
/// an unlock that Dirk granted, and whatever answers the second request ends
/// the conversation.
pub proof fn lemma_retry_is_one_shot<S>(
    manager: DirkManager<S>,
    session: SignSessionView,
    reply: Reply,
)
    ensures
        sign_step(manager, session, reply) matches SignProgressView::Continue(
            next,
            EffectView::Sign { .. },
        ) ==> session.stage is Unlocking && next.stage is SecondSignature,
        session.stage is SecondSignature ==> sign_step(manager, session, reply) is Done,
        !manager.unlock && session.stage is FirstSignature ==> sign_step(
            manager,
            session,
            reply,
        ) is Done,
{
}

/// A passphrase that cannot be read ends the retry with an internal
/// error, and the signing request is not repeated.
pub proof fn lemma_unread_passphrase_ends_retry<S>(
    manager: DirkManager<S>,
    session: SignSessionView,
    detail: String,
)
    requires
        session.stage is ReadingPassword,
    ensures
        sign_step(manager, session, Reply::Failed(detail)) matches SignProgressView::Done(
            Err(error),
        ) && error is Internal,
{
}

/// What a signing conversation has come to after `replies`, one for each
/// of its requests in turn. Replies that come after its end are not
/// looked at.
pub open spec fn sign_run<S>(
    manager: DirkManager<S>,
    progress: SignProgressView,
    replies: Seq<Reply>,
) -> SignProgressView
    decreases replies.len(),
{
    if replies.len() == 0 {
        progress
    } else {
        match progress {
            SignProgressView::Done(_) => progress,
            SignProgressView::Continue(session, _) => sign_run(
                manager,
                sign_step(manager, session, replies[0]),
                replies.drop_first(),
            ),
        }
    }
}

/// The number of signing requests that a signing conversation makes from
/// `progress` on, while `replies` answer its requests in turn.
pub open spec fn signing_requests<S>(
    manager: DirkManager<S>,
    progress: SignProgressView,
    replies: Seq<Reply>,
) -> nat
    decreases replies.len(),
{
    match progress {
        SignProgressView::Done(_) => 0,
        SignProgressView::Continue(session, effect) => {
            let here: nat = if effect is Sign {
                1
            } else {
                0
            };
            if replies.len() == 0 {
                here
            } else {
                here + signing_requests(
                    manager,
                    sign_step(manager, session, replies[0]),
                    replies.drop_first(),
                )
            }
        },
    }
}

/// A signing conversation has ended once five of its requests are
/// answered, whatever the answers are.
pub proof fn lemma_signing_ends<S>(
    manager: DirkManager<S>,
    progress: SignProgressView,
    replies: Seq<Reply>,
)
    requires
        progress matches SignProgressView::Continue(session, _) ==> replies.len() + sign_rank(
            session.stage,
        ) >= 5,
    ensures
        sign_run(manager, progress, replies) is Done,
    decreases replies.len(),
{
    match progress {
        SignProgressView::Done(_) => {},
        SignProgressView::Continue(session, _) => {
            lemma_signing_advances(manager, session, replies[0]);
            lemma_signing_ends(
                manager,
                sign_step(manager, session, replies[0]),
                replies.drop_first(),
            );
        },
    }
}

/// A signing conversation asks Dirk to sign twice at most: once at its
/// opening, and once more after an unlock.
pub proof fn lemma_signs_twice_at_most<S>(
    manager: DirkManager<S>,
    progress: SignProgressView,
    replies: Seq<Reply>,
)
    ensures
        progress matches SignProgressView::Continue(session, effect) ==> signing_requests(
            manager,
            progress,
            replies,
        ) <= (if effect is Sign {
            1nat
        } else {
            0nat
        }) + (if session.stage is SecondSignature {
            0nat
        } else {
            1nat
        }),
        signing_requests(manager, progress, replies) <= 2,
    decreases replies.len(),
{
    match progress {
        SignProgressView::Done(_) => {},
        SignProgressView::Continue(session, effect) => {
            if replies.len() > 0 {
                let next = sign_step(manager, session, replies[0]);
                lemma_retry_is_one_shot(manager, session, replies[0]);
                lemma_signs_twice_at_most(manager, next, replies.drop_first());
            }
        },
    }
}

/// In a sound session, the signing conversation inside the minting signs
/// the delegation's root with the consensus key, and a delegation on its way
/// to the store names the consensus key as its delegator.
pub open spec fn proxy_session_sound(session: ProxySessionView) -> bool {
    match session.stage {
        ProxyStageView::Signing { proxy, signing } => {
            &&& signing.pubkey == session.consensus_pubkey
            &&& signing.object_root == delegation_root_of(session.consensus_pubkey, proxy)
        },
        ProxyStageView::Storing { delegation } => delegation.delegator == session.consensus_pubkey,
        _ => true,
    }
}

/// The minting opens in a sound session, for the module and the key it was
/// asked for.
pub proof fn lemma_minting_opens_sound<S>(
    manager: DirkManager<S>,
    module_id: Seq<char>,
    consensus_pubkey: Seq<u8>,
    uuid: Seq<char>,
    password: Seq<char>,
)
    ensures
        proxy_start(manager, module_id, consensus_pubkey, uuid, password)
            matches ProxyProgressView::Continue(session, _) ==> {
            &&& proxy_session_sound(session)
            &&& session.module_id == module_id
            &&& session.consensus_pubkey == consensus_pubkey
            &&& session.uuid == uuid
            &&& session.password == password
            &&& proxy_rank(session.stage) <= 1
        },
{
}

/// The minting only moves forward, it keeps what it was opened with, and a
/// sound session stays sound. So the requests come in the order of the
/// stages: the account is made before its passphrase is written, the
/// passphrase is written before the account is unlocked, and the account is
/// unlocked before the signature is asked for.
pub proof fn lemma_minting_advances<S>(
    manager: DirkManager<S>,
    session: ProxySessionView,
    reply: Reply,
)
    ensures
        proxy_step(manager, session, reply) matches ProxyProgressView::Continue(next, _) ==> {
            &&& proxy_rank(next.stage) > proxy_rank(session.stage)
            &&& proxy_rank(next.stage) <= 10
            &&& next.module_id == session.module_id
            &&& next.consensus_pubkey == session.consensus_pubkey
            &&& next.uuid == session.uuid
            &&& next.password == session.password
            &&& proxy_session_sound(session) ==> proxy_session_sound(next)
        },
{
}

/// Each request of the minting belongs to the stage that the session enters
/// with it.
pub proof fn lemma_minting_requests_by_stage<S>(
    manager: DirkManager<S>,
    session: ProxySessionView,
    reply: Reply,
)
    ensures
        proxy_step(manager, session, reply) matches ProxyProgressView::Continue(next, effect)
            ==> match effect {
            EffectView::Generate { .. } => next.stage is Generating,
            EffectView::CreateSecretsDir { .. } => next.stage is CreatingDirectory,
            EffectView::WritePassword { account, password } => {
                &&& session.stage is CreatingDirectory
                &&& next.stage is WritingPassword
                &&& password == session.password
            },
            EffectView::Unlock { .. } => proxy_rank(next.stage) >= 4,
            EffectView::Sign { .. } => proxy_rank(next.stage) >= 5,
            EffectView::ListAccounts { .. } => next.stage is Signing,
            EffectView::ReadPassword { .. } => next.stage is Signing,
            EffectView::StoreDelegation { .. } => next.stage is Storing,
        },
{
}

/// True when `effect` is the request that a minting waits on in `stage`.
pub open spec fn request_fits(stage: ProxyStageView, effect: EffectView) -> bool {
    match effect {
        EffectView::Generate { .. } => stage is Generating,
        EffectView::CreateSecretsDir { .. } => stage is CreatingDirectory,
        EffectView::WritePassword { .. } => stage is WritingPassword,
        EffectView::Unlock { .. } => stage is Unlocking || stage is Signing,
        EffectView::Sign { .. } => stage is Signing,
        EffectView::ListAccounts { .. } => stage is Resolving || stage is Signing,
        EffectView::ReadPassword { .. } => stage is Signing,
        EffectView::StoreDelegation { .. } => stage is Storing,
    }
}

/// True when the minting goes on with a request that fits its stage.
pub open spec fn progress_fits(progress: ProxyProgressView) -> bool {
    progress matches ProxyProgressView::Continue(session, effect) ==> request_fits(
        session.stage,
        effect,
    )
}

/// The requests that a minting makes from `progress` on, in order, while
/// `replies` answer them in turn.
pub open spec fn minting_requests<S>(
    manager: DirkManager<S>,
    progress: ProxyProgressView,
    replies: Seq<Reply>,
) -> Seq<EffectView>
    decreases replies.len(),
{
    match progress {
        ProxyProgressView::Done(_) => Seq::empty(),
        ProxyProgressView::Continue(session, effect) => if replies.len() == 0 {
            seq![effect]
        } else {
            seq![effect] + minting_requests(
                manager,
                proxy_step(manager, session, replies[0]),
                replies.drop_first(),
            )
        },
    }
}

/// True for the requests that need the passphrase of the new account to
/// be in its file: the unlock and the signing requests.
pub open spec fn needs_passphrase(effect: EffectView) -> bool {
    effect is Unlock || effect is Sign
}

/// The minting opens and goes on with requests that fit its stages.
pub proof fn lemma_minting_fits<S>(
    manager: DirkManager<S>,
    module_id: Seq<char>,
    consensus_pubkey: Seq<u8>,
    uuid: Seq<char>,
    password: Seq<char>,
    session: ProxySessionView,
    reply: Reply,
)
    ensures
        progress_fits(proxy_start(manager, module_id, consensus_pubkey, uuid, password)),
        progress_fits(proxy_step(manager, session, reply)),
{
}

/// In the requests of a minting that has not come to write the
/// passphrase yet, the writing comes before every request that needs the
/// passphrase.
proof fn lemma_write_precedes<S>(
    manager: DirkManager<S>,
    progress: ProxyProgressView,
    replies: Seq<Reply>,
    k: int,
)
    requires
        progress_fits(progress),
        progress matches ProxyProgressView::Continue(session, _) ==> proxy_rank(session.stage)
            <= 2,
        0 <= k < minting_requests(manager, progress, replies).len(),
        needs_passphrase(minting_requests(manager, progress, replies)[k]),
    ensures
        exists|w: int|
            0 <= w < k && minting_requests(manager, progress, replies)[w] is WritePassword,
    decreases replies.len(),
{
    match progress {
        ProxyProgressView::Done(_) => {},
        ProxyProgressView::Continue(session, effect) => {
            let all = minting_requests(manager, progress, replies);
            if k == 0 {
                assert(all[0] == effect);
            } else {
                let next = proxy_step(manager, session, replies[0]);
                let rest = minting_requests(manager, next, replies.drop_first());
                assert(all == seq![effect] + rest);
                assert(all[k] == rest[k - 1]);
                lemma_minting_requests_by_stage(manager, session, replies[0]);
                match next {
                    ProxyProgressView::Done(_) => {},
                    ProxyProgressView::Continue(entered, request) => {
                        if proxy_rank(entered.stage) <= 2 {
                            lemma_write_precedes(manager, next, replies.drop_first(), k - 1);
                            let w = choose|w: int| 0 <= w < k - 1 && rest[w] is WritePassword;
                            assert(all[w + 1] is WritePassword);
                        } else {
                            assert(request is WritePassword);
                            assert(rest[0] == request);
                            assert(all[1] is WritePassword);
                        }
                    },
                }
            }
        },
    }
}

/// The passphrase is written before it is needed: in the requests of a
/// minting from its opening on, the writing of the passphrase file comes
/// before every unlock and every signing request, and after the request
/// that makes the account.
pub proof fn lemma_passphrase_written_first<S>(
    manager: DirkManager<S>,
    module_id: Seq<char>,
    consensus_pubkey: Seq<u8>,
    uuid: Seq<char>,
    password: Seq<char>,
    replies: Seq<Reply>,
    k: int,
)
    requires
        0 <= k < minting_requests(
            manager,
            proxy_start(manager, module_id, consensus_pubkey, uuid, password),
            replies,
        ).len(),
    ensures
        ({
            let requests = minting_requests(
                manager,
                proxy_start(manager, module_id, consensus_pubkey, uuid, password),
                replies,
            );
            &&& needs_passphrase(requests[k]) ==> exists|w: int|
                0 <= w < k && requests[w] is WritePassword
            &&& requests[k] is WritePassword ==> exists|g: int|
                0 <= g < k && requests[g] is Generate
        }),
{
    let opening = proxy_start(manager, module_id, consensus_pubkey, uuid, password);
    let requests = minting_requests(manager, opening, replies);
    lemma_minting_opens_sound(manager, module_id, consensus_pubkey, uuid, password);
    if needs_passphrase(requests[k]) {
        lemma_write_precedes(manager, opening, replies, k);
    }
    if requests[k] is WritePassword {
        lemma_generate_precedes(manager, opening, replies, k);
    }
}

/// In the requests of a minting that has not made the account yet, the
/// request that makes it comes before the writing of the passphrase file.
proof fn lemma_generate_precedes<S>(
    manager: DirkManager<S>,
    progress: ProxyProgressView,
    replies: Seq<Reply>,
    k: int,
)
    requires
        progress_fits(progress),
        progress matches ProxyProgressView::Continue(session, _) ==> proxy_rank(session.stage)
            <= 1,
        0 <= k < minting_requests(manager, progress, replies).len(),
        minting_requests(manager, progress, replies)[k] is WritePassword,
    ensures
        exists|g: int|
            0 <= g < k && minting_requests(manager, progress, replies)[g] is Generate,
    decreases replies.len(),
{
    match progress {
        ProxyProgressView::Done(_) => {},
        ProxyProgressView::Continue(session, effect) => {
            let all = minting_requests(manager, progress, replies);
            if effect is Generate {
                assert(all[0] is Generate);
            } else {
                let next = proxy_step(manager, session, replies[0]);
                let rest = minting_requests(manager, next, replies.drop_first());
                assert(all == seq![effect] + rest);
                assert(all[k] == rest[k - 1]);
                lemma_minting_requests_by_stage(manager, session, replies[0]);
                lemma_generate_precedes(manager, next, replies.drop_first(), k - 1);
                let g = choose|g: int| 0 <= g < k - 1 && rest[g] is Generate;
                assert(all[g + 1] is Generate);
            }
        },
    }
}

/// Every signing request of the minting carries the domain of proposer
/// commitments on the backend's chain; in a sound session it asks the
/// consensus key for a signature over the root of the delegation to the
/// proxy key that Dirk made.
pub proof fn lemma_sign_requests_of_minting<S>(
    manager: DirkManager<S>,
    session: ProxySessionView,
    reply: Reply,
)
    ensures
        proxy_step(manager, session, reply) matches ProxyProgressView::Continue(
            next,
            EffectView::Sign { pubkey, domain, data },
        ) ==> {
            &&& domain == domain_of(manager.chain, COMMIT_BOOST_DOMAIN@)
            &&& proxy_session_sound(session) ==> {
                &&& pubkey == session.consensus_pubkey
                &&& next.stage matches ProxyStageView::Signing { proxy, .. }
                &&& data == delegation_root_of(session.consensus_pubkey, proxy)
            }
        },
{
}

/// A delegation that the minting ends with in a sound session names the
/// consensus key of the session as its delegator. Where it comes straight
/// out of the signing conversation, it holds the proxy key that was signed
/// for and the signature that Dirk sent.
pub proof fn lemma_minted_delegation<S>(
    manager: DirkManager<S>,
    session: ProxySessionView,
    reply: Reply,
)
    requires
        proxy_session_sound(session),
    ensures
        proxy_step(manager, session, reply) matches ProxyProgressView::Done(Ok(delegation)) ==> {
            &&& delegation.delegator == session.consensus_pubkey
            &&& session.stage matches ProxyStageView::Signing { proxy, .. } ==> {
                &&& delegation.proxy == proxy
                &&& reply matches Reply::Signature(_, signature)
                &&& delegation.signature == signature@
            }
            &&& session.stage matches ProxyStageView::Storing { delegation: kept } ==> delegation
                == kept
        },
{
}

/// The delegation goes to the store exactly when the backend has one: with a
/// store, the minting never ends well before the store has answered; without
/// one, it never asks for it.
pub proof fn lemma_store_is_asked<S>(manager: DirkManager<S>, session: ProxySessionView, reply: Reply)
    ensures
        manager.proxy_store is Some ==> (proxy_step(manager, session, reply)
            matches ProxyProgressView::Done(Ok(_)) ==> session.stage is Storing),
        manager.proxy_store is None ==> !(proxy_step(manager, session, reply)
            matches ProxyProgressView::Continue(_, EffectView::StoreDelegation { .. })),
{
}

/// Two identifiers give two account names: mintings for the same module
/// under the same consensus account never collide.
pub proof fn lemma_account_names_differ(
    consensus: Seq<char>,
    module: Seq<char>,
    first: Seq<char>,
    second: Seq<char>,
)
    requires
        first != second,
    ensures
        proxy_account_name(consensus, module, first) != proxy_account_name(
            consensus,
            module,
            second,
        ),
{
    let prefix = proxy_prefix(consensus, module);
    let a = proxy_account_name(consensus, module, first);
    let b = proxy_account_name(consensus, module, second);
    if a == b {
        assert(a.subrange(prefix.len() as int, a.len() as int) =~= first);
        assert(b.subrange(prefix.len() as int, b.len() as int) =~= second);
    }
}

/// The passphrase of a proxy account lies in the directory of its module
/// under its consensus account, in a file named by the identifier.
pub proof fn lemma_passphrase_place(consensus: Seq<char>, module: Seq<char>, uuid: Seq<char>)
    requires
        is_uuid_text(uuid),
    ensures
        split_last(proxy_account_name(consensus, module, uuid), '/') == Some(
            (slash_join(consensus, module), uuid),
        ),
{
    assert forall|i: int| 0 <= i < uuid.len() implies uuid[i] != '/' by {
        if i == 8 || i == 13 || i == 18 || i == 23 {
            assert(uuid[i] == '-');
        } else {
            let k = choose|k: int|
                0 <= k < crate::encoding::hex_digits().len() && crate::encoding::hex_digits()[k]
                    == uuid[i];
            assert(crate::encoding::hex_digits()[k] != '/');
        }
    }
    assert(!uuid.contains('/'));
    lemma_split_last_of_join(slash_join(consensus, module), uuid);
    assert(proxy_account_name(consensus, module, uuid) =~= slash_join(
        slash_join(consensus, module),
        uuid,
    ));
}

} // verus!
