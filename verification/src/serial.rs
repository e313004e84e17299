//! The gateway with many requests under way at once.
//!
//! One relayer serves every request, so two requests must never use the same nonce.
//! This module states what the permit buys. It describes the gateway together with
//! its surroundings: the requests under way, the nonce that the nonce source would
//! hand out next, and the nonces of the transactions that the pool has taken. Of the
//! surroundings it assumes that the permit has one holder at a time, that the nonce
//! source hands out the relayer's next unused nonce, and that the pool uses up that
//! nonce when it takes a transaction.

use vstd::prelude::*;
use crate::pipeline::{Event, OdysseyWallet, State};
use crate::request::TransactionRequest;

verus! {

/// The gateway and its surroundings at one moment.
pub struct Ledger {
    /// Where each request stands, in the order in which the requests came in.
    pub states: Seq<State>,
    /// The relayer's next unused nonce.
    pub next_nonce: nat,
    /// The nonces of the transactions that the pool has taken, oldest first.
    pub submitted: Seq<nat>,
}

/// The nonce that a request has been assigned, if it has one.
pub open spec fn assigned_nonce(state: State) -> Option<u64> {
    match state {
        State::NonceSet { request } => request.nonce,
        State::FeesComputed { request } => request.nonce,
        State::Signed { request } => request.nonce,
        _ => None,
    }
}

/// No request is inside the serialized region.
pub open spec fn permit_free(ledger: Ledger) -> bool {
    forall|j: int| 0 <= j < ledger.states.len() ==> !(#[trigger] ledger.states[j]).holds_permit()
}

/// The gateway before any request has come in.
pub open spec fn fresh(next_nonce: nat) -> Ledger {
    Ledger { states: Seq::empty(), next_nonce, submitted: Seq::empty() }
}

/// A request comes in.
pub open spec fn arrives(
    wallet: OdysseyWallet,
    pre: Ledger,
    post: Ledger,
    request: TransactionRequest,
) -> bool {
    &&& post.states == pre.states.push(wallet.spec_begin(request).state)
    &&& post.next_nonce == pre.next_nonce
    &&& post.submitted == pre.submitted
}

/// The request at `index` moves on by an event.
///
/// A request that waits for the permit moves only while no request is inside the
/// serialized region. A nonce that is read is the relayer's next unused nonce. A
/// transaction that the pool takes uses up its nonce.
pub open spec fn moves(
    wallet: OdysseyWallet,
    pre: Ledger,
    post: Ledger,
    index: int,
    event: Event,
) -> bool {
    &&& 0 <= index < pre.states.len()
    &&& post.states == pre.states.update(index, wallet.spec_step(pre.states[index], event).state)
    &&& pre.states[index] is Authorized ==> permit_free(pre)
    &&& event matches Event::NonceRead(nonce) ==> nonce == pre.next_nonce
    &&& if pre.states[index] is Signed && event is Accepted {
        &&& post.next_nonce == pre.next_nonce + 1
        &&& post.submitted == pre.submitted.push(pre.next_nonce)
    } else {
        &&& post.next_nonce == pre.next_nonce
        &&& post.submitted == pre.submitted
    }
}

/// What the permit keeps true: at most one request is inside the serialized region;
/// the nonce assigned to it is the relayer's next unused nonce; and the nonces of the
/// transactions submitted so far run up to the next unused nonce without a gap, each
/// one more than the one before, so that none is used twice and none is skipped.
pub open spec fn serialized(ledger: Ledger) -> bool {
    &&& forall|i: int, j: int|
        0 <= i < ledger.states.len() && 0 <= j < ledger.states.len() && (
        #[trigger] ledger.states[i]).holds_permit() && (#[trigger] ledger.states[j]).holds_permit()
            ==> i == j
    &&& forall|i: int|
        0 <= i < ledger.states.len() && (#[trigger] ledger.states[i]).holds_permit()
            ==> (assigned_nonce(ledger.states[i]) matches Some(nonce) && nonce
            == ledger.next_nonce)
    &&& forall|k: int|
        0 <= k < ledger.submitted.len() ==> (#[trigger] ledger.submitted[k])
            + ledger.submitted.len() - k == ledger.next_nonce
}

/// A gateway that no request has reached yet is serialized.
pub proof fn fresh_is_serialized(next_nonce: nat)
    ensures
        serialized(fresh(next_nonce)),
{
}

/// A request that comes in leaves the gateway serialized: validation and the check
/// of the destination take place outside the serialized region.
pub proof fn arrival_keeps_serialized(
    wallet: OdysseyWallet,
    pre: Ledger,
    post: Ledger,
    request: TransactionRequest,
)
    requires
        serialized(pre),
        arrives(wallet, pre, post, request),
    ensures
        serialized(post),
{
    assert(!wallet.spec_begin(request).state.holds_permit());
    assert forall|i: int| 0 <= i < post.states.len() && (#[trigger] post.states[i]).holds_permit()
        implies i < pre.states.len() && pre.states[i] == post.states[i] by {}
}

/// Every move of a request leaves the gateway serialized. So whatever the order in
/// which the requests under way move, no two of them are inside the serialized region
/// at once, each transaction is signed with the relayer's next unused nonce, and the
/// nonces of the submitted transactions are distinct and increase in the order of
/// submission.
pub proof fn move_keeps_serialized(
    wallet: OdysseyWallet,
    pre: Ledger,
    post: Ledger,
    index: int,
    event: Event,
)
    requires
        serialized(pre),
        moves(wallet, pre, post, index, event),
    ensures
        serialized(post),
{
    let before = pre.states[index];
    let after = wallet.spec_step(before, event).state;
    assert(post.states[index] == after);
    assert forall|i: int| 0 <= i < post.states.len() && i != index implies #[trigger] post.states[i]
        == pre.states[i] by {}
    if before.holds_permit() {
        assert(after.holds_permit() ==> assigned_nonce(after) == assigned_nonce(before)
            && post.next_nonce == pre.next_nonce);
        assert forall|i: int|
            0 <= i < post.states.len() && i != index implies !(#[trigger] post.states[i]).holds_permit() by {
            assert(pre.states[i] == post.states[i]);
        }
    } else {
        assert(post.next_nonce == pre.next_nonce);
        assert(post.submitted == pre.submitted);
        if after.holds_permit() {
            assert(before is Authorized);
            assert(permit_free(pre));
            assert forall|i: int|
                0 <= i < post.states.len() && i != index implies !(
            #[trigger] post.states[i]).holds_permit() by {
                assert(pre.states[i] == post.states[i]);
            }
        }
    }
}

/// Of two submitted transactions the later one carries the greater nonce, greater
/// by the number of submissions between them: so the two nonces differ, and the
/// nonces of two transactions submitted one right after the other differ by one.
pub proof fn submitted_nonces_differ(ledger: Ledger, earlier: int, later: int)
    requires
        serialized(ledger),
        0 <= earlier < later < ledger.submitted.len(),
    ensures
        ledger.submitted[earlier] < ledger.submitted[later],
        ledger.submitted[later] == ledger.submitted[earlier] + (later - earlier),
        later == earlier + 1 ==> ledger.submitted[later] == ledger.submitted[earlier] + 1,
        ledger.submitted[later] < ledger.next_nonce,
{
}

/// No two requests are inside the serialized region at once, and the one that is
/// there carries the relayer's next unused nonce, which no submitted transaction has.
pub proof fn one_request_in_the_region(ledger: Ledger, first: int, second: int)
    requires
        serialized(ledger),
        0 <= first < ledger.states.len(),
        0 <= second < ledger.states.len(),
        ledger.states[first].holds_permit(),
    ensures
        ledger.states[second].holds_permit() ==> first == second,
        assigned_nonce(ledger.states[first]) matches Some(nonce) && nonce == ledger.next_nonce,
        forall|k: int|
            0 <= k < ledger.submitted.len() ==> (#[trigger] ledger.submitted[k])
                != ledger.next_nonce,
{
}

/// A request that leaves the serialized region has come to its end, whether its
/// transaction was taken or not, and the region is free for the next request.
pub proof fn leaving_frees_the_permit(
    wallet: OdysseyWallet,
    pre: Ledger,
    post: Ledger,
    index: int,
    event: Event,
)
    requires
        serialized(pre),
        moves(wallet, pre, post, index, event),
        pre.states[index].holds_permit(),
        !post.states[index].holds_permit(),
    ensures
        post.states[index].is_terminal(),
        permit_free(post),
{
    assert forall|j: int| 0 <= j < post.states.len() implies !(
    #[trigger] post.states[j]).holds_permit() by {
        if j != index {
            assert(post.states[j] == pre.states[j]);
        }
    }
}

} // verus!
