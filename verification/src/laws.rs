//! Auction-wide laws, proved from the operations' transition predicates.
//!
//! Each operation's contract states its exact transition predicate; the
//! proof functions here derive the auction's global guarantees from those
//! predicates alone, so they hold of every call sequence.

use vstd::prelude::*;
use crate::auction::SealedBidAuction;
use crate::auction::SealedBidError;
use crate::hashing::commitment_hash;
use crate::hashing::zero_hash;

verus! {

/// The `revealed` flag never reverts: a reveal call can only turn it on, and
/// a caller whose flag is already set is rejected with the state unchanged —
/// so the false-to-true transition happens at most once per address.
pub proof fn lemma_revealed_irreversible(
    pre: SealedBidAuction,
    post: SealedBidAuction,
    sender: u128,
    now: u128,
    bid: u128,
    nonce: u128,
    r: Result<(), SealedBidError>,
)
    requires
        SealedBidAuction::reveal_post(pre, post, sender, now, bid, nonce, r),
    ensures
        forall|a: u128| pre.revealed_of(a) ==> post.revealed_of(a),
        pre.revealed_of(sender) ==> SealedBidAuction::unchanged_state(pre, post),
        pre.revealed_of(sender) && pre.spec_commit_end() < now < pre.spec_reveal_end() ==> r
            == Err::<(), SealedBidError>(SealedBidError::AlreadyRevealed),
{
}

/// A first-time commit before `commit_end` whose attached value is below the
/// minimum deposit is rejected and leaves the whole state — in particular
/// the caller's deposit and commitment — unchanged.
pub proof fn lemma_underfunded_first_commit_rejected(
    pre: SealedBidAuction,
    post: SealedBidAuction,
    sender: u128,
    value: u128,
    now: u128,
    commitment: Seq<u8>,
    r: Result<(), SealedBidError>,
)
    requires
        SealedBidAuction::commit_post(pre, post, sender, value, now, commitment, r),
        now < pre.spec_commit_end(),
        value < pre.spec_min_deposit(),
        pre.deposit_of(sender) == 0,
    ensures
        r is Err,
        SealedBidAuction::unchanged_state(pre, post),
        post.deposit_of(sender) == pre.deposit_of(sender),
        post.commitment_of(sender) == pre.commitment_of(sender),
        commitment != zero_hash() ==> r == Err::<(), SealedBidError>(SealedBidError::NoDeposit),
{
}

/// A reveal succeeds only when the stored 32-byte commitment equals the
/// recomputed commitment hash of `(bid, nonce)`; on a mismatch the call
/// fails with `InvalidCommit` and the only state change is the caller's
/// `revealed` flag flipping from false to true.
pub proof fn lemma_reveal_hash_match(
    pre: SealedBidAuction,
    post: SealedBidAuction,
    sender: u128,
    now: u128,
    bid: u128,
    nonce: u128,
    r: Result<(), SealedBidError>,
)
    requires
        SealedBidAuction::reveal_post(pre, post, sender, now, bid, nonce, r),
    ensures
        r is Ok ==> pre.commitment_of(sender) == commitment_hash(bid, nonce),
        pre.spec_commit_end() < now < pre.spec_reveal_end() && !pre.revealed_of(sender)
            && pre.commitment_of(sender) != zero_hash() && pre.commitment_of(sender)
            != commitment_hash(bid, nonce) ==> {
            &&& r == Err::<(), SealedBidError>(SealedBidError::InvalidCommit)
            &&& !pre.revealed_of(sender)
            &&& post.revealed_of(sender)
            &&& SealedBidAuction::forfeit_marked(pre, post, sender)
        },
{
}

/// A single reveal call never lowers the highest bid; on success the new
/// highest bid is exactly the larger of the old one and the revealed bid,
/// and a tie never replaces the current leader.
pub proof fn lemma_highest_bid_step(
    pre: SealedBidAuction,
    post: SealedBidAuction,
    sender: u128,
    now: u128,
    bid: u128,
    nonce: u128,
    r: Result<(), SealedBidError>,
)
    requires
        SealedBidAuction::reveal_post(pre, post, sender, now, bid, nonce, r),
    ensures
        post.spec_highest_bid() >= pre.spec_highest_bid(),
        r is Ok ==> post.spec_highest_bid() == if bid > pre.spec_highest_bid() {
            bid
        } else {
            pre.spec_highest_bid()
        },
        r is Ok && bid <= pre.spec_highest_bid() ==> post.spec_highest_bidder()
            == pre.spec_highest_bidder() && post.spec_highest_bid() == pre.spec_highest_bid(),
{
}

/// The highest bid an initial value `h0` grows to over a sequence of bids,
/// taking each bid only when it is strictly greater than the running value.
pub open spec fn running_max(h0: u128, bids: Seq<u128>) -> u128
    decreases bids.len(),
{
    if bids.len() == 0 {
        h0
    } else {
        running_max(
            if bids[0] > h0 {
                bids[0]
            } else {
                h0
            },
            bids.drop_first(),
        )
    }
}

/// Step `i` of a trace of successful reveals: the reveal with the `i`-th
/// sender, time, bid and nonce relates state `i` to state `i + 1`.
pub open spec fn reveal_ok_at(
    states: Seq<SealedBidAuction>,
    senders: Seq<u128>,
    nows: Seq<u128>,
    bids: Seq<u128>,
    nonces: Seq<u128>,
    i: int,
) -> bool {
    SealedBidAuction::reveal_post(
        states[i],
        states[i + 1],
        senders[i],
        nows[i],
        bids[i],
        nonces[i],
        Ok(()),
    )
}

/// After any sequence of successful reveals, the highest bid equals the
/// running maximum of the revealed bids over the starting value: it is
/// non-decreasing, and only strictly greater bids ever replace it.
pub proof fn lemma_highest_bid_monotonic(
    states: Seq<SealedBidAuction>,
    senders: Seq<u128>,
    nows: Seq<u128>,
    bids: Seq<u128>,
    nonces: Seq<u128>,
)
    requires
        states.len() == bids.len() + 1,
        senders.len() == bids.len(),
        nows.len() == bids.len(),
        nonces.len() == bids.len(),
        forall|i: int|
            0 <= i < bids.len() ==> #[trigger] reveal_ok_at(states, senders, nows, bids, nonces, i),
    ensures
        states.last().spec_highest_bid() == running_max(states.first().spec_highest_bid(), bids),
        states.last().spec_highest_bid() >= states.first().spec_highest_bid(),
    decreases bids.len(),
{
    if bids.len() == 0 {
        assert(states.last() == states.first());
    } else {
        assert(reveal_ok_at(states, senders, nows, bids, nonces, 0));
        let states1 = states.drop_first();
        let senders1 = senders.drop_first();
        let nows1 = nows.drop_first();
        let bids1 = bids.drop_first();
        let nonces1 = nonces.drop_first();
        assert forall|i: int| 0 <= i < bids1.len() implies #[trigger] reveal_ok_at(
            states1,
            senders1,
            nows1,
            bids1,
            nonces1,
            i,
        ) by {
            assert(reveal_ok_at(states, senders, nows, bids, nonces, i + 1));
            assert(states1[i] == states[i + 1]);
            assert(states1[i + 1] == states[i + 2]);
        }
        lemma_highest_bid_monotonic(states1, senders1, nows1, bids1, nonces1);
        assert(states1.last() == states.last());
        assert(states1.first() == states[1]);
    }
}

/// When a successful reveal replaces the highest bidder, the superseded
/// party's refund balance grows by exactly their previous bid plus their
/// whole deposit, once, and no other refund balance changes.
pub proof fn lemma_refund_conservation(
    pre: SealedBidAuction,
    post: SealedBidAuction,
    sender: u128,
    now: u128,
    bid: u128,
    nonce: u128,
)
    requires
        SealedBidAuction::reveal_post(pre, post, sender, now, bid, nonce, Ok(())),
        bid > pre.spec_highest_bid(),
        pre.spec_highest_bidder() != 0,
    ensures
        post.spec_refund_of(pre.spec_highest_bidder()) == pre.spec_refund_of(
            pre.spec_highest_bidder(),
        ) + pre.spec_highest_bid() + pre.deposit_of(pre.spec_highest_bidder()),
        forall|a: u128|
            a != pre.spec_highest_bidder() ==> post.spec_refund_of(a) == pre.spec_refund_of(a),
{
}

/// A second finalize call, at any time not before the first successful one,
/// always fails with `AuctionAlreadyFinalized` and changes no state.
pub proof fn lemma_finalize_idempotent(
    s0: SealedBidAuction,
    s1: SealedBidAuction,
    s2: SealedBidAuction,
    now1: u128,
    nft_ok1: bool,
    pay_ok1: bool,
    now2: u128,
    nft_ok2: bool,
    pay_ok2: bool,
    r2: Result<(), SealedBidError>,
)
    requires
        SealedBidAuction::finalize_post(s0, s1, now1, nft_ok1, pay_ok1, Ok(())),
        SealedBidAuction::finalize_post(s1, s2, now2, nft_ok2, pay_ok2, r2),
        now2 >= now1,
    ensures
        r2 == Err::<(), SealedBidError>(SealedBidError::AuctionAlreadyFinalized),
        SealedBidAuction::unchanged_state(s1, s2),
{
}

/// A withdrawal whose payment transfer fails leaves the caller's refund
/// balance exactly at its pre-call value, and changes nothing else.
pub proof fn lemma_withdraw_atomic(
    pre: SealedBidAuction,
    post: SealedBidAuction,
    caller: u128,
    r: Result<(), SealedBidError>,
)
    requires
        SealedBidAuction::withdraw_post(pre, post, caller, false, r),
    ensures
        post.spec_refund_of(caller) == pre.spec_refund_of(caller),
        SealedBidAuction::unchanged_state(pre, post),
        pre.spec_refund_of(caller) > 0 ==> r == Err::<(), SealedBidError>(
            SealedBidError::PaymentFailed,
        ),
{
}

} // verus!
