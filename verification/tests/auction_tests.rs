use sealed_bid_auction::hashing::compute_commitment;
use sealed_bid_auction::SealedBidAuction;
use sealed_bid_auction::SealedBidError;

const SELLER: u128 = 11;
const REGISTRY: u128 = 22;
const CONTRACT: u128 = 33;
const BIDDER_A: u128 = 101;
const BIDDER_B: u128 = 102;
const TOKEN: u128 = 7;

/// A live auction: reserve 200, commit phase [0, 3600), reveal (3600, 7200),
/// minimum deposit 100, seller owning and having approved the token.
fn live_auction() -> SealedBidAuction {
    let mut auction = SealedBidAuction::default();
    let r = auction.new(
        SELLER,
        REGISTRY,
        TOKEN,
        200,
        3600,
        3600,
        100,
        0,
        Some(SELLER),
        Some(CONTRACT),
        Some(false),
        CONTRACT,
    );
    assert_eq!(r, Ok(()));
    auction
}

#[test]
fn initialize_sets_configuration() {
    let auction = live_auction();
    assert_eq!(auction.seller(), SELLER);
    assert_eq!(auction.nft_contract(), REGISTRY);
    assert_eq!(auction.token_id(), TOKEN);
    assert_eq!(auction.reserve_price(), 200);
    assert_eq!(auction.min_deposit(), 100);
    assert_eq!(auction.commit_end(), 3600);
    assert_eq!(auction.reveal_end(), 7200);
    assert!(!auction.finalized());
    assert_eq!(auction.highest_bidder(), 0);
    assert_eq!(auction.highest_bid(), 0);
    assert_eq!(
        auction.get_details(),
        (SELLER, REGISTRY, TOKEN, 200, 100, 3600, 7200, false, 0, 0)
    );
}

#[test]
fn initialize_rejects_zero_addresses() {
    let mut auction = SealedBidAuction::default();
    let r = auction.new(
        0,
        REGISTRY,
        TOKEN,
        200,
        3600,
        3600,
        100,
        0,
        Some(SELLER),
        Some(CONTRACT),
        Some(false),
        CONTRACT,
    );
    assert_eq!(r, Err(SealedBidError::ZeroAddress));
    let r = auction.new(
        SELLER,
        0,
        TOKEN,
        200,
        3600,
        3600,
        100,
        0,
        Some(SELLER),
        Some(CONTRACT),
        Some(false),
        CONTRACT,
    );
    assert_eq!(r, Err(SealedBidError::ZeroAddress));
}

#[test]
fn initialize_rejects_zero_durations_and_deposit() {
    let mut auction = SealedBidAuction::default();
    let r = auction.new(
        SELLER,
        REGISTRY,
        TOKEN,
        200,
        0,
        3600,
        100,
        0,
        Some(SELLER),
        Some(CONTRACT),
        Some(false),
        CONTRACT,
    );
    assert_eq!(r, Err(SealedBidError::InvalidDuration));
    let r = auction.new(
        SELLER,
        REGISTRY,
        TOKEN,
        200,
        3600,
        0,
        100,
        0,
        Some(SELLER),
        Some(CONTRACT),
        Some(false),
        CONTRACT,
    );
    assert_eq!(r, Err(SealedBidError::InvalidDuration));
    let r = auction.new(
        SELLER,
        REGISTRY,
        TOKEN,
        200,
        3600,
        3600,
        0,
        0,
        Some(SELLER),
        Some(CONTRACT),
        Some(false),
        CONTRACT,
    );
    assert_eq!(r, Err(SealedBidError::InvalidCommit));
}

#[test]
fn initialize_rejects_bad_authorization() {
    // The registry's ownership query fails outright.
    let mut auction = SealedBidAuction::default();
    let r = auction.new(
        SELLER,
        REGISTRY,
        TOKEN,
        200,
        3600,
        3600,
        100,
        0,
        None,
        Some(CONTRACT),
        Some(false),
        CONTRACT,
    );
    assert_eq!(r, Err(SealedBidError::NFTTransferFailed));
    // The registered owner is someone else.
    let r = auction.new(
        SELLER,
        REGISTRY,
        TOKEN,
        200,
        3600,
        3600,
        100,
        0,
        Some(BIDDER_A),
        Some(CONTRACT),
        Some(false),
        CONTRACT,
    );
    assert_eq!(r, Err(SealedBidError::NotNFTOwner));
    // Neither the token approval nor the operator approval names the contract.
    let r = auction.new(
        SELLER,
        REGISTRY,
        TOKEN,
        200,
        3600,
        3600,
        100,
        0,
        Some(SELLER),
        Some(BIDDER_A),
        Some(false),
        CONTRACT,
    );
    assert_eq!(r, Err(SealedBidError::NotApproved));
    // The auction never became live.
    assert_eq!(auction.seller(), 0);
    // Blanket operator approval alone is enough.
    let r = auction.new(
        SELLER,
        REGISTRY,
        TOKEN,
        200,
        3600,
        3600,
        100,
        0,
        Some(SELLER),
        None,
        Some(true),
        CONTRACT,
    );
    assert_eq!(r, Ok(()));
}

#[test]
fn commit_rejects_after_commit_end() {
    let mut auction = live_auction();
    let hash = compute_commitment(150, 1);
    assert_eq!(
        auction.commit(BIDDER_A, 100, 3600, hash),
        Err(SealedBidError::CommitPhaseOver)
    );
}

#[test]
fn commit_rejects_zero_commitment() {
    let mut auction = live_auction();
    assert_eq!(
        auction.commit(BIDDER_A, 100, 0, [0u8; 32]),
        Err(SealedBidError::InvalidCommit)
    );
}

#[test]
fn underfunded_first_commit_changes_nothing() {
    let mut auction = live_auction();
    let hash = compute_commitment(150, 1);
    assert_eq!(
        auction.commit(BIDDER_A, 99, 10, hash),
        Err(SealedBidError::NoDeposit)
    );
    // The deposit stayed at zero, so a properly funded commit is still a
    // first-time commit.
    assert_eq!(auction.commit(BIDDER_A, 100, 11, hash), Ok(()));
}

#[test]
fn commit_accumulates_deposits_and_overwrites_hash() {
    let mut auction = live_auction();
    let first = compute_commitment(150, 1);
    let second = compute_commitment(180, 2);
    assert_eq!(auction.commit(BIDDER_A, 100, 0, first), Ok(()));
    // A caller holding a deposit may re-commit without attaching more value.
    assert_eq!(auction.commit(BIDDER_A, 0, 10, second), Ok(()));
    // Only the latest commitment is binding: the first bid no longer reveals.
    assert_eq!(
        auction.reveal_bid(BIDDER_A, 3601, 150, 1),
        Err(SealedBidError::InvalidCommit)
    );
}

#[test]
fn reveal_rejects_outside_window() {
    let mut auction = live_auction();
    let hash = compute_commitment(150, 1);
    assert_eq!(auction.commit(BIDDER_A, 100, 0, hash), Ok(()));
    assert_eq!(
        auction.reveal_bid(BIDDER_A, 3600, 150, 1),
        Err(SealedBidError::RevealNotOpen)
    );
    assert_eq!(
        auction.reveal_bid(BIDDER_A, 7200, 150, 1),
        Err(SealedBidError::AuctionNotEnded)
    );
}

#[test]
fn reveal_without_commitment_is_rejected() {
    let mut auction = live_auction();
    assert_eq!(
        auction.reveal_bid(BIDDER_A, 3601, 150, 1),
        Err(SealedBidError::InvalidCommit)
    );
    // No forfeiture happened: nothing marked this caller revealed, and a
    // later matching reveal path is still open in a fresh auction round.
    assert_eq!(
        auction.reveal_bid(BIDDER_A, 3602, 150, 1),
        Err(SealedBidError::InvalidCommit)
    );
}

#[test]
fn mismatched_reveal_forfeits_once() {
    let mut auction = live_auction();
    let hash = compute_commitment(150, 1);
    assert_eq!(auction.commit(BIDDER_A, 100, 0, hash), Ok(()));
    // Wrong nonce: the reveal fails and marks the caller revealed.
    assert_eq!(
        auction.reveal_bid(BIDDER_A, 3601, 150, 2),
        Err(SealedBidError::InvalidCommit)
    );
    // The flag is irreversible: even the correct pair is now rejected.
    assert_eq!(
        auction.reveal_bid(BIDDER_A, 3602, 150, 1),
        Err(SealedBidError::AlreadyRevealed)
    );
    // The deposit was forfeited: no refund was credited.
    assert_eq!(auction.refund_of(BIDDER_A), 0);
}

#[test]
fn matching_reveal_takes_the_lead() {
    let mut auction = live_auction();
    let hash = compute_commitment(150, 1);
    assert_eq!(auction.commit(BIDDER_A, 100, 0, hash), Ok(()));
    assert_eq!(auction.reveal_bid(BIDDER_A, 3601, 150, 1), Ok(()));
    assert_eq!(auction.highest_bidder(), BIDDER_A);
    assert_eq!(auction.highest_bid(), 150);
    // The leader's funds stay locked: no refund yet.
    assert_eq!(auction.refund_of(BIDDER_A), 0);
    assert_eq!(
        auction.reveal_bid(BIDDER_A, 3602, 150, 1),
        Err(SealedBidError::AlreadyRevealed)
    );
}

#[test]
fn tie_does_not_replace_the_leader() {
    let mut auction = live_auction();
    assert_eq!(
        auction.commit(BIDDER_A, 100, 0, compute_commitment(150, 1)),
        Ok(())
    );
    assert_eq!(
        auction.commit(BIDDER_B, 100, 0, compute_commitment(150, 2)),
        Ok(())
    );
    assert_eq!(auction.reveal_bid(BIDDER_A, 3601, 150, 1), Ok(()));
    assert_eq!(auction.reveal_bid(BIDDER_B, 3602, 150, 2), Ok(()));
    // The tie left the first revealer in the lead; the second bidder's bid
    // and deposit became withdrawable at once.
    assert_eq!(auction.highest_bidder(), BIDDER_A);
    assert_eq!(auction.highest_bid(), 150);
    assert_eq!(auction.refund_of(BIDDER_B), 250);
    assert_eq!(auction.refund_of(BIDDER_A), 0);
}

#[test]
fn full_auction_with_replacement_and_settlement() {
    let mut auction = live_auction();
    let hash_a = compute_commitment(150, 41);
    let hash_b = compute_commitment(300, 42);
    assert_eq!(auction.commit(BIDDER_A, 100, 0, hash_a), Ok(()));
    assert_eq!(auction.commit(BIDDER_B, 200, 1800, hash_b), Ok(()));
    assert_eq!(auction.reveal_bid(BIDDER_A, 3601, 150, 41), Ok(()));
    assert_eq!(auction.highest_bidder(), BIDDER_A);
    assert_eq!(auction.highest_bid(), 150);
    assert_eq!(auction.reveal_bid(BIDDER_B, 3700, 300, 42), Ok(()));
    // The replaced leader was credited their previous bid plus their whole
    // deposit, exactly once.
    assert_eq!(auction.refund_of(BIDDER_A), 250);
    assert_eq!(auction.highest_bidder(), BIDDER_B);
    assert_eq!(auction.highest_bid(), 300);
    // Settlement: the asset moves and the seller is paid 300.
    assert_eq!(auction.finalize_plan(7300), Ok(Some((BIDDER_B, 300))));
    assert_eq!(auction.finalize(7300, true, true), Ok(()));
    assert!(auction.finalized());
    // The winner's deposit became withdrawable.
    assert_eq!(auction.refund_of(BIDDER_B), 200);
    assert_eq!(auction.withdraw_refund(BIDDER_A, true), Ok(()));
    assert_eq!(auction.refund_of(BIDDER_A), 0);
    assert_eq!(auction.withdraw_refund(BIDDER_B, true), Ok(()));
    assert_eq!(auction.refund_of(BIDDER_B), 0);
}

#[test]
fn finalize_too_early_or_twice() {
    let mut auction = live_auction();
    assert_eq!(
        auction.finalize(7199, true, true),
        Err(SealedBidError::AuctionNotEnded)
    );
    assert_eq!(auction.finalize(7200, true, true), Ok(()));
    assert_eq!(
        auction.finalize(7300, true, true),
        Err(SealedBidError::AuctionAlreadyFinalized)
    );
}

#[test]
fn finalize_below_reserve_moves_nothing() {
    let mut auction = live_auction();
    let hash = compute_commitment(150, 1);
    assert_eq!(auction.commit(BIDDER_A, 100, 0, hash), Ok(()));
    assert_eq!(auction.reveal_bid(BIDDER_A, 3601, 150, 1), Ok(()));
    // 150 is below the reserve of 200: no transfers are owed.
    assert_eq!(auction.finalize_plan(7200), Ok(None));
    assert_eq!(auction.finalize(7200, false, false), Ok(()));
    assert!(auction.finalized());
    // No refund entry was created for the stranded highest bidder.
    assert_eq!(auction.refund_of(BIDDER_A), 0);
    assert_eq!(
        auction.withdraw_refund(BIDDER_A, true),
        Err(SealedBidError::NothingToWithdraw)
    );
}

#[test]
fn finalize_aborts_on_failed_transfers() {
    let mut auction = live_auction();
    let hash = compute_commitment(300, 1);
    assert_eq!(auction.commit(BIDDER_A, 100, 0, hash), Ok(()));
    assert_eq!(auction.reveal_bid(BIDDER_A, 3601, 300, 1), Ok(()));
    // The asset transfer fails: finalize aborts and can be retried.
    assert_eq!(
        auction.finalize(7200, false, true),
        Err(SealedBidError::NFTTransferFailed)
    );
    assert!(!auction.finalized());
    assert_eq!(auction.refund_of(BIDDER_A), 0);
    // The payment to the seller fails: finalize aborts and can be retried.
    assert_eq!(
        auction.finalize(7200, true, false),
        Err(SealedBidError::PaymentFailed)
    );
    assert!(!auction.finalized());
    // Both succeed: the auction settles.
    assert_eq!(auction.finalize(7200, true, true), Ok(()));
    assert!(auction.finalized());
    assert_eq!(auction.refund_of(BIDDER_A), 100);
}

#[test]
fn failed_withdrawal_restores_the_balance() {
    let mut auction = live_auction();
    assert_eq!(
        auction.commit(BIDDER_A, 100, 0, compute_commitment(150, 1)),
        Ok(())
    );
    assert_eq!(
        auction.commit(BIDDER_B, 100, 0, compute_commitment(200, 2)),
        Ok(())
    );
    assert_eq!(auction.reveal_bid(BIDDER_A, 3601, 150, 1), Ok(()));
    assert_eq!(auction.reveal_bid(BIDDER_B, 3602, 200, 2), Ok(()));
    assert_eq!(auction.refund_of(BIDDER_A), 250);
    // The payment transfer fails: the balance is exactly its pre-call value.
    assert_eq!(
        auction.withdraw_refund(BIDDER_A, false),
        Err(SealedBidError::PaymentFailed)
    );
    assert_eq!(auction.refund_of(BIDDER_A), 250);
    // A later attempt drains it.
    assert_eq!(auction.withdraw_refund(BIDDER_A, true), Ok(()));
    assert_eq!(auction.refund_of(BIDDER_A), 0);
    assert_eq!(
        auction.withdraw_refund(BIDDER_A, true),
        Err(SealedBidError::NothingToWithdraw)
    );
}

#[test]
fn cancel_is_seller_only_and_single() {
    let mut auction = live_auction();
    assert_eq!(
        auction.cancel_auction(BIDDER_A),
        Err(SealedBidError::OnlySeller)
    );
    assert!(!auction.finalized());
    assert_eq!(auction.cancel_auction(SELLER), Ok(()));
    assert!(auction.finalized());
    assert_eq!(
        auction.cancel_auction(SELLER),
        Err(SealedBidError::AuctionAlreadyFinalized)
    );
}

#[test]
fn cancel_keeps_credited_refunds_withdrawable() {
    let mut auction = live_auction();
    assert_eq!(
        auction.commit(BIDDER_A, 100, 0, compute_commitment(150, 1)),
        Ok(())
    );
    assert_eq!(
        auction.commit(BIDDER_B, 100, 0, compute_commitment(200, 2)),
        Ok(())
    );
    assert_eq!(auction.reveal_bid(BIDDER_A, 3601, 150, 1), Ok(()));
    assert_eq!(auction.reveal_bid(BIDDER_B, 3602, 200, 2), Ok(()));
    assert_eq!(auction.cancel_auction(SELLER), Ok(()));
    // The overtaken bidder's credit survives cancellation; the leader's
    // locked funds do not become withdrawable.
    assert_eq!(auction.withdraw_refund(BIDDER_A, true), Ok(()));
    assert_eq!(
        auction.withdraw_refund(BIDDER_B, true),
        Err(SealedBidError::NothingToWithdraw)
    );
}

#[test]
fn commitment_matches_direct_keccak_of_the_preimage() {
    // The commitment of (bid, nonce) must be the keccak-256 digest of the
    // two 32-byte little-endian words, not anything derived another way.
    let bid: u128 = 0x0102030405060708090a0b0c0d0e0f10;
    let nonce: u128 = 0x1112131415161718191a1b1c1d1e1f20;
    let mut preimage: Vec<u8> = Vec::new();
    preimage.extend_from_slice(&bid.to_le_bytes());
    preimage.extend_from_slice(&[0u8; 16]);
    preimage.extend_from_slice(&nonce.to_le_bytes());
    preimage.extend_from_slice(&[0u8; 16]);
    let expected = alloy_primitives::keccak256(&preimage);
    assert_eq!(compute_commitment(bid, nonce), expected.0);
    // Different inputs give a different commitment.
    assert_ne!(compute_commitment(bid, nonce), compute_commitment(nonce, bid));
}
