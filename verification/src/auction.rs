//! The sealed-bid auction state machine.
//!
//! The auction holds a configuration, a status, and four per-address ledgers
//! (commitment, deposit, revealed-flag, refund). Each public operation takes
//! the values the surrounding environment supplies per call — the current
//! time, the caller's address, the attached value, and the observed outcome
//! of any external transfer — and is verified for every such value.
//!
//! Addresses are modelled as `u128` values with `0` meaning "no address";
//! amounts, times and token identifiers are `u128` values.

use std::collections::HashMap;
use vstd::prelude::*;
use crate::hashing::{zero_hash, commitment_hash};
use crate::hashing::{compute_commitment, hash_eq, hash_is_zero};

verus! {

broadcast use vstd::std_specs::hash::group_hash_axioms;

/// The closed set of failures an auction operation can report.
#[derive(Clone, Copy, Debug, PartialEq, Eq, Structural)]
pub enum SealedBidError {
    NotOwner,
    AuctionNotActive,
    AuctionAlreadyFinalized,
    InvalidDuration,
    ZeroAddress,
    NotApproved,
    NotNFTOwner,
    InvalidCommit,
    RevealNotOpen,
    CommitPhaseOver,
    NoDeposit,
    PaymentFailed,
    NFTTransferFailed,
    OnlySeller,
    AlreadyCommitted,
    AlreadyRevealed,
    AuctionNotEnded,
    NothingToWithdraw,
}

/// A single-item sealed-bid auction with commit-reveal bidding and a
/// pull-based refund ledger.
pub struct SealedBidAuction {
    seller: u128,
    nft_contract: u128,
    token_id: u128,
    reserve_price: u128,
    min_deposit: u128,
    start_time: u128,
    commit_end: u128,
    reveal_end: u128,
    finalized: bool,
    highest_bidder: u128,
    highest_bid: u128,
    commitments: HashMap<u128, [u8; 32]>,
    deposits: HashMap<u128, u128>,
    revealed: HashMap<u128, bool>,
    refunds: HashMap<u128, u128>,
}

impl SealedBidAuction {
    pub closed spec fn spec_seller(self) -> u128 {
        self.seller
    }

    pub closed spec fn spec_nft_contract(self) -> u128 {
        self.nft_contract
    }

    pub closed spec fn spec_token_id(self) -> u128 {
        self.token_id
    }

    pub closed spec fn spec_reserve_price(self) -> u128 {
        self.reserve_price
    }

    pub closed spec fn spec_min_deposit(self) -> u128 {
        self.min_deposit
    }

    pub closed spec fn spec_start_time(self) -> u128 {
        self.start_time
    }

    pub closed spec fn spec_commit_end(self) -> u128 {
        self.commit_end
    }

    pub closed spec fn spec_reveal_end(self) -> u128 {
        self.reveal_end
    }

    pub closed spec fn spec_finalized(self) -> bool {
        self.finalized
    }

    pub closed spec fn spec_highest_bidder(self) -> u128 {
        self.highest_bidder
    }

    pub closed spec fn spec_highest_bid(self) -> u128 {
        self.highest_bid
    }

    /// The commitment stored for `a`; the all-zero word when none is stored.
    pub closed spec fn commitment_of(self, a: u128) -> Seq<u8> {
        if self.commitments@.contains_key(a) {
            self.commitments@[a]@
        } else {
            zero_hash()
        }
    }

    /// The cumulative deposit `a` has posted.
    pub closed spec fn deposit_of(self, a: u128) -> u128 {
        if self.deposits@.contains_key(a) {
            self.deposits@[a]
        } else {
            0
        }
    }

    /// Whether `a` has already revealed.
    pub closed spec fn revealed_of(self, a: u128) -> bool {
        self.revealed@.contains_key(a) && self.revealed@[a]
    }

    /// The withdrawable refund balance of `a`.
    pub closed spec fn spec_refund_of(self, a: u128) -> u128 {
        if self.refunds@.contains_key(a) {
            self.refunds@[a]
        } else {
            0
        }
    }

    /// The configuration fields agree between the two states.
    pub open spec fn same_config(pre: Self, post: Self) -> bool {
        &&& post.spec_seller() == pre.spec_seller()
        &&& post.spec_nft_contract() == pre.spec_nft_contract()
        &&& post.spec_token_id() == pre.spec_token_id()
        &&& post.spec_reserve_price() == pre.spec_reserve_price()
        &&& post.spec_min_deposit() == pre.spec_min_deposit()
        &&& post.spec_start_time() == pre.spec_start_time()
        &&& post.spec_commit_end() == pre.spec_commit_end()
        &&& post.spec_reveal_end() == pre.spec_reveal_end()
    }

    /// The status fields agree between the two states.
    pub open spec fn same_status(pre: Self, post: Self) -> bool {
        &&& post.spec_finalized() == pre.spec_finalized()
        &&& post.spec_highest_bidder() == pre.spec_highest_bidder()
        &&& post.spec_highest_bid() == pre.spec_highest_bid()
    }

    pub open spec fn same_commitments(pre: Self, post: Self) -> bool {
        forall|a: u128| post.commitment_of(a) == pre.commitment_of(a)
    }

    pub open spec fn same_deposits(pre: Self, post: Self) -> bool {
        forall|a: u128| post.deposit_of(a) == pre.deposit_of(a)
    }

    pub open spec fn same_revealed(pre: Self, post: Self) -> bool {
        forall|a: u128| post.revealed_of(a) == pre.revealed_of(a)
    }

    pub open spec fn same_refunds(pre: Self, post: Self) -> bool {
        forall|a: u128| post.spec_refund_of(a) == pre.spec_refund_of(a)
    }

    /// No observable difference between the two states.
    pub open spec fn unchanged_state(pre: Self, post: Self) -> bool {
        &&& Self::same_config(pre, post)
        &&& Self::same_status(pre, post)
        &&& Self::same_commitments(pre, post)
        &&& Self::same_deposits(pre, post)
        &&& Self::same_revealed(pre, post)
        &&& Self::same_refunds(pre, post)
    }

    fn get_deposit(&self, a: u128) -> (r: u128)
        ensures
            r == self.deposit_of(a),
    {
        match self.deposits.get(&a) {
            Some(v) => *v,
            None => 0,
        }
    }

    fn get_refund(&self, a: u128) -> (r: u128)
        ensures
            r == self.spec_refund_of(a),
    {
        match self.refunds.get(&a) {
            Some(v) => *v,
            None => 0,
        }
    }

    fn get_revealed(&self, a: u128) -> (r: bool)
        ensures
            r == self.revealed_of(a),
    {
        match self.revealed.get(&a) {
            Some(v) => *v,
            None => false,
        }
    }

    /// Exactly how a commit call answers and changes the state.
    ///
    /// Before `commit_end`, a non-zero commitment from a caller who either
    /// attaches at least the minimum deposit or already holds one is stored
    /// (overwriting any prior commitment), and the attached value is added to
    /// the caller's cumulative deposit. Every rejection leaves the state
    /// unchanged.
    pub open spec fn commit_post(
        pre: Self,
        post: Self,
        sender: u128,
        value: u128,
        now: u128,
        commitment: Seq<u8>,
        r: Result<(), SealedBidError>,
    ) -> bool {
        if now >= pre.spec_commit_end() {
            r == Err::<(), SealedBidError>(SealedBidError::CommitPhaseOver)
                && Self::unchanged_state(pre, post)
        } else if commitment == zero_hash() {
            r == Err::<(), SealedBidError>(SealedBidError::InvalidCommit)
                && Self::unchanged_state(pre, post)
        } else if value < pre.spec_min_deposit() && pre.deposit_of(sender) == 0 {
            r == Err::<(), SealedBidError>(SealedBidError::NoDeposit)
                && Self::unchanged_state(pre, post)
        } else {
            &&& r == Ok::<(), SealedBidError>(())
            &&& post.commitment_of(sender) == commitment
            &&& post.deposit_of(sender) == pre.deposit_of(sender) + value
            &&& forall|a: u128| a != sender ==> post.commitment_of(a) == pre.commitment_of(a)
            &&& forall|a: u128| a != sender ==> post.deposit_of(a) == pre.deposit_of(a)
            &&& Self::same_config(pre, post)
            &&& Self::same_status(pre, post)
            &&& Self::same_revealed(pre, post)
            &&& Self::same_refunds(pre, post)
        }
    }

    /// Records a bid commitment together with the attached value transfer.
    ///
    /// `sender`, `value` and `now` are the caller's address, the attached
    /// value and the current time, as the environment supplies them.
    pub fn commit(&mut self, sender: u128, value: u128, now: u128, commitment: [u8; 32]) -> (r:
        Result<(), SealedBidError>)
        requires
            old(self).deposit_of(sender) + value <= u128::MAX,
        ensures
            Self::commit_post(*old(self), *final(self), sender, value, now, commitment@, r),
    {
        if now >= self.commit_end {
            return Err(SealedBidError::CommitPhaseOver);
        }
        if hash_is_zero(&commitment) {
            return Err(SealedBidError::InvalidCommit);
        }
        let prev_deposit: u128 = self.get_deposit(sender);
        if value < self.min_deposit && prev_deposit == 0 {
            return Err(SealedBidError::NoDeposit);
        }
        self.commitments.insert(sender, commitment);
        if value > 0 {
            self.deposits.insert(sender, prev_deposit + value);
        }
        Ok(())
    }

    /// The caller's `revealed` flag flips to true; nothing else changes.
    /// This is the deliberate forfeiture on an invalid or under-funded
    /// reveal: retries are blocked while the deposit stays in the contract.
    pub open spec fn forfeit_marked(pre: Self, post: Self, sender: u128) -> bool {
        &&& post.revealed_of(sender)
        &&& forall|a: u128| a != sender ==> post.revealed_of(a) == pre.revealed_of(a)
        &&& Self::same_config(pre, post)
        &&& Self::same_status(pre, post)
        &&& Self::same_commitments(pre, post)
        &&& Self::same_deposits(pre, post)
        &&& Self::same_refunds(pre, post)
    }

    /// `sender` becomes the highest bidder with `bid`; the previous leader,
    /// if any, has their old bid plus their whole deposit credited to their
    /// refund balance.
    pub open spec fn lead_taken(pre: Self, post: Self, sender: u128, bid: u128) -> bool {
        &&& post.revealed_of(sender)
        &&& forall|a: u128| a != sender ==> post.revealed_of(a) == pre.revealed_of(a)
        &&& Self::same_config(pre, post)
        &&& Self::same_commitments(pre, post)
        &&& Self::same_deposits(pre, post)
        &&& post.spec_finalized() == pre.spec_finalized()
        &&& post.spec_highest_bid() == bid
        &&& post.spec_highest_bidder() == sender
        &&& if pre.spec_highest_bidder() != 0 {
            &&& post.spec_refund_of(pre.spec_highest_bidder()) == pre.spec_refund_of(
                pre.spec_highest_bidder(),
            ) + pre.spec_highest_bid() + pre.deposit_of(pre.spec_highest_bidder())
            &&& forall|a: u128|
                a != pre.spec_highest_bidder() ==> post.spec_refund_of(a) == pre.spec_refund_of(a)
        } else {
            Self::same_refunds(pre, post)
        }
    }

    /// A revealed bid that does not beat the current highest: the bid plus
    /// the caller's whole deposit is credited to the caller's refund balance
    /// at once.
    pub open spec fn bid_returned(pre: Self, post: Self, sender: u128, bid: u128) -> bool {
        &&& post.revealed_of(sender)
        &&& forall|a: u128| a != sender ==> post.revealed_of(a) == pre.revealed_of(a)
        &&& Self::same_config(pre, post)
        &&& Self::same_status(pre, post)
        &&& Self::same_commitments(pre, post)
        &&& Self::same_deposits(pre, post)
        &&& post.spec_refund_of(sender) == pre.spec_refund_of(sender) + bid + pre.deposit_of(
            sender,
        )
        &&& forall|a: u128| a != sender ==> post.spec_refund_of(a) == pre.spec_refund_of(a)
    }

    /// Exactly how a reveal call answers and changes the state.
    ///
    /// Inside the reveal window, a caller who has not revealed yet and holds
    /// a commitment is checked against the recomputed commitment hash of
    /// `(bid, nonce)`. A mismatch or an under-funded deposit forfeits (the
    /// flag flips, the call fails); a match either takes the lead or credits
    /// the bid and deposit back as a refund. Phase and repeat rejections
    /// leave the state unchanged.
    pub open spec fn reveal_post(
        pre: Self,
        post: Self,
        sender: u128,
        now: u128,
        bid: u128,
        nonce: u128,
        r: Result<(), SealedBidError>,
    ) -> bool {
        if now <= pre.spec_commit_end() {
            r == Err::<(), SealedBidError>(SealedBidError::RevealNotOpen)
                && Self::unchanged_state(pre, post)
        } else if now >= pre.spec_reveal_end() {
            r == Err::<(), SealedBidError>(SealedBidError::AuctionNotEnded)
                && Self::unchanged_state(pre, post)
        } else if pre.revealed_of(sender) {
            r == Err::<(), SealedBidError>(SealedBidError::AlreadyRevealed)
                && Self::unchanged_state(pre, post)
        } else if pre.commitment_of(sender) == zero_hash() {
            r == Err::<(), SealedBidError>(SealedBidError::InvalidCommit)
                && Self::unchanged_state(pre, post)
        } else if pre.commitment_of(sender) != commitment_hash(bid, nonce) {
            r == Err::<(), SealedBidError>(SealedBidError::InvalidCommit)
                && Self::forfeit_marked(pre, post, sender)
        } else if pre.deposit_of(sender) < pre.spec_min_deposit() {
            r == Err::<(), SealedBidError>(SealedBidError::NoDeposit)
                && Self::forfeit_marked(pre, post, sender)
        } else if bid > pre.spec_highest_bid() {
            r == Ok::<(), SealedBidError>(()) && Self::lead_taken(pre, post, sender, bid)
        } else {
            r == Ok::<(), SealedBidError>(()) && Self::bid_returned(pre, post, sender, bid)
        }
    }

    /// Reveals a previously committed bid.
    ///
    /// `sender` and `now` are the caller's address and the current time, as
    /// the environment supplies them.
    pub fn reveal_bid(&mut self, sender: u128, now: u128, bid: u128, nonce: u128) -> (r: Result<
        (),
        SealedBidError,
    >)
        requires
            old(self).spec_refund_of(sender) + bid + old(self).deposit_of(sender) <= u128::MAX,
            old(self).spec_highest_bidder() != 0 ==> old(self).spec_refund_of(
                old(self).spec_highest_bidder(),
            ) + old(self).spec_highest_bid() + old(self).deposit_of(old(self).spec_highest_bidder())
                <= u128::MAX,
        ensures
            Self::reveal_post(*old(self), *final(self), sender, now, bid, nonce, r),
    {
        if now <= self.commit_end {
            return Err(SealedBidError::RevealNotOpen);
        }
        if now >= self.reveal_end {
            return Err(SealedBidError::AuctionNotEnded);
        }
        if self.get_revealed(sender) {
            return Err(SealedBidError::AlreadyRevealed);
        }
        let stored: [u8; 32] = match self.commitments.get(&sender) {
            Some(h) => *h,
            None => {
                return Err(SealedBidError::InvalidCommit);
            },
        };
        if hash_is_zero(&stored) {
            return Err(SealedBidError::InvalidCommit);
        }
        let computed: [u8; 32] = compute_commitment(bid, nonce);
        if !hash_eq(&computed, &stored) {
            self.revealed.insert(sender, true);
            return Err(SealedBidError::InvalidCommit);
        }
        self.revealed.insert(sender, true);
        let depos: u128 = self.get_deposit(sender);
        if depos < self.min_deposit {
            return Err(SealedBidError::NoDeposit);
        }
        if bid > self.highest_bid {
            let prev_high: u128 = self.highest_bidder;
            if prev_high != 0 {
                let prev_ref: u128 = self.get_refund(prev_high);
                let prev_deposit: u128 = self.get_deposit(prev_high);
                self.refunds.insert(prev_high, prev_ref + self.highest_bid + prev_deposit);
            }
            self.highest_bid = bid;
            self.highest_bidder = sender;
            Ok(())
        } else {
            let prior: u128 = self.get_refund(sender);
            self.refunds.insert(sender, prior + bid + depos);
            Ok(())
        }
    }

    /// How a payment transfer attempt answers, given the observed outcome
    /// `ok` of the underlying value transfer: a zero payee or a zero amount
    /// is refused before any transfer is attempted.
    pub open spec fn payment_outcome(to: u128, amount: u128, ok: bool) -> Result<
        (),
        SealedBidError,
    > {
        if to == 0 {
            Err(SealedBidError::ZeroAddress)
        } else if amount == 0 {
            Err(SealedBidError::PaymentFailed)
        } else if !ok {
            Err(SealedBidError::PaymentFailed)
        } else {
            Ok(())
        }
    }

    /// Decides the result of the asset-transfer step from the observed
    /// outcome of the external asset registry call.
    fn transfer_nft(ok: bool) -> (r: Result<(), SealedBidError>)
        ensures
            r == if ok {
                Ok::<(), SealedBidError>(())
            } else {
                Err::<(), SealedBidError>(SealedBidError::NFTTransferFailed)
            },
    {
        if ok {
            Ok(())
        } else {
            Err(SealedBidError::NFTTransferFailed)
        }
    }

    /// Decides the result of a payment step from the observed outcome of the
    /// external value transfer.
    fn transfer_payment(to: u128, amount: u128, ok: bool) -> (r: Result<(), SealedBidError>)
        ensures
            r == Self::payment_outcome(to, amount, ok),
    {
        if to == 0 {
            return Err(SealedBidError::ZeroAddress);
        }
        if amount == 0 {
            return Err(SealedBidError::PaymentFailed);
        }
        if !ok {
            return Err(SealedBidError::PaymentFailed);
        }
        Ok(())
    }

    /// Settlement is owed: there is a highest bidder and the highest bid
    /// meets the reserve price.
    pub open spec fn settlement_due(self) -> bool {
        self.spec_highest_bidder() != 0 && self.spec_highest_bid() >= self.spec_reserve_price()
    }

    /// The auction is marked finalized and the winner's deposit is credited
    /// to the winner's refund balance; all other ledgers and fields keep
    /// their values.
    pub open spec fn settled(pre: Self, post: Self) -> bool {
        &&& post.spec_finalized()
        &&& post.spec_highest_bidder() == pre.spec_highest_bidder()
        &&& post.spec_highest_bid() == pre.spec_highest_bid()
        &&& Self::same_config(pre, post)
        &&& Self::same_commitments(pre, post)
        &&& Self::same_deposits(pre, post)
        &&& Self::same_revealed(pre, post)
        &&& post.spec_refund_of(pre.spec_highest_bidder()) == pre.spec_refund_of(
            pre.spec_highest_bidder(),
        ) + pre.deposit_of(pre.spec_highest_bidder())
        &&& forall|a: u128|
            a != pre.spec_highest_bidder() ==> post.spec_refund_of(a) == pre.spec_refund_of(a)
    }

    /// The auction is marked finalized with no settlement; nothing else
    /// changes.
    pub open spec fn closed_without_sale(pre: Self, post: Self) -> bool {
        &&& post.spec_finalized()
        &&& post.spec_highest_bidder() == pre.spec_highest_bidder()
        &&& post.spec_highest_bid() == pre.spec_highest_bid()
        &&& Self::same_config(pre, post)
        &&& Self::same_commitments(pre, post)
        &&& Self::same_deposits(pre, post)
        &&& Self::same_revealed(pre, post)
        &&& Self::same_refunds(pre, post)
    }

    /// Exactly how a finalize call answers and changes the state, given the
    /// observed outcomes of the external asset transfer (`nft_ok`) and of
    /// the payment to the seller (`pay_ok`).
    pub open spec fn finalize_post(
        pre: Self,
        post: Self,
        now: u128,
        nft_ok: bool,
        pay_ok: bool,
        r: Result<(), SealedBidError>,
    ) -> bool {
        if now < pre.spec_reveal_end() {
            r == Err::<(), SealedBidError>(SealedBidError::AuctionNotEnded)
                && Self::unchanged_state(pre, post)
        } else if pre.spec_finalized() {
            r == Err::<(), SealedBidError>(SealedBidError::AuctionAlreadyFinalized)
                && Self::unchanged_state(pre, post)
        } else if pre.settlement_due() {
            if !nft_ok {
                r == Err::<(), SealedBidError>(SealedBidError::NFTTransferFailed)
                    && Self::unchanged_state(pre, post)
            } else if pre.spec_highest_bid() > 0 && Self::payment_outcome(
                pre.spec_seller(),
                pre.spec_highest_bid(),
                pay_ok,
            ) is Err {
                r == Err::<(), SealedBidError>(
                    Self::payment_outcome(
                        pre.spec_seller(),
                        pre.spec_highest_bid(),
                        pay_ok,
                    )->Err_0,
                ) && Self::unchanged_state(pre, post)
            } else {
                r == Ok::<(), SealedBidError>(()) && Self::settled(pre, post)
            }
        } else {
            r == Ok::<(), SealedBidError>(()) && Self::closed_without_sale(pre, post)
        }
    }

    /// Finalizes the auction once the reveal phase is over.
    ///
    /// `nft_transfer_ok` and `payment_ok` are the observed outcomes of the
    /// external asset transfer and of the payment to the seller; they are
    /// consulted only where the decision requires those steps. The status is
    /// marked finalized only after every required step succeeded.
    pub fn finalize(&mut self, now: u128, nft_transfer_ok: bool, payment_ok: bool) -> (r: Result<
        (),
        SealedBidError,
    >)
        requires
            old(self).spec_highest_bidder() != 0 ==> old(self).spec_refund_of(
                old(self).spec_highest_bidder(),
            ) + old(self).deposit_of(old(self).spec_highest_bidder()) <= u128::MAX,
        ensures
            Self::finalize_post(*old(self), *final(self), now, nft_transfer_ok, payment_ok, r),
    {
        if now < self.reveal_end {
            return Err(SealedBidError::AuctionNotEnded);
        }
        if self.finalized {
            return Err(SealedBidError::AuctionAlreadyFinalized);
        }
        let seller: u128 = self.seller;
        let winner: u128 = self.highest_bidder;
        let winning_bid: u128 = self.highest_bid;
        let reserve: u128 = self.reserve_price;
        if winner != 0 && winning_bid >= reserve {
            match Self::transfer_nft(nft_transfer_ok) {
                Ok(()) => {},
                Err(e) => {
                    return Err(e);
                },
            }
            if winning_bid > 0 {
                match Self::transfer_payment(seller, winning_bid, payment_ok) {
                    Ok(()) => {},
                    Err(e) => {
                        return Err(e);
                    },
                }
            }
            let winner_deposit: u128 = self.get_deposit(winner);
            if winner_deposit > 0 {
                let prior: u128 = self.get_refund(winner);
                self.refunds.insert(winner, prior + winner_deposit);
            }
        }
        self.finalized = true;
        Ok(())
    }

    /// Exactly how a withdrawal answers and changes the state, given the
    /// observed outcome `transfer_ok` of the payment to the caller: a
    /// successful withdrawal zeroes the balance; a failed transfer leaves
    /// the balance exactly at its pre-call value.
    pub open spec fn withdraw_post(
        pre: Self,
        post: Self,
        caller: u128,
        transfer_ok: bool,
        r: Result<(), SealedBidError>,
    ) -> bool {
        if pre.spec_refund_of(caller) == 0 {
            r == Err::<(), SealedBidError>(SealedBidError::NothingToWithdraw)
                && Self::unchanged_state(pre, post)
        } else if !transfer_ok {
            r == Err::<(), SealedBidError>(SealedBidError::PaymentFailed)
                && Self::unchanged_state(pre, post)
        } else {
            &&& r == Ok::<(), SealedBidError>(())
            &&& post.spec_refund_of(caller) == 0
            &&& forall|a: u128| a != caller ==> post.spec_refund_of(a) == pre.spec_refund_of(a)
            &&& Self::same_config(pre, post)
            &&& Self::same_status(pre, post)
            &&& Self::same_commitments(pre, post)
            &&& Self::same_deposits(pre, post)
            &&& Self::same_revealed(pre, post)
        }
    }

    /// Withdraws the caller's whole refund balance.
    ///
    /// The balance is cleared before the payment is attempted and restored
    /// when the transfer fails, so a failed call leaves it exactly at its
    /// pre-call value.
    pub fn withdraw_refund(&mut self, caller: u128, transfer_ok: bool) -> (r: Result<
        (),
        SealedBidError,
    >)
        ensures
            Self::withdraw_post(*old(self), *final(self), caller, transfer_ok, r),
    {
        let amount: u128 = self.get_refund(caller);
        if amount == 0 {
            return Err(SealedBidError::NothingToWithdraw);
        }
        self.refunds.insert(caller, 0);
        if !transfer_ok {
            let prior: u128 = self.get_refund(caller);
            self.refunds.insert(caller, prior + amount);
            return Err(SealedBidError::PaymentFailed);
        }
        Ok(())
    }

    /// Exactly how a cancel call answers and changes the state: only the
    /// seller may cancel, only before finalization, and cancelling marks the
    /// auction finalized with no settlement.
    pub open spec fn cancel_post(
        pre: Self,
        post: Self,
        sender: u128,
        r: Result<(), SealedBidError>,
    ) -> bool {
        if sender != pre.spec_seller() {
            r == Err::<(), SealedBidError>(SealedBidError::OnlySeller)
                && Self::unchanged_state(pre, post)
        } else if pre.spec_finalized() {
            r == Err::<(), SealedBidError>(SealedBidError::AuctionAlreadyFinalized)
                && Self::unchanged_state(pre, post)
        } else {
            r == Ok::<(), SealedBidError>(()) && Self::closed_without_sale(pre, post)
        }
    }

    /// Lets the seller stop the auction early: no asset moves, no payment is
    /// made, and refunds already credited stay withdrawable.
    pub fn cancel_auction(&mut self, sender: u128) -> (r: Result<(), SealedBidError>)
        ensures
            Self::cancel_post(*old(self), *final(self), sender, r),
    {
        if sender != self.seller {
            return Err(SealedBidError::OnlySeller);
        }
        if self.finalized {
            return Err(SealedBidError::AuctionAlreadyFinalized);
        }
        self.finalized = true;
        Ok(())
    }

    /// The one-time authorization decision at initialization, from the
    /// answers of the external asset registry: the registered owner must be
    /// the seller, and either the single-token approval or the blanket
    /// operator approval must authorize this contract. A failed query counts
    /// as a definite negative.
    pub open spec fn authorization_outcome(
        seller: u128,
        nft_owner: Option<u128>,
        approved: Option<u128>,
        approved_for_all: Option<bool>,
        contract_address: u128,
    ) -> Result<(), SealedBidError> {
        match nft_owner {
            None => Err(SealedBidError::NFTTransferFailed),
            Some(owner) => if owner != seller {
                Err(SealedBidError::NotNFTOwner)
            } else if approved != Some(contract_address) && approved_for_all != Some(true) {
                Err(SealedBidError::NotApproved)
            } else {
                Ok(())
            },
        }
    }

    /// Checks that the seller owns the asset and that this contract is
    /// authorized to transfer it, from the answers of the external asset
    /// registry (`None` where the query itself failed).
    pub fn verify_nft_authorization(
        seller: u128,
        nft_owner: Option<u128>,
        approved: Option<u128>,
        approved_for_all: Option<bool>,
        contract_address: u128,
    ) -> (r: Result<(), SealedBidError>)
        ensures
            r == Self::authorization_outcome(
                seller,
                nft_owner,
                approved,
                approved_for_all,
                contract_address,
            ),
    {
        match nft_owner {
            None => Err(SealedBidError::NFTTransferFailed),
            Some(owner) => {
                if owner != seller {
                    return Err(SealedBidError::NotNFTOwner);
                }
                let is_approved: bool = match approved {
                    Some(a) => a == contract_address,
                    None => false,
                };
                let is_approved_for_all: bool = match approved_for_all {
                    Some(b) => b,
                    None => false,
                };
                if !is_approved && !is_approved_for_all {
                    return Err(SealedBidError::NotApproved);
                }
                Ok(())
            },
        }
    }

    /// Exactly how initialization answers and changes the state: argument
    /// validation first, then the authorization check; any failure leaves
    /// the state unchanged, and success installs the configuration with
    /// `commit_end = now + commit_duration` and `reveal_end = commit_end +
    /// reveal_duration` and a fresh not-finalized status.
    pub open spec fn init_post(
        pre: Self,
        post: Self,
        seller: u128,
        nft_contract: u128,
        token_id: u128,
        reserve_price: u128,
        commit_duration: u128,
        reveal_duration: u128,
        min_deposit: u128,
        now: u128,
        nft_owner: Option<u128>,
        approved: Option<u128>,
        approved_for_all: Option<bool>,
        contract_address: u128,
        r: Result<(), SealedBidError>,
    ) -> bool {
        if seller == 0 || nft_contract == 0 {
            r == Err::<(), SealedBidError>(SealedBidError::ZeroAddress)
                && Self::unchanged_state(pre, post)
        } else if commit_duration == 0 || reveal_duration == 0 {
            r == Err::<(), SealedBidError>(SealedBidError::InvalidDuration)
                && Self::unchanged_state(pre, post)
        } else if min_deposit == 0 {
            r == Err::<(), SealedBidError>(SealedBidError::InvalidCommit)
                && Self::unchanged_state(pre, post)
        } else if Self::authorization_outcome(
            seller,
            nft_owner,
            approved,
            approved_for_all,
            contract_address,
        ) is Err {
            r == Err::<(), SealedBidError>(
                Self::authorization_outcome(
                    seller,
                    nft_owner,
                    approved,
                    approved_for_all,
                    contract_address,
                )->Err_0,
            ) && Self::unchanged_state(pre, post)
        } else {
            &&& r == Ok::<(), SealedBidError>(())
            &&& post.spec_seller() == seller
            &&& post.spec_nft_contract() == nft_contract
            &&& post.spec_token_id() == token_id
            &&& post.spec_reserve_price() == reserve_price
            &&& post.spec_min_deposit() == min_deposit
            &&& post.spec_start_time() == now
            &&& post.spec_commit_end() == now + commit_duration
            &&& post.spec_reveal_end() == now + commit_duration + reveal_duration
            &&& !post.spec_finalized()
            &&& post.spec_highest_bidder() == 0
            &&& post.spec_highest_bid() == 0
            &&& Self::same_commitments(pre, post)
            &&& Self::same_deposits(pre, post)
            &&& Self::same_revealed(pre, post)
            &&& Self::same_refunds(pre, post)
        }
    }

    /// Initializes the auction, once, after construction.
    ///
    /// `now` is the current time and `contract_address` this contract's own
    /// address; `nft_owner`, `approved` and `approved_for_all` are the asset
    /// registry's answers about the asset (`None` where the query failed).
    /// If any check fails, the auction must not be considered live.
    pub fn new(
        &mut self,
        seller: u128,
        nft_contract: u128,
        token_id: u128,
        reserve_price: u128,
        commit_duration: u128,
        reveal_duration: u128,
        min_deposit: u128,
        now: u128,
        nft_owner: Option<u128>,
        approved: Option<u128>,
        approved_for_all: Option<bool>,
        contract_address: u128,
    ) -> (r: Result<(), SealedBidError>)
        requires
            now + commit_duration + reveal_duration <= u128::MAX,
        ensures
            Self::init_post(
                *old(self),
                *final(self),
                seller,
                nft_contract,
                token_id,
                reserve_price,
                commit_duration,
                reveal_duration,
                min_deposit,
                now,
                nft_owner,
                approved,
                approved_for_all,
                contract_address,
                r,
            ),
    {
        if seller == 0 || nft_contract == 0 {
            return Err(SealedBidError::ZeroAddress);
        }
        if commit_duration == 0 || reveal_duration == 0 {
            return Err(SealedBidError::InvalidDuration);
        }
        if min_deposit == 0 {
            return Err(SealedBidError::InvalidCommit);
        }
        match Self::verify_nft_authorization(
            seller,
            nft_owner,
            approved,
            approved_for_all,
            contract_address,
        ) {
            Ok(()) => {},
            Err(e) => {
                return Err(e);
            },
        }
        self.seller = seller;
        self.nft_contract = nft_contract;
        self.token_id = token_id;
        self.reserve_price = reserve_price;
        self.min_deposit = min_deposit;
        self.start_time = now;
        self.commit_end = now + commit_duration;
        self.reveal_end = now + commit_duration + reveal_duration;
        self.finalized = false;
        self.highest_bidder = 0;
        self.highest_bid = 0;
        Ok(())
    }

    /// What a finalize call at time `now` would have to do: `Ok(None)` for
    /// closing without a sale, `Ok(Some((winner, amount)))` for transferring
    /// the asset to `winner` and paying `amount` to the seller, or the phase
    /// error a finalize call would report.
    pub fn finalize_plan(&self, now: u128) -> (r: Result<Option<(u128, u128)>, SealedBidError>)
        ensures
            r == if now < self.spec_reveal_end() {
                Err::<Option<(u128, u128)>, SealedBidError>(SealedBidError::AuctionNotEnded)
            } else if self.spec_finalized() {
                Err::<Option<(u128, u128)>, SealedBidError>(SealedBidError::AuctionAlreadyFinalized)
            } else if self.settlement_due() {
                Ok::<Option<(u128, u128)>, SealedBidError>(
                    Some((self.spec_highest_bidder(), self.spec_highest_bid())),
                )
            } else {
                Ok::<Option<(u128, u128)>, SealedBidError>(None)
            },
    {
        if now < self.reveal_end {
            return Err(SealedBidError::AuctionNotEnded);
        }
        if self.finalized {
            return Err(SealedBidError::AuctionAlreadyFinalized);
        }
        if self.highest_bidder != 0 && self.highest_bid >= self.reserve_price {
            Ok(Some((self.highest_bidder, self.highest_bid)))
        } else {
            Ok(None)
        }
    }

    pub fn seller(&self) -> (r: u128)
        ensures
            r == self.spec_seller(),
    {
        self.seller
    }

    pub fn nft_contract(&self) -> (r: u128)
        ensures
            r == self.spec_nft_contract(),
    {
        self.nft_contract
    }

    pub fn token_id(&self) -> (r: u128)
        ensures
            r == self.spec_token_id(),
    {
        self.token_id
    }

    pub fn reserve_price(&self) -> (r: u128)
        ensures
            r == self.spec_reserve_price(),
    {
        self.reserve_price
    }

    pub fn min_deposit(&self) -> (r: u128)
        ensures
            r == self.spec_min_deposit(),
    {
        self.min_deposit
    }

    pub fn commit_end(&self) -> (r: u128)
        ensures
            r == self.spec_commit_end(),
    {
        self.commit_end
    }

    pub fn reveal_end(&self) -> (r: u128)
        ensures
            r == self.spec_reveal_end(),
    {
        self.reveal_end
    }

    pub fn finalized(&self) -> (r: bool)
        ensures
            r == self.spec_finalized(),
    {
        self.finalized
    }

    pub fn highest_bidder(&self) -> (r: u128)
        ensures
            r == self.spec_highest_bidder(),
    {
        self.highest_bidder
    }

    pub fn highest_bid(&self) -> (r: u128)
        ensures
            r == self.spec_highest_bid(),
    {
        self.highest_bid
    }

    /// The caller-visible refundable amount of `who`.
    pub fn refund_of(&self, who: u128) -> (r: u128)
        ensures
            r == self.spec_refund_of(who),
    {
        self.get_refund(who)
    }

    /// Every configuration and status field at once: seller, asset registry
    /// address, token id, reserve price, minimum deposit, commit-phase end,
    /// reveal-phase end, finalized flag, highest bidder and highest bid.
    pub fn get_details(&self) -> (r: (
        u128,
        u128,
        u128,
        u128,
        u128,
        u128,
        u128,
        bool,
        u128,
        u128,
    ))
        ensures
            r.0 == self.spec_seller(),
            r.1 == self.spec_nft_contract(),
            r.2 == self.spec_token_id(),
            r.3 == self.spec_reserve_price(),
            r.4 == self.spec_min_deposit(),
            r.5 == self.spec_commit_end(),
            r.6 == self.spec_reveal_end(),
            r.7 == self.spec_finalized(),
            r.8 == self.spec_highest_bidder(),
            r.9 == self.spec_highest_bid(),
    {
        (
            self.seller,
            self.nft_contract,
            self.token_id,
            self.reserve_price,
            self.min_deposit,
            self.commit_end,
            self.reveal_end,
            self.finalized,
            self.highest_bidder,
            self.highest_bid,
        )
    }
}

impl Default for SealedBidAuction {
    /// A fresh, not-yet-initialized auction: every field zero, every ledger
    /// empty.
    fn default() -> (s: Self)
        ensures
            s.spec_seller() == 0,
            s.spec_nft_contract() == 0,
            s.spec_token_id() == 0,
            s.spec_reserve_price() == 0,
            s.spec_min_deposit() == 0,
            s.spec_start_time() == 0,
            s.spec_commit_end() == 0,
            s.spec_reveal_end() == 0,
            !s.spec_finalized(),
            s.spec_highest_bidder() == 0,
            s.spec_highest_bid() == 0,
            forall|a: u128| s.commitment_of(a) == zero_hash(),
            forall|a: u128| s.deposit_of(a) == 0,
            forall|a: u128| !s.revealed_of(a),
            forall|a: u128| s.spec_refund_of(a) == 0,
    {
        SealedBidAuction {
            seller: 0,
            nft_contract: 0,
            token_id: 0,
            reserve_price: 0,
            min_deposit: 0,
            start_time: 0,
            commit_end: 0,
            reveal_end: 0,
            finalized: false,
            highest_bidder: 0,
            highest_bid: 0,
            commitments: HashMap::new(),
            deposits: HashMap::new(),
            revealed: HashMap::new(),
            refunds: HashMap::new(),
        }
    }
}

} // verus!
