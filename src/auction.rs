//! The auction state machine: bidding, displacement of the best bid, and
//! settlement to the seller.
use vstd::prelude::*;
use vstd::utf8::encode_utf8;

use crate::account::AccountId;
use crate::amount::Amount;
use crate::hashing::{hash_poem, keccak_digest};

verus! {

/// Block numbers, the auction's clock.
pub type BlockNumber = u32;

/// Errors that can occur upon calling the auction.
#[derive(Clone, Copy, Debug, PartialEq, Eq, Structural)]
pub enum Error {
    AuctionNotActive,
    AuctionExpired,
    BidTooLow,
    TransferFailed,
    AuctionAlreadyEnded,
    AuctionStillRunning,
    SomethingWentWrong,
    UnAuthorized,
}

/// A movement of escrowed funds out of the auction, which the host performs.
#[derive(Clone, Copy, Debug, PartialEq)]
pub struct Transfer {
    pub to: AccountId,
    pub amount: Amount,
}

/// Recorded when the auction is created.
#[derive(Clone, Copy, Debug, PartialEq)]
pub struct AuctionCreated {
    pub seller: AccountId,
    /// Digest of the listed poem.
    pub poem_id: [u8; 32],
}

/// Recorded when a bid is accepted.
#[derive(Clone, Copy, Debug, PartialEq)]
pub struct BidPlaced {
    pub bidder: AccountId,
    pub amount: Amount,
}

/// Recorded when a displaced bid has been paid back.
#[derive(Clone, Copy, Debug, PartialEq)]
pub struct BidRefunded {
    pub previous_bidder: AccountId,
    pub amount: Amount,
}

/// Recorded when the auction is finalized.
#[derive(Clone, Copy, Debug, PartialEq)]
pub struct AuctionEnded {
    pub winner: Option<AccountId>,
    pub amount: Amount,
}

/// One auction of one poem.
pub struct PoetChainX {
    poem_id: [u8; 32],
    /// Seller (poet who created the auction)
    seller: AccountId,
    /// The listed poem
    poem: String,
    /// Last block at which bids are accepted
    end_block: BlockNumber,
    /// Best offer so far; zero while nobody has bid.
    highest_bid: Amount,
    /// Holder of the best offer.
    highest_bidder: Option<AccountId>,
    /// True until the auction is finalized.
    pub active: bool,
}

/// The last block of an auction created at `now` that runs for `duration`
/// blocks: their sum, or the largest block number where that overflows.
pub open spec fn end_block_of(now: BlockNumber, duration: BlockNumber) -> BlockNumber {
    if now + duration > u32::MAX {
        u32::MAX
    } else {
        (now + duration) as u32
    }
}

impl PoetChainX {
    pub closed spec fn spec_poem_id(&self) -> Seq<u8> {
        self.poem_id@
    }

    pub closed spec fn spec_seller(&self) -> AccountId {
        self.seller
    }

    pub closed spec fn spec_poem(&self) -> Seq<char> {
        self.poem@
    }

    pub closed spec fn spec_active(&self) -> bool {
        self.active
    }

    pub closed spec fn spec_end_block(&self) -> BlockNumber {
        self.end_block
    }

    pub closed spec fn spec_highest_bid(&self) -> Amount {
        self.highest_bid
    }

    pub closed spec fn spec_highest_bidder(&self) -> Option<AccountId> {
        self.highest_bidder
    }

    /// Well-formedness: someone holds the best offer exactly when it is
    /// positive, and the poem's identifier is the digest of its text.
    pub closed spec fn wf(&self) -> bool {
        &&& self.highest_bidder is Some <==> self.highest_bid@ > 0
        &&& self.poem_id@ == keccak_digest(encode_utf8(self.poem@))
    }

    /// In a well-formed auction the best offer is positive exactly when
    /// someone holds it.
    pub proof fn lemma_wf_offer(&self)
        requires
            self.wf(),
        ensures
            self.spec_highest_bidder() is Some <==> self.spec_highest_bid()@ > 0,
    {
    }

    /// The refund that accepting a new bid requires: the current best offer,
    /// back to whoever holds it.
    pub open spec fn refund_due(&self) -> Option<Transfer> {
        match self.spec_highest_bidder() {
            Some(prev) => if self.spec_highest_bid()@ > 0 {
                Some(Transfer { to: prev, amount: self.spec_highest_bid() })
            } else {
                None
            },
            None => None,
        }
    }

    /// Why a bid of `value` at block `now` is rejected before any funds move,
    /// if it is: the first failing check wins.
    pub open spec fn bid_rejection(&self, now: BlockNumber, value: nat) -> Option<Error> {
        if !self.spec_active() {
            Some(Error::AuctionNotActive)
        } else if now > self.spec_end_block() {
            Some(Error::AuctionExpired)
        } else if value <= self.spec_highest_bid()@ {
            Some(Error::BidTooLow)
        } else {
            None
        }
    }

    /// Whether `next` is this auction with the bid of `bidder` for `value`
    /// accepted: the new best offer, all else unchanged.
    pub open spec fn accepts_bid(&self, next: &PoetChainX, bidder: AccountId, value: Amount) -> bool {
        &&& next.spec_highest_bid() == value
        &&& next.spec_highest_bidder() == Some(bidder)
        &&& next.spec_poem_id() == self.spec_poem_id()
        &&& next.spec_seller() == self.spec_seller()
        &&& next.spec_poem() == self.spec_poem()
        &&& next.spec_end_block() == self.spec_end_block()
        &&& next.spec_active() == self.spec_active()
    }

    /// The payout that finalizing requires: the best offer, to the seller, if
    /// anyone has bid.
    pub open spec fn payout_due(&self) -> Option<Transfer> {
        match self.spec_highest_bidder() {
            Some(_) => Some(Transfer { to: self.spec_seller(), amount: self.spec_highest_bid() }),
            None => None,
        }
    }

    /// Why `caller` cannot finalize at block `now` before any funds move, if
    /// they cannot: the first failing check wins.
    pub open spec fn end_rejection(&self, caller: AccountId, now: BlockNumber) -> Option<Error> {
        if !self.spec_active() {
            Some(Error::AuctionAlreadyEnded)
        } else if caller != self.spec_seller() {
            Some(Error::UnAuthorized)
        } else if now <= self.spec_end_block() {
            Some(Error::AuctionStillRunning)
        } else {
            None
        }
    }

    /// Whether `next` is this auction finalized: inactive, all else unchanged.
    pub open spec fn ends_as(&self, next: &PoetChainX) -> bool {
        &&& !next.spec_active()
        &&& next.spec_highest_bid() == self.spec_highest_bid()
        &&& next.spec_highest_bidder() == self.spec_highest_bidder()
        &&& next.spec_poem_id() == self.spec_poem_id()
        &&& next.spec_seller() == self.spec_seller()
        &&& next.spec_poem() == self.spec_poem()
        &&& next.spec_end_block() == self.spec_end_block()
    }

    /// What a bid of `value` by `bidder` at block `now` returns, where
    /// `refund_sent` is whether the host paid back the displaced bid (it is
    /// read only when a refund is due).
    pub open spec fn bid_outcome(
        &self,
        bidder: AccountId,
        now: BlockNumber,
        value: Amount,
        refund_sent: bool,
    ) -> Result<(Option<BidRefunded>, BidPlaced), Error> {
        match self.bid_rejection(now, value@) {
            Some(e) => Err(e),
            None => match self.refund_due() {
                Some(t) => if refund_sent {
                    Ok((
                        Some(BidRefunded { previous_bidder: t.to, amount: t.amount }),
                        BidPlaced { bidder, amount: value },
                    ))
                } else {
                    Err(Error::TransferFailed)
                },
                None => Ok((None, BidPlaced { bidder, amount: value })),
            },
        }
    }

    /// What finalizing by `caller` at block `now` returns, where `payout_sent`
    /// is whether the host paid the best offer to the seller (it is read only
    /// when a payout is due).
    pub open spec fn end_outcome(
        &self,
        caller: AccountId,
        now: BlockNumber,
        payout_sent: bool,
    ) -> Result<AuctionEnded, Error> {
        match self.end_rejection(caller, now) {
            Some(e) => Err(e),
            None => match self.payout_due() {
                Some(t) => if payout_sent {
                    Ok(AuctionEnded { winner: self.spec_highest_bidder(), amount: t.amount })
                } else {
                    Err(Error::TransferFailed)
                },
                None => Ok(AuctionEnded { winner: None, amount: self.spec_highest_bid() }),
            },
        }
    }

    /// Creates the auction of `poem`, listed by `seller` at block `now`, open
    /// for bids through `duration` more blocks.
    pub fn new(poem: String, duration: BlockNumber, seller: AccountId, now: BlockNumber) -> (r: Self)
        ensures
            r.wf(),
            r.spec_poem_id() == keccak_digest(encode_utf8(poem@)),
            r.spec_seller() == seller,
            r.spec_poem() == poem@,
            r.spec_end_block() == end_block_of(now, duration),
            r.spec_highest_bid()@ == 0,
            r.spec_highest_bidder() is None,
            r.spec_active(),
    {
        let poem_id = hash_poem(poem.as_str().as_bytes());
        let end_block = now.saturating_add(duration);
        PoetChainX {
            poem_id,
            seller,
            poem,
            end_block,
            highest_bid: Amount::zero(),
            highest_bidder: None,
            active: true,
        }
    }

    /// The event that announces this auction.
    pub fn creation_event(&self) -> (r: AuctionCreated)
        ensures
            r.seller == self.spec_seller(),
            r.poem_id@ == self.spec_poem_id(),
    {
        AuctionCreated { seller: self.seller, poem_id: self.poem_id }
    }

    /// Checks a bid of `value` at block `now`: the refund that the host must
    /// make before the bid can be accepted, or why it is rejected.
    pub fn check_bid(&self, now: BlockNumber, value: &Amount) -> (r: Result<Option<Transfer>, Error>)
        ensures
            r == match self.bid_rejection(now, value@) {
                Some(e) => Err(e),
                None => Ok(self.refund_due()),
            },
    {
        if !self.active {
            return Err(Error::AuctionNotActive);
        }
        if now > self.end_block {
            return Err(Error::AuctionExpired);
        }
        if value.le(&self.highest_bid) {
            return Err(Error::BidTooLow);
        }
        match self.highest_bidder {
            Some(prev) => if !self.highest_bid.is_zero() {
                Ok(Some(Transfer { to: prev, amount: self.highest_bid }))
            } else {
                Ok(None)
            },
            None => Ok(None),
        }
    }

    /// Places a bid of `value` by `bidder` at block `now`. Where a bid is
    /// displaced, `refund_sent` tells whether the host has paid it back (see
    /// [`Self::check_bid`]); without that refund nothing changes. Returns the
    /// refund and the bid to record.
    pub fn bid(&mut self, bidder: AccountId, now: BlockNumber, value: Amount, refund_sent: bool)
        -> (r: Result<(Option<BidRefunded>, BidPlaced), Error>)
        requires
            old(self).wf(),
        ensures
            final(self).wf(),
            r == old(self).bid_outcome(bidder, now, value, refund_sent),
            r is Ok ==> old(self).accepts_bid(&*final(self), bidder, value),
            r is Err ==> *final(self) == *old(self),
    {
        let refunded = match self.check_bid(now, &value) {
            Err(e) => return Err(e),
            Ok(None) => None,
            Ok(Some(refund)) => {
                if !refund_sent {
                    return Err(Error::TransferFailed);
                }
                Some(BidRefunded { previous_bidder: refund.to, amount: refund.amount })
            },
        };
        self.highest_bid = value;
        self.highest_bidder = Some(bidder);
        Ok((refunded, BidPlaced { bidder, amount: value }))
    }

    /// Checks finalization by `caller` at block `now`: the payout that the
    /// host must make to the seller, or why it is refused.
    pub fn check_end(&self, caller: &AccountId, now: BlockNumber) -> (r: Result<Option<Transfer>, Error>)
        ensures
            r == match self.end_rejection(*caller, now) {
                Some(e) => Err(e),
                None => Ok(self.payout_due()),
            },
    {
        if !self.active {
            return Err(Error::AuctionAlreadyEnded);
        }
        if !self.seller.same_as(caller) {
            return Err(Error::UnAuthorized);
        }
        if now <= self.end_block {
            return Err(Error::AuctionStillRunning);
        }
        match self.highest_bidder {
            Some(_) => Ok(Some(Transfer { to: self.seller, amount: self.highest_bid })),
            None => Ok(None),
        }
    }

    /// Finalizes the auction by `caller` at block `now`. Where a bid was
    /// placed, `payout_sent` tells whether the host has paid it to the seller
    /// (see [`Self::check_end`]); without that payout nothing changes.
    /// Returns the event to record.
    pub fn end_auction(&mut self, caller: AccountId, now: BlockNumber, payout_sent: bool)
        -> (r: Result<AuctionEnded, Error>)
        requires
            old(self).wf(),
        ensures
            final(self).wf(),
            r == old(self).end_outcome(caller, now, payout_sent),
            r is Ok ==> old(self).ends_as(&*final(self)),
            r is Err ==> *final(self) == *old(self),
    {
        let ended = match self.check_end(&caller, now) {
            Err(e) => return Err(e),
            Ok(None) => AuctionEnded { winner: None, amount: self.highest_bid },
            Ok(Some(payout)) => {
                if !payout_sent {
                    return Err(Error::TransferFailed);
                }
                AuctionEnded { winner: self.highest_bidder, amount: payout.amount }
            },
        };
        self.active = false;
        Ok(ended)
    }

    /// The current block, the last block for bids, and whether the auction is
    /// still open.
    pub fn get_auction_info(&self, now: BlockNumber) -> (r: (BlockNumber, BlockNumber, bool))
        ensures
            r == (now, self.spec_end_block(), self.spec_active()),
    {
        (now, self.end_block, self.active)
    }

    /// The listed poem.
    pub fn get_poem(&self) -> (r: String)
        ensures
            r@ == self.spec_poem(),
    {
        self.poem.clone()
    }

    /// The holder of the best offer, and the offer.
    pub fn get_winner(&self) -> (r: (Option<AccountId>, Amount))
        ensures
            r == (self.spec_highest_bidder(), self.spec_highest_bid()),
    {
        (self.highest_bidder, self.highest_bid)
    }

    /// The seller.
    pub fn get_seller(&self) -> (r: AccountId)
        ensures
            r == self.spec_seller(),
    {
        self.seller
    }

    /// The digest that identifies the poem.
    pub fn get_poem_id(&self) -> (r: [u8; 32])
        ensures
            r@ == self.spec_poem_id(),
    {
        self.poem_id
    }
}

} // verus!
